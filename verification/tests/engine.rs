//! Conservation-of-value checks of the embedded validation engine, run
//! against the real cryptographic backend.

use rgb_core::assignments::{AssignedSeal, AssignedState, TypedState};
use rgb_core::fungible::{
    blinding_from_bytes, one_key, ConcealedValue, FungibleState, RevealedValue,
};
use rgb_core::seal::Confidential;
use rgb_core::vm::{Embedded, EmbeddedProcedure, Metadata, SchemaConfig, FIELD_TYPE_ISSUED_SUPPLY, TRANSITION_TYPE_ISSUE};

fn seal(n: u64) -> AssignedSeal {
    AssignedSeal::Confidential(Confidential { w0: n, w1: 1, w2: 2, w3: 3 })
}

fn revealed_output(value: u64, blinding: rgb_core::fungible::BlindingFactor) -> AssignedState<FungibleState> {
    AssignedState { seal: seal(7), state: FungibleState::Revealed(RevealedValue { value, blinding }) }
}

fn supply_meta(supply: u64) -> Metadata {
    Metadata { fields: vec![(FIELD_TYPE_ISSUED_SUPPLY, supply)] }
}

fn scalar(n: u8) -> rgb_core::fungible::BlindingFactor {
    let mut bytes = vec![0u8; 32];
    bytes[31] = n;
    blinding_from_bytes(bytes).expect("small scalars are valid")
}

/// The byte encoding of the secp256k1 group order minus one: a valid
/// scalar congruent to -1.
fn minus_one() -> rgb_core::fungible::BlindingFactor {
    let bytes: [u8; 32] = [
        0xFF, 0xFF, 0xFF, 0xFF, 0xFF, 0xFF, 0xFF, 0xFF, 0xFF, 0xFF, 0xFF, 0xFF, 0xFF, 0xFF, 0xFF,
        0xFE, 0xBA, 0xAE, 0xDC, 0xE6, 0xAF, 0x48, 0xA0, 0x3B, 0xBF, 0xD2, 0x5E, 0x8C, 0xD0, 0x36,
        0x41, 0x40,
    ];
    blinding_from_bytes(bytes.to_vec()).expect("n - 1 is a valid scalar")
}

fn run(engine: &mut Embedded) -> u8 {
    engine.execute(EmbeddedProcedure::FungibleNoInflation);
    *engine.stack().last().expect("one outcome code is pushed")
}

#[test]
fn genesis_single_output_conserves() {
    let curr = TypedState::Fungible(vec![revealed_output(1000, one_key())]);
    let mut vm = Embedded::with(None, None, Some(curr), supply_meta(1000));
    assert_eq!(run(&mut vm), 0);
}

#[test]
fn genesis_amount_mismatch_fails_with_3() {
    // The output conceals 900 self-consistently while 1000 is declared.
    let curr = TypedState::Fungible(vec![revealed_output(900, one_key())]);
    let mut vm = Embedded::with(None, None, Some(curr), supply_meta(1000));
    assert_eq!(run(&mut vm), 3);
}

#[test]
fn genesis_multi_output_blindings_balance() {
    // 400 + 600 = 1000, blinded by 2 and -1: the blindings sum to the
    // fixed one-key blinding of the reference commitment.
    let curr = TypedState::Fungible(vec![
        revealed_output(400, scalar(2)),
        revealed_output(600, minus_one()),
    ]);
    let mut vm = Embedded::with(None, None, Some(curr), supply_meta(1000));
    assert_eq!(run(&mut vm), 0);
}

#[test]
fn genesis_missing_current_state_fails_with_6() {
    let mut vm = Embedded::with(None, None, None, supply_meta(1000));
    assert_eq!(run(&mut vm), 6);
}

#[test]
fn genesis_missing_supply_field_fails_with_7() {
    let curr = TypedState::Fungible(vec![revealed_output(1000, one_key())]);
    let mut vm = Embedded::with(None, None, Some(curr), Metadata { fields: vec![] });
    assert_eq!(run(&mut vm), 7);
}

#[test]
fn genesis_invalid_range_proof_fails_with_2() {
    // A commitment to 5 paired with the range proof generated for 7.
    let five = RevealedValue { value: 5, blinding: one_key() }.conceal();
    let seven = RevealedValue { value: 7, blinding: scalar(2) }.conceal();
    let forged = ConcealedValue { commitment: five.commitment, range_proof: seven.range_proof };
    let curr = TypedState::Fungible(vec![AssignedState {
        seal: seal(1),
        state: FungibleState::Concealed(forged),
    }]);
    let mut vm = Embedded::with(None, None, Some(curr), supply_meta(5));
    assert_eq!(run(&mut vm), 2);
}

#[test]
fn non_issue_transition_without_previous_state_fails_with_5() {
    let curr = TypedState::Fungible(vec![revealed_output(10, one_key())]);
    let mut vm = Embedded::with(Some(TRANSITION_TYPE_ISSUE + 1), None, Some(curr), supply_meta(10));
    assert_eq!(run(&mut vm), 5);
}

#[test]
fn issue_transition_type_takes_genesis_path() {
    let curr = TypedState::Fungible(vec![revealed_output(42, one_key())]);
    let mut vm = Embedded::with(Some(TRANSITION_TYPE_ISSUE), None, Some(curr), supply_meta(42));
    assert_eq!(run(&mut vm), 0);
}

#[test]
fn transfer_conserving_passes() {
    let prev = TypedState::Fungible(vec![revealed_output(1000, scalar(5))]);
    let curr = TypedState::Fungible(vec![revealed_output(1000, scalar(5))]);
    let mut vm = Embedded::with(Some(77), Some(prev), Some(curr), Metadata { fields: vec![] });
    assert_eq!(run(&mut vm), 0);
}

#[test]
fn transfer_amount_mismatch_fails_with_3() {
    let prev = TypedState::Fungible(vec![revealed_output(1000, scalar(5))]);
    let curr = TypedState::Fungible(vec![revealed_output(900, scalar(5))]);
    let mut vm = Embedded::with(Some(77), Some(prev), Some(curr), Metadata { fields: vec![] });
    assert_eq!(run(&mut vm), 3);
}

#[test]
fn transfer_split_amounts_conserve() {
    // 1000 blinded by 3 in, 400 + 600 blinded by 2 and 1 out.
    let prev = TypedState::Fungible(vec![revealed_output(1000, scalar(3))]);
    let curr = TypedState::Fungible(vec![
        revealed_output(400, scalar(2)),
        revealed_output(600, scalar(1)),
    ]);
    let mut vm = Embedded::with(Some(77), Some(prev), Some(curr), Metadata { fields: vec![] });
    assert_eq!(run(&mut vm), 0);
}

#[test]
fn transfer_invalid_input_proof_fails_with_1() {
    let good = RevealedValue { value: 50, blinding: scalar(4) }.conceal();
    let other = RevealedValue { value: 60, blinding: scalar(6) }.conceal();
    let forged = ConcealedValue { commitment: good.commitment, range_proof: other.range_proof };
    let prev = TypedState::Fungible(vec![AssignedState {
        seal: seal(2),
        state: FungibleState::Concealed(forged),
    }]);
    // The outputs are also invalid: code 1 still wins, the inputs are
    // checked first.
    let bad_out = RevealedValue { value: 70, blinding: scalar(8) }.conceal();
    let forged_out =
        ConcealedValue { commitment: bad_out.commitment, range_proof: good.range_proof };
    let curr = TypedState::Fungible(vec![AssignedState {
        seal: seal(3),
        state: FungibleState::Concealed(forged_out),
    }]);
    let mut vm = Embedded::with(Some(77), Some(prev), Some(curr), Metadata { fields: vec![] });
    assert_eq!(run(&mut vm), 1);
}

#[test]
fn transfer_invalid_output_proof_fails_with_2() {
    let prev = TypedState::Fungible(vec![revealed_output(50, scalar(4))]);
    let good = RevealedValue { value: 50, blinding: scalar(4) }.conceal();
    let other = RevealedValue { value: 60, blinding: scalar(6) }.conceal();
    let forged = ConcealedValue { commitment: good.commitment, range_proof: other.range_proof };
    let curr = TypedState::Fungible(vec![AssignedState {
        seal: seal(3),
        state: FungibleState::Concealed(forged),
    }]);
    let mut vm = Embedded::with(Some(77), Some(prev), Some(curr), Metadata { fields: vec![] });
    assert_eq!(run(&mut vm), 2);
}

#[test]
fn non_fungible_previous_state_fails_with_4() {
    let prev = TypedState::Declarative(vec![]);
    let curr = TypedState::Fungible(vec![revealed_output(10, one_key())]);
    let mut vm = Embedded::with(Some(77), Some(prev), Some(curr), Metadata { fields: vec![] });
    assert_eq!(run(&mut vm), 4);
}

#[test]
fn placeholder_procedures_always_pass() {
    let mut vm = Embedded::with(None, None, None, Metadata { fields: vec![] });
    vm.execute(EmbeddedProcedure::FungibleIssue);
    vm.execute(EmbeddedProcedure::NftIssue);
    vm.execute(EmbeddedProcedure::ProofOfBurn);
    vm.execute(EmbeddedProcedure::ProofOfReserve);
    vm.execute(EmbeddedProcedure::IdentityTransfer);
    vm.execute(EmbeddedProcedure::RightsSplit);
    assert_eq!(vm.stack().as_slice(), &[0, 0, 0, 0, 0, 0]);
}

#[test]
fn metadata_first_value_wins() {
    let meta = Metadata { fields: vec![(9, 1), (FIELD_TYPE_ISSUED_SUPPLY, 500), (FIELD_TYPE_ISSUED_SUPPLY, 900)] };
    assert_eq!(meta.first_u64(FIELD_TYPE_ISSUED_SUPPLY), Some(500));
    assert_eq!(meta.first_u64(1234), None);
}

#[test]
fn custom_schema_config_is_honoured() {
    let cfg = SchemaConfig { transition_type_issue: 2, field_type_issued_supply: 3 };
    let curr = TypedState::Fungible(vec![revealed_output(11, one_key())]);
    let meta = Metadata { fields: vec![(3, 11)] };
    let mut vm = Embedded::with_config(Some(2), None, Some(curr), meta, cfg);
    assert_eq!(run(&mut vm), 0);
}

#[test]
fn execute_preserves_context_and_appends() {
    let mut vm = Embedded::with(None, None, None, supply_meta(9));
    vm.execute(EmbeddedProcedure::ProofOfBurn);
    vm.execute(EmbeddedProcedure::FungibleNoInflation);
    assert_eq!(vm.stack().as_slice(), &[0, 6]);
    assert_eq!(vm.transition_type, None);
    assert_eq!(vm.current_meta.fields, vec![(FIELD_TYPE_ISSUED_SUPPLY, 9)]);
}
