//! The uniform accessor surface of the typed-state model and its
//! commitment-leaf production.

use rgb_core::assignments::{
    AssignedSeal, AssignedState, AttachState, ConcealedAttach, DataState, RevealedAttach,
    RevealedData, StateType, TypedState, UnknownDataError, VoidState,
};
use rgb_core::fungible::{one_key, FungibleState, RevealedValue};
use rgb_core::seal::{Confidential, Revealed};
use rgb_core::Txid;
use sha2::Digest;

fn txid(n: u64) -> Txid {
    Txid { w0: n, w1: n + 1, w2: n + 2, w3: n + 3 }
}

fn conf_seal(n: u64) -> AssignedSeal {
    AssignedSeal::Confidential(Confidential { w0: n, w1: 0, w2: 0, w3: 0 })
}

fn revealed_seal() -> Revealed {
    Revealed { txid: txid(10), vout: 2, blinding: 77 }
}

fn void(seal: AssignedSeal) -> AssignedState<VoidState> {
    AssignedState { seal, state: VoidState }
}

fn words(digest: &[u8]) -> (u64, u64, u64, u64) {
    let w = |s: &[u8]| u64::from_be_bytes(s.try_into().unwrap());
    (w(&digest[..8]), w(&digest[8..16]), w(&digest[16..24]), w(&digest[24..32]))
}

#[test]
fn category_isolation_fungible() {
    let mut state = TypedState::Fungible(vec![AssignedState {
        seal: conf_seal(1),
        state: FungibleState::Revealed(RevealedValue { value: 5, blinding: one_key() }),
    }]);
    assert_eq!(state.state_type(), StateType::Fungible);
    assert!(state.is_fungible());
    assert!(!state.is_declarative());
    assert!(state.as_declarative().is_empty());
    assert!(state.as_structured().is_empty());
    assert!(state.as_attachment().is_empty());
    assert_eq!(state.as_fungible().len(), 1);
    assert!(state.as_declarative_mut().is_none());
    let fungible = state.as_fungible_mut().expect("category matches");
    assert_eq!(fungible.len(), 1);
}

#[test]
fn category_isolation_declarative() {
    let mut state = TypedState::Declarative(vec![void(conf_seal(4))]);
    assert_eq!(state.state_type(), StateType::Void);
    assert!(state.is_declarative());
    assert!(state.as_fungible().is_empty());
    assert_eq!(state.as_declarative().len(), 1);
    assert!(state.as_fungible_mut().is_none());
    assert!(state.as_structured_mut().is_none());
    assert!(state.as_attachment_mut().is_none());
    let decl = state.as_declarative_mut().expect("category matches");
    assert_eq!(decl.len(), 1);
}

#[test]
fn len_and_is_empty() {
    let empty = TypedState::Structured(vec![]);
    assert!(empty.is_empty());
    assert_eq!(empty.len(), 0);
    let two = TypedState::Declarative(vec![void(conf_seal(1)), void(conf_seal(2))]);
    assert!(!two.is_empty());
    assert_eq!(two.len(), 2);
}

#[test]
fn revealed_seal_at_all_outcomes() {
    let state = TypedState::Declarative(vec![
        void(AssignedSeal::Revealed(revealed_seal())),
        void(conf_seal(9)),
    ]);
    assert_eq!(state.revealed_seal_at(0), Ok(Some(revealed_seal())));
    assert_eq!(state.revealed_seal_at(1), Ok(None));
    assert_eq!(state.revealed_seal_at(2), Err(UnknownDataError));
}

#[test]
fn confidential_seals_preserve_order_and_conceal() {
    let state = TypedState::Declarative(vec![
        void(conf_seal(5)),
        void(AssignedSeal::Revealed(revealed_seal())),
    ]);
    let seals = state.to_confidential_seals();
    assert_eq!(seals.len(), 2);
    // An already confidential seal passes through unchanged.
    assert_eq!(seals[0], Confidential { w0: 5, w1: 0, w2: 0, w3: 0 });
    // A revealed seal is concealed by hashing txid || vout || blinding.
    let mut pre = Vec::new();
    for w in [10u64, 11, 12, 13] {
        pre.extend_from_slice(&w.to_be_bytes());
    }
    pre.extend_from_slice(&2u32.to_be_bytes());
    pre.extend_from_slice(&77u64.to_be_bytes());
    let digest = sha2::Sha256::digest(&pre);
    let (w0, w1, w2, w3) = words(&digest);
    assert_eq!(seals[1], Confidential { w0, w1, w2, w3 });
}

#[test]
fn declarative_merkle_leaf_is_tagged_digest() {
    let state = TypedState::Declarative(vec![void(conf_seal(6))]);
    let leaves = state.merkle_leaves();
    assert_eq!(leaves.len(), 1);
    let mut pre = vec![0u8];
    for w in [6u64, 0, 0, 0] {
        pre.extend_from_slice(&w.to_be_bytes());
    }
    let digest = sha2::Sha256::digest(&pre);
    let (w0, w1, w2, w3) = words(&digest);
    assert_eq!(leaves[0], rgb_core::MerkleNode { w0, w1, w2, w3 });
}

#[test]
fn merkle_leaves_keep_element_order() {
    let state = TypedState::Attachment(vec![
        AssignedState {
            seal: conf_seal(1),
            state: AttachState::Concealed(ConcealedAttach { w0: 1, w1: 1, w2: 1, w3: 1 }),
        },
        AssignedState {
            seal: conf_seal(2),
            state: AttachState::Revealed(RevealedAttach {
                id: rgb_core::assignments::AttachId { w0: 9, w1: 9, w2: 9, w3: 9 },
                media_type: 4,
                salt: 11,
            }),
        },
    ]);
    let once = state.merkle_leaves();
    let again = state.merkle_leaves();
    assert_eq!(once.len(), 2);
    assert_eq!(once, again);
    assert_ne!(once[0], once[1]);
}

#[test]
fn structured_state_conceals_by_digest() {
    let data = RevealedData { bytes: vec![1, 2, 3] };
    let state = DataState::Revealed(data);
    let concealed = state.conceal();
    let digest = sha2::Sha256::digest([1u8, 2, 3]);
    let (w0, w1, w2, w3) = words(&digest);
    assert_eq!(concealed, rgb_core::assignments::ConcealedData { w0, w1, w2, w3 });
}
