//! The embedded validation engine: a fixed set of built-in procedures
//! selected by transition type. The central procedure checks conservation of
//! value for fungible transitions over homomorphic commitments and range
//! proofs; an outcome code is pushed to the engine's output stack, `0` for a
//! pass and a specific nonzero code for each failure reason.

use vstd::prelude::*;

use crate::assignments::{AssignedState, StateType, TypedState};
use crate::fungible::{
    commit_sum_ok, one_key, one_key_bytes, pedersen_commit, pedersen_of, range_proof_ok,
    verify_commitments_balance, verify_range_proof, ConcealedValue, FungibleState,
    PedersenCommitment,
};

verus! {

/// Default transition-type tag of a (secondary) issue transition.
pub const TRANSITION_TYPE_ISSUE: u16 = 0x10;

/// Default field-type tag of the declared issued supply in operation
/// metadata.
pub const FIELD_TYPE_ISSUED_SUPPLY: u16 = 0xA0;

/// The schema configuration table the engine is parameterised by: the
/// numeric tags the built-in procedures look for.
#[derive(Clone, Copy, PartialEq, Eq, Structural, Debug)]
pub struct SchemaConfig {
    pub transition_type_issue: u16,
    pub field_type_issued_supply: u16,
}

impl Default for SchemaConfig {
    /// The default tag table.
    fn default() -> (r: Self)
        ensures
            r.transition_type_issue == TRANSITION_TYPE_ISSUE,
            r.field_type_issued_supply == FIELD_TYPE_ISSUED_SUPPLY,
    {
        SchemaConfig {
            transition_type_issue: TRANSITION_TYPE_ISSUE,
            field_type_issued_supply: FIELD_TYPE_ISSUED_SUPPLY,
        }
    }
}

/// Declared metadata of the operation under validation: a list of
/// `(field type, value)` entries in declaration order.
#[derive(Clone, Debug)]
pub struct Metadata {
    pub fields: Vec<(u16, u64)>,
}

/// The first value declared under `field_type`, scanning in order.
pub open spec fn first_field_value(s: Seq<(u16, u64)>, field_type: u16) -> Option<u64>
    decreases s.len(),
{
    if s.len() == 0 {
        None
    } else if s[0].0 == field_type {
        Some(s[0].1)
    } else {
        first_field_value(s.drop_first(), field_type)
    }
}

impl Metadata {
    /// The first value declared under `field_type`, for use in
    /// specifications.
    pub open spec fn spec_first_u64(self, field_type: u16) -> Option<u64> {
        first_field_value(self.fields@, field_type)
    }

    /// The first value declared under `field_type`, or `None` if the field
    /// is absent.
    pub fn first_u64(&self, field_type: u16) -> (r: Option<u64>)
        ensures
            r == self.spec_first_u64(field_type),
    {
        let mut i: usize = 0;
        proof {
            assert(self.fields@.skip(0) =~= self.fields@);
        }
        while i < self.fields.len()
            invariant
                i <= self.fields@.len(),
                first_field_value(self.fields@, field_type) == first_field_value(
                    self.fields@.skip(i as int),
                    field_type,
                ),
            decreases self.fields@.len() - i,
        {
            let (ft, v) = self.fields[i];
            proof {
                assert(self.fields@.skip(i as int)[0] == self.fields@[i as int]);
                assert(self.fields@.skip(i as int).drop_first() =~= self.fields@.skip(i + 1));
            }
            if ft == field_type {
                return Some(v);
            }
            i = i + 1;
        }
        proof {
            assert(self.fields@.skip(i as int).len() == 0);
        }
        None
    }
}

/// The built-in validation procedures.
#[derive(Clone, Copy, PartialEq, Eq, Structural, Debug)]
pub enum EmbeddedProcedure {
    FungibleNoInflation,
    FungibleIssue,
    NftIssue,
    ProofOfBurn,
    ProofOfReserve,
    IdentityTransfer,
    RightsSplit,
}

/// The commitment bytes of the confidential form of each fungible element,
/// in element order; empty for a non-fungible collection.
pub open spec fn conf_commitments(s: TypedState) -> Seq<Seq<u8>> {
    match s {
        TypedState::Fungible(v) => v@.map_values(
            |a: AssignedState<FungibleState>| a.state.conf_commitment_bytes(),
        ),
        _ => Seq::<Seq<u8>>::empty(),
    }
}

/// The range-proof bytes of the confidential form of each fungible element,
/// in element order; empty for a non-fungible collection.
pub open spec fn conf_proofs(s: TypedState) -> Seq<Seq<u8>> {
    match s {
        TypedState::Fungible(v) => v@.map_values(
            |a: AssignedState<FungibleState>| a.state.conf_proof_bytes(),
        ),
        _ => Seq::<Seq<u8>>::empty(),
    }
}

/// Whether every confidential fungible element of the state carries a valid
/// range proof. Vacuously true for a non-fungible collection.
pub open spec fn all_range_proofs_ok(s: TypedState) -> bool {
    forall|i: int|
        0 <= i < conf_commitments(s).len() ==> range_proof_ok(
            #[trigger] conf_commitments(s)[i],
            conf_proofs(s)[i],
        )
}

/// Outcome of the conservation check at genesis or issuance: no current
/// state fails with 6; an output without a valid range proof fails with 2; a
/// missing issued-supply field fails with 7; the homomorphic sum of the
/// output commitments must equal the commitment to the declared supply under
/// the fixed one-key blinding, failing with 3 otherwise; a pass is 0.
pub open spec fn genesis_outcome(curr: Option<TypedState>, meta: Metadata, cfg: SchemaConfig) -> u8 {
    match curr {
        None => 6,
        Some(c) => if !all_range_proofs_ok(c) {
            2
        } else {
            match meta.spec_first_u64(cfg.field_type_issued_supply) {
                None => 7,
                Some(supply) => if commit_sum_ok(
                    conf_commitments(c),
                    seq![pedersen_of(supply, one_key_bytes())],
                ) {
                    0
                } else {
                    3
                },
            }
        },
    }
}

/// Outcome of the conservation check on a transfer: a non-fungible previous
/// state fails with 4; an input without a valid range proof fails with 1
/// before anything else is examined; an output without a valid range proof
/// fails with 2; the homomorphic sum of the output commitments must equal
/// the sum of the input commitments, failing with 3 otherwise; a pass is 0.
pub open spec fn transfer_outcome(prev: TypedState, curr: TypedState) -> u8 {
    if prev.spec_state_type() != StateType::Fungible {
        4
    } else if !all_range_proofs_ok(prev) {
        1
    } else if !all_range_proofs_ok(curr) {
        2
    } else if commit_sum_ok(conf_commitments(curr), conf_commitments(prev)) {
        0
    } else {
        3
    }
}

/// Outcome of the `FungibleNoInflation` procedure. With no previous state
/// the operation must be a genesis or an issue transition (else 5) and the
/// issuance rule applies; with a previous state the transfer rule applies.
/// A valid execution context never pairs a fungible previous state with an
/// absent current state, so that combination maps to an unused code.
pub open spec fn no_inflation_outcome(
    transition_type: Option<u16>,
    prev: Option<TypedState>,
    curr: Option<TypedState>,
    meta: Metadata,
    cfg: SchemaConfig,
) -> u8 {
    match prev {
        None => if transition_type is None || transition_type == Some(cfg.transition_type_issue) {
            genesis_outcome(curr, meta, cfg)
        } else {
            5
        },
        Some(p) => if p.spec_state_type() != StateType::Fungible {
            4
        } else {
            match curr {
                Some(c) => transfer_outcome(p, c),
                None => 255,
            }
        },
    }
}

/// Outcome of any built-in procedure: the conservation check for
/// `FungibleNoInflation`; every other procedure is an always-pass extension
/// point whose consensus rules are deferred.
pub open spec fn procedure_outcome(
    procedure: EmbeddedProcedure,
    transition_type: Option<u16>,
    prev: Option<TypedState>,
    curr: Option<TypedState>,
    meta: Metadata,
    cfg: SchemaConfig,
) -> u8 {
    match procedure {
        EmbeddedProcedure::FungibleNoInflation => no_inflation_outcome(
            transition_type,
            prev,
            curr,
            meta,
            cfg,
        ),
        _ => 0,
    }
}

impl TypedState {
    /// The confidential Pedersen form of the fungible elements, in element
    /// order: already concealed values as they stand, revealed ones
    /// concealed. Empty for a non-fungible collection.
    pub fn to_confidential_state_pedersen(&self) -> (r: Vec<ConcealedValue>)
        requires
            self.wf(),
        ensures
            r@.len() == conf_commitments(*self).len(),
            forall|i: int|
                0 <= i < r@.len() ==> (#[trigger] r@[i]).commitment.bytes@ == conf_commitments(
                    *self,
                )[i] && r@[i].range_proof.bytes@ == conf_proofs(*self)[i] && r@[i].wf(),
    {
        let mut out: Vec<ConcealedValue> = Vec::new();
        match self {
            TypedState::Fungible(v) => {
                let mut i: usize = 0;
                while i < v.len()
                    invariant
                        i <= v@.len(),
                        out@.len() == i,
                        forall|j: int| 0 <= j < v@.len() ==> (#[trigger] v@[j].state).wf(),
                        forall|j: int|
                            0 <= j < i ==> (#[trigger] out@[j]).commitment.bytes@
                                == v@[j].state.conf_commitment_bytes() && out@[j].range_proof.bytes@
                                == v@[j].state.conf_proof_bytes() && out@[j].wf(),
                    decreases v@.len() - i,
                {
                    out.push(v[i].state.to_confidential());
                    i = i + 1;
                }
            },
            _ => {},
        }
        out
    }
}

/// Connects the element-wise range-proof validity of the confidential form
/// of a state with the state-level predicate.
proof fn lemma_conf_values_match(c: TypedState, values: Seq<ConcealedValue>)
    requires
        values.len() == conf_commitments(c).len(),
        forall|i: int|
            0 <= i < values.len() ==> (#[trigger] values[i]).commitment.bytes@ == conf_commitments(
                c,
            )[i] && values[i].range_proof.bytes@ == conf_proofs(c)[i],
    ensures
        all_range_proofs_ok(c) == (forall|i: int|
            0 <= i < values.len() ==> range_proof_ok(
                (#[trigger] values[i]).commitment.bytes@,
                values[i].range_proof.bytes@,
            )),
{
    if all_range_proofs_ok(c) {
        assert forall|i: int| 0 <= i < values.len() implies range_proof_ok(
            (#[trigger] values[i]).commitment.bytes@,
            values[i].range_proof.bytes@,
        ) by {
            assert(range_proof_ok(conf_commitments(c)[i], conf_proofs(c)[i]));
        }
    }
    if forall|i: int|
        0 <= i < values.len() ==> range_proof_ok(
            (#[trigger] values[i]).commitment.bytes@,
            values[i].range_proof.bytes@,
        ) {
        assert forall|i: int| 0 <= i < conf_commitments(c).len() implies range_proof_ok(
            #[trigger] conf_commitments(c)[i],
            conf_proofs(c)[i],
        ) by {
            assert(range_proof_ok(values[i].commitment.bytes@, values[i].range_proof.bytes@));
        }
    }
}

/// Whether every value in the list carries a valid range proof for its
/// commitment.
fn all_proofs_valid(values: &Vec<ConcealedValue>) -> (r: bool)
    requires
        forall|i: int| 0 <= i < values@.len() ==> (#[trigger] values@[i]).wf(),
    ensures
        r == (forall|i: int|
            0 <= i < values@.len() ==> range_proof_ok(
                (#[trigger] values@[i]).commitment.bytes@,
                values@[i].range_proof.bytes@,
            )),
{
    let mut i: usize = 0;
    while i < values.len()
        invariant
            i <= values@.len(),
            forall|j: int| 0 <= j < values@.len() ==> (#[trigger] values@[j]).wf(),
            forall|j: int|
                0 <= j < i ==> range_proof_ok(
                    (#[trigger] values@[j]).commitment.bytes@,
                    values@[j].range_proof.bytes@,
                ),
        decreases values@.len() - i,
    {
        if !verify_range_proof(&values[i].commitment, &values[i].range_proof) {
            return false;
        }
        i = i + 1;
    }
    true
}

/// The commitments of the values, in order.
fn commitments_of(values: &Vec<ConcealedValue>) -> (r: Vec<PedersenCommitment>)
    ensures
        r@.len() == values@.len(),
        forall|i: int|
            0 <= i < values@.len() ==> (#[trigger] r@[i]).bytes@ == values@[i].commitment.bytes@,
{
    let mut out: Vec<PedersenCommitment> = Vec::new();
    let mut i: usize = 0;
    while i < values.len()
        invariant
            i <= values@.len(),
            out@.len() == i,
            forall|j: int|
                0 <= j < i ==> (#[trigger] out@[j]).bytes@ == values@[j].commitment.bytes@,
        decreases values@.len() - i,
    {
        out.push(
            PedersenCommitment { bytes: crate::clone_bytes(&values[i].commitment.bytes) },
        );
        i = i + 1;
    }
    out
}

/// The embedded virtual machine: the execution context of the built-in
/// procedures, holding the transition type (absent for genesis), the
/// previous and current typed state, the operation's declared metadata, the
/// schema tag table, and the output stack the outcome codes are pushed to.
#[derive(Clone, Debug)]
pub struct Embedded {
    pub transition_type: Option<u16>,
    pub previous_state: Option<TypedState>,
    pub current_state: Option<TypedState>,
    pub current_meta: Metadata,
    pub config: SchemaConfig,
    pub stack: Vec<u8>,
}

impl Embedded {
    /// Validity of the execution context: the typed states are well formed,
    /// and a transfer (fungible previous state) carries a current state.
    pub open spec fn wf(self) -> bool {
        &&& (self.previous_state matches Some(p) ==> p.wf())
        &&& (self.current_state matches Some(c) ==> c.wf())
        &&& ((self.previous_state matches Some(p) && p.spec_state_type() == StateType::Fungible)
            ==> self.current_state is Some)
    }

    /// Builds an execution context over the default schema tag table, with
    /// an empty output stack.
    pub fn with(
        transition_type: Option<u16>,
        previous_state: Option<TypedState>,
        current_state: Option<TypedState>,
        current_meta: Metadata,
    ) -> (r: Self)
        ensures
            r.transition_type == transition_type,
            r.previous_state == previous_state,
            r.current_state == current_state,
            r.current_meta == current_meta,
            r.config.transition_type_issue == TRANSITION_TYPE_ISSUE,
            r.config.field_type_issued_supply == FIELD_TYPE_ISSUED_SUPPLY,
            r.stack@ == Seq::<u8>::empty(),
    {
        Embedded {
            transition_type,
            previous_state,
            current_state,
            current_meta,
            config: SchemaConfig {
                transition_type_issue: TRANSITION_TYPE_ISSUE,
                field_type_issued_supply: FIELD_TYPE_ISSUED_SUPPLY,
            },
            stack: Vec::new(),
        }
    }

    /// Builds an execution context over an explicit schema tag table, with
    /// an empty output stack.
    pub fn with_config(
        transition_type: Option<u16>,
        previous_state: Option<TypedState>,
        current_state: Option<TypedState>,
        current_meta: Metadata,
        config: SchemaConfig,
    ) -> (r: Self)
        ensures
            r.transition_type == transition_type,
            r.previous_state == previous_state,
            r.current_state == current_state,
            r.current_meta == current_meta,
            r.config == config,
            r.stack@ == Seq::<u8>::empty(),
    {
        Embedded {
            transition_type,
            previous_state,
            current_state,
            current_meta,
            config,
            stack: Vec::new(),
        }
    }

    /// The output stack of pushed outcome codes.
    pub fn stack(&self) -> (r: &Vec<u8>)
        ensures
            r@ == self.stack@,
    {
        &self.stack
    }

    /// The outcome code of the `FungibleNoInflation` procedure on this
    /// context.
    fn no_inflation_code(&self) -> (r: u8)
        requires
            self.wf(),
        ensures
            r == no_inflation_outcome(
                self.transition_type,
                self.previous_state,
                self.current_state,
                self.current_meta,
                self.config,
            ),
    {
        match &self.previous_state {
            None => {
                let is_issue = match self.transition_type {
                    None => true,
                    Some(tt) => tt == self.config.transition_type_issue,
                };
                if !is_issue {
                    return 5;
                }
                match &self.current_state {
                    None => 6,
                    Some(c) => {
                        let outputs = c.to_confidential_state_pedersen();
                        proof {
                            lemma_conf_values_match(*c, outputs@);
                        }
                        if !all_proofs_valid(&outputs) {
                            return 2;
                        }
                        proof {
                            assert(all_range_proofs_ok(*c));
                        }
                        match self.current_meta.first_u64(self.config.field_type_issued_supply) {
                            None => 7,
                            Some(supply) => {
                                let key = one_key();
                                let reference = pedersen_commit(supply, &key);
                                let positive = commitments_of(&outputs);
                                let mut negative: Vec<PedersenCommitment> = Vec::new();
                                negative.push(reference);
                                proof {
                                    assert(positive@.map_values(
                                        |x: PedersenCommitment| x.bytes@,
                                    ) =~= conf_commitments(*c));
                                    assert(negative@.map_values(
                                        |x: PedersenCommitment| x.bytes@,
                                    ) =~= seq![pedersen_of(supply, one_key_bytes())]);
                                }
                                if verify_commitments_balance(&positive, &negative) {
                                    0
                                } else {
                                    3
                                }
                            },
                        }
                    },
                }
            },
            Some(p) => {
                if !p.is_fungible() {
                    return 4;
                }
                match &self.current_state {
                    // Unreachable: a valid transfer context carries a
                    // current state.
                    None => {
                        proof {
                            assert(false);
                        }
                        4
                    },
                    Some(c) => {
                        let prev_conf = p.to_confidential_state_pedersen();
                        proof {
                            lemma_conf_values_match(*p, prev_conf@);
                        }
                        if !all_proofs_valid(&prev_conf) {
                            return 1;
                        }
                        let curr_conf = c.to_confidential_state_pedersen();
                        proof {
                            lemma_conf_values_match(*c, curr_conf@);
                        }
                        if !all_proofs_valid(&curr_conf) {
                            return 2;
                        }
                        let positive = commitments_of(&curr_conf);
                        let negative = commitments_of(&prev_conf);
                        proof {
                            assert(all_range_proofs_ok(*p));
                            assert(all_range_proofs_ok(*c));
                            assert(positive@.map_values(|x: PedersenCommitment| x.bytes@)
                                =~= conf_commitments(*c));
                            assert(negative@.map_values(|x: PedersenCommitment| x.bytes@)
                                =~= conf_commitments(*p));
                        }
                        if verify_commitments_balance(&positive, &negative) {
                            0
                        } else {
                            3
                        }
                    },
                }
            },
        }
    }

    /// Executes a built-in procedure, pushing its outcome code to the output
    /// stack. The context itself is left unchanged.
    pub fn execute(&mut self, procedure: EmbeddedProcedure)
        requires
            old(self).wf(),
        ensures
            final(self).transition_type == old(self).transition_type,
            final(self).previous_state == old(self).previous_state,
            final(self).current_state == old(self).current_state,
            final(self).current_meta == old(self).current_meta,
            final(self).config == old(self).config,
            final(self).stack@ == old(self).stack@.push(
                procedure_outcome(
                    procedure,
                    old(self).transition_type,
                    old(self).previous_state,
                    old(self).current_state,
                    old(self).current_meta,
                    old(self).config,
                ),
            ),
    {
        match procedure {
            EmbeddedProcedure::FungibleNoInflation => {
                let code = self.no_inflation_code();
                self.stack.push(code);
            },
            _ => {
                self.stack.push(0u8);
            },
        }
    }
}

/// Conservation of value at issuance: when every output carries a valid
/// range proof and the metadata declares an issued supply, the procedure
/// passes exactly when the homomorphic sum of the output commitments equals
/// the commitment to the declared supply under the fixed one-key blinding,
/// and fails with code 3 otherwise.
pub proof fn lemma_issuance_conservation(
    transition_type: Option<u16>,
    curr: TypedState,
    meta: Metadata,
    cfg: SchemaConfig,
    supply: u64,
)
    requires
        transition_type is None || transition_type == Some(cfg.transition_type_issue),
        all_range_proofs_ok(curr),
        meta.spec_first_u64(cfg.field_type_issued_supply) == Some(supply),
    ensures
        no_inflation_outcome(transition_type, None, Some(curr), meta, cfg) == (
        if commit_sum_ok(conf_commitments(curr), seq![pedersen_of(supply, one_key_bytes())]) {
            0u8
        } else {
            3u8
        }),
{
}

/// At issuance an output lacking a valid range proof is rejected with code
/// 2, whatever the metadata declares.
pub proof fn lemma_issuance_needs_range_proofs(
    transition_type: Option<u16>,
    curr: TypedState,
    meta: Metadata,
    cfg: SchemaConfig,
)
    requires
        transition_type is None || transition_type == Some(cfg.transition_type_issue),
        !all_range_proofs_ok(curr),
    ensures
        no_inflation_outcome(transition_type, None, Some(curr), meta, cfg) == 2u8,
{
}

/// Conservation of value on a transfer: when both sides carry valid range
/// proofs, the procedure passes exactly when the homomorphic sum of the
/// output commitments equals the sum of the input commitments, and fails
/// with code 3 otherwise.
pub proof fn lemma_transfer_conservation(
    transition_type: Option<u16>,
    prev: TypedState,
    curr: TypedState,
    meta: Metadata,
    cfg: SchemaConfig,
)
    requires
        prev.spec_state_type() == StateType::Fungible,
        all_range_proofs_ok(prev),
        all_range_proofs_ok(curr),
    ensures
        no_inflation_outcome(transition_type, Some(prev), Some(curr), meta, cfg) == (
        if commit_sum_ok(conf_commitments(curr), conf_commitments(prev)) {
            0u8
        } else {
            3u8
        }),
{
}

/// On a transfer an input lacking a valid range proof is rejected with code
/// 1 before the sums are compared, whatever the outputs hold.
pub proof fn lemma_transfer_needs_input_range_proofs(
    transition_type: Option<u16>,
    prev: TypedState,
    curr: TypedState,
    meta: Metadata,
    cfg: SchemaConfig,
)
    requires
        prev.spec_state_type() == StateType::Fungible,
        !all_range_proofs_ok(prev),
    ensures
        no_inflation_outcome(transition_type, Some(prev), Some(curr), meta, cfg) == 1u8,
{
}

} // verus!
