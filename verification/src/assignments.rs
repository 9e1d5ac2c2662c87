//! The typed-state model: the four categories of contract state as ordered
//! collections of assigned state, each element pairing a seal with a state
//! value, either of which can be confidential or revealed.

use vstd::prelude::*;

use crate::digest::{sha256, sha256_words};
use crate::fungible::FungibleState;
use crate::seal::{Confidential, Revealed};
use crate::MerkleNode;

verus! {

/// Requested data (an index into a state collection) does not exist.
#[derive(Clone, Copy, PartialEq, Eq, Structural, Debug)]
pub struct UnknownDataError;

/// The four categories of contract state.
#[derive(Clone, Copy, PartialEq, Eq, Structural, Hash, Debug)]
pub enum StateType {
    Void,
    Fungible,
    Structured,
    Attachment,
}

/// Declarative (void) state: a right with no attached value.
#[derive(Clone, Copy, PartialEq, Eq, Structural, Hash, Debug)]
pub struct VoidState;

/// Structured state in confidential form: the commitment hash of the data.
#[derive(Clone, Copy, PartialEq, Eq, Structural, Hash, Debug)]
pub struct ConcealedData {
    pub w0: u64,
    pub w1: u64,
    pub w2: u64,
    pub w3: u64,
}

/// Structured state in revealed form: opaque contract data.
#[derive(Clone, Debug)]
pub struct RevealedData {
    pub bytes: Vec<u8>,
}

/// Structured state attached to a seal, confidential or revealed.
#[derive(Clone, Debug)]
pub enum DataState {
    Revealed(RevealedData),
    Concealed(ConcealedData),
}

/// Identifier of a binary attachment: a 256-bit content hash.
#[derive(Clone, Copy, PartialEq, Eq, Structural, Hash, Debug)]
pub struct AttachId {
    pub w0: u64,
    pub w1: u64,
    pub w2: u64,
    pub w3: u64,
}

/// An attachment reference in revealed form.
#[derive(Clone, Copy, PartialEq, Eq, Structural, Hash, Debug)]
pub struct RevealedAttach {
    pub id: AttachId,
    pub media_type: u8,
    pub salt: u64,
}

/// An attachment reference in confidential form: its commitment hash.
#[derive(Clone, Copy, PartialEq, Eq, Structural, Hash, Debug)]
pub struct ConcealedAttach {
    pub w0: u64,
    pub w1: u64,
    pub w2: u64,
    pub w3: u64,
}

/// Attachment state attached to a seal, confidential or revealed.
#[derive(Clone, Copy, PartialEq, Eq, Structural, Hash, Debug)]
pub enum AttachState {
    Revealed(RevealedAttach),
    Concealed(ConcealedAttach),
}

/// The seal of one assigned-state element, confidential or revealed
/// independently of the state value it guards.
#[derive(Clone, Copy, PartialEq, Eq, Structural, Hash, Debug)]
pub enum AssignedSeal {
    Confidential(Confidential),
    Revealed(Revealed),
}

impl AssignedSeal {
    /// The confidential form of the seal: an already confidential seal as it
    /// stands, a revealed one concealed by its commitment digest.
    pub open spec fn spec_conceal(self) -> Confidential {
        match self {
            AssignedSeal::Confidential(c) => c,
            AssignedSeal::Revealed(r) => r.spec_conceal(),
        }
    }

    /// The revealed form of the seal, if it is revealed.
    pub open spec fn spec_revealed(self) -> Option<Revealed> {
        match self {
            AssignedSeal::Confidential(_) => None,
            AssignedSeal::Revealed(r) => Some(r),
        }
    }
}

/// One element of assigned state: a single seal guarding a single state
/// value.
#[derive(Clone, Debug)]
pub struct AssignedState<S> {
    pub seal: AssignedSeal,
    pub state: S,
}

impl<S> AssignedState<S> {
    /// The revealed seal, or `None` if the seal is confidential.
    pub fn revealed_seal(&self) -> (r: Option<Revealed>)
        ensures
            r == self.seal.spec_revealed(),
    {
        match &self.seal {
            AssignedSeal::Confidential(_) => None,
            AssignedSeal::Revealed(rs) => Some(*rs),
        }
    }

    /// The confidential form of the seal, whatever its current revealment.
    pub fn to_confidential_seal(&self) -> (r: Confidential)
        ensures
            r == self.seal.spec_conceal(),
    {
        match &self.seal {
            AssignedSeal::Confidential(c) => *c,
            AssignedSeal::Revealed(rs) => rs.conceal(),
        }
    }
}

/// Big-endian serialisation of four 64-bit words.
pub open spec fn words_be_bytes(w0: u64, w1: u64, w2: u64, w3: u64) -> Seq<u8> {
    crate::u64_be_bytes(w0) + crate::u64_be_bytes(w1) + crate::u64_be_bytes(w2)
        + crate::u64_be_bytes(w3)
}

impl DataState {
    /// Deterministic preimage of the confidential form of revealed data.
    pub open spec fn spec_preimage(d: RevealedData) -> Seq<u8> {
        d.bytes@
    }

    /// The confidential form of the data: an already concealed value as it
    /// stands, revealed data concealed by its commitment digest.
    pub open spec fn spec_conceal(self) -> ConcealedData {
        match self {
            DataState::Concealed(c) => c,
            DataState::Revealed(d) => {
                let w = sha256_words(Self::spec_preimage(d));
                ConcealedData { w0: w.0, w1: w.1, w2: w.2, w3: w.3 }
            },
        }
    }

    /// Conceals the data state into its confidential form.
    pub fn conceal(&self) -> (r: ConcealedData)
        ensures
            r == self.spec_conceal(),
    {
        match self {
            DataState::Concealed(c) => *c,
            DataState::Revealed(d) => {
                let buf = crate::clone_bytes(&d.bytes);
                let w = sha256(&buf);
                ConcealedData { w0: w.0, w1: w.1, w2: w.2, w3: w.3 }
            },
        }
    }
}

impl AttachState {
    /// Deterministic preimage of the confidential form of a revealed
    /// attachment reference.
    pub open spec fn spec_preimage(a: RevealedAttach) -> Seq<u8> {
        words_be_bytes(a.id.w0, a.id.w1, a.id.w2, a.id.w3) + seq![a.media_type]
            + crate::u64_be_bytes(a.salt)
    }

    /// The confidential form of the attachment reference.
    pub open spec fn spec_conceal(self) -> ConcealedAttach {
        match self {
            AttachState::Concealed(c) => c,
            AttachState::Revealed(a) => {
                let w = sha256_words(Self::spec_preimage(a));
                ConcealedAttach { w0: w.0, w1: w.1, w2: w.2, w3: w.3 }
            },
        }
    }

    /// Conceals the attachment state into its confidential form.
    pub fn conceal(&self) -> (r: ConcealedAttach)
        ensures
            r == self.spec_conceal(),
    {
        match self {
            AttachState::Concealed(c) => *c,
            AttachState::Revealed(a) => {
                let mut buf: Vec<u8> = Vec::new();
                crate::push_u64_be(&mut buf, a.id.w0);
                crate::push_u64_be(&mut buf, a.id.w1);
                crate::push_u64_be(&mut buf, a.id.w2);
                crate::push_u64_be(&mut buf, a.id.w3);
                buf.push(a.media_type);
                crate::push_u64_be(&mut buf, a.salt);
                proof {
                    assert(buf@ =~= Self::spec_preimage(*a));
                }
                let w = sha256(&buf);
                ConcealedAttach { w0: w.0, w1: w.1, w2: w.2, w3: w.3 }
            },
        }
    }
}

/// A typed collection of assigned state: all elements of one instance share
/// the same state category. Created when an operation is authored and
/// immutable thereafter; element order is consensus-critical and preserved
/// exactly.
#[derive(Clone, Debug)]
pub enum TypedState {
    Declarative(Vec<AssignedState<VoidState>>),
    Fungible(Vec<AssignedState<FungibleState>>),
    Structured(Vec<AssignedState<DataState>>),
    Attachment(Vec<AssignedState<AttachState>>),
}

impl TypedState {
    /// Number of assigned-state elements, for use in specifications.
    pub open spec fn spec_len(self) -> nat {
        match self {
            TypedState::Declarative(v) => v@.len(),
            TypedState::Fungible(v) => v@.len(),
            TypedState::Structured(v) => v@.len(),
            TypedState::Attachment(v) => v@.len(),
        }
    }

    /// The category of the collection, for use in specifications.
    pub open spec fn spec_state_type(self) -> StateType {
        match self {
            TypedState::Declarative(_) => StateType::Void,
            TypedState::Fungible(_) => StateType::Fungible,
            TypedState::Structured(_) => StateType::Structured,
            TypedState::Attachment(_) => StateType::Attachment,
        }
    }

    /// The seal of the element at `i`, for use in specifications.
    pub open spec fn spec_seal(self, i: int) -> AssignedSeal {
        match self {
            TypedState::Declarative(v) => v@[i].seal,
            TypedState::Fungible(v) => v@[i].seal,
            TypedState::Structured(v) => v@[i].seal,
            TypedState::Attachment(v) => v@[i].seal,
        }
    }

    /// Well-formedness: the collection respects the confinement bound of its
    /// container, and every fungible value carries a valid blinding factor.
    pub open spec fn wf(self) -> bool {
        self.spec_len() <= 0xFFFFFF && match self {
            TypedState::Fungible(v) => forall|i: int|
                0 <= i < v@.len() ==> (#[trigger] v@[i].state).wf(),
            _ => true,
        }
    }

    /// Whether the collection holds no element.
    pub fn is_empty(&self) -> (r: bool)
        ensures
            r == (self.spec_len() == 0),
    {
        match self {
            TypedState::Declarative(v) => v.len() == 0,
            TypedState::Fungible(v) => v.len() == 0,
            TypedState::Structured(v) => v.len() == 0,
            TypedState::Attachment(v) => v.len() == 0,
        }
    }

    /// Number of assigned-state elements.
    pub fn len(&self) -> (r: usize)
        ensures
            r == self.spec_len(),
    {
        match self {
            TypedState::Declarative(v) => v.len(),
            TypedState::Fungible(v) => v.len(),
            TypedState::Structured(v) => v.len(),
            TypedState::Attachment(v) => v.len(),
        }
    }

    /// The category of the collection.
    pub fn state_type(&self) -> (r: StateType)
        ensures
            r == self.spec_state_type(),
    {
        match self {
            TypedState::Declarative(_) => StateType::Void,
            TypedState::Fungible(_) => StateType::Fungible,
            TypedState::Structured(_) => StateType::Structured,
            TypedState::Attachment(_) => StateType::Attachment,
        }
    }

    /// Whether the collection holds declarative state.
    pub fn is_declarative(&self) -> (r: bool)
        ensures
            r == (self.spec_state_type() == StateType::Void),
    {
        matches!(self, TypedState::Declarative(_))
    }

    /// Whether the collection holds fungible state.
    pub fn is_fungible(&self) -> (r: bool)
        ensures
            r == (self.spec_state_type() == StateType::Fungible),
    {
        matches!(self, TypedState::Fungible(_))
    }

    /// Whether the collection holds structured state.
    pub fn is_structured(&self) -> (r: bool)
        ensures
            r == (self.spec_state_type() == StateType::Structured),
    {
        matches!(self, TypedState::Structured(_))
    }

    /// Whether the collection holds attachment state.
    pub fn is_attachment(&self) -> (r: bool)
        ensures
            r == (self.spec_state_type() == StateType::Attachment),
    {
        matches!(self, TypedState::Attachment(_))
    }

    /// The declarative elements: the whole collection on a category match,
    /// the empty slice otherwise. Never fails.
    pub fn as_declarative(&self) -> (r: &[AssignedState<VoidState>])
        ensures
            r@ == (match self {
                TypedState::Declarative(v) => v@,
                _ => Seq::<AssignedState<VoidState>>::empty(),
            }),
    {
        match self {
            TypedState::Declarative(v) => v.as_slice(),
            _ => &[],
        }
    }

    /// The fungible elements: the whole collection on a category match, the
    /// empty slice otherwise. Never fails.
    pub fn as_fungible(&self) -> (r: &[AssignedState<FungibleState>])
        ensures
            r@ == (match self {
                TypedState::Fungible(v) => v@,
                _ => Seq::<AssignedState<FungibleState>>::empty(),
            }),
    {
        match self {
            TypedState::Fungible(v) => v.as_slice(),
            _ => &[],
        }
    }

    /// The structured elements: the whole collection on a category match,
    /// the empty slice otherwise. Never fails.
    pub fn as_structured(&self) -> (r: &[AssignedState<DataState>])
        ensures
            r@ == (match self {
                TypedState::Structured(v) => v@,
                _ => Seq::<AssignedState<DataState>>::empty(),
            }),
    {
        match self {
            TypedState::Structured(v) => v.as_slice(),
            _ => &[],
        }
    }

    /// Mutable access to the declarative elements: `Some` only on an exact
    /// category match.
    pub fn as_declarative_mut(&mut self) -> (r: Option<&mut Vec<AssignedState<VoidState>>>)
        ensures
            (r is Some) == (old(self).spec_state_type() == StateType::Void),
            r matches Some(v) ==> *v == old(self)->Declarative_0 && *final(self)
                == TypedState::Declarative(*final(v)),
            r is None ==> *final(self) == *old(self),
    {
        match self {
            TypedState::Declarative(v) => Some(v),
            _ => None,
        }
    }

    /// Mutable access to the fungible elements: `Some` only on an exact
    /// category match.
    pub fn as_fungible_mut(&mut self) -> (r: Option<&mut Vec<AssignedState<FungibleState>>>)
        ensures
            (r is Some) == (old(self).spec_state_type() == StateType::Fungible),
            r matches Some(v) ==> *v == old(self)->Fungible_0 && *final(self)
                == TypedState::Fungible(*final(v)),
            r is None ==> *final(self) == *old(self),
    {
        match self {
            TypedState::Fungible(v) => Some(v),
            _ => None,
        }
    }

    /// Mutable access to the structured elements: `Some` only on an exact
    /// category match.
    pub fn as_structured_mut(&mut self) -> (r: Option<&mut Vec<AssignedState<DataState>>>)
        ensures
            (r is Some) == (old(self).spec_state_type() == StateType::Structured),
            r matches Some(v) ==> *v == old(self)->Structured_0 && *final(self)
                == TypedState::Structured(*final(v)),
            r is None ==> *final(self) == *old(self),
    {
        match self {
            TypedState::Structured(v) => Some(v),
            _ => None,
        }
    }

    /// Mutable access to the attachment elements: `Some` only on an exact
    /// category match.
    pub fn as_attachment_mut(&mut self) -> (r: Option<&mut Vec<AssignedState<AttachState>>>)
        ensures
            (r is Some) == (old(self).spec_state_type() == StateType::Attachment),
            r matches Some(v) ==> *v == old(self)->Attachment_0 && *final(self)
                == TypedState::Attachment(*final(v)),
            r is None ==> *final(self) == *old(self),
    {
        match self {
            TypedState::Attachment(v) => Some(v),
            _ => None,
        }
    }

    /// The revealed seal at `index`: `Err` if `index` is out of range,
    /// `Ok(None)` if the seal there is confidential, and `Ok(Some(..))` with
    /// the revealed seal otherwise.
    pub fn revealed_seal_at(&self, index: u16) -> (r: Result<Option<Revealed>, UnknownDataError>)
        ensures
            (r is Err) == (index as int >= self.spec_len()),
            r matches Err(e) ==> e == UnknownDataError,
            r matches Ok(o) ==> o == self.spec_seal(index as int).spec_revealed(),
    {
        match self {
            TypedState::Declarative(v) => {
                if (index as usize) < v.len() {
                    Ok(v[index as usize].revealed_seal())
                } else {
                    Err(UnknownDataError)
                }
            },
            TypedState::Fungible(v) => {
                if (index as usize) < v.len() {
                    Ok(v[index as usize].revealed_seal())
                } else {
                    Err(UnknownDataError)
                }
            },
            TypedState::Structured(v) => {
                if (index as usize) < v.len() {
                    Ok(v[index as usize].revealed_seal())
                } else {
                    Err(UnknownDataError)
                }
            },
            TypedState::Attachment(v) => {
                if (index as usize) < v.len() {
                    Ok(v[index as usize].revealed_seal())
                } else {
                    Err(UnknownDataError)
                }
            },
        }
    }

    /// Maps every element's seal to its confidential form, in element order,
    /// regardless of current revealment: the disclosure-minimised view.
    pub fn to_confidential_seals(&self) -> (r: Vec<Confidential>)
        ensures
            r@.len() == self.spec_len(),
            forall|i: int|
                0 <= i < self.spec_len() ==> r@[i] == self.spec_seal(i).spec_conceal(),
    {
        match self {
            TypedState::Declarative(v) => seals_of(v),
            TypedState::Fungible(v) => seals_of(v),
            TypedState::Structured(v) => seals_of(v),
            TypedState::Attachment(v) => seals_of(v),
        }
    }

    /// The attachment elements: the whole collection on a category match,
    /// the empty slice otherwise. Never fails.
    pub fn as_attachment(&self) -> (r: &[AssignedState<AttachState>])
        ensures
            r@ == (match self {
                TypedState::Attachment(v) => v@,
                _ => Seq::<AssignedState<AttachState>>::empty(),
            }),
    {
        match self {
            TypedState::Attachment(v) => v.as_slice(),
            _ => &[],
        }
    }
}

/// Packs four digest words into a Merkle tree node.
pub open spec fn node_of(w: (u64, u64, u64, u64)) -> MerkleNode {
    MerkleNode { w0: w.0, w1: w.1, w2: w.2, w3: w.3 }
}

/// The commitment-leaf preimage of a declarative element: the category tag
/// followed by the concealed seal.
pub open spec fn spec_void_leaf_bytes(a: AssignedState<VoidState>) -> Seq<u8> {
    seq![0u8] + a.seal.spec_conceal().spec_bytes()
}

/// The commitment-leaf preimage of a fungible element: the category tag,
/// the concealed seal, and the confidential value form.
pub open spec fn spec_fungible_leaf_bytes(a: AssignedState<FungibleState>) -> Seq<u8> {
    seq![1u8] + a.seal.spec_conceal().spec_bytes() + a.state.conf_commitment_bytes()
        + a.state.conf_proof_bytes()
}

/// The commitment-leaf preimage of a structured element: the category tag,
/// the concealed seal, and the concealed data hash.
pub open spec fn spec_structured_leaf_bytes(a: AssignedState<DataState>) -> Seq<u8> {
    seq![2u8] + a.seal.spec_conceal().spec_bytes() + (
    { let c = a.state.spec_conceal(); words_be_bytes(c.w0, c.w1, c.w2, c.w3) })
}

/// The commitment-leaf preimage of an attachment element: the category tag,
/// the concealed seal, and the concealed attachment hash.
pub open spec fn spec_attach_leaf_bytes(a: AssignedState<AttachState>) -> Seq<u8> {
    seq![3u8] + a.seal.spec_conceal().spec_bytes() + (
    { let c = a.state.spec_conceal(); words_be_bytes(c.w0, c.w1, c.w2, c.w3) })
}

impl TypedState {
    /// The commitment-identifier leaf of the element at `i`: the digest of
    /// the element's category-tagged confidential form.
    pub open spec fn spec_leaf(self, i: int) -> MerkleNode {
        match self {
            TypedState::Declarative(v) => node_of(sha256_words(spec_void_leaf_bytes(v@[i]))),
            TypedState::Fungible(v) => node_of(sha256_words(spec_fungible_leaf_bytes(v@[i]))),
            TypedState::Structured(v) => node_of(sha256_words(spec_structured_leaf_bytes(v@[i]))),
            TypedState::Attachment(v) => node_of(sha256_words(spec_attach_leaf_bytes(v@[i]))),
        }
    }

    /// The category's contribution to the bundle-level commitment tree: one
    /// commitment-identifier leaf per element, in exact element order.
    pub fn merkle_leaves(&self) -> (r: Vec<MerkleNode>)
        requires
            self.wf(),
        ensures
            r@.len() == self.spec_len(),
            forall|i: int| 0 <= i < self.spec_len() ==> r@[i] == self.spec_leaf(i),
    {
        let mut out: Vec<MerkleNode> = Vec::new();
        match self {
            TypedState::Declarative(v) => {
                let mut i: usize = 0;
                while i < v.len()
                    invariant
                        i <= v@.len(),
                        out@.len() == i,
                        forall|j: int|
                            0 <= j < i ==> out@[j] == node_of(
                                sha256_words(spec_void_leaf_bytes(v@[j])),
                            ),
                    decreases v@.len() - i,
                {
                    let mut buf: Vec<u8> = Vec::new();
                    buf.push(0u8);
                    v[i].to_confidential_seal().push_bytes(&mut buf);
                    proof {
                        assert(buf@ =~= spec_void_leaf_bytes(v@[i as int]));
                    }
                    out.push(node_of_exec(sha256(&buf)));
                    i = i + 1;
                }
            },
            TypedState::Fungible(v) => {
                let mut i: usize = 0;
                while i < v.len()
                    invariant
                        i <= v@.len(),
                        out@.len() == i,
                        forall|j: int|
                            0 <= j < v@.len() ==> (#[trigger] v@[j].state).wf(),
                        forall|j: int|
                            0 <= j < i ==> out@[j] == node_of(
                                sha256_words(spec_fungible_leaf_bytes(v@[j])),
                            ),
                    decreases v@.len() - i,
                {
                    let mut buf: Vec<u8> = Vec::new();
                    buf.push(1u8);
                    v[i].to_confidential_seal().push_bytes(&mut buf);
                    let conf = v[i].state.to_confidential();
                    let mut k: usize = 0;
                    while k < conf.commitment.bytes.len()
                        invariant
                            k <= conf.commitment.bytes@.len(),
                            buf@ == seq![1u8] + v@[i as int].seal.spec_conceal().spec_bytes()
                                + conf.commitment.bytes@.subrange(0, k as int),
                        decreases conf.commitment.bytes@.len() - k,
                    {
                        buf.push(conf.commitment.bytes[k]);
                        k = k + 1;
                        proof {
                            assert(buf@ =~= seq![1u8]
                                + v@[i as int].seal.spec_conceal().spec_bytes()
                                + conf.commitment.bytes@.subrange(0, k as int));
                        }
                    }
                    let mut k2: usize = 0;
                    while k2 < conf.range_proof.bytes.len()
                        invariant
                            k2 <= conf.range_proof.bytes@.len(),
                            buf@ == seq![1u8] + v@[i as int].seal.spec_conceal().spec_bytes()
                                + conf.commitment.bytes@ + conf.range_proof.bytes@.subrange(
                                0,
                                k2 as int,
                            ),
                        decreases conf.range_proof.bytes@.len() - k2,
                    {
                        buf.push(conf.range_proof.bytes[k2]);
                        k2 = k2 + 1;
                        proof {
                            assert(buf@ =~= seq![1u8]
                                + v@[i as int].seal.spec_conceal().spec_bytes()
                                + conf.commitment.bytes@ + conf.range_proof.bytes@.subrange(
                                0,
                                k2 as int,
                            ));
                        }
                    }
                    proof {
                        assert(conf.commitment.bytes@.subrange(
                            0,
                            conf.commitment.bytes@.len() as int,
                        ) =~= conf.commitment.bytes@);
                        assert(conf.range_proof.bytes@.subrange(
                            0,
                            conf.range_proof.bytes@.len() as int,
                        ) =~= conf.range_proof.bytes@);
                        assert(buf@ =~= spec_fungible_leaf_bytes(v@[i as int]));
                    }
                    out.push(node_of_exec(sha256(&buf)));
                    i = i + 1;
                }
            },
            TypedState::Structured(v) => {
                let mut i: usize = 0;
                while i < v.len()
                    invariant
                        i <= v@.len(),
                        out@.len() == i,
                        forall|j: int|
                            0 <= j < i ==> out@[j] == node_of(
                                sha256_words(spec_structured_leaf_bytes(v@[j])),
                            ),
                    decreases v@.len() - i,
                {
                    let mut buf: Vec<u8> = Vec::new();
                    buf.push(2u8);
                    v[i].to_confidential_seal().push_bytes(&mut buf);
                    let c = v[i].state.conceal();
                    crate::push_u64_be(&mut buf, c.w0);
                    crate::push_u64_be(&mut buf, c.w1);
                    crate::push_u64_be(&mut buf, c.w2);
                    crate::push_u64_be(&mut buf, c.w3);
                    proof {
                        assert(buf@ =~= spec_structured_leaf_bytes(v@[i as int]));
                    }
                    out.push(node_of_exec(sha256(&buf)));
                    i = i + 1;
                }
            },
            TypedState::Attachment(v) => {
                let mut i: usize = 0;
                while i < v.len()
                    invariant
                        i <= v@.len(),
                        out@.len() == i,
                        forall|j: int|
                            0 <= j < i ==> out@[j] == node_of(
                                sha256_words(spec_attach_leaf_bytes(v@[j])),
                            ),
                    decreases v@.len() - i,
                {
                    let mut buf: Vec<u8> = Vec::new();
                    buf.push(3u8);
                    v[i].to_confidential_seal().push_bytes(&mut buf);
                    let c = v[i].state.conceal();
                    crate::push_u64_be(&mut buf, c.w0);
                    crate::push_u64_be(&mut buf, c.w1);
                    crate::push_u64_be(&mut buf, c.w2);
                    crate::push_u64_be(&mut buf, c.w3);
                    proof {
                        assert(buf@ =~= spec_attach_leaf_bytes(v@[i as int]));
                    }
                    out.push(node_of_exec(sha256(&buf)));
                    i = i + 1;
                }
            },
        }
        out
    }
}

/// Packs four digest words into a Merkle tree node.
fn node_of_exec(w: (u64, u64, u64, u64)) -> (r: MerkleNode)
    ensures
        r == node_of(w),
{
    MerkleNode { w0: w.0, w1: w.1, w2: w.2, w3: w.3 }
}

/// The confidential seals of a state collection, in element order.
fn seals_of<S>(v: &Vec<AssignedState<S>>) -> (r: Vec<Confidential>)
    ensures
        r@.len() == v@.len(),
        forall|i: int| 0 <= i < v@.len() ==> r@[i] == v@[i].seal.spec_conceal(),
{
    let mut out: Vec<Confidential> = Vec::new();
    let mut i: usize = 0;
    while i < v.len()
        invariant
            i <= v@.len(),
            out@.len() == i,
            forall|j: int| 0 <= j < i ==> out@[j] == v@[j].seal.spec_conceal(),
        decreases v@.len() - i,
    {
        out.push(v[i].to_confidential_seal());
        i = i + 1;
    }
    out
}

} // verus!
