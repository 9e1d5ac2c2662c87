//! The anchor and witness model: dual-scheme on-chain commitments to
//! transition bundles, compaction and expansion of multi-protocol-commitment
//! (MPC) proofs, and the strict total order over witnessing transactions.
//!
//! The MPC Merkle structures and the deterministic-bitcoin-commitment proofs
//! are supplied by the `commit_verify` and `bp` crates; the values are
//! carried opaquely and every operation around them is verified.

use vstd::prelude::*;

use crate::seal::{witness_id_less, witness_id_lt, WitnessId, WitnessOrd};
use crate::{BundleId, ContractId, Txid};
use crate::xchain::XChain;

verus! {

#[verifier::external_type_specification]
#[verifier::external_body]
pub struct ExMerkleBlock(commit_verify::mpc::MerkleBlock);

#[verifier::external_type_specification]
#[verifier::external_body]
pub struct ExMerkleProof(commit_verify::mpc::MerkleProof);

#[verifier::external_type_specification]
#[verifier::external_body]
pub struct ExTapretProof(bp::dbc::tapret::TapretProof);

#[verifier::external_type_specification]
#[verifier::external_body]
pub struct ExOpretProof(bp::dbc::opret::OpretProof);

/// The `(contract id, bundle id)` leaves revealed by an MPC Merkle block,
/// as a map from contract-id words to bundle-id words.
pub uninterp spec fn block_leaves(b: commit_verify::mpc::MerkleBlock) -> Map<
    (u64, u64, u64, u64),
    (u64, u64, u64, u64),
>;

/// The single-leaf inclusion proof extracted from a block for a contract.
/// The proof is a function of the block and the contract alone.
pub uninterp spec fn proof_of(
    b: commit_verify::mpc::MerkleBlock,
    cw: (u64, u64, u64, u64),
) -> commit_verify::mpc::MerkleProof;

/// Whether a single-leaf proof is positionally consistent with the given
/// contract: the protocol position the proof's parameters assign to the
/// contract matches the position the proof was built for.
pub uninterp spec fn proof_fits(
    p: commit_verify::mpc::MerkleProof,
    cw: (u64, u64, u64, u64),
) -> bool;

/// The block reconstructed from a single-leaf proof and the leaf identity
/// it certifies. The block is a function of the three arguments alone.
pub uninterp spec fn block_of(
    p: commit_verify::mpc::MerkleProof,
    cw: (u64, u64, u64, u64),
    bw: (u64, u64, u64, u64),
) -> commit_verify::mpc::MerkleBlock;

pub assume_specification[ <commit_verify::mpc::MerkleBlock as Clone>::clone ](
    b: &commit_verify::mpc::MerkleBlock,
) -> (r: commit_verify::mpc::MerkleBlock)
    ensures
        r == *b,
;

pub assume_specification[ <commit_verify::mpc::MerkleProof as Clone>::clone ](
    p: &commit_verify::mpc::MerkleProof,
) -> (r: commit_verify::mpc::MerkleProof)
    ensures
        r == *p,
;

pub assume_specification[ <bp::dbc::tapret::TapretProof as Clone>::clone ](
    p: &bp::dbc::tapret::TapretProof,
) -> (r: bp::dbc::tapret::TapretProof)
    ensures
        r == *p,
;

pub assume_specification[ <bp::dbc::opret::OpretProof as Clone>::clone ](
    p: &bp::dbc::opret::OpretProof,
) -> (r: bp::dbc::opret::OpretProof)
    ensures
        r == *p,
;

/// Relies on mpc::MerkleBlock::to_merkle_proof: succeeds exactly when the
/// contract's leaf is known (revealed) in the block, and then returns the
/// single-leaf proof for it, a function of the block and contract alone;
/// the returned proof is positionally consistent with the contract.
#[verifier::external_body]
fn mpc_to_merkle_proof(b: &commit_verify::mpc::MerkleBlock, contract_id: &ContractId) -> (r:
    Option<commit_verify::mpc::MerkleProof>)
    ensures
        (r is Some) == block_leaves(*b).contains_key(contract_id.words()),
        r matches Some(p) ==> p == proof_of(*b, contract_id.words()) && proof_fits(
            p,
            contract_id.words(),
        ),
{
    let pid = commit_verify::mpc::ProtocolId::copy_from_slice(&contract_id.to_bytes())
        .expect("identifiers are 32 bytes long");
    b.to_merkle_proof(pid).ok()
}

/// Relies on mpc::MerkleBlock::with: succeeds exactly when the proof is
/// positionally consistent with the supplied contract, and then returns the
/// block revealing the single supplied leaf, a function of the arguments
/// alone; extracting the proof for the same contract from that block gives
/// back the input proof.
#[verifier::external_body]
fn mpc_to_merkle_block(
    p: &commit_verify::mpc::MerkleProof,
    contract_id: &ContractId,
    bundle_id: &BundleId,
) -> (r: Option<commit_verify::mpc::MerkleBlock>)
    ensures
        (r is Some) == proof_fits(*p, contract_id.words()),
        r matches Some(b) ==> {
            &&& b == block_of(*p, contract_id.words(), bundle_id.words())
            &&& block_leaves(b) == Map::<(u64, u64, u64, u64), (u64, u64, u64, u64)>::empty()
                .insert(contract_id.words(), bundle_id.words())
            &&& proof_of(b, contract_id.words()) == *p
        },
{
    let pid = commit_verify::mpc::ProtocolId::copy_from_slice(&contract_id.to_bytes())
        .expect("identifiers are 32 bytes long");
    let msg = commit_verify::mpc::Message::copy_from_slice(&bundle_id.to_bytes())
        .expect("identifiers are 32 bytes long");
    commit_verify::mpc::MerkleBlock::with(p, pid, msg).ok()
}

/// Relies on mpc::MerkleBlock::to_known_message_map: enumerates exactly the
/// revealed `(contract, bundle)` leaves of the block, each contract once.
#[verifier::external_body]
fn mpc_known_leaves(b: &commit_verify::mpc::MerkleBlock) -> (r: Vec<(BundleId, ContractId)>)
    ensures
        forall|i: int|
            0 <= i < r@.len() ==> block_leaves(*b).contains_pair(
                (#[trigger] r@[i]).1.words(),
                r@[i].0.words(),
            ),
        forall|cw: (u64, u64, u64, u64), bw: (u64, u64, u64, u64)|
            block_leaves(*b).contains_pair(cw, bw) ==> exists|i: int|
                0 <= i < r@.len() && (#[trigger] r@[i]).1.words() == cw && r@[i].0.words() == bw,
        forall|i: int, j: int|
            0 <= i < r@.len() && 0 <= j < r@.len() && i != j ==> (#[trigger] r@[i]).1.words() != (
            #[trigger] r@[j]).1.words(),
{
    let w = |s: &[u8]| u64::from_be_bytes(s.try_into().unwrap());
    b.to_known_message_map()
        .iter()
        .map(|(p, m)| {
            (
                BundleId { w0: w(&m[..8]), w1: w(&m[8..16]), w2: w(&m[16..24]), w3: w(&m[24..]) },
                ContractId { w0: w(&p[..8]), w1: w(&p[8..16]), w2: w(&p[16..24]), w3: w(&p[24..]) },
            )
        })
        .collect()
}

/// The contract's bundle is absent from the committed set of a block-level
/// anchor.
#[derive(Clone, Copy, PartialEq, Eq, Structural, Debug)]
pub struct LeafNotKnown;

/// The supplied leaf identity is not what a compact proof actually
/// certifies.
#[derive(Clone, Copy, PartialEq, Eq, Structural, Debug)]
pub struct InvalidProof;

/// An anchor under one commitment scheme: the witnessing transaction id,
/// the MPC proof (block-level or compact), and the scheme's deterministic
/// commitment proof.
#[derive(Clone, Debug)]
pub struct Anchor<P, D> {
    pub txid: Txid,
    pub mpc_proof: P,
    pub dbc_proof: D,
}

/// A dual-scheme anchor: one or both of the two on-chain commitment
/// techniques, each pairing a transaction id with an MPC proof of
/// representation `P`.
#[derive(Clone, Debug)]
pub enum AnchorSet<P> {
    Tapret(Anchor<P, bp::dbc::tapret::TapretProof>),
    Opret(Anchor<P, bp::dbc::opret::OpretProof>),
    Dual {
        tapret: Anchor<P, bp::dbc::tapret::TapretProof>,
        opret: Anchor<P, bp::dbc::opret::OpretProof>,
    },
}

/// A chain-tagged anchor.
pub type XAnchor<P> = XChain<AnchorSet<P>>;

impl<P> AnchorSet<P> {
    /// The unambiguous witnessing transaction id: `None` when the two
    /// branches of a dual anchor disagree.
    pub open spec fn spec_txid(self) -> Option<Txid> {
        match self {
            AnchorSet::Tapret(a) => Some(a.txid),
            AnchorSet::Opret(a) => Some(a.txid),
            AnchorSet::Dual { tapret, opret } => if tapret.txid == opret.txid {
                Some(tapret.txid)
            } else {
                None
            },
        }
    }

    /// The witnessing transaction id with the tapret branch preferred on
    /// disagreement.
    pub open spec fn spec_txid_unchecked(self) -> Txid {
        match self {
            AnchorSet::Tapret(a) => a.txid,
            AnchorSet::Opret(a) => a.txid,
            AnchorSet::Dual { tapret, opret: _ } => tapret.txid,
        }
    }

    /// The witnessing transaction id, defined only when it is unambiguous:
    /// a dual anchor whose branches disagree yields `None`.
    pub fn txid(&self) -> (r: Option<Txid>)
        ensures
            r == self.spec_txid(),
    {
        match self {
            AnchorSet::Tapret(a) => Some(a.txid),
            AnchorSet::Opret(a) => Some(a.txid),
            AnchorSet::Dual { tapret, opret } => if tapret.txid == opret.txid {
                Some(tapret.txid)
            } else {
                None
            },
        }
    }

    /// The witnessing transaction id, preferring the tapret branch on
    /// disagreement: for callers that have independently established
    /// agreement.
    pub fn txid_unchecked(&self) -> (r: Txid)
        ensures
            r == self.spec_txid_unchecked(),
    {
        match self {
            AnchorSet::Tapret(a) => a.txid,
            AnchorSet::Opret(a) => a.txid,
            AnchorSet::Dual { tapret, opret: _ } => tapret.txid,
        }
    }

    /// Combines per-scheme anchors into an anchor set: an anchor must
    /// commit via at least one scheme, so two absent inputs yield `None`;
    /// exactly one present input yields that scheme's variant; two present
    /// inputs yield the dual variant.
    pub fn from_split(
        tapret: Option<Anchor<P, bp::dbc::tapret::TapretProof>>,
        opret: Option<Anchor<P, bp::dbc::opret::OpretProof>>,
    ) -> (r: Option<Self>)
        ensures
            (r is None) == (tapret is None && opret is None),
            tapret matches Some(t) ==> (opret matches Some(o) && r == Some(
                AnchorSet::Dual { tapret: t, opret: o },
            )) || (opret is None && r == Some(AnchorSet::Tapret(t))),
            tapret is None ==> (opret matches Some(o) ==> r == Some(AnchorSet::Opret(o))),
    {
        match (tapret, opret) {
            (Some(tapret), Some(opret)) => Some(AnchorSet::Dual { tapret, opret }),
            (Some(tapret), None) => Some(AnchorSet::Tapret(tapret)),
            (None, Some(opret)) => Some(AnchorSet::Opret(opret)),
            (None, None) => None,
        }
    }

    /// Splits the anchor set into its per-scheme branches, by reference.
    pub fn as_split(&self) -> (r: (
        Option<&Anchor<P, bp::dbc::tapret::TapretProof>>,
        Option<&Anchor<P, bp::dbc::opret::OpretProof>>,
    ))
        ensures
            self matches AnchorSet::Tapret(t) ==> {
                &&& r.0 matches Some(x) && *x == t
                &&& r.1 is None
            },
            self matches AnchorSet::Opret(o) ==> {
                &&& r.0 is None
                &&& r.1 matches Some(y) && *y == o
            },
            self matches AnchorSet::Dual { tapret, opret } ==> {
                &&& r.0 matches Some(x) && *x == tapret
                &&& r.1 matches Some(y) && *y == opret
            },
    {
        match self {
            AnchorSet::Tapret(tapret) => (Some(tapret), None),
            AnchorSet::Opret(opret) => (None, Some(opret)),
            AnchorSet::Dual { tapret, opret } => (Some(tapret), Some(opret)),
        }
    }

    /// Splits the anchor set into its per-scheme branches, by value.
    pub fn into_split(self) -> (r: (
        Option<Anchor<P, bp::dbc::tapret::TapretProof>>,
        Option<Anchor<P, bp::dbc::opret::OpretProof>>,
    ))
        ensures
            self matches AnchorSet::Tapret(t) ==> r == (
                Some(t),
                None::<Anchor<P, bp::dbc::opret::OpretProof>>,
            ),
            self matches AnchorSet::Opret(o) ==> r == (
                None::<Anchor<P, bp::dbc::tapret::TapretProof>>,
                Some(o),
            ),
            self matches AnchorSet::Dual { tapret, opret } ==> r == (Some(tapret), Some(opret)),
    {
        match self {
            AnchorSet::Tapret(tapret) => (Some(tapret), None),
            AnchorSet::Opret(opret) => (None, Some(opret)),
            AnchorSet::Dual { tapret, opret } => (Some(tapret), Some(opret)),
        }
    }

    /// The MPC proofs of the present branches, tapret first.
    pub open spec fn spec_mpc_proofs(self) -> Seq<P> {
        match self {
            AnchorSet::Tapret(a) => seq![a.mpc_proof],
            AnchorSet::Opret(a) => seq![a.mpc_proof],
            AnchorSet::Dual { tapret, opret } => seq![tapret.mpc_proof, opret.mpc_proof],
        }
    }

    /// References to the MPC proofs of the present branches, tapret first.
    pub fn mpc_proofs(&self) -> (r: Vec<&P>)
        ensures
            r@.map_values(|p: &P| *p) == self.spec_mpc_proofs(),
    {
        let mut out: Vec<&P> = Vec::new();
        match self {
            AnchorSet::Tapret(a) => {
                out.push(&a.mpc_proof);
            },
            AnchorSet::Opret(a) => {
                out.push(&a.mpc_proof);
            },
            AnchorSet::Dual { tapret, opret } => {
                out.push(&tapret.mpc_proof);
                out.push(&opret.mpc_proof);
            },
        }
        proof {
            assert(out@.map_values(|p: &P| *p) =~= self.spec_mpc_proofs());
        }
        out
    }
}

impl AnchorSet<commit_verify::mpc::MerkleBlock> {
    /// Whether every present branch of this block-level anchor reveals the
    /// contract's leaf.
    pub open spec fn leaves_known(self, cw: (u64, u64, u64, u64)) -> bool {
        match self {
            AnchorSet::Tapret(a) => block_leaves(a.mpc_proof).contains_key(cw),
            AnchorSet::Opret(a) => block_leaves(a.mpc_proof).contains_key(cw),
            AnchorSet::Dual { tapret, opret } => block_leaves(tapret.mpc_proof).contains_key(cw)
                && block_leaves(opret.mpc_proof).contains_key(cw),
        }
    }

    /// The compaction of this anchor for one contract: each branch's MPC
    /// block replaced by the contract's single-leaf proof.
    pub open spec fn spec_compact(self, cw: (u64, u64, u64, u64)) -> AnchorSet<
        commit_verify::mpc::MerkleProof,
    > {
        match self {
            AnchorSet::Tapret(a) => AnchorSet::Tapret(
                Anchor {
                    txid: a.txid,
                    mpc_proof: proof_of(a.mpc_proof, cw),
                    dbc_proof: a.dbc_proof,
                },
            ),
            AnchorSet::Opret(a) => AnchorSet::Opret(
                Anchor {
                    txid: a.txid,
                    mpc_proof: proof_of(a.mpc_proof, cw),
                    dbc_proof: a.dbc_proof,
                },
            ),
            AnchorSet::Dual { tapret, opret } => AnchorSet::Dual {
                tapret: Anchor {
                    txid: tapret.txid,
                    mpc_proof: proof_of(tapret.mpc_proof, cw),
                    dbc_proof: tapret.dbc_proof,
                },
                opret: Anchor {
                    txid: opret.txid,
                    mpc_proof: proof_of(opret.mpc_proof, cw),
                    dbc_proof: opret.dbc_proof,
                },
            },
        }
    }

    /// Whether some present branch commits the `(contract, bundle)` pair.
    pub open spec fn spec_known_pair(
        self,
        cw: (u64, u64, u64, u64),
        bw: (u64, u64, u64, u64),
    ) -> bool {
        match self {
            AnchorSet::Tapret(a) => block_leaves(a.mpc_proof).contains_pair(cw, bw),
            AnchorSet::Opret(a) => block_leaves(a.mpc_proof).contains_pair(cw, bw),
            AnchorSet::Dual { tapret, opret } => block_leaves(tapret.mpc_proof).contains_pair(
                cw,
                bw,
            ) || block_leaves(opret.mpc_proof).contains_pair(cw, bw),
        }
    }

    /// Compacts this block-level anchor into a single-contract proof
    /// anchor, consuming it: succeeds exactly when every present branch
    /// reveals the contract's leaf, and the result is the branch-wise
    /// compaction, positionally consistent with the contract.
    pub fn into_merkle_proof(self, contract_id: ContractId) -> (r: Result<
        AnchorSet<commit_verify::mpc::MerkleProof>,
        LeafNotKnown,
    >)
        ensures
            (r is Ok) == self.leaves_known(contract_id.words()),
            r matches Err(e) ==> e == LeafNotKnown,
            r matches Ok(s) ==> s == self.spec_compact(contract_id.words()) && s.proofs_fit(
                contract_id.words(),
            ),
    {
        match self {
            AnchorSet::Tapret(a) => match mpc_to_merkle_proof(&a.mpc_proof, &contract_id) {
                Some(p) => Ok(
                    AnchorSet::Tapret(
                        Anchor { txid: a.txid, mpc_proof: p, dbc_proof: a.dbc_proof },
                    ),
                ),
                None => Err(LeafNotKnown),
            },
            AnchorSet::Opret(a) => match mpc_to_merkle_proof(&a.mpc_proof, &contract_id) {
                Some(p) => Ok(
                    AnchorSet::Opret(Anchor { txid: a.txid, mpc_proof: p, dbc_proof: a.dbc_proof }),
                ),
                None => Err(LeafNotKnown),
            },
            AnchorSet::Dual { tapret, opret } => match mpc_to_merkle_proof(
                &tapret.mpc_proof,
                &contract_id,
            ) {
                None => Err(LeafNotKnown),
                Some(tp) => match mpc_to_merkle_proof(&opret.mpc_proof, &contract_id) {
                    None => Err(LeafNotKnown),
                    Some(op) => Ok(
                        AnchorSet::Dual {
                            tapret: Anchor {
                                txid: tapret.txid,
                                mpc_proof: tp,
                                dbc_proof: tapret.dbc_proof,
                            },
                            opret: Anchor {
                                txid: opret.txid,
                                mpc_proof: op,
                                dbc_proof: opret.dbc_proof,
                            },
                        },
                    ),
                },
            },
        }
    }

    /// Compacts this block-level anchor into a single-contract proof
    /// anchor, leaving the original in place.
    pub fn to_merkle_proof(&self, contract_id: ContractId) -> (r: Result<
        AnchorSet<commit_verify::mpc::MerkleProof>,
        LeafNotKnown,
    >)
        ensures
            (r is Ok) == self.leaves_known(contract_id.words()),
            r matches Err(e) ==> e == LeafNotKnown,
            r matches Ok(s) ==> s == self.spec_compact(contract_id.words()) && s.proofs_fit(
                contract_id.words(),
            ),
    {
        let owned = match self {
            AnchorSet::Tapret(a) => AnchorSet::Tapret(
                Anchor {
                    txid: a.txid,
                    mpc_proof: a.mpc_proof.clone(),
                    dbc_proof: a.dbc_proof.clone(),
                },
            ),
            AnchorSet::Opret(a) => AnchorSet::Opret(
                Anchor {
                    txid: a.txid,
                    mpc_proof: a.mpc_proof.clone(),
                    dbc_proof: a.dbc_proof.clone(),
                },
            ),
            AnchorSet::Dual { tapret, opret } => AnchorSet::Dual {
                tapret: Anchor {
                    txid: tapret.txid,
                    mpc_proof: tapret.mpc_proof.clone(),
                    dbc_proof: tapret.dbc_proof.clone(),
                },
                opret: Anchor {
                    txid: opret.txid,
                    mpc_proof: opret.mpc_proof.clone(),
                    dbc_proof: opret.dbc_proof.clone(),
                },
            },
        };
        proof {
            assert(owned == *self);
        }
        owned.into_merkle_proof(contract_id)
    }

    /// Every `(bundle, contract)` pair committed by this block-level
    /// anchor, tapret branch first: how an indexer discovers which
    /// contracts a transaction touched.
    pub fn known_bundle_ids(&self) -> (r: Vec<(BundleId, ContractId)>)
        ensures
            forall|i: int|
                0 <= i < r@.len() ==> self.spec_known_pair(
                    (#[trigger] r@[i]).1.words(),
                    r@[i].0.words(),
                ),
            forall|cw: (u64, u64, u64, u64), bw: (u64, u64, u64, u64)|
                self.spec_known_pair(cw, bw) ==> exists|i: int|
                    0 <= i < r@.len() && (#[trigger] r@[i]).1.words() == cw && r@[i].0.words()
                        == bw,
    {
        match self {
            AnchorSet::Tapret(a) => mpc_known_leaves(&a.mpc_proof),
            AnchorSet::Opret(a) => mpc_known_leaves(&a.mpc_proof),
            AnchorSet::Dual { tapret, opret } => {
                let mut v = mpc_known_leaves(&tapret.mpc_proof);
                let mut w = mpc_known_leaves(&opret.mpc_proof);
                let ghost tl = v@;
                let ghost ol = w@;
                v.append(&mut w);
                proof {
                    assert forall|cw: (u64, u64, u64, u64), bw: (u64, u64, u64, u64)|
                        self.spec_known_pair(cw, bw) implies exists|i: int|
                        0 <= i < v@.len() && (#[trigger] v@[i]).1.words() == cw && v@[i].0.words()
                            == bw by {
                        if block_leaves(tapret.mpc_proof).contains_pair(cw, bw) {
                            let i = choose|i: int|
                                0 <= i < tl.len() && (#[trigger] tl[i]).1.words() == cw
                                    && tl[i].0.words() == bw;
                            assert(v@[i].1.words() == cw && v@[i].0.words() == bw);
                        } else {
                            let i = choose|i: int|
                                0 <= i < ol.len() && (#[trigger] ol[i]).1.words() == cw
                                    && ol[i].0.words() == bw;
                            assert(v@[tl.len() + i].1.words() == cw && v@[tl.len() + i].0.words()
                                == bw);
                        }
                    }
                }
                v
            },
        }
    }
}

impl AnchorSet<commit_verify::mpc::MerkleProof> {
    /// Whether every present branch's proof is positionally consistent with
    /// the contract.
    pub open spec fn proofs_fit(self, cw: (u64, u64, u64, u64)) -> bool {
        match self {
            AnchorSet::Tapret(a) => proof_fits(a.mpc_proof, cw),
            AnchorSet::Opret(a) => proof_fits(a.mpc_proof, cw),
            AnchorSet::Dual { tapret, opret } => proof_fits(tapret.mpc_proof, cw) && proof_fits(
                opret.mpc_proof,
                cw,
            ),
        }
    }

    /// The expansion of this proof-level anchor for a supplied leaf
    /// identity: each branch's proof replaced by the reconstructed
    /// single-leaf block.
    pub open spec fn spec_expand(
        self,
        cw: (u64, u64, u64, u64),
        bw: (u64, u64, u64, u64),
    ) -> AnchorSet<commit_verify::mpc::MerkleBlock> {
        match self {
            AnchorSet::Tapret(a) => AnchorSet::Tapret(
                Anchor {
                    txid: a.txid,
                    mpc_proof: block_of(a.mpc_proof, cw, bw),
                    dbc_proof: a.dbc_proof,
                },
            ),
            AnchorSet::Opret(a) => AnchorSet::Opret(
                Anchor {
                    txid: a.txid,
                    mpc_proof: block_of(a.mpc_proof, cw, bw),
                    dbc_proof: a.dbc_proof,
                },
            ),
            AnchorSet::Dual { tapret, opret } => AnchorSet::Dual {
                tapret: Anchor {
                    txid: tapret.txid,
                    mpc_proof: block_of(tapret.mpc_proof, cw, bw),
                    dbc_proof: tapret.dbc_proof,
                },
                opret: Anchor {
                    txid: opret.txid,
                    mpc_proof: block_of(opret.mpc_proof, cw, bw),
                    dbc_proof: opret.dbc_proof,
                },
            },
        }
    }

    /// Expands this single-contract proof anchor into a block-level anchor,
    /// consuming it. The caller supplies the exact leaf identity the proof
    /// certifies: the expansion succeeds exactly when the proof is
    /// positionally consistent with the supplied contract, and the
    /// resulting anchor reveals exactly that leaf and compacts back to this
    /// very anchor.
    pub fn into_merkle_block(self, contract_id: ContractId, bundle_id: BundleId) -> (r: Result<
        AnchorSet<commit_verify::mpc::MerkleBlock>,
        InvalidProof,
    >)
        ensures
            (r is Ok) == self.proofs_fit(contract_id.words()),
            r matches Err(e) ==> e == InvalidProof,
            r matches Ok(s) ==> {
                &&& s == self.spec_expand(contract_id.words(), bundle_id.words())
                &&& s.leaves_known(contract_id.words())
                &&& s.spec_known_pair(contract_id.words(), bundle_id.words())
                &&& s.spec_compact(contract_id.words()) == self
            },
    {
        match self {
            AnchorSet::Tapret(a) => match mpc_to_merkle_block(
                &a.mpc_proof,
                &contract_id,
                &bundle_id,
            ) {
                Some(b) => Ok(
                    AnchorSet::Tapret(
                        Anchor { txid: a.txid, mpc_proof: b, dbc_proof: a.dbc_proof },
                    ),
                ),
                None => Err(InvalidProof),
            },
            AnchorSet::Opret(a) => match mpc_to_merkle_block(
                &a.mpc_proof,
                &contract_id,
                &bundle_id,
            ) {
                Some(b) => Ok(
                    AnchorSet::Opret(Anchor { txid: a.txid, mpc_proof: b, dbc_proof: a.dbc_proof }),
                ),
                None => Err(InvalidProof),
            },
            AnchorSet::Dual { tapret, opret } => match mpc_to_merkle_block(
                &tapret.mpc_proof,
                &contract_id,
                &bundle_id,
            ) {
                None => Err(InvalidProof),
                Some(tb) => match mpc_to_merkle_block(&opret.mpc_proof, &contract_id, &bundle_id) {
                    None => Err(InvalidProof),
                    Some(ob) => Ok(
                        AnchorSet::Dual {
                            tapret: Anchor {
                                txid: tapret.txid,
                                mpc_proof: tb,
                                dbc_proof: tapret.dbc_proof,
                            },
                            opret: Anchor {
                                txid: opret.txid,
                                mpc_proof: ob,
                                dbc_proof: opret.dbc_proof,
                            },
                        },
                    ),
                },
            },
        }
    }

    /// Expands this single-contract proof anchor into a block-level anchor,
    /// leaving the original in place.
    pub fn to_merkle_block(&self, contract_id: ContractId, bundle_id: BundleId) -> (r: Result<
        AnchorSet<commit_verify::mpc::MerkleBlock>,
        InvalidProof,
    >)
        ensures
            (r is Ok) == self.proofs_fit(contract_id.words()),
            r matches Err(e) ==> e == InvalidProof,
            r matches Ok(s) ==> {
                &&& s == self.spec_expand(contract_id.words(), bundle_id.words())
                &&& s.leaves_known(contract_id.words())
                &&& s.spec_known_pair(contract_id.words(), bundle_id.words())
                &&& s.spec_compact(contract_id.words()) == *self
            },
    {
        let owned = match self {
            AnchorSet::Tapret(a) => AnchorSet::Tapret(
                Anchor {
                    txid: a.txid,
                    mpc_proof: a.mpc_proof.clone(),
                    dbc_proof: a.dbc_proof.clone(),
                },
            ),
            AnchorSet::Opret(a) => AnchorSet::Opret(
                Anchor {
                    txid: a.txid,
                    mpc_proof: a.mpc_proof.clone(),
                    dbc_proof: a.dbc_proof.clone(),
                },
            ),
            AnchorSet::Dual { tapret, opret } => AnchorSet::Dual {
                tapret: Anchor {
                    txid: tapret.txid,
                    mpc_proof: tapret.mpc_proof.clone(),
                    dbc_proof: tapret.dbc_proof.clone(),
                },
                opret: Anchor {
                    txid: opret.txid,
                    mpc_proof: opret.mpc_proof.clone(),
                    dbc_proof: opret.dbc_proof.clone(),
                },
            },
        };
        proof {
            assert(owned == *self);
        }
        owned.into_merkle_block(contract_id, bundle_id)
    }
}

/// Round trip of proof compaction: compacting a block-level anchor to the
/// proof for a known leaf, expanding that proof with the same leaf identity,
/// and compacting once more reproduces the first compaction exactly. The
/// result pairs the first compaction with the re-compaction; the two are
/// equal.
pub fn compact_expand_compact(
    anchor: &AnchorSet<commit_verify::mpc::MerkleBlock>,
    contract_id: ContractId,
    bundle_id: BundleId,
) -> (r: Option<
    (AnchorSet<commit_verify::mpc::MerkleProof>, AnchorSet<commit_verify::mpc::MerkleProof>),
>)
    ensures
        (r is Some) == anchor.leaves_known(contract_id.words()),
        r matches Some(pair) ==> pair.0 == anchor.spec_compact(contract_id.words()) && pair.1
            == pair.0,
{
    let first = match anchor.to_merkle_proof(contract_id) {
        Ok(p) => p,
        Err(_) => {
            return None;
        },
    };
    let expanded = match first.to_merkle_block(contract_id, bundle_id) {
        Ok(b) => b,
        Err(_) => {
            proof {
                assert(false);
            }
            return None;
        },
    };
    let second = match expanded.into_merkle_proof(contract_id) {
        Ok(p) => p,
        Err(_) => {
            proof {
                assert(false);
            }
            return None;
        },
    };
    Some((first, second))
}

impl<P> XChain<AnchorSet<P>> {
    /// The chain-tagged witness id of the anchor, when unambiguous.
    pub open spec fn spec_witness_id(self) -> Option<WitnessId> {
        match self {
            XChain::Bitcoin(set) => match set.spec_txid() {
                Some(t) => Some(XChain::Bitcoin(t)),
                None => None,
            },
            XChain::Liquid(set) => match set.spec_txid() {
                Some(t) => Some(XChain::Liquid(t)),
                None => None,
            },
        }
    }

    /// The chain-tagged witness id with the tapret branch preferred.
    pub open spec fn spec_witness_id_unchecked(self) -> WitnessId {
        match self {
            XChain::Bitcoin(set) => XChain::Bitcoin(set.spec_txid_unchecked()),
            XChain::Liquid(set) => XChain::Liquid(set.spec_txid_unchecked()),
        }
    }

    /// The witnessing transaction id of the anchor, tagged with its chain
    /// layer: defined exactly when the underlying anchor set resolves to
    /// one unambiguous transaction id.
    pub fn witness_id(&self) -> (r: Option<WitnessId>)
        ensures
            r == self.spec_witness_id(),
    {
        match self {
            XChain::Bitcoin(set) => match set.txid() {
                Some(t) => Some(XChain::Bitcoin(t)),
                None => None,
            },
            XChain::Liquid(set) => match set.txid() {
                Some(t) => Some(XChain::Liquid(t)),
                None => None,
            },
        }
    }

    /// The chain-tagged witness id, preferring the tapret branch on
    /// disagreement: for callers that have independently established
    /// agreement.
    pub fn witness_id_unchecked(&self) -> (r: WitnessId)
        ensures
            r == self.spec_witness_id_unchecked(),
    {
        match self {
            XChain::Bitcoin(set) => XChain::Bitcoin(set.txid_unchecked()),
            XChain::Liquid(set) => XChain::Liquid(set.txid_unchecked()),
        }
    }
}

impl XChain<AnchorSet<commit_verify::mpc::MerkleBlock>> {
    /// Every `(bundle, contract)` pair committed by the wrapped block-level
    /// anchor.
    pub fn known_bundle_ids(&self) -> (r: Vec<(BundleId, ContractId)>)
        ensures
            forall|i: int|
                0 <= i < r@.len() ==> self.spec_inner().spec_known_pair(
                    (#[trigger] r@[i]).1.words(),
                    r@[i].0.words(),
                ),
            forall|cw: (u64, u64, u64, u64), bw: (u64, u64, u64, u64)|
                self.spec_inner().spec_known_pair(cw, bw) ==> exists|i: int|
                    0 <= i < r@.len() && (#[trigger] r@[i]).1.words() == cw && r@[i].0.words()
                        == bw,
    {
        match self {
            XChain::Bitcoin(set) => set.known_bundle_ids(),
            XChain::Liquid(set) => set.known_bundle_ids(),
        }
    }

    /// Compacts the wrapped block-level anchor into a single-contract
    /// proof anchor, consuming it; the chain tag is preserved.
    pub fn into_merkle_proof(self, contract_id: ContractId) -> (r: Result<
        XChain<AnchorSet<commit_verify::mpc::MerkleProof>>,
        LeafNotKnown,
    >)
        ensures
            (r is Ok) == self.spec_inner().leaves_known(contract_id.words()),
            r matches Err(e) ==> e == LeafNotKnown,
            r matches Ok(x) ==> x.spec_layer1() == self.spec_layer1() && x.spec_inner()
                == self.spec_inner().spec_compact(contract_id.words()),
    {
        match self {
            XChain::Bitcoin(set) => match set.into_merkle_proof(contract_id) {
                Ok(s) => Ok(XChain::Bitcoin(s)),
                Err(e) => Err(e),
            },
            XChain::Liquid(set) => match set.into_merkle_proof(contract_id) {
                Ok(s) => Ok(XChain::Liquid(s)),
                Err(e) => Err(e),
            },
        }
    }

    /// Compacts the wrapped block-level anchor into a single-contract
    /// proof anchor, leaving the original in place.
    pub fn to_merkle_proof(&self, contract_id: ContractId) -> (r: Result<
        XChain<AnchorSet<commit_verify::mpc::MerkleProof>>,
        LeafNotKnown,
    >)
        ensures
            (r is Ok) == self.spec_inner().leaves_known(contract_id.words()),
            r matches Err(e) ==> e == LeafNotKnown,
            r matches Ok(x) ==> x.spec_layer1() == self.spec_layer1() && x.spec_inner()
                == self.spec_inner().spec_compact(contract_id.words()),
    {
        match self {
            XChain::Bitcoin(set) => match set.to_merkle_proof(contract_id) {
                Ok(s) => Ok(XChain::Bitcoin(s)),
                Err(e) => Err(e),
            },
            XChain::Liquid(set) => match set.to_merkle_proof(contract_id) {
                Ok(s) => Ok(XChain::Liquid(s)),
                Err(e) => Err(e),
            },
        }
    }
}

impl XChain<AnchorSet<commit_verify::mpc::MerkleProof>> {
    /// Expands the wrapped proof anchor into a block-level anchor,
    /// consuming it; the chain tag is preserved.
    pub fn into_merkle_block(self, contract_id: ContractId, bundle_id: BundleId) -> (r: Result<
        XChain<AnchorSet<commit_verify::mpc::MerkleBlock>>,
        InvalidProof,
    >)
        ensures
            (r is Ok) == self.spec_inner().proofs_fit(contract_id.words()),
            r matches Err(e) ==> e == InvalidProof,
            r matches Ok(x) ==> {
                &&& x.spec_layer1() == self.spec_layer1()
                &&& x.spec_inner() == self.spec_inner().spec_expand(
                    contract_id.words(),
                    bundle_id.words(),
                )
                &&& x.spec_inner().spec_compact(contract_id.words()) == self.spec_inner()
            },
    {
        match self {
            XChain::Bitcoin(set) => match set.into_merkle_block(contract_id, bundle_id) {
                Ok(s) => Ok(XChain::Bitcoin(s)),
                Err(e) => Err(e),
            },
            XChain::Liquid(set) => match set.into_merkle_block(contract_id, bundle_id) {
                Ok(s) => Ok(XChain::Liquid(s)),
                Err(e) => Err(e),
            },
        }
    }

    /// Expands the wrapped proof anchor into a block-level anchor, leaving
    /// the original in place.
    pub fn to_merkle_block(&self, contract_id: ContractId, bundle_id: BundleId) -> (r: Result<
        XChain<AnchorSet<commit_verify::mpc::MerkleBlock>>,
        InvalidProof,
    >)
        ensures
            (r is Ok) == self.spec_inner().proofs_fit(contract_id.words()),
            r matches Err(e) ==> e == InvalidProof,
            r matches Ok(x) ==> {
                &&& x.spec_layer1() == self.spec_layer1()
                &&& x.spec_inner() == self.spec_inner().spec_expand(
                    contract_id.words(),
                    bundle_id.words(),
                )
                &&& x.spec_inner().spec_compact(contract_id.words()) == self.spec_inner()
            },
    {
        match self {
            XChain::Bitcoin(set) => match set.to_merkle_block(contract_id, bundle_id) {
                Ok(s) => Ok(XChain::Bitcoin(s)),
                Err(e) => Err(e),
            },
            XChain::Liquid(set) => match set.to_merkle_block(contract_id, bundle_id) {
                Ok(s) => Ok(XChain::Liquid(s)),
                Err(e) => Err(e),
            },
        }
    }
}

/// An ordered batch of state transitions sharing one witnessing
/// transaction, identified by its content-addressed bundle id.
#[derive(Clone, Copy, PartialEq, Eq, Structural, Debug)]
pub struct TransitionBundle {
    pub bundle_id: BundleId,
}

impl TransitionBundle {
    /// The content-addressed identifier of the bundle.
    pub fn bundle_id(&self) -> (r: BundleId)
        ensures
            r == self.bundle_id,
    {
        self.bundle_id
    }
}

/// A transition bundle paired with the chain-tagged anchor recording its
/// inclusion in a witnessing transaction. Read-only once created.
#[derive(Clone, Debug)]
pub struct AnchoredBundle {
    pub anchor: XChain<AnchorSet<commit_verify::mpc::MerkleProof>>,
    pub bundle: TransitionBundle,
}

impl AnchoredBundle {
    /// The content-addressed identifier of the anchored bundle.
    pub fn bundle_id(&self) -> (r: BundleId)
        ensures
            r == self.bundle.bundle_id,
    {
        self.bundle.bundle_id()
    }
}

/// The consensus ordering data of a witnessing transaction: its ordering
/// tag paired with its chain-tagged identifier.
#[derive(Clone, Copy, PartialEq, Eq, Structural, Hash, Debug)]
pub struct WitnessAnchor {
    pub witness_ord: WitnessOrd,
    pub witness_id: WitnessId,
}

impl WitnessAnchor {
    /// The strict total order over witness anchors: by ordering tag first,
    /// with the witness id as the tie-break.
    pub open spec fn spec_lt(self, other: Self) -> bool {
        self.witness_ord.spec_lt(other.witness_ord) || (self.witness_ord == other.witness_ord
            && witness_id_lt(self.witness_id, other.witness_id))
    }

    /// Compares two witness anchors under the consensus order.
    pub fn cmp(&self, other: &Self) -> (r: core::cmp::Ordering)
        ensures
            (r == core::cmp::Ordering::Equal) == (*self == *other),
            (r == core::cmp::Ordering::Less) == self.spec_lt(*other),
            (r == core::cmp::Ordering::Greater) == other.spec_lt(*self),
    {
        proof {
            lemma_witness_order_total(*self, *other);
        }
        if self == other {
            return core::cmp::Ordering::Equal;
        }
        if self.witness_ord.lt(&other.witness_ord) {
            core::cmp::Ordering::Less
        } else if other.witness_ord.lt(&self.witness_ord) {
            core::cmp::Ordering::Greater
        } else if witness_id_less(&self.witness_id, &other.witness_id) {
            core::cmp::Ordering::Less
        } else {
            core::cmp::Ordering::Greater
        }
    }

    /// A witness anchor for a transaction currently known only from the
    /// mempool.
    pub fn from_mempool(witness_id: WitnessId) -> (r: Self)
        ensures
            r.witness_ord == WitnessOrd::OffChain,
            r.witness_id == witness_id,
    {
        WitnessAnchor { witness_ord: WitnessOrd::OffChain, witness_id }
    }
}

impl PartialOrd for WitnessAnchor {
    fn partial_cmp(&self, other: &Self) -> (r: Option<core::cmp::Ordering>) {
        proof {
            lemma_witness_order_total(*self, *other);
        }
        Some(self.cmp(other))
    }
}

impl vstd::std_specs::cmp::PartialOrdSpecImpl for WitnessAnchor {
    open spec fn obeys_partial_cmp_spec() -> bool {
        true
    }

    open spec fn partial_cmp_spec(&self, other: &Self) -> Option<core::cmp::Ordering> {
        Some(
            if *self == *other {
                core::cmp::Ordering::Equal
            } else if self.spec_lt(*other) {
                core::cmp::Ordering::Less
            } else {
                core::cmp::Ordering::Greater
            },
        )
    }
}

/// Totality of the witness-anchor order: for any two witness anchors
/// exactly one of "less", "equal", "greater" holds, and an off-chain
/// witness never compares greater than an on-chain one.
pub proof fn lemma_witness_order_total(a: WitnessAnchor, b: WitnessAnchor)
    ensures
        a == b ==> !a.spec_lt(b) && !b.spec_lt(a),
        a != b ==> (a.spec_lt(b) <==> !b.spec_lt(a)),
        a.witness_ord is OffChain && b.witness_ord is OnChain ==> a.spec_lt(b) && !b.spec_lt(a),
{
}

} // verus!
