//! Fungible state values: revealed amounts with their blinding factors, and
//! their confidential form as homomorphic value commitments with
//! zero-knowledge range proofs.
//!
//! The cryptographic primitives are supplied by the `lnpbp_secp256k1zkp`
//! crate; their results are named by uninterpreted functions, and everything
//! around the calls is verified.

use vstd::prelude::*;

verus! {

/// Whether a 32-byte string is a valid non-zero secret scalar, as decided by
/// secp256k1 key verification.
pub uninterp spec fn secret_key_ok(bytes: Seq<u8>) -> bool;

/// The 33-byte Pedersen commitment to `value` under the given blinding key.
/// The commitment is a function of the value and blinding alone.
pub uninterp spec fn pedersen_of(value: u64, blinding: Seq<u8>) -> Seq<u8>;

/// The bulletproof range proof produced for `value` under the given blinding
/// key. The proof is a function of the value and blinding alone.
pub uninterp spec fn bulletproof_of(value: u64, blinding: Seq<u8>) -> Seq<u8>;

/// Whether the range proof attests that the value concealed in the
/// commitment lies in the valid 64-bit range.
pub uninterp spec fn range_proof_ok(commitment: Seq<u8>, proof: Seq<u8>) -> bool;

/// Whether the homomorphic sum of the positive commitments equals the
/// homomorphic sum of the negative commitments.
pub uninterp spec fn commit_sum_ok(positive: Seq<Seq<u8>>, negative: Seq<Seq<u8>>) -> bool;

/// The byte encoding of the scalar one: the fixed blinding factor used for
/// the issued-supply reference commitment.
pub open spec fn one_key_bytes() -> Seq<u8> {
    Seq::new(32, |i: int| if i == 31 { 1u8 } else { 0u8 })
}

/// The longest range proof the cryptographic collaborator can produce.
pub open spec fn max_range_proof_len() -> nat {
    5134
}

/// A blinding factor: a valid secret scalar, established at construction.
#[derive(Clone, Debug)]
pub struct BlindingFactor {
    pub bytes: Vec<u8>,
}

impl BlindingFactor {
    /// Well-formedness: 32 bytes encoding a valid non-zero scalar.
    pub open spec fn wf(self) -> bool {
        self.bytes@.len() == 32 && secret_key_ok(self.bytes@)
    }
}

/// A Pedersen commitment to a fungible amount, in serialised form.
#[derive(Clone, Debug)]
pub struct PedersenCommitment {
    pub bytes: Vec<u8>,
}

impl PedersenCommitment {
    /// Well-formedness: the serialised commitment is 33 bytes long.
    pub open spec fn wf(self) -> bool {
        self.bytes@.len() == 33
    }
}

/// A bulletproof range proof, in serialised form.
#[derive(Clone, Debug)]
pub struct RangeProof {
    pub bytes: Vec<u8>,
}

impl RangeProof {
    /// Well-formedness: the proof fits the collaborator's size limit.
    pub open spec fn wf(self) -> bool {
        self.bytes@.len() <= max_range_proof_len()
    }
}

/// A fungible amount in revealed form: the plain value and the blinding
/// factor used for its commitment.
#[derive(Clone, Debug)]
pub struct RevealedValue {
    pub value: u64,
    pub blinding: BlindingFactor,
}

impl RevealedValue {
    /// Well-formedness: the blinding factor is a valid scalar.
    pub open spec fn wf(self) -> bool {
        self.blinding.wf()
    }
}

/// A fungible amount in confidential form: a value commitment together with
/// the range proof for the concealed amount.
#[derive(Clone, Debug)]
pub struct ConcealedValue {
    pub commitment: PedersenCommitment,
    pub range_proof: RangeProof,
}

impl ConcealedValue {
    /// Well-formedness of both components.
    pub open spec fn wf(self) -> bool {
        self.commitment.wf() && self.range_proof.wf()
    }
}

/// Fungible state attached to a single seal: either a revealed amount or its
/// confidential form.
#[derive(Clone, Debug)]
pub enum FungibleState {
    Revealed(RevealedValue),
    Concealed(ConcealedValue),
}

impl FungibleState {
    /// Well-formedness of the carried value.
    pub open spec fn wf(self) -> bool {
        match self {
            FungibleState::Revealed(v) => v.wf(),
            FungibleState::Concealed(c) => c.wf(),
        }
    }

    /// The commitment bytes of the confidential form of this state.
    pub open spec fn conf_commitment_bytes(self) -> Seq<u8> {
        match self {
            FungibleState::Revealed(v) => pedersen_of(v.value, v.blinding.bytes@),
            FungibleState::Concealed(c) => c.commitment.bytes@,
        }
    }

    /// The range-proof bytes of the confidential form of this state.
    pub open spec fn conf_proof_bytes(self) -> Seq<u8> {
        match self {
            FungibleState::Revealed(v) => bulletproof_of(v.value, v.blinding.bytes@),
            FungibleState::Concealed(c) => c.range_proof.bytes@,
        }
    }
}

/// Relies on secp256k1zkp SecretKey::from_slice: accepts exactly the 32-byte
/// encodings of valid non-zero scalars.
#[verifier::external_body]
pub fn blinding_from_bytes(bytes: Vec<u8>) -> (r: Option<BlindingFactor>)
    ensures
        (r is Some) == (bytes@.len() == 32 && secret_key_ok(bytes@)),
        r matches Some(b) ==> b.bytes@ == bytes@,
{
    let secp = lnpbp_secp256k1zkp::Secp256k1::with_caps(lnpbp_secp256k1zkp::ContextFlag::Commit);
    match lnpbp_secp256k1zkp::key::SecretKey::from_slice(&secp, &bytes) {
        Ok(_) => Some(BlindingFactor { bytes }),
        Err(_) => None,
    }
}

/// Relies on secp256k1zkp ONE_KEY: the scalar one, a valid secret key.
#[verifier::external_body]
pub fn one_key() -> (r: BlindingFactor)
    ensures
        r.bytes@ == one_key_bytes(),
        secret_key_ok(r.bytes@),
{
    BlindingFactor { bytes: lnpbp_secp256k1zkp::key::ONE_KEY.0.to_vec() }
}

/// Relies on secp256k1zkp Secp256k1::commit: the 33-byte Pedersen commitment
/// to `value` under the blinding key, a function of the two arguments alone;
/// with commit capability and a valid key the call cannot fail.
#[verifier::external_body]
pub fn pedersen_commit(value: u64, blinding: &BlindingFactor) -> (r: PedersenCommitment)
    requires
        blinding.wf(),
    ensures
        r.bytes@ == pedersen_of(value, blinding.bytes@),
        r.bytes@.len() == 33,
{
    let secp = lnpbp_secp256k1zkp::Secp256k1::with_caps(lnpbp_secp256k1zkp::ContextFlag::Commit);
    let key = lnpbp_secp256k1zkp::key::SecretKey::from_slice(&secp, &blinding.bytes)
        .expect("blinding factors hold valid keys");
    let c = secp.commit(value, key).expect("context has commit capability");
    PedersenCommitment { bytes: c.0.to_vec() }
}

/// Relies on secp256k1zkp Secp256k1::bullet_proof: the range proof for
/// `value` under the blinding key (also used as the nonce), a function of
/// the two arguments alone; a proof produced this way verifies against the
/// commitment to the same value under the same blinding.
#[verifier::external_body]
pub fn bullet_proof_for(value: u64, blinding: &BlindingFactor) -> (r: RangeProof)
    requires
        blinding.wf(),
    ensures
        r.bytes@ == bulletproof_of(value, blinding.bytes@),
        r.bytes@.len() <= max_range_proof_len(),
        range_proof_ok(pedersen_of(value, blinding.bytes@), r.bytes@),
{
    let secp = lnpbp_secp256k1zkp::Secp256k1::with_caps(lnpbp_secp256k1zkp::ContextFlag::Commit);
    let key = lnpbp_secp256k1zkp::key::SecretKey::from_slice(&secp, &blinding.bytes)
        .expect("blinding factors hold valid keys");
    let p = secp.bullet_proof(value, key.clone(), key.clone(), key, None, None);
    RangeProof { bytes: p.proof[..p.plen].to_vec() }
}

/// Relies on secp256k1zkp Secp256k1::verify_bullet_proof: whether the range
/// proof attests that the amount concealed in the commitment lies in the
/// valid 64-bit range; the outcome is a function of the two byte strings
/// alone.
#[verifier::external_body]
pub fn verify_range_proof(commitment: &PedersenCommitment, proof: &RangeProof) -> (r: bool)
    requires
        proof.wf(),
    ensures
        r == range_proof_ok(commitment.bytes@, proof.bytes@),
{
    let secp = lnpbp_secp256k1zkp::Secp256k1::with_caps(lnpbp_secp256k1zkp::ContextFlag::Commit);
    let c = lnpbp_secp256k1zkp::pedersen::Commitment::from_vec(commitment.bytes.clone());
    let mut arr = [0u8; lnpbp_secp256k1zkp::constants::MAX_PROOF_SIZE];
    arr[..proof.bytes.len()].copy_from_slice(&proof.bytes);
    let p = lnpbp_secp256k1zkp::pedersen::RangeProof { proof: arr, plen: proof.bytes.len() };
    secp.verify_bullet_proof(c, p, None).is_ok()
}

/// Relies on secp256k1zkp Secp256k1::verify_commit_sum: whether the
/// homomorphic sum of the positive commitments equals the sum of the
/// negative ones; the outcome is a function of the commitment bytes alone.
#[verifier::external_body]
pub fn verify_commitments_balance(
    positive: &Vec<PedersenCommitment>,
    negative: &Vec<PedersenCommitment>,
) -> (r: bool)
    ensures
        r == commit_sum_ok(
            positive@.map_values(|c: PedersenCommitment| c.bytes@),
            negative@.map_values(|c: PedersenCommitment| c.bytes@),
        ),
{
    let secp = lnpbp_secp256k1zkp::Secp256k1::with_caps(lnpbp_secp256k1zkp::ContextFlag::Commit);
    let pos = positive
        .iter()
        .map(|c| lnpbp_secp256k1zkp::pedersen::Commitment::from_vec(c.bytes.clone()))
        .collect();
    let neg = negative
        .iter()
        .map(|c| lnpbp_secp256k1zkp::pedersen::Commitment::from_vec(c.bytes.clone()))
        .collect();
    secp.verify_commit_sum(pos, neg)
}

impl RevealedValue {
    /// The confidential form of this amount: its Pedersen commitment and
    /// the matching bulletproof.
    pub fn conceal(&self) -> (r: ConcealedValue)
        requires
            self.wf(),
        ensures
            r.commitment.bytes@ == pedersen_of(self.value, self.blinding.bytes@),
            r.range_proof.bytes@ == bulletproof_of(self.value, self.blinding.bytes@),
            r.wf(),
    {
        let commitment = pedersen_commit(self.value, &self.blinding);
        let range_proof = bullet_proof_for(self.value, &self.blinding);
        ConcealedValue { commitment, range_proof }
    }
}

impl FungibleState {
    /// The confidential Pedersen form of this state: an already concealed
    /// value is returned as it stands, a revealed one is concealed.
    pub fn to_confidential(&self) -> (r: ConcealedValue)
        requires
            self.wf(),
        ensures
            r.commitment.bytes@ == self.conf_commitment_bytes(),
            r.range_proof.bytes@ == self.conf_proof_bytes(),
            r.wf(),
    {
        match self {
            FungibleState::Revealed(v) => v.conceal(),
            FungibleState::Concealed(c) => ConcealedValue {
                commitment: PedersenCommitment { bytes: crate::clone_bytes(&c.commitment.bytes) },
                range_proof: RangeProof { bytes: crate::clone_bytes(&c.range_proof.bytes) },
            },
        }
    }
}

} // verus!
