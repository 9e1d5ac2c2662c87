//! Consensus core for a client-side-validated smart-contract protocol.
//!
//! The crate covers three tightly coupled pieces:
//! - the anchor and witness model binding transition bundles to on-chain
//!   transactions, with compaction and expansion of multi-protocol commitment
//!   proofs and a strict total order over witnessing transactions;
//! - the typed-state model representing the four categories of contract
//!   state and producing the per-category commitment leaves;
//! - the embedded validation engine checking conservation of value for
//!   fungible transitions over homomorphic commitments and range proofs.

use vstd::prelude::*;

pub mod fungible;
pub mod xchain;
pub mod seal;
pub mod assignments;
pub mod anchor;
pub mod vm;
pub mod encoding;
mod digest;

verus! {

/// Big-endian byte serialisation of a 64-bit word.
pub open spec fn u64_be_bytes(x: u64) -> Seq<u8> {
    seq![
        (x >> 56) as u8,
        (x >> 48) as u8,
        (x >> 40) as u8,
        (x >> 32) as u8,
        (x >> 24) as u8,
        (x >> 16) as u8,
        (x >> 8) as u8,
        x as u8,
    ]
}

/// Big-endian byte serialisation of a 32-bit word.
pub open spec fn u32_be_bytes(x: u32) -> Seq<u8> {
    seq![(x >> 24) as u8, (x >> 16) as u8, (x >> 8) as u8, x as u8]
}

/// Appends the big-endian bytes of `x` to `out`.
pub fn push_u64_be(out: &mut Vec<u8>, x: u64)
    ensures
        final(out)@ == old(out)@ + u64_be_bytes(x),
{
    out.push(#[verifier::truncate] ((x >> 56) as u8));
    out.push(#[verifier::truncate] ((x >> 48) as u8));
    out.push(#[verifier::truncate] ((x >> 40) as u8));
    out.push(#[verifier::truncate] ((x >> 32) as u8));
    out.push(#[verifier::truncate] ((x >> 24) as u8));
    out.push(#[verifier::truncate] ((x >> 16) as u8));
    out.push(#[verifier::truncate] ((x >> 8) as u8));
    out.push(#[verifier::truncate] (x as u8));
    proof {
        assert(final(out)@ =~= old(out)@ + u64_be_bytes(x));
    }
}

/// Appends the big-endian bytes of `x` to `out`.
pub fn push_u32_be(out: &mut Vec<u8>, x: u32)
    ensures
        final(out)@ == old(out)@ + u32_be_bytes(x),
{
    out.push(#[verifier::truncate] ((x >> 24) as u8));
    out.push(#[verifier::truncate] ((x >> 16) as u8));
    out.push(#[verifier::truncate] ((x >> 8) as u8));
    out.push(#[verifier::truncate] (x as u8));
    proof {
        assert(final(out)@ =~= old(out)@ + u32_be_bytes(x));
    }
}

/// Copies a byte string.
pub fn clone_bytes(v: &Vec<u8>) -> (r: Vec<u8>)
    ensures
        r@ == v@,
{
    let mut out: Vec<u8> = Vec::new();
    let mut i: usize = 0;
    while i < v.len()
        invariant
            i <= v@.len(),
            out@ == v@.subrange(0, i as int),
        decreases v@.len() - i,
    {
        out.push(v[i]);
        i = i + 1;
        proof {
            assert(out@ =~= v@.subrange(0, i as int));
        }
    }
    proof {
        assert(out@ =~= v@);
    }
    out
}

/// Identifier of a witnessing on-chain transaction: a 256-bit hash held as
/// four big-endian words. Equality of identifiers is structural.
#[derive(Clone, Copy, PartialEq, Eq, Structural, Hash, Debug)]
pub struct Txid {
    pub w0: u64,
    pub w1: u64,
    pub w2: u64,
    pub w3: u64,
}

/// Content-addressed identifier of a contract: a 256-bit commitment hash.
#[derive(Clone, Copy, PartialEq, Eq, Structural, Hash, Debug)]
pub struct ContractId {
    pub w0: u64,
    pub w1: u64,
    pub w2: u64,
    pub w3: u64,
}

/// Content-addressed identifier of a transition bundle: a 256-bit
/// commitment hash.
#[derive(Clone, Copy, PartialEq, Eq, Structural, Hash, Debug)]
pub struct BundleId {
    pub w0: u64,
    pub w1: u64,
    pub w2: u64,
    pub w3: u64,
}

/// A node of the per-category commitment Merkle tree: the commitment
/// identifier of one assigned-state element.
#[derive(Clone, Copy, PartialEq, Eq, Structural, Hash, Debug)]
pub struct MerkleNode {
    pub w0: u64,
    pub w1: u64,
    pub w2: u64,
    pub w3: u64,
}

impl Txid {
    /// The four words as a tuple, for use in specifications.
    pub open spec fn words(self) -> (u64, u64, u64, u64) {
        (self.w0, self.w1, self.w2, self.w3)
    }

    /// Big-endian serialisation of the identifier.
    pub open spec fn spec_bytes(self) -> Seq<u8> {
        u64_be_bytes(self.w0) + u64_be_bytes(self.w1) + u64_be_bytes(self.w2)
            + u64_be_bytes(self.w3)
    }

    /// Appends the 32 bytes of the identifier to `out`.
    pub fn push_bytes(&self, out: &mut Vec<u8>)
        ensures
            final(out)@ == old(out)@ + self.spec_bytes(),
    {
        push_u64_be(out, self.w0);
        push_u64_be(out, self.w1);
        push_u64_be(out, self.w2);
        push_u64_be(out, self.w3);
        proof {
            assert(final(out)@ =~= old(out)@ + self.spec_bytes());
        }
    }
}

impl ContractId {
    /// The four words as a tuple, for use in specifications.
    pub open spec fn words(self) -> (u64, u64, u64, u64) {
        (self.w0, self.w1, self.w2, self.w3)
    }

    /// Big-endian serialisation of the identifier.
    pub open spec fn spec_bytes(self) -> Seq<u8> {
        u64_be_bytes(self.w0) + u64_be_bytes(self.w1) + u64_be_bytes(self.w2)
            + u64_be_bytes(self.w3)
    }

    /// The 32 bytes of the identifier.
    pub fn to_bytes(&self) -> (r: Vec<u8>)
        ensures
            r@ == self.spec_bytes(),
            r@.len() == 32,
    {
        let mut out: Vec<u8> = Vec::new();
        push_u64_be(&mut out, self.w0);
        push_u64_be(&mut out, self.w1);
        push_u64_be(&mut out, self.w2);
        push_u64_be(&mut out, self.w3);
        proof {
            assert(out@ =~= self.spec_bytes());
        }
        out
    }
}

impl BundleId {
    /// The four words as a tuple, for use in specifications.
    pub open spec fn words(self) -> (u64, u64, u64, u64) {
        (self.w0, self.w1, self.w2, self.w3)
    }

    /// Big-endian serialisation of the identifier.
    pub open spec fn spec_bytes(self) -> Seq<u8> {
        u64_be_bytes(self.w0) + u64_be_bytes(self.w1) + u64_be_bytes(self.w2)
            + u64_be_bytes(self.w3)
    }

    /// The 32 bytes of the identifier.
    pub fn to_bytes(&self) -> (r: Vec<u8>)
        ensures
            r@ == self.spec_bytes(),
            r@.len() == 32,
    {
        let mut out: Vec<u8> = Vec::new();
        push_u64_be(&mut out, self.w0);
        push_u64_be(&mut out, self.w1);
        push_u64_be(&mut out, self.w2);
        push_u64_be(&mut out, self.w3);
        proof {
            assert(out@ =~= self.spec_bytes());
        }
        out
    }
}

impl MerkleNode {
    /// The four words as a tuple, for use in specifications.
    pub open spec fn words(self) -> (u64, u64, u64, u64) {
        (self.w0, self.w1, self.w2, self.w3)
    }
}

} // verus!
