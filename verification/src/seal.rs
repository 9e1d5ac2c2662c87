//! Seals locating contract state, in confidential or revealed form, and the
//! consensus ordering data of witnessing transactions.

use vstd::prelude::*;

use crate::digest::sha256_words;
use crate::xchain::XChain;
use crate::Txid;

verus! {

/// A seal in confidential form: the commitment hash of a revealed seal.
#[derive(Clone, Copy, PartialEq, Eq, Structural, Hash, Debug)]
pub struct Confidential {
    pub w0: u64,
    pub w1: u64,
    pub w2: u64,
    pub w3: u64,
}

impl Confidential {
    /// The four words as a tuple, for use in specifications.
    pub open spec fn words(self) -> (u64, u64, u64, u64) {
        (self.w0, self.w1, self.w2, self.w3)
    }

    /// Big-endian serialisation of the confidential seal.
    pub open spec fn spec_bytes(self) -> Seq<u8> {
        crate::u64_be_bytes(self.w0) + crate::u64_be_bytes(self.w1) + crate::u64_be_bytes(self.w2)
            + crate::u64_be_bytes(self.w3)
    }

    /// Appends the 32 bytes of the confidential seal to `out`.
    pub fn push_bytes(&self, out: &mut Vec<u8>)
        ensures
            final(out)@ == old(out)@ + self.spec_bytes(),
    {
        crate::push_u64_be(out, self.w0);
        crate::push_u64_be(out, self.w1);
        crate::push_u64_be(out, self.w2);
        crate::push_u64_be(out, self.w3);
        proof {
            assert(final(out)@ =~= old(out)@ + self.spec_bytes());
        }
    }
}

/// A seal in revealed form: the transaction output holding the state,
/// together with the blinding used when concealing the seal.
#[derive(Clone, Copy, PartialEq, Eq, Structural, Hash, Debug)]
pub struct Revealed {
    pub txid: Txid,
    pub vout: u32,
    pub blinding: u64,
}

impl Revealed {
    /// Deterministic serialisation of the revealed seal, the preimage of its
    /// confidential form.
    pub open spec fn spec_bytes(self) -> Seq<u8> {
        self.txid.spec_bytes() + crate::u32_be_bytes(self.vout) + crate::u64_be_bytes(
            self.blinding,
        )
    }

    /// The confidential form of this seal: its commitment digest.
    pub open spec fn spec_conceal(self) -> Confidential {
        let w = sha256_words(self.spec_bytes());
        Confidential { w0: w.0, w1: w.1, w2: w.2, w3: w.3 }
    }

    /// Conceals the seal into its confidential form.
    pub fn conceal(&self) -> (r: Confidential)
        ensures
            r == self.spec_conceal(),
    {
        let mut buf: Vec<u8> = Vec::new();
        self.txid.push_bytes(&mut buf);
        crate::push_u32_be(&mut buf, self.vout);
        crate::push_u64_be(&mut buf, self.blinding);
        proof {
            assert(buf@ =~= self.spec_bytes());
        }
        let w = crate::digest::sha256(&buf);
        Confidential { w0: w.0, w1: w.1, w2: w.2, w3: w.3 }
    }
}

/// Identifier of a witnessing transaction, tagged with its chain layer.
pub type WitnessId = XChain<Txid>;

/// Position of a witnessing transaction inside the chain: its confirmation
/// height.
#[derive(Clone, Copy, PartialEq, Eq, Structural, Hash, Debug)]
pub struct WitnessPos {
    pub height: u32,
}

/// Consensus ordering classification of a witnessing transaction: known to be
/// invalidated by a reorganisation, present only off-chain (mempool), or
/// confirmed on-chain at a height.
#[derive(Clone, Copy, PartialEq, Eq, Structural, Hash, Debug)]
pub enum WitnessOrd {
    Invalidated,
    OffChain,
    OnChain(WitnessPos),
}

impl WitnessOrd {
    /// Rank of the ordering class: invalidated witnesses come first,
    /// off-chain witnesses next, and every on-chain witness above both.
    pub open spec fn class_rank(self) -> int {
        match self {
            WitnessOrd::Invalidated => 0,
            WitnessOrd::OffChain => 1,
            WitnessOrd::OnChain(_) => 2,
        }
    }

    /// Strict order over ordering tags: by class, then, among on-chain
    /// witnesses, by confirmation height.
    pub open spec fn spec_lt(self, other: Self) -> bool {
        self.class_rank() < other.class_rank() || (self matches WitnessOrd::OnChain(a)
            && other matches WitnessOrd::OnChain(b) && a.height < b.height)
    }

    /// Compares two ordering tags according to [`WitnessOrd::spec_lt`].
    pub fn lt(&self, other: &Self) -> (r: bool)
        ensures
            r == self.spec_lt(*other),
    {
        match (self, other) {
            (WitnessOrd::Invalidated, WitnessOrd::Invalidated) => false,
            (WitnessOrd::Invalidated, _) => true,
            (WitnessOrd::OffChain, WitnessOrd::OnChain(_)) => true,
            (WitnessOrd::OnChain(a), WitnessOrd::OnChain(b)) => a.height < b.height,
            _ => false,
        }
    }
}

/// Strict lexicographic order over transaction identifiers, for use in
/// specifications.
pub open spec fn txid_lt(a: Txid, b: Txid) -> bool {
    a.w0 < b.w0 || (a.w0 == b.w0 && (a.w1 < b.w1 || (a.w1 == b.w1 && (a.w2 < b.w2 || (a.w2 == b.w2
        && a.w3 < b.w3)))))
}

/// Strict order over witness identifiers: by chain layer, then by the
/// transaction identifier.
pub open spec fn witness_id_lt(a: WitnessId, b: WitnessId) -> bool {
    a.spec_layer1().rank() < b.spec_layer1().rank() || (a.spec_layer1() == b.spec_layer1()
        && txid_lt(a.spec_inner(), b.spec_inner()))
}

/// Compares two transaction identifiers according to [`txid_lt`].
pub fn txid_less(a: &Txid, b: &Txid) -> (r: bool)
    ensures
        r == txid_lt(*a, *b),
{
    if a.w0 != b.w0 {
        a.w0 < b.w0
    } else if a.w1 != b.w1 {
        a.w1 < b.w1
    } else if a.w2 != b.w2 {
        a.w2 < b.w2
    } else {
        a.w3 < b.w3
    }
}

/// Compares two witness identifiers according to [`witness_id_lt`].
pub fn witness_id_less(a: &WitnessId, b: &WitnessId) -> (r: bool)
    ensures
        r == witness_id_lt(*a, *b),
{
    match (a, b) {
        (XChain::Bitcoin(ta), XChain::Bitcoin(tb)) => txid_less(ta, tb),
        (XChain::Bitcoin(_), XChain::Liquid(_)) => true,
        (XChain::Liquid(_), XChain::Bitcoin(_)) => false,
        (XChain::Liquid(ta), XChain::Liquid(tb)) => txid_less(ta, tb),
    }
}

} // verus!
