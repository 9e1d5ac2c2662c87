//! The digest primitive used for every commitment identifier in this crate.

use vstd::prelude::*;

verus! {

/// The SHA-256 digest of a byte string, as four big-endian 64-bit words.
/// The digest is a function of the input bytes alone.
pub uninterp spec fn sha256_words(data: Seq<u8>) -> (u64, u64, u64, u64);

/// Relies on sha2::Sha256 (via the sha2::Digest trait): returns the SHA-256
/// digest of the input, a 32-byte value that depends on the input alone,
/// here converted to four big-endian words.
#[verifier::external_body]
pub fn sha256(data: &Vec<u8>) -> (r: (u64, u64, u64, u64))
    ensures
        r == sha256_words(data@),
{
    let d = <sha2::Sha256 as sha2::Digest>::digest(data.as_slice());
    (
        u64::from_be_bytes(d[0..8].try_into().unwrap()),
        u64::from_be_bytes(d[8..16].try_into().unwrap()),
        u64::from_be_bytes(d[16..24].try_into().unwrap()),
        u64::from_be_bytes(d[24..32].try_into().unwrap()),
    )
}

} // verus!
