//! Variable-length integer encoding used by the peer messaging layer, with
//! its error taxonomy and the strategy markers for deriving an encoding from
//! an existing representation.

use vstd::prelude::*;

verus! {

/// Errors of the presentation-layer encoding.
#[derive(Clone, PartialEq, Eq, Hash, Debug)]
pub enum Error {
    /// A decoded variable-length integer is not in canonical (minimal)
    /// form.
    BigSizeNotCanonical,
    /// Unexpected end of input while decoding a variable-length integer.
    BigSizeEof,
    /// Deserialisation finished without consuming the whole input.
    DataNotEntirelyConsumed,
    /// The decoded data fail an integrity check of the underlying encoding.
    DataIntegrityError(String),
}

/// The canonical variable-length encoding of a 64-bit integer: one byte
/// below `0xFD`; otherwise a one-byte marker (`0xFD`, `0xFE` or `0xFF`)
/// followed by the big-endian two-, four- or eight-byte value, using the
/// shortest form that fits.
pub open spec fn bigsize_bytes(v: u64) -> Seq<u8> {
    if v < 0xFD {
        seq![v as u8]
    } else if v <= 0xFFFF {
        seq![0xFDu8, (v >> 8) as u8, v as u8]
    } else if v <= 0xFFFFFFFF {
        seq![0xFEu8] + crate::u32_be_bytes(v as u32)
    } else {
        seq![0xFFu8] + crate::u64_be_bytes(v)
    }
}

/// The result of decoding a variable-length integer from the start of the
/// input: the value and the number of bytes consumed, or the exact error.
pub open spec fn bigsize_decoded(data: Seq<u8>) -> Result<(u64, usize), Error> {
    if data.len() == 0 {
        Err(Error::BigSizeEof)
    } else {
        let tag = data[0];
        if tag < 0xFD {
            Ok((tag as u64, 1usize))
        } else if tag == 0xFD {
            if data.len() < 3 {
                Err(Error::BigSizeEof)
            } else {
                let v = ((data[1] as u64) << 8) | (data[2] as u64);
                if v < 0xFD {
                    Err(Error::BigSizeNotCanonical)
                } else {
                    Ok((v, 3usize))
                }
            }
        } else if tag == 0xFE {
            if data.len() < 5 {
                Err(Error::BigSizeEof)
            } else {
                let v = ((data[1] as u64) << 24) | ((data[2] as u64) << 16) | ((data[3] as u64)
                    << 8) | (data[4] as u64);
                if v <= 0xFFFF {
                    Err(Error::BigSizeNotCanonical)
                } else {
                    Ok((v, 5usize))
                }
            }
        } else {
            if data.len() < 9 {
                Err(Error::BigSizeEof)
            } else {
                let v = ((data[1] as u64) << 56) | ((data[2] as u64) << 48) | ((data[3] as u64)
                    << 40) | ((data[4] as u64) << 32) | ((data[5] as u64) << 24) | ((data[6] as u64)
                    << 16) | ((data[7] as u64) << 8) | (data[8] as u64);
                if v <= 0xFFFFFFFF {
                    Err(Error::BigSizeNotCanonical)
                } else {
                    Ok((v, 9usize))
                }
            }
        }
    }
}

/// Encodes a 64-bit integer in the canonical variable-length form.
pub fn bigsize_encode(v: u64) -> (r: Vec<u8>)
    ensures
        r@ == bigsize_bytes(v),
{
    let mut out: Vec<u8> = Vec::new();
    if v < 0xFD {
        out.push(#[verifier::truncate] (v as u8));
    } else if v <= 0xFFFF {
        out.push(0xFDu8);
        out.push(#[verifier::truncate] ((v >> 8) as u8));
        out.push(#[verifier::truncate] (v as u8));
    } else if v <= 0xFFFFFFFF {
        out.push(0xFEu8);
        crate::push_u32_be(&mut out, #[verifier::truncate] (v as u32));
        proof {
            assert(out@ =~= bigsize_bytes(v));
        }
    } else {
        out.push(0xFFu8);
        crate::push_u64_be(&mut out, v);
        proof {
            assert(out@ =~= bigsize_bytes(v));
        }
    }
    proof {
        assert(out@ =~= bigsize_bytes(v));
    }
    out
}

/// Decodes a variable-length integer from the start of the input,
/// returning the value and the number of bytes consumed. Rejects truncated
/// input and non-minimal encodings.
pub fn bigsize_decode(data: &[u8]) -> (r: Result<(u64, usize), Error>)
    ensures
        r == bigsize_decoded(data@),
{
    if data.len() == 0 {
        return Err(Error::BigSizeEof);
    }
    let tag = data[0];
    if tag < 0xFD {
        Ok((tag as u64, 1))
    } else if tag == 0xFD {
        if data.len() < 3 {
            Err(Error::BigSizeEof)
        } else {
            let v = ((data[1] as u64) << 8) | (data[2] as u64);
            if v < 0xFD {
                Err(Error::BigSizeNotCanonical)
            } else {
                Ok((v, 3))
            }
        }
    } else if tag == 0xFE {
        if data.len() < 5 {
            Err(Error::BigSizeEof)
        } else {
            let v = ((data[1] as u64) << 24) | ((data[2] as u64) << 16) | ((data[3] as u64) << 8)
                | (data[4] as u64);
            if v <= 0xFFFF {
                Err(Error::BigSizeNotCanonical)
            } else {
                Ok((v, 5))
            }
        }
    } else {
        if data.len() < 9 {
            Err(Error::BigSizeEof)
        } else {
            let v = ((data[1] as u64) << 56) | ((data[2] as u64) << 48) | ((data[3] as u64) << 40)
                | ((data[4] as u64) << 32) | ((data[5] as u64) << 24) | ((data[6] as u64) << 16) | (
            (data[7] as u64) << 8) | (data[8] as u64);
            if v <= 0xFFFFFFFF {
                Err(Error::BigSizeNotCanonical)
            } else {
                Ok((v, 9))
            }
        }
    }
}

/// Deserialises a variable-length integer that must occupy the whole
/// input: decoding errors are surfaced as they are, and input left over
/// after the value fails with `DataNotEntirelyConsumed`.
pub fn bigsize_deserialize(data: &[u8]) -> (r: Result<u64, Error>)
    ensures
        r == (match bigsize_decoded(data@) {
            Ok((v, n)) => if n == data@.len() {
                Ok::<u64, Error>(v)
            } else {
                Err::<u64, Error>(Error::DataNotEntirelyConsumed)
            },
            Err(e) => Err::<u64, Error>(e),
        }),
{
    match bigsize_decode(data) {
        Ok((v, n)) => {
            if n == data.len() {
                Ok(v)
            } else {
                Err(Error::DataNotEntirelyConsumed)
            }
        },
        Err(e) => Err(e),
    }
}

/// Encoding then decoding is the identity: the canonical encoding of any
/// value decodes back to that value, consuming the whole encoding.
pub proof fn lemma_bigsize_roundtrip(v: u64)
    ensures
        bigsize_decoded(bigsize_bytes(v)) == Ok::<(u64, usize), Error>(
            (v, bigsize_bytes(v).len() as usize),
        ),
{
    if v < 0xFD {
    } else if v <= 0xFFFF {
        assert((((v >> 8) as u8) as u64) << 8 | ((v as u8) as u64) == v) by (bit_vector)
            requires
                v <= 0xFFFF,
        ;
    } else if v <= 0xFFFFFFFF {
        let w = v as u32;
        assert(((((w >> 24) as u8) as u64) << 24) | ((((w >> 16) as u8) as u64) << 16) | ((((w
            >> 8) as u8) as u64) << 8) | ((w as u8) as u64) == v) by (bit_vector)
            requires
                v <= 0xFFFFFFFF,
                w == v as u32,
        ;
    } else {
        assert(((((v >> 56) as u8) as u64) << 56) | ((((v >> 48) as u8) as u64) << 48) | ((((v
            >> 40) as u8) as u64) << 40) | ((((v >> 32) as u8) as u64) << 32) | ((((v
            >> 24) as u8) as u64) << 24) | ((((v >> 16) as u8) as u64) << 16) | ((((v
            >> 8) as u8) as u64) << 8) | ((v as u8) as u64) == v) by (bit_vector);
    }
}

/// Strategy marker: a type encodes through its strict encoding.
#[derive(Clone, Copy, PartialEq, Eq, Structural, Debug)]
pub struct StrictEncoding;

/// Strategy marker: a type encodes as a variable-length integer.
#[derive(Clone, Copy, PartialEq, Eq, Structural, Debug)]
pub struct AsBigSize;

/// Selects the encoding strategy of a type: the associated type names the
/// marker the blanket encoding logic dispatches on.
pub trait Strategy {
    type Strategy;
}

impl Strategy for u8 {
    type Strategy = AsBigSize;
}

impl Strategy for u16 {
    type Strategy = AsBigSize;
}

impl Strategy for u32 {
    type Strategy = AsBigSize;
}

impl Strategy for u64 {
    type Strategy = AsBigSize;
}

} // verus!
