//! Canonical variable-length integer encoding: exact byte forms, error
//! taxonomy, and round trips.

use rgb_core::encoding::{
    bigsize_decode, bigsize_deserialize, bigsize_encode, AsBigSize, Error, StrictEncoding,
};

#[test]
fn exact_encodings() {
    assert_eq!(bigsize_encode(0), vec![0x00]);
    assert_eq!(bigsize_encode(0xFC), vec![0xFC]);
    assert_eq!(bigsize_encode(0xFD), vec![0xFD, 0x00, 0xFD]);
    assert_eq!(bigsize_encode(0xFFFF), vec![0xFD, 0xFF, 0xFF]);
    assert_eq!(bigsize_encode(0x10000), vec![0xFE, 0x00, 0x01, 0x00, 0x00]);
    assert_eq!(bigsize_encode(0xFFFFFFFF), vec![0xFE, 0xFF, 0xFF, 0xFF, 0xFF]);
    assert_eq!(
        bigsize_encode(0x100000000),
        vec![0xFF, 0x00, 0x00, 0x00, 0x01, 0x00, 0x00, 0x00, 0x00]
    );
    assert_eq!(bigsize_encode(u64::MAX), vec![0xFF; 9]);
}

#[test]
fn decode_round_trips() {
    for v in [0u64, 1, 0xFC, 0xFD, 0x1234, 0xFFFF, 0x10000, 0xFFFFFFFF, 0x100000000, u64::MAX] {
        let enc = bigsize_encode(v);
        assert_eq!(bigsize_decode(&enc), Ok((v, enc.len())));
        assert_eq!(bigsize_deserialize(&enc), Ok(v));
    }
}

#[test]
fn truncated_input_is_eof() {
    assert_eq!(bigsize_decode(&[]), Err(Error::BigSizeEof));
    assert_eq!(bigsize_decode(&[0xFD, 0x01]), Err(Error::BigSizeEof));
    assert_eq!(bigsize_decode(&[0xFE, 0x01, 0x02, 0x03]), Err(Error::BigSizeEof));
    assert_eq!(bigsize_decode(&[0xFF, 0x01]), Err(Error::BigSizeEof));
}

#[test]
fn non_minimal_forms_are_rejected() {
    assert_eq!(bigsize_decode(&[0xFD, 0x00, 0x10]), Err(Error::BigSizeNotCanonical));
    assert_eq!(
        bigsize_decode(&[0xFE, 0x00, 0x00, 0xFF, 0xFF]),
        Err(Error::BigSizeNotCanonical)
    );
    assert_eq!(
        bigsize_decode(&[0xFF, 0x00, 0x00, 0x00, 0x00, 0xFF, 0xFF, 0xFF, 0xFF]),
        Err(Error::BigSizeNotCanonical)
    );
}

#[test]
fn leftover_input_fails_deserialisation() {
    assert_eq!(bigsize_deserialize(&[0x05, 0x00]), Err(Error::DataNotEntirelyConsumed));
    assert_eq!(bigsize_deserialize(&[0x05]), Ok(5));
}

#[test]
fn decode_consumes_a_prefix() {
    let mut data = bigsize_encode(0x1234);
    data.push(0xAB);
    assert_eq!(bigsize_decode(&data), Ok((0x1234, 3)));
}

#[test]
fn strategy_markers_exist() {
    let _strict = StrictEncoding;
    let _bigsize = AsBigSize;
    fn strategy_of<T: rgb_core::encoding::Strategy>() {}
    strategy_of::<u8>();
    strategy_of::<u16>();
    strategy_of::<u32>();
    strategy_of::<u64>();
}
