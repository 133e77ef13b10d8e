use fixed_codec::{BytesDecodeExt, BytesEncodeExt, CodecError};

#[test]
fn u8_decodes_and_encodes() {
    assert_eq!(u8::decode(&[0xAB]), Ok(0xAB));
    assert_eq!(u8::decode(&[0x00]), Ok(0));
    assert_eq!(0xABu8.encode().unwrap(), vec![0xAB]);
    assert_eq!(u8::MAX.encode().unwrap(), vec![0xFF]);
}

#[test]
fn u16_decodes_and_encodes() {
    assert_eq!(u16::decode(&[0x12, 0x34]), Ok(0x1234));
    assert_eq!(u16::decode(&[0x00, 0x01]), Ok(1));
    assert_eq!(0x1234u16.encode().unwrap(), vec![0x12, 0x34]);
    assert_eq!(1u16.encode().unwrap(), vec![0x00, 0x01]);
}

#[test]
fn u32_decodes_and_encodes() {
    assert_eq!(u32::decode(&[0xDE, 0xAD, 0xBE, 0xEF]), Ok(0xDEAD_BEEF));
    assert_eq!(u32::decode(&[0x22, 0x32, 0x75, 0xF6]), Ok(573732342));
    assert_eq!(
        0xDEAD_BEEFu32.encode().unwrap(),
        vec![0xDE, 0xAD, 0xBE, 0xEF]
    );
    assert_eq!(256u32.encode().unwrap(), vec![0, 0, 1, 0]);
}

#[test]
fn u64_decodes_and_encodes() {
    assert_eq!(
        u64::decode(&[0x00, 0x00, 0x01, 0x7C, 0xA6, 0x87, 0x61, 0x8D]),
        Ok(1634881462669)
    );
    assert_eq!(
        0x0102_0304_0506_0708u64.encode().unwrap(),
        vec![1, 2, 3, 4, 5, 6, 7, 8]
    );
    assert_eq!(u64::MAX.encode().unwrap(), vec![0xFF; 8]);
}

#[test]
fn u128_decodes_and_encodes() {
    let bytes: [u8; 16] = [1, 2, 3, 4, 5, 6, 7, 8, 9, 10, 11, 12, 13, 14, 15, 16];
    let value: u128 = 0x0102_0304_0506_0708_090A_0B0C_0D0E_0F10;
    assert_eq!(u128::decode(&bytes), Ok(value));
    assert_eq!(value.encode().unwrap(), bytes.to_vec());
    assert_eq!(u128::MAX.encode().unwrap(), vec![0xFF; 16]);
}

#[test]
fn i8_decodes_and_encodes() {
    assert_eq!(i8::decode(&[0xFF]), Ok(-1));
    assert_eq!(i8::decode(&[0x80]), Ok(i8::MIN));
    assert_eq!(i8::decode(&[0x7F]), Ok(i8::MAX));
    assert_eq!((-1i8).encode().unwrap(), vec![0xFF]);
    assert_eq!(i8::MIN.encode().unwrap(), vec![0x80]);
    assert_eq!(5i8.encode().unwrap(), vec![0x05]);
}

#[test]
fn i16_decodes_and_encodes() {
    assert_eq!(i16::decode(&[0xFF, 0xFE]), Ok(-2));
    assert_eq!(i16::decode(&[0x01, 0x02]), Ok(258));
    assert_eq!((-2i16).encode().unwrap(), vec![0xFF, 0xFE]);
    assert_eq!(i16::MIN.encode().unwrap(), vec![0x80, 0x00]);
    assert_eq!(i16::MAX.encode().unwrap(), vec![0x7F, 0xFF]);
}

#[test]
fn i32_decodes_and_encodes() {
    assert_eq!(i32::decode(&[0xFA, 0x45, 0xD3, 0x60]), Ok(-96087200));
    assert_eq!(i32::decode(&[0x00, 0x00, 0x01, 0x00]), Ok(256));
    assert_eq!((-96087200i32).encode().unwrap(), vec![0xFA, 0x45, 0xD3, 0x60]);
    assert_eq!(i32::MIN.encode().unwrap(), vec![0x80, 0, 0, 0]);
}

#[test]
fn i64_decodes_and_encodes() {
    assert_eq!(i64::decode(&[0xFF; 8]), Ok(-1));
    assert_eq!(
        i64::decode(&[0x80, 0, 0, 0, 0, 0, 0, 0]),
        Ok(i64::MIN)
    );
    assert_eq!((-256i64).encode().unwrap(), vec![0xFF, 0xFF, 0xFF, 0xFF, 0xFF, 0xFF, 0xFF, 0x00]);
    assert_eq!(i64::MAX.encode().unwrap(), vec![0x7F, 0xFF, 0xFF, 0xFF, 0xFF, 0xFF, 0xFF, 0xFF]);
}

#[test]
fn i128_decodes_and_encodes() {
    let mut bytes = vec![0xFFu8; 16];
    bytes[15] = 0xFE;
    assert_eq!(i128::decode(&bytes), Ok(-2));
    assert_eq!((-2i128).encode().unwrap(), bytes);
    let mut lowest = vec![0u8; 16];
    lowest[0] = 0x80;
    assert_eq!(i128::decode(&lowest), Ok(i128::MIN));
    assert_eq!(i128::MIN.encode().unwrap(), lowest);
}

#[test]
fn every_integer_takes_its_width() {
    let bytes = [0x11u8; 20];
    assert_eq!(u8::decode_prefix(&bytes).unwrap().1, 1);
    assert_eq!(u16::decode_prefix(&bytes).unwrap().1, 2);
    assert_eq!(u32::decode_prefix(&bytes).unwrap().1, 4);
    assert_eq!(u64::decode_prefix(&bytes).unwrap().1, 8);
    assert_eq!(u128::decode_prefix(&bytes).unwrap().1, 16);
    assert_eq!(i8::decode_prefix(&bytes).unwrap().1, 1);
    assert_eq!(i16::decode_prefix(&bytes).unwrap().1, 2);
    assert_eq!(i32::decode_prefix(&bytes).unwrap().1, 4);
    assert_eq!(i64::decode_prefix(&bytes).unwrap().1, 8);
    assert_eq!(i128::decode_prefix(&bytes).unwrap().1, 16);
}

#[test]
fn every_integer_fails_one_byte_short() {
    let bytes = [0x11u8; 16];
    assert_eq!(u8::decode(&bytes[..0]), Err(CodecError::UnexpectedEndOfInput));
    assert_eq!(u16::decode(&bytes[..1]), Err(CodecError::UnexpectedEndOfInput));
    assert_eq!(u32::decode(&bytes[..3]), Err(CodecError::UnexpectedEndOfInput));
    assert_eq!(u64::decode(&bytes[..7]), Err(CodecError::UnexpectedEndOfInput));
    assert_eq!(u128::decode(&bytes[..15]), Err(CodecError::UnexpectedEndOfInput));
    assert_eq!(i8::decode(&bytes[..0]), Err(CodecError::UnexpectedEndOfInput));
    assert_eq!(i16::decode(&bytes[..1]), Err(CodecError::UnexpectedEndOfInput));
    assert_eq!(i32::decode(&bytes[..3]), Err(CodecError::UnexpectedEndOfInput));
    assert_eq!(i64::decode(&bytes[..7]), Err(CodecError::UnexpectedEndOfInput));
    assert_eq!(i128::decode(&bytes[..15]), Err(CodecError::UnexpectedEndOfInput));
}

#[test]
fn every_integer_ignores_what_follows() {
    let bytes: [u8; 17] = [0, 0, 0, 0, 0, 0, 0, 0, 0, 0, 0, 0, 0, 0, 0, 7, 0xEE];
    assert_eq!(u128::decode(&bytes), Ok(7));
    assert_eq!(i128::decode(&bytes), Ok(7));
    assert_eq!(u64::decode(&bytes[8..]), Ok(7));
    assert_eq!(i64::decode(&bytes[8..]), Ok(7));
    assert_eq!(u32::decode(&bytes[12..]), Ok(7));
    assert_eq!(i32::decode(&bytes[12..]), Ok(7));
    assert_eq!(u16::decode(&bytes[14..]), Ok(7));
    assert_eq!(i16::decode(&bytes[14..]), Ok(7));
    assert_eq!(u8::decode(&bytes[15..]), Ok(7));
    assert_eq!(i8::decode(&bytes[15..]), Ok(7));
}

#[test]
fn integers_round_trip() {
    for value in [0u32, 1, 255, 256, 65535, 65536, 0x7FFF_FFFF, 0x8000_0000, u32::MAX] {
        assert_eq!(u32::decode(&value.encode().unwrap()), Ok(value));
    }
    for value in [i32::MIN, -65536, -256, -1, 0, 1, 255, 65536, i32::MAX] {
        assert_eq!(i32::decode(&value.encode().unwrap()), Ok(value));
    }
    for value in [i64::MIN, -1, 0, 1, i64::MAX] {
        assert_eq!(i64::decode(&value.encode().unwrap()), Ok(value));
    }
}
