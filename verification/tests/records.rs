use fixed_codec::cursor::{read_field, write_field};
use fixed_codec::{BytesDecodeExt, BytesEncodeExt, CodecError};

#[test]
fn byte_array_is_copied_as_it_is() {
    assert_eq!(<[u8; 4]>::decode(&[0, 1, 2, 255]), Ok([0, 1, 2, 255]));
    assert_eq!([9u8, 8, 7].encode().unwrap(), vec![9, 8, 7]);
    assert_eq!(<[u8; 3]>::decode_prefix(&[9, 8, 7, 6]), Ok(([9, 8, 7], 3)));
}

#[test]
fn byte_array_fails_one_byte_short() {
    assert_eq!(
        <[u8; 4]>::decode(&[0, 1, 2]),
        Err(CodecError::UnexpectedEndOfInput)
    );
    assert_eq!(<[u8; 1]>::decode(&[]), Err(CodecError::UnexpectedEndOfInput));
}

#[test]
fn empty_byte_array_takes_nothing() {
    assert_eq!(<[u8; 0]>::decode(&[]), Ok([]));
    assert_eq!(<[u8; 0]>::decode_prefix(&[1, 2]), Ok(([], 0)));
    let nothing: [u8; 0] = [];
    assert_eq!(nothing.encode().unwrap(), Vec::<u8>::new());
}

#[test]
fn pair_is_laid_out_in_order() {
    let record: (u16, u8) = (0x0102, 3);
    assert_eq!(record.encode().unwrap(), vec![1, 2, 3]);
    assert_eq!(<(u16, u8)>::decode(&[1, 2, 3]), Ok((0x0102, 3)));
}

#[test]
fn swapping_two_fields_swaps_their_offsets() {
    let forth: (u16, i16) = (0x0102, -2);
    let back: (i16, u16) = (-2, 0x0102);
    let forth_bytes = forth.encode().unwrap();
    let back_bytes = back.encode().unwrap();
    assert_eq!(forth_bytes, vec![0x01, 0x02, 0xFF, 0xFE]);
    assert_eq!(back_bytes, vec![0xFF, 0xFE, 0x01, 0x02]);
    assert_eq!(&forth_bytes[0..2], &back_bytes[2..4]);
    assert_eq!(&forth_bytes[2..4], &back_bytes[0..2]);
    assert_ne!(forth_bytes, back_bytes);
}

#[test]
fn swapping_fields_of_unequal_width() {
    let forth: (u8, u32) = (0xAA, 0x0102_0304);
    let back: (u32, u8) = (0x0102_0304, 0xAA);
    assert_eq!(forth.encode().unwrap(), vec![0xAA, 1, 2, 3, 4]);
    assert_eq!(back.encode().unwrap(), vec![1, 2, 3, 4, 0xAA]);
}

#[test]
fn triple_decodes_and_encodes() {
    let bytes = [0x7F, 0x00, 0x10, 0xAB, 0xCD];
    let record = <(i8, u16, [u8; 2])>::decode(&bytes).unwrap();
    assert_eq!(record, (127, 16, [0xAB, 0xCD]));
    assert_eq!(record.encode().unwrap(), bytes.to_vec());
}

#[test]
fn quadruple_decodes_and_encodes() {
    let bytes = [0x01, 0x00, 0x02, 0x00, 0x00, 0x00, 0x03, 0xFF];
    let record = <(u8, u16, u32, i8)>::decode(&bytes).unwrap();
    assert_eq!(record, (1, 2, 3, -1));
    assert_eq!(record.encode().unwrap(), bytes.to_vec());
}

#[test]
fn sextuple_decodes_and_encodes() {
    let bytes = [1, 2, 3, 4, 5, 6, 0, 7];
    let record = <(u8, u8, u8, u8, [u8; 2], u16)>::decode(&bytes).unwrap();
    assert_eq!(record, (1, 2, 3, 4, [5, 6], 7));
    assert_eq!(record.encode().unwrap(), bytes.to_vec());
    assert_eq!(
        <(u8, u8, u8, u8, [u8; 2], u16)>::decode_prefix(&bytes),
        Ok(((1, 2, 3, 4, [5, 6], 7), 8))
    );
}

#[test]
fn nested_records_lay_out_flat() {
    let nested: ((u8, u16), (u16, u8)) = ((1, 0x0203), (0x0405, 6));
    let flat: (u8, u16, u16, u8) = (1, 0x0203, 0x0405, 6);
    assert_eq!(nested.encode().unwrap(), vec![1, 2, 3, 4, 5, 6]);
    assert_eq!(nested.encode().unwrap(), flat.encode().unwrap());
    assert_eq!(
        <((u8, u16), (u16, u8))>::decode(&[1, 2, 3, 4, 5, 6]),
        Ok(nested)
    );
}

#[test]
fn record_fails_when_a_later_field_is_cut() {
    assert_eq!(
        <(u16, u32)>::decode(&[1, 2, 3, 4, 5]),
        Err(CodecError::UnexpectedEndOfInput)
    );
    assert_eq!(
        <(u16, u32)>::decode(&[1]),
        Err(CodecError::UnexpectedEndOfInput)
    );
    assert_eq!(
        <(u16, u32)>::decode(&[]),
        Err(CodecError::UnexpectedEndOfInput)
    );
    assert_eq!(
        <(u8, u8, u8)>::decode(&[1, 2]),
        Err(CodecError::UnexpectedEndOfInput)
    );
}

#[test]
fn record_of_exact_width_decodes() {
    assert_eq!(<(u16, u32)>::decode(&[0, 1, 0, 0, 0, 2]), Ok((1, 2)));
}

#[test]
fn record_ignores_trailing_bytes() {
    assert_eq!(
        <(u16, u32)>::decode(&[0, 1, 0, 0, 0, 2, 0xDE, 0xAD]),
        Ok((1, 2))
    );
    assert_eq!(
        <(u16, u32)>::decode_prefix(&[0, 1, 0, 0, 0, 2, 0xDE, 0xAD]),
        Ok(((1, 2), 6))
    );
}

#[test]
fn encoded_length_is_the_sum_of_the_widths() {
    let record: (u8, i16, u32, i64, u128, [u8; 5]) = (1, 2, 3, 4, 5, [6; 5]);
    assert_eq!(record.encode().unwrap().len(), 1 + 2 + 4 + 8 + 16 + 5);
}

#[test]
fn read_field_steps_through_a_buffer() {
    let bytes = [0x00, 0x2A, 0xFF, 0x01, 0x02, 0x03, 0x04];
    let (first, at) = read_field::<u16>(&bytes, 0).unwrap();
    assert_eq!((first, at), (42, 2));
    let (second, at) = read_field::<i8>(&bytes, at).unwrap();
    assert_eq!((second, at), (-1, 3));
    let (third, at) = read_field::<u32>(&bytes, at).unwrap();
    assert_eq!((third, at), (0x0102_0304, 7));
    assert_eq!(
        read_field::<u8>(&bytes, at),
        Err(CodecError::UnexpectedEndOfInput)
    );
}

#[test]
fn read_field_past_the_end_fails() {
    let bytes = [1u8, 2, 3];
    assert_eq!(
        read_field::<u8>(&bytes, 4),
        Err(CodecError::UnexpectedEndOfInput)
    );
    assert_eq!(
        read_field::<u8>(&bytes, usize::MAX),
        Err(CodecError::UnexpectedEndOfInput)
    );
    assert_eq!(
        read_field::<u16>(&bytes, 2),
        Err(CodecError::UnexpectedEndOfInput)
    );
    assert_eq!(read_field::<[u8; 0]>(&bytes, 3), Ok(([], 3)));
    assert_eq!(read_field::<u16>(&bytes, 1), Ok((0x0203, 3)));
}

#[test]
fn write_field_appends() {
    let mut out = vec![0xAA];
    assert_eq!(write_field(&0x0102u16, &mut out), Ok(()));
    assert_eq!(out, vec![0xAA, 1, 2]);
    assert_eq!(write_field(&(-1i8), &mut out), Ok(()));
    assert_eq!(write_field(&[7u8, 8], &mut out), Ok(()));
    assert_eq!(out, vec![0xAA, 1, 2, 0xFF, 7, 8]);
}

#[test]
fn errors_are_told_apart() {
    assert_ne!(CodecError::UnexpectedEndOfInput, CodecError::MalformedField);
    let copy = CodecError::MalformedField;
    assert_eq!(copy, CodecError::MalformedField);
}
