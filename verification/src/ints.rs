//! Integer fields: unsigned and two's-complement signed, of 1, 2, 4, 8 and
//! 16 bytes, most significant byte first.

use vstd::prelude::*;
use crate::binrw_calls::{
    read_i128, read_i16, read_i32, read_i64, read_i8, read_u128, read_u16, read_u32, read_u64,
    read_u8, write_i128, write_i16, write_i32, write_i64, write_i8, write_u128, write_u16,
    write_u32, write_u64, write_u8,
};
use crate::error::CodecError;
use crate::layout::{BytesDecodeExt, BytesEncodeExt, FixedLayout};
use crate::wire::{
    be_bytes, be_signed_bytes, be_signed_value, be_value, lemma_be_bytes_len,
    lemma_be_bytes_of_value, lemma_be_signed_bytes_len, lemma_be_signed_bytes_of_value,
    lemma_be_signed_value_bound, lemma_be_signed_value_of_bytes, lemma_be_value_bound,
    lemma_be_value_of_bytes, lemma_radix_pow_values,
};

verus! {

impl FixedLayout for u8 {
    open spec fn width() -> nat {
        1
    }

    open spec fn to_wire(&self) -> Seq<u8> {
        be_bytes(*self as nat, 1)
    }

    open spec fn from_wire(bytes: Seq<u8>) -> u8 {
        be_value(bytes) as u8
    }

    proof fn lemma_wire_len(&self) {
        lemma_be_bytes_len(*self as nat, 1);
    }

    proof fn lemma_value_round_trip(&self) {
        lemma_radix_pow_values();
        lemma_be_value_of_bytes(*self as nat, 1);
    }

    proof fn lemma_wire_round_trip(bytes: Seq<u8>) {
        lemma_radix_pow_values();
        lemma_be_value_bound(bytes);
        lemma_be_bytes_of_value(bytes);
    }
}

impl BytesDecodeExt for u8 {
    fn decode_prefix(bytes: &[u8]) -> (r: Result<(u8, usize), CodecError>) {
        proof {
            lemma_radix_pow_values();
            lemma_be_value_bound(bytes@.take(1));
        }
        match read_u8(bytes) {
            Ok(value) => Ok((value, 1)),
            Err(e) => Err(e),
        }
    }
}

impl BytesEncodeExt for u8 {
    fn encode(&self) -> (r: Result<Vec<u8>, CodecError>) {
        write_u8(*self)
    }
}

impl FixedLayout for u16 {
    open spec fn width() -> nat {
        2
    }

    open spec fn to_wire(&self) -> Seq<u8> {
        be_bytes(*self as nat, 2)
    }

    open spec fn from_wire(bytes: Seq<u8>) -> u16 {
        be_value(bytes) as u16
    }

    proof fn lemma_wire_len(&self) {
        lemma_be_bytes_len(*self as nat, 2);
    }

    proof fn lemma_value_round_trip(&self) {
        lemma_radix_pow_values();
        lemma_be_value_of_bytes(*self as nat, 2);
    }

    proof fn lemma_wire_round_trip(bytes: Seq<u8>) {
        lemma_radix_pow_values();
        lemma_be_value_bound(bytes);
        lemma_be_bytes_of_value(bytes);
    }
}

impl BytesDecodeExt for u16 {
    fn decode_prefix(bytes: &[u8]) -> (r: Result<(u16, usize), CodecError>) {
        proof {
            lemma_radix_pow_values();
            lemma_be_value_bound(bytes@.take(2));
        }
        match read_u16(bytes) {
            Ok(value) => Ok((value, 2)),
            Err(e) => Err(e),
        }
    }
}

impl BytesEncodeExt for u16 {
    fn encode(&self) -> (r: Result<Vec<u8>, CodecError>) {
        write_u16(*self)
    }
}

impl FixedLayout for u32 {
    open spec fn width() -> nat {
        4
    }

    open spec fn to_wire(&self) -> Seq<u8> {
        be_bytes(*self as nat, 4)
    }

    open spec fn from_wire(bytes: Seq<u8>) -> u32 {
        be_value(bytes) as u32
    }

    proof fn lemma_wire_len(&self) {
        lemma_be_bytes_len(*self as nat, 4);
    }

    proof fn lemma_value_round_trip(&self) {
        lemma_radix_pow_values();
        lemma_be_value_of_bytes(*self as nat, 4);
    }

    proof fn lemma_wire_round_trip(bytes: Seq<u8>) {
        lemma_radix_pow_values();
        lemma_be_value_bound(bytes);
        lemma_be_bytes_of_value(bytes);
    }
}

impl BytesDecodeExt for u32 {
    fn decode_prefix(bytes: &[u8]) -> (r: Result<(u32, usize), CodecError>) {
        proof {
            lemma_radix_pow_values();
            lemma_be_value_bound(bytes@.take(4));
        }
        match read_u32(bytes) {
            Ok(value) => Ok((value, 4)),
            Err(e) => Err(e),
        }
    }
}

impl BytesEncodeExt for u32 {
    fn encode(&self) -> (r: Result<Vec<u8>, CodecError>) {
        write_u32(*self)
    }
}

impl FixedLayout for u64 {
    open spec fn width() -> nat {
        8
    }

    open spec fn to_wire(&self) -> Seq<u8> {
        be_bytes(*self as nat, 8)
    }

    open spec fn from_wire(bytes: Seq<u8>) -> u64 {
        be_value(bytes) as u64
    }

    proof fn lemma_wire_len(&self) {
        lemma_be_bytes_len(*self as nat, 8);
    }

    proof fn lemma_value_round_trip(&self) {
        lemma_radix_pow_values();
        lemma_be_value_of_bytes(*self as nat, 8);
    }

    proof fn lemma_wire_round_trip(bytes: Seq<u8>) {
        lemma_radix_pow_values();
        lemma_be_value_bound(bytes);
        lemma_be_bytes_of_value(bytes);
    }
}

impl BytesDecodeExt for u64 {
    fn decode_prefix(bytes: &[u8]) -> (r: Result<(u64, usize), CodecError>) {
        proof {
            lemma_radix_pow_values();
            lemma_be_value_bound(bytes@.take(8));
        }
        match read_u64(bytes) {
            Ok(value) => Ok((value, 8)),
            Err(e) => Err(e),
        }
    }
}

impl BytesEncodeExt for u64 {
    fn encode(&self) -> (r: Result<Vec<u8>, CodecError>) {
        write_u64(*self)
    }
}

impl FixedLayout for u128 {
    open spec fn width() -> nat {
        16
    }

    open spec fn to_wire(&self) -> Seq<u8> {
        be_bytes(*self as nat, 16)
    }

    open spec fn from_wire(bytes: Seq<u8>) -> u128 {
        be_value(bytes) as u128
    }

    proof fn lemma_wire_len(&self) {
        lemma_be_bytes_len(*self as nat, 16);
    }

    proof fn lemma_value_round_trip(&self) {
        lemma_radix_pow_values();
        lemma_be_value_of_bytes(*self as nat, 16);
    }

    proof fn lemma_wire_round_trip(bytes: Seq<u8>) {
        lemma_radix_pow_values();
        lemma_be_value_bound(bytes);
        lemma_be_bytes_of_value(bytes);
    }
}

impl BytesDecodeExt for u128 {
    fn decode_prefix(bytes: &[u8]) -> (r: Result<(u128, usize), CodecError>) {
        proof {
            lemma_radix_pow_values();
            lemma_be_value_bound(bytes@.take(16));
        }
        match read_u128(bytes) {
            Ok(value) => Ok((value, 16)),
            Err(e) => Err(e),
        }
    }
}

impl BytesEncodeExt for u128 {
    fn encode(&self) -> (r: Result<Vec<u8>, CodecError>) {
        write_u128(*self)
    }
}

impl FixedLayout for i8 {
    open spec fn width() -> nat {
        1
    }

    open spec fn to_wire(&self) -> Seq<u8> {
        be_signed_bytes(*self as int, 1)
    }

    open spec fn from_wire(bytes: Seq<u8>) -> i8 {
        be_signed_value(bytes) as i8
    }

    proof fn lemma_wire_len(&self) {
        lemma_be_signed_bytes_len(*self as int, 1);
    }

    proof fn lemma_value_round_trip(&self) {
        lemma_radix_pow_values();
        lemma_be_signed_value_of_bytes(*self as int, 1);
    }

    proof fn lemma_wire_round_trip(bytes: Seq<u8>) {
        lemma_radix_pow_values();
        lemma_be_signed_value_bound(bytes);
        lemma_be_signed_bytes_of_value(bytes);
    }
}

impl BytesDecodeExt for i8 {
    fn decode_prefix(bytes: &[u8]) -> (r: Result<(i8, usize), CodecError>) {
        proof {
            lemma_radix_pow_values();
            lemma_be_signed_value_bound(bytes@.take(1));
        }
        match read_i8(bytes) {
            Ok(value) => Ok((value, 1)),
            Err(e) => Err(e),
        }
    }
}

impl BytesEncodeExt for i8 {
    fn encode(&self) -> (r: Result<Vec<u8>, CodecError>) {
        write_i8(*self)
    }
}

impl FixedLayout for i16 {
    open spec fn width() -> nat {
        2
    }

    open spec fn to_wire(&self) -> Seq<u8> {
        be_signed_bytes(*self as int, 2)
    }

    open spec fn from_wire(bytes: Seq<u8>) -> i16 {
        be_signed_value(bytes) as i16
    }

    proof fn lemma_wire_len(&self) {
        lemma_be_signed_bytes_len(*self as int, 2);
    }

    proof fn lemma_value_round_trip(&self) {
        lemma_radix_pow_values();
        lemma_be_signed_value_of_bytes(*self as int, 2);
    }

    proof fn lemma_wire_round_trip(bytes: Seq<u8>) {
        lemma_radix_pow_values();
        lemma_be_signed_value_bound(bytes);
        lemma_be_signed_bytes_of_value(bytes);
    }
}

impl BytesDecodeExt for i16 {
    fn decode_prefix(bytes: &[u8]) -> (r: Result<(i16, usize), CodecError>) {
        proof {
            lemma_radix_pow_values();
            lemma_be_signed_value_bound(bytes@.take(2));
        }
        match read_i16(bytes) {
            Ok(value) => Ok((value, 2)),
            Err(e) => Err(e),
        }
    }
}

impl BytesEncodeExt for i16 {
    fn encode(&self) -> (r: Result<Vec<u8>, CodecError>) {
        write_i16(*self)
    }
}

impl FixedLayout for i32 {
    open spec fn width() -> nat {
        4
    }

    open spec fn to_wire(&self) -> Seq<u8> {
        be_signed_bytes(*self as int, 4)
    }

    open spec fn from_wire(bytes: Seq<u8>) -> i32 {
        be_signed_value(bytes) as i32
    }

    proof fn lemma_wire_len(&self) {
        lemma_be_signed_bytes_len(*self as int, 4);
    }

    proof fn lemma_value_round_trip(&self) {
        lemma_radix_pow_values();
        lemma_be_signed_value_of_bytes(*self as int, 4);
    }

    proof fn lemma_wire_round_trip(bytes: Seq<u8>) {
        lemma_radix_pow_values();
        lemma_be_signed_value_bound(bytes);
        lemma_be_signed_bytes_of_value(bytes);
    }
}

impl BytesDecodeExt for i32 {
    fn decode_prefix(bytes: &[u8]) -> (r: Result<(i32, usize), CodecError>) {
        proof {
            lemma_radix_pow_values();
            lemma_be_signed_value_bound(bytes@.take(4));
        }
        match read_i32(bytes) {
            Ok(value) => Ok((value, 4)),
            Err(e) => Err(e),
        }
    }
}

impl BytesEncodeExt for i32 {
    fn encode(&self) -> (r: Result<Vec<u8>, CodecError>) {
        write_i32(*self)
    }
}

impl FixedLayout for i64 {
    open spec fn width() -> nat {
        8
    }

    open spec fn to_wire(&self) -> Seq<u8> {
        be_signed_bytes(*self as int, 8)
    }

    open spec fn from_wire(bytes: Seq<u8>) -> i64 {
        be_signed_value(bytes) as i64
    }

    proof fn lemma_wire_len(&self) {
        lemma_be_signed_bytes_len(*self as int, 8);
    }

    proof fn lemma_value_round_trip(&self) {
        lemma_radix_pow_values();
        lemma_be_signed_value_of_bytes(*self as int, 8);
    }

    proof fn lemma_wire_round_trip(bytes: Seq<u8>) {
        lemma_radix_pow_values();
        lemma_be_signed_value_bound(bytes);
        lemma_be_signed_bytes_of_value(bytes);
    }
}

impl BytesDecodeExt for i64 {
    fn decode_prefix(bytes: &[u8]) -> (r: Result<(i64, usize), CodecError>) {
        proof {
            lemma_radix_pow_values();
            lemma_be_signed_value_bound(bytes@.take(8));
        }
        match read_i64(bytes) {
            Ok(value) => Ok((value, 8)),
            Err(e) => Err(e),
        }
    }
}

impl BytesEncodeExt for i64 {
    fn encode(&self) -> (r: Result<Vec<u8>, CodecError>) {
        write_i64(*self)
    }
}

impl FixedLayout for i128 {
    open spec fn width() -> nat {
        16
    }

    open spec fn to_wire(&self) -> Seq<u8> {
        be_signed_bytes(*self as int, 16)
    }

    open spec fn from_wire(bytes: Seq<u8>) -> i128 {
        be_signed_value(bytes) as i128
    }

    proof fn lemma_wire_len(&self) {
        lemma_be_signed_bytes_len(*self as int, 16);
    }

    proof fn lemma_value_round_trip(&self) {
        lemma_radix_pow_values();
        lemma_be_signed_value_of_bytes(*self as int, 16);
    }

    proof fn lemma_wire_round_trip(bytes: Seq<u8>) {
        lemma_radix_pow_values();
        lemma_be_signed_value_bound(bytes);
        lemma_be_signed_bytes_of_value(bytes);
    }
}

impl BytesDecodeExt for i128 {
    fn decode_prefix(bytes: &[u8]) -> (r: Result<(i128, usize), CodecError>) {
        proof {
            lemma_radix_pow_values();
            lemma_be_signed_value_bound(bytes@.take(16));
        }
        match read_i128(bytes) {
            Ok(value) => Ok((value, 16)),
            Err(e) => Err(e),
        }
    }
}

impl BytesEncodeExt for i128 {
    fn encode(&self) -> (r: Result<Vec<u8>, CodecError>) {
        write_i128(*self)
    }
}

} // verus!
