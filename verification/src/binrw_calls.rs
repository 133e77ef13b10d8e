//! The calls into `binrw`: one field read from, or written to, an in-memory
//! cursor in big-endian byte order.
//!
//! Nothing in this module is proved. Each function states what the `binrw`
//! call in its body does, as the rest of the crate relies on it.

use binrw::io::Cursor;
use binrw::{BinReaderExt, BinWriterExt};
use vstd::prelude::*;
use crate::error::CodecError;
use crate::wire::{be_bytes, be_signed_bytes, be_signed_value, be_value};

verus! {

/// `BinReaderExt::read_be::<u8>` on a cursor at the start of `bytes`: it takes
/// the first byte and returns it as an unsigned number, or fails at the end of
/// input where there is none.
#[verifier::external_body]
pub(crate) fn read_u8(bytes: &[u8]) -> (r: Result<u8, CodecError>)
    ensures
        bytes@.len() >= 1 ==> r is Ok && r.unwrap() == be_value(bytes@.take(1)),
        bytes@.len() < 1 ==> r matches Err(CodecError::UnexpectedEndOfInput),
{
    match Cursor::new(bytes).read_be::<u8>() {
        Ok(value) => Ok(value),
        Err(e) if e.is_eof() => Err(CodecError::UnexpectedEndOfInput),
        Err(_) => Err(CodecError::MalformedField),
    }
}

/// `BinReaderExt::read_be::<u16>` on a cursor at the start of `bytes`: it takes
/// the first 2 bytes and returns the unsigned number they spell, most
/// significant byte first, or fails at the end of input where there are fewer.
#[verifier::external_body]
pub(crate) fn read_u16(bytes: &[u8]) -> (r: Result<u16, CodecError>)
    ensures
        bytes@.len() >= 2 ==> r is Ok && r.unwrap() == be_value(bytes@.take(2)),
        bytes@.len() < 2 ==> r matches Err(CodecError::UnexpectedEndOfInput),
{
    match Cursor::new(bytes).read_be::<u16>() {
        Ok(value) => Ok(value),
        Err(e) if e.is_eof() => Err(CodecError::UnexpectedEndOfInput),
        Err(_) => Err(CodecError::MalformedField),
    }
}

/// `BinReaderExt::read_be::<u32>` on a cursor at the start of `bytes`: it takes
/// the first 4 bytes and returns the unsigned number they spell, most
/// significant byte first, or fails at the end of input where there are fewer.
#[verifier::external_body]
pub(crate) fn read_u32(bytes: &[u8]) -> (r: Result<u32, CodecError>)
    ensures
        bytes@.len() >= 4 ==> r is Ok && r.unwrap() == be_value(bytes@.take(4)),
        bytes@.len() < 4 ==> r matches Err(CodecError::UnexpectedEndOfInput),
{
    match Cursor::new(bytes).read_be::<u32>() {
        Ok(value) => Ok(value),
        Err(e) if e.is_eof() => Err(CodecError::UnexpectedEndOfInput),
        Err(_) => Err(CodecError::MalformedField),
    }
}

/// `BinReaderExt::read_be::<u64>` on a cursor at the start of `bytes`: it takes
/// the first 8 bytes and returns the unsigned number they spell, most
/// significant byte first, or fails at the end of input where there are fewer.
#[verifier::external_body]
pub(crate) fn read_u64(bytes: &[u8]) -> (r: Result<u64, CodecError>)
    ensures
        bytes@.len() >= 8 ==> r is Ok && r.unwrap() == be_value(bytes@.take(8)),
        bytes@.len() < 8 ==> r matches Err(CodecError::UnexpectedEndOfInput),
{
    match Cursor::new(bytes).read_be::<u64>() {
        Ok(value) => Ok(value),
        Err(e) if e.is_eof() => Err(CodecError::UnexpectedEndOfInput),
        Err(_) => Err(CodecError::MalformedField),
    }
}

/// `BinReaderExt::read_be::<u128>` on a cursor at the start of `bytes`: it takes
/// the first 16 bytes and returns the unsigned number they spell, most
/// significant byte first, or fails at the end of input where there are fewer.
#[verifier::external_body]
pub(crate) fn read_u128(bytes: &[u8]) -> (r: Result<u128, CodecError>)
    ensures
        bytes@.len() >= 16 ==> r is Ok && r.unwrap() == be_value(bytes@.take(16)),
        bytes@.len() < 16 ==> r matches Err(CodecError::UnexpectedEndOfInput),
{
    match Cursor::new(bytes).read_be::<u128>() {
        Ok(value) => Ok(value),
        Err(e) if e.is_eof() => Err(CodecError::UnexpectedEndOfInput),
        Err(_) => Err(CodecError::MalformedField),
    }
}

/// `BinReaderExt::read_be::<i8>` on a cursor at the start of `bytes`: it takes
/// the first byte and returns the two's-complement number it spells, or fails
/// at the end of input where there is none.
#[verifier::external_body]
pub(crate) fn read_i8(bytes: &[u8]) -> (r: Result<i8, CodecError>)
    ensures
        bytes@.len() >= 1 ==> r is Ok && r.unwrap() == be_signed_value(bytes@.take(1)),
        bytes@.len() < 1 ==> r matches Err(CodecError::UnexpectedEndOfInput),
{
    match Cursor::new(bytes).read_be::<i8>() {
        Ok(value) => Ok(value),
        Err(e) if e.is_eof() => Err(CodecError::UnexpectedEndOfInput),
        Err(_) => Err(CodecError::MalformedField),
    }
}

/// `BinReaderExt::read_be::<i16>` on a cursor at the start of `bytes`: it takes
/// the first 2 bytes and returns the two's-complement number they spell,
/// most significant byte first, or fails at the end of input where there are
/// fewer.
#[verifier::external_body]
pub(crate) fn read_i16(bytes: &[u8]) -> (r: Result<i16, CodecError>)
    ensures
        bytes@.len() >= 2 ==> r is Ok && r.unwrap() == be_signed_value(bytes@.take(2)),
        bytes@.len() < 2 ==> r matches Err(CodecError::UnexpectedEndOfInput),
{
    match Cursor::new(bytes).read_be::<i16>() {
        Ok(value) => Ok(value),
        Err(e) if e.is_eof() => Err(CodecError::UnexpectedEndOfInput),
        Err(_) => Err(CodecError::MalformedField),
    }
}

/// `BinReaderExt::read_be::<i32>` on a cursor at the start of `bytes`: it takes
/// the first 4 bytes and returns the two's-complement number they spell,
/// most significant byte first, or fails at the end of input where there are
/// fewer.
#[verifier::external_body]
pub(crate) fn read_i32(bytes: &[u8]) -> (r: Result<i32, CodecError>)
    ensures
        bytes@.len() >= 4 ==> r is Ok && r.unwrap() == be_signed_value(bytes@.take(4)),
        bytes@.len() < 4 ==> r matches Err(CodecError::UnexpectedEndOfInput),
{
    match Cursor::new(bytes).read_be::<i32>() {
        Ok(value) => Ok(value),
        Err(e) if e.is_eof() => Err(CodecError::UnexpectedEndOfInput),
        Err(_) => Err(CodecError::MalformedField),
    }
}

/// `BinReaderExt::read_be::<i64>` on a cursor at the start of `bytes`: it takes
/// the first 8 bytes and returns the two's-complement number they spell,
/// most significant byte first, or fails at the end of input where there are
/// fewer.
#[verifier::external_body]
pub(crate) fn read_i64(bytes: &[u8]) -> (r: Result<i64, CodecError>)
    ensures
        bytes@.len() >= 8 ==> r is Ok && r.unwrap() == be_signed_value(bytes@.take(8)),
        bytes@.len() < 8 ==> r matches Err(CodecError::UnexpectedEndOfInput),
{
    match Cursor::new(bytes).read_be::<i64>() {
        Ok(value) => Ok(value),
        Err(e) if e.is_eof() => Err(CodecError::UnexpectedEndOfInput),
        Err(_) => Err(CodecError::MalformedField),
    }
}

/// `BinReaderExt::read_be::<i128>` on a cursor at the start of `bytes`: it takes
/// the first 16 bytes and returns the two's-complement number they spell,
/// most significant byte first, or fails at the end of input where there are
/// fewer.
#[verifier::external_body]
pub(crate) fn read_i128(bytes: &[u8]) -> (r: Result<i128, CodecError>)
    ensures
        bytes@.len() >= 16 ==> r is Ok && r.unwrap() == be_signed_value(bytes@.take(16)),
        bytes@.len() < 16 ==> r matches Err(CodecError::UnexpectedEndOfInput),
{
    match Cursor::new(bytes).read_be::<i128>() {
        Ok(value) => Ok(value),
        Err(e) if e.is_eof() => Err(CodecError::UnexpectedEndOfInput),
        Err(_) => Err(CodecError::MalformedField),
    }
}

/// `BinReaderExt::read_be::<[u8; N]>` on a cursor at the start of `bytes`: it
/// takes the first `N` bytes as they are, or fails at the end of input where
/// there are fewer.
#[verifier::external_body]
pub(crate) fn read_array<const N: usize>(bytes: &[u8]) -> (r: Result<[u8; N], CodecError>)
    ensures
        bytes@.len() >= N ==> r is Ok && r.unwrap()@ == bytes@.take(N as int),
        bytes@.len() < N ==> r matches Err(CodecError::UnexpectedEndOfInput),
{
    match Cursor::new(bytes).read_be::<[u8; N]>() {
        Ok(value) => Ok(value),
        Err(e) if e.is_eof() => Err(CodecError::UnexpectedEndOfInput),
        Err(_) => Err(CodecError::MalformedField),
    }
}

/// `BinWriterExt::write_be` of a `u8` on a cursor over an empty vector: the
/// vector then holds the number as its one byte. Writing to a vector grows it
/// and does not fail.
#[verifier::external_body]
pub(crate) fn write_u8(value: u8) -> (r: Result<Vec<u8>, CodecError>)
    ensures
        r is Ok && r.unwrap()@ == be_bytes(value as nat, 1),
{
    let mut bytes = Vec::new();
    match Cursor::new(&mut bytes).write_be(&value) {
        Ok(()) => Ok(bytes),
        Err(_) => Err(CodecError::MalformedField),
    }
}

/// `BinWriterExt::write_be` of a `u16` on a cursor over an empty vector: the
/// vector then holds the 2 bytes of the number, most significant first.
/// Writing to a vector grows it and does not fail.
#[verifier::external_body]
pub(crate) fn write_u16(value: u16) -> (r: Result<Vec<u8>, CodecError>)
    ensures
        r is Ok && r.unwrap()@ == be_bytes(value as nat, 2),
{
    let mut bytes = Vec::new();
    match Cursor::new(&mut bytes).write_be(&value) {
        Ok(()) => Ok(bytes),
        Err(_) => Err(CodecError::MalformedField),
    }
}

/// `BinWriterExt::write_be` of a `u32` on a cursor over an empty vector: the
/// vector then holds the 4 bytes of the number, most significant first.
/// Writing to a vector grows it and does not fail.
#[verifier::external_body]
pub(crate) fn write_u32(value: u32) -> (r: Result<Vec<u8>, CodecError>)
    ensures
        r is Ok && r.unwrap()@ == be_bytes(value as nat, 4),
{
    let mut bytes = Vec::new();
    match Cursor::new(&mut bytes).write_be(&value) {
        Ok(()) => Ok(bytes),
        Err(_) => Err(CodecError::MalformedField),
    }
}

/// `BinWriterExt::write_be` of a `u64` on a cursor over an empty vector: the
/// vector then holds the 8 bytes of the number, most significant first.
/// Writing to a vector grows it and does not fail.
#[verifier::external_body]
pub(crate) fn write_u64(value: u64) -> (r: Result<Vec<u8>, CodecError>)
    ensures
        r is Ok && r.unwrap()@ == be_bytes(value as nat, 8),
{
    let mut bytes = Vec::new();
    match Cursor::new(&mut bytes).write_be(&value) {
        Ok(()) => Ok(bytes),
        Err(_) => Err(CodecError::MalformedField),
    }
}

/// `BinWriterExt::write_be` of a `u128` on a cursor over an empty vector: the
/// vector then holds the 16 bytes of the number, most significant first.
/// Writing to a vector grows it and does not fail.
#[verifier::external_body]
pub(crate) fn write_u128(value: u128) -> (r: Result<Vec<u8>, CodecError>)
    ensures
        r is Ok && r.unwrap()@ == be_bytes(value as nat, 16),
{
    let mut bytes = Vec::new();
    match Cursor::new(&mut bytes).write_be(&value) {
        Ok(()) => Ok(bytes),
        Err(_) => Err(CodecError::MalformedField),
    }
}

/// `BinWriterExt::write_be` of an `i8` on a cursor over an empty vector: the
/// vector then holds the one byte of the number's two's-complement code.
/// Writing to a vector grows it and does not fail.
#[verifier::external_body]
pub(crate) fn write_i8(value: i8) -> (r: Result<Vec<u8>, CodecError>)
    ensures
        r is Ok && r.unwrap()@ == be_signed_bytes(value as int, 1),
{
    let mut bytes = Vec::new();
    match Cursor::new(&mut bytes).write_be(&value) {
        Ok(()) => Ok(bytes),
        Err(_) => Err(CodecError::MalformedField),
    }
}

/// `BinWriterExt::write_be` of an `i16` on a cursor over an empty vector: the
/// vector then holds the 2 bytes of the number's two's-complement code,
/// most significant first. Writing to a vector grows it and does not fail.
#[verifier::external_body]
pub(crate) fn write_i16(value: i16) -> (r: Result<Vec<u8>, CodecError>)
    ensures
        r is Ok && r.unwrap()@ == be_signed_bytes(value as int, 2),
{
    let mut bytes = Vec::new();
    match Cursor::new(&mut bytes).write_be(&value) {
        Ok(()) => Ok(bytes),
        Err(_) => Err(CodecError::MalformedField),
    }
}

/// `BinWriterExt::write_be` of an `i32` on a cursor over an empty vector: the
/// vector then holds the 4 bytes of the number's two's-complement code,
/// most significant first. Writing to a vector grows it and does not fail.
#[verifier::external_body]
pub(crate) fn write_i32(value: i32) -> (r: Result<Vec<u8>, CodecError>)
    ensures
        r is Ok && r.unwrap()@ == be_signed_bytes(value as int, 4),
{
    let mut bytes = Vec::new();
    match Cursor::new(&mut bytes).write_be(&value) {
        Ok(()) => Ok(bytes),
        Err(_) => Err(CodecError::MalformedField),
    }
}

/// `BinWriterExt::write_be` of an `i64` on a cursor over an empty vector: the
/// vector then holds the 8 bytes of the number's two's-complement code,
/// most significant first. Writing to a vector grows it and does not fail.
#[verifier::external_body]
pub(crate) fn write_i64(value: i64) -> (r: Result<Vec<u8>, CodecError>)
    ensures
        r is Ok && r.unwrap()@ == be_signed_bytes(value as int, 8),
{
    let mut bytes = Vec::new();
    match Cursor::new(&mut bytes).write_be(&value) {
        Ok(()) => Ok(bytes),
        Err(_) => Err(CodecError::MalformedField),
    }
}

/// `BinWriterExt::write_be` of an `i128` on a cursor over an empty vector: the
/// vector then holds the 16 bytes of the number's two's-complement code,
/// most significant first. Writing to a vector grows it and does not fail.
#[verifier::external_body]
pub(crate) fn write_i128(value: i128) -> (r: Result<Vec<u8>, CodecError>)
    ensures
        r is Ok && r.unwrap()@ == be_signed_bytes(value as int, 16),
{
    let mut bytes = Vec::new();
    match Cursor::new(&mut bytes).write_be(&value) {
        Ok(()) => Ok(bytes),
        Err(_) => Err(CodecError::MalformedField),
    }
}

/// `BinWriterExt::write_be` of a `[u8; N]` on a cursor over an empty vector:
/// the vector then holds the `N` bytes as they are. Writing to a vector grows
/// it and does not fail.
#[verifier::external_body]
pub(crate) fn write_array<const N: usize>(value: &[u8; N]) -> (r: Result<Vec<u8>, CodecError>)
    ensures
        r is Ok && r.unwrap()@ == value@,
{
    let mut bytes = Vec::new();
    match Cursor::new(&mut bytes).write_be(value) {
        Ok(()) => Ok(bytes),
        Err(_) => Err(CodecError::MalformedField),
    }
}

} // verus!
