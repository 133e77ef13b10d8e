//! Stepping through a buffer one field at a time.
//!
//! A record is read by starting at offset 0 and reading its fields in their
//! declared order, each read moving the offset on by the field's width. It is
//! written by appending the fields to an empty buffer in the same order.

use vstd::prelude::*;
use vstd::slice::slice_subrange;
use crate::error::CodecError;
use crate::layout::{BytesDecodeExt, BytesEncodeExt, FixedLayout};

verus! {

/// What reading a `T` at offset `at` of `bytes` yields: the value that the
/// `T::width()` bytes from `at` on stand for, with the offset just behind
/// them, or [`CodecError::UnexpectedEndOfInput`] where the buffer ends
/// before that.
pub open spec fn spec_read_field<T: FixedLayout>(bytes: Seq<u8>, at: usize) -> Result<
    (T, usize),
    CodecError,
> {
    if at + T::width() <= bytes.len() {
        Ok((T::from_wire(bytes.subrange(at as int, at + T::width())), (at + T::width()) as usize))
    } else {
        Err(CodecError::UnexpectedEndOfInput)
    }
}

/// Reads the field that starts at offset `at` of `bytes` and returns it with
/// the offset of the field that follows.
pub fn read_field<T: BytesDecodeExt>(bytes: &[u8], at: usize) -> (r: Result<(T, usize), CodecError>)
    ensures
        r == spec_read_field::<T>(bytes@, at),
        r matches Ok((_, next)) ==> next == at + T::width(),
{
    if at > bytes.len() {
        return Err(CodecError::UnexpectedEndOfInput);
    }
    let rest = slice_subrange(bytes, at, bytes.len());
    match T::decode_prefix(rest) {
        Ok((value, taken)) => {
            assert(rest@.take(T::width() as int) =~= bytes@.subrange(
                at as int,
                at + T::width(),
            ));
            Ok((value, at + taken))
        },
        Err(e) => Err(e),
    }
}

/// Appends the bytes of `value` to `out`.
pub fn write_field<T: BytesEncodeExt>(value: &T, out: &mut Vec<u8>) -> (r: Result<(), CodecError>)
    ensures
        r is Ok,
        final(out)@ == old(out)@ + value.to_wire(),
{
    let mut bytes = value.encode()?;
    out.append(&mut bytes);
    Ok(())
}

} // verus!
