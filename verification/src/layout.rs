//! What a record is on the wire, and the two operations on it.

use vstd::prelude::*;
use crate::error::CodecError;

verus! {

/// A type whose values occupy a fixed number of bytes on the wire.
///
/// The three spec functions are the mathematical model of the format; the
/// proof functions are the obligations that make it a bijection between the
/// values of the type and the byte sequences of length [`Self::width`].
pub trait FixedLayout: Sized {
    /// How many bytes a value occupies.
    spec fn width() -> nat;

    /// The bytes that stand for `self`.
    spec fn to_wire(&self) -> Seq<u8>;

    /// The value that `bytes` stands for, where `bytes` has length
    /// [`Self::width`].
    spec fn from_wire(bytes: Seq<u8>) -> Self;

    /// Every value is written in exactly [`Self::width`] bytes.
    proof fn lemma_wire_len(&self)
        ensures
            self.to_wire().len() == Self::width(),
    ;

    /// Reading what was written gives the value back.
    proof fn lemma_value_round_trip(&self)
        ensures
            Self::from_wire(self.to_wire()) == *self,
    ;

    /// Writing what was read gives the bytes back.
    proof fn lemma_wire_round_trip(bytes: Seq<u8>)
        requires
            bytes.len() == Self::width(),
        ensures
            Self::from_wire(bytes).to_wire() == bytes,
    ;
}

/// What decoding `bytes` as a `T` yields: the value that the first
/// `T::width()` bytes stand for, whatever follows them, or
/// [`CodecError::UnexpectedEndOfInput`] where there are fewer bytes than that.
pub open spec fn spec_decode<T: FixedLayout>(bytes: Seq<u8>) -> Result<T, CodecError> {
    if bytes.len() >= T::width() {
        Ok(T::from_wire(bytes.take(T::width() as int)))
    } else {
        Err(CodecError::UnexpectedEndOfInput)
    }
}

/// What decoding `bytes` as a `T` yields together with the number of bytes
/// that the value took.
pub open spec fn spec_decode_prefix<T: FixedLayout>(bytes: Seq<u8>) -> Result<
    (T, usize),
    CodecError,
> {
    match spec_decode::<T>(bytes) {
        Ok(value) => Ok((value, T::width() as usize)),
        Err(e) => Err(e),
    }
}

/// Reading a record from the front of a byte buffer.
pub trait BytesDecodeExt: FixedLayout {
    /// Reads a value from the front of `bytes` and says how many bytes it
    /// took, which is where the next field starts.
    fn decode_prefix(bytes: &[u8]) -> (r: Result<(Self, usize), CodecError>)
        ensures
            r == spec_decode_prefix::<Self>(bytes@),
            r matches Ok((_, taken)) ==> taken == Self::width(),
    ;

    /// Reads a value from the front of `bytes`. Bytes beyond the value's
    /// width are left unread; a buffer shorter than the width is an error.
    fn decode(bytes: &[u8]) -> (r: Result<Self, CodecError>)
        ensures
            r == spec_decode::<Self>(bytes@),
    {
        match Self::decode_prefix(bytes) {
            Ok((value, _)) => Ok(value),
            Err(e) => Err(e),
        }
    }
}

/// Writing a record into a fresh byte buffer.
pub trait BytesEncodeExt: FixedLayout {
    /// Writes `self` into a new buffer, which then holds exactly the bytes
    /// of the value: no header, no padding.
    fn encode(&self) -> (r: Result<Vec<u8>, CodecError>)
        ensures
            r matches Ok(out) && out@ == self.to_wire(),
    ;
}

} // verus!
