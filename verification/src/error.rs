//! The ways in which decoding or encoding a record can fail.

use vstd::prelude::*;

verus! {

/// Why a record could not be decoded or encoded.
#[derive(Debug, Clone, Copy, PartialEq, Eq, Structural)]
pub enum CodecError {
    /// The buffer ended before every field of the record had been read.
    UnexpectedEndOfInput,
    /// The bytes of a field do not stand for a value of its kind. No field
    /// kind that this crate defines can fail this way: an integer or a byte
    /// array accepts every bit pattern.
    MalformedField,
}

} // verus!
