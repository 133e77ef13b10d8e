//! What holds of decoding and encoding, for every type with a fixed layout.
//!
//! The laws are stated over [`spec_decode`] and [`FixedLayout::to_wire`],
//! which is what [`BytesDecodeExt::decode`](crate::layout::BytesDecodeExt::decode)
//! and [`BytesEncodeExt::encode`](crate::layout::BytesEncodeExt::encode)
//! are proved to return.

use vstd::prelude::*;
use crate::error::CodecError;
use crate::layout::{spec_decode, FixedLayout};

verus! {

/// Decoding the encoding of a value gives the value back.
pub proof fn lemma_decode_of_encode<T: FixedLayout>(value: T)
    ensures
        spec_decode::<T>(value.to_wire()) == Ok::<T, CodecError>(value),
{
    value.lemma_wire_len();
    value.lemma_value_round_trip();
    assert(value.to_wire().take(T::width() as int) =~= value.to_wire());
}

/// A buffer of exactly the record's width decodes to a value whose encoding
/// is that buffer.
pub proof fn lemma_encode_of_decode<T: FixedLayout>(bytes: Seq<u8>)
    requires
        bytes.len() == T::width(),
    ensures
        spec_decode::<T>(bytes) matches Ok(value) && value.to_wire() == bytes,
{
    T::lemma_wire_round_trip(bytes);
    assert(bytes.take(T::width() as int) =~= bytes);
}

/// The encoding of a value is exactly as long as the record's width: the sum
/// of the widths of its fields, with no header and no padding.
pub proof fn lemma_encoding_has_width<T: FixedLayout>(value: T)
    ensures
        value.to_wire().len() == T::width(),
{
    value.lemma_wire_len();
}

/// A buffer shorter than the record's width does not decode: the result is
/// the end-of-input error, never a value.
pub proof fn lemma_truncated_input_fails<T: FixedLayout>(bytes: Seq<u8>)
    requires
        bytes.len() < T::width(),
    ensures
        spec_decode::<T>(bytes) == Err::<T, CodecError>(CodecError::UnexpectedEndOfInput),
{
}

/// A buffer at least as long as the record's width decodes, and to the same
/// value whatever is appended to it: only the first bytes are read.
pub proof fn lemma_trailing_bytes_ignored<T: FixedLayout>(bytes: Seq<u8>, trailing: Seq<u8>)
    requires
        bytes.len() >= T::width(),
    ensures
        spec_decode::<T>(bytes) is Ok,
        spec_decode::<T>(bytes + trailing) == spec_decode::<T>(bytes),
{
    assert((bytes + trailing).take(T::width() as int) =~= bytes.take(T::width() as int));
}

/// The fields of a record lie in its encoding in their declared order: in
/// `(first, second)` the bytes of `first` start at offset 0 and those of
/// `second` follow them, and in `(second, first)` it is the other way round.
pub proof fn lemma_field_order<A: FixedLayout, B: FixedLayout>(first: A, second: B)
    ensures
        (first, second).to_wire().subrange(0, A::width() as int) == first.to_wire(),
        (first, second).to_wire().subrange(A::width() as int, (A::width() + B::width()) as int)
            == second.to_wire(),
        (second, first).to_wire().subrange(0, B::width() as int) == second.to_wire(),
        (second, first).to_wire().subrange(B::width() as int, (B::width() + A::width()) as int)
            == first.to_wire(),
{
    first.lemma_wire_len();
    second.lemma_wire_len();
    let forth = (first, second).to_wire();
    let back = (second, first).to_wire();
    assert(forth.subrange(0, A::width() as int) =~= first.to_wire());
    assert(forth.subrange(A::width() as int, (A::width() + B::width()) as int) =~= second.to_wire());
    assert(back.subrange(0, B::width() as int) =~= second.to_wire());
    assert(back.subrange(B::width() as int, (B::width() + A::width()) as int) =~= first.to_wire());
}

} // verus!
