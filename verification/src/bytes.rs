//! Byte-array fields: `N` bytes, copied as they are.

use vstd::array::{spec_array_fill_for_copy_type, spec_array_update};
use vstd::prelude::*;
use crate::binrw_calls::{read_array, write_array};
use crate::error::CodecError;
use crate::layout::{BytesDecodeExt, BytesEncodeExt, FixedLayout};

verus! {

/// The array that holds `bytes`, where `bytes` has length `N`.
pub open spec fn array_of<const N: usize>(bytes: Seq<u8>) -> [u8; N] {
    choose|a: [u8; N]| a@ == bytes
}

/// An array whose first `upto` elements are those of `bytes`.
spec fn filled<const N: usize>(bytes: Seq<u8>, upto: nat) -> [u8; N]
    decreases upto,
{
    if upto == 0 {
        spec_array_fill_for_copy_type::<u8, N>(0u8)
    } else {
        spec_array_update(filled::<N>(bytes, (upto - 1) as nat), upto - 1, bytes[upto - 1])
    }
}

/// `filled` agrees with `bytes` on the elements that it has set.
proof fn lemma_filled<const N: usize>(bytes: Seq<u8>, upto: nat)
    requires
        upto <= N,
        bytes.len() == N,
    ensures
        forall|i: int| 0 <= i < upto ==> filled::<N>(bytes, upto)@[i] == bytes[i],
    decreases upto,
{
    if upto > 0 {
        lemma_filled::<N>(bytes, (upto - 1) as nat);
    }
}

/// Every sequence of `N` bytes is held by some array, and `array_of` picks it.
pub proof fn lemma_array_of<const N: usize>(bytes: Seq<u8>)
    requires
        bytes.len() == N,
    ensures
        array_of::<N>(bytes)@ == bytes,
{
    lemma_filled::<N>(bytes, N as nat);
    assert(filled::<N>(bytes, N as nat)@ =~= bytes);
}

/// An array is the one that `array_of` picks for its own bytes.
pub proof fn lemma_array_of_view<const N: usize>(a: [u8; N])
    ensures
        array_of::<N>(a@) == a,
{
    assert(array_of::<N>(a@) =~= a);
}

impl<const N: usize> FixedLayout for [u8; N] {
    open spec fn width() -> nat {
        N as nat
    }

    open spec fn to_wire(&self) -> Seq<u8> {
        self@
    }

    open spec fn from_wire(bytes: Seq<u8>) -> [u8; N] {
        array_of::<N>(bytes)
    }

    proof fn lemma_wire_len(&self) {
    }

    proof fn lemma_value_round_trip(&self) {
        lemma_array_of_view::<N>(*self);
    }

    proof fn lemma_wire_round_trip(bytes: Seq<u8>) {
        lemma_array_of::<N>(bytes);
    }
}

impl<const N: usize> BytesDecodeExt for [u8; N] {
    fn decode_prefix(bytes: &[u8]) -> (r: Result<([u8; N], usize), CodecError>) {
        match read_array::<N>(bytes) {
            Ok(value) => {
                proof {
                    lemma_array_of_view::<N>(value);
                }
                Ok((value, N))
            },
            Err(e) => Err(e),
        }
    }
}

impl<const N: usize> BytesEncodeExt for [u8; N] {
    fn encode(&self) -> (r: Result<Vec<u8>, CodecError>) {
        write_array::<N>(self)
    }
}

} // verus!
