//! The big-endian reading of a byte sequence as a number, and its inverse.

use vstd::prelude::*;

verus! {

/// The number that `bytes` spells in base 256, most significant byte first.
pub open spec fn be_value(bytes: Seq<u8>) -> nat
    decreases bytes.len(),
{
    if bytes.len() == 0 {
        0
    } else {
        256 * be_value(bytes.drop_last()) + bytes.last() as nat
    }
}

/// The `width` low-order base-256 digits of `value`, most significant first.
pub open spec fn be_bytes(value: nat, width: nat) -> Seq<u8>
    decreases width,
{
    if width == 0 {
        Seq::empty()
    } else {
        be_bytes(value / 256, (width - 1) as nat).push((value % 256) as u8)
    }
}

/// 256 to the power `width`: the number of values that `width` bytes can hold.
pub open spec fn radix_pow(width: nat) -> nat
    decreases width,
{
    if width == 0 {
        1
    } else {
        256 * radix_pow((width - 1) as nat)
    }
}

/// The number of values that 1, 2, 4, 8 and 16 bytes can hold.
pub proof fn lemma_radix_pow_values()
    ensures
        radix_pow(1) == 0x100,
        radix_pow(2) == 0x1_0000,
        radix_pow(4) == 0x1_0000_0000,
        radix_pow(8) == 0x1_0000_0000_0000_0000,
        radix_pow(16) == 0x1_0000_0000_0000_0000_0000_0000_0000_0000,
{
    reveal_with_fuel(radix_pow, 17);
}

/// `be_bytes` yields exactly `width` bytes.
pub proof fn lemma_be_bytes_len(value: nat, width: nat)
    ensures
        be_bytes(value, width).len() == width,
    decreases width,
{
    if width > 0 {
        lemma_be_bytes_len(value / 256, (width - 1) as nat);
    }
}

/// A byte sequence spells a number below 256 to the power of its length.
pub proof fn lemma_be_value_bound(bytes: Seq<u8>)
    ensures
        be_value(bytes) < radix_pow(bytes.len()),
    decreases bytes.len(),
{
    if bytes.len() > 0 {
        lemma_be_value_bound(bytes.drop_last());
    }
}

/// Spelling a number that fits in `width` bytes and reading it back gives
/// the number.
pub proof fn lemma_be_value_of_bytes(value: nat, width: nat)
    requires
        value < radix_pow(width),
    ensures
        be_value(be_bytes(value, width)) == value,
    decreases width,
{
    if width > 0 {
        let rest = be_bytes(value / 256, (width - 1) as nat);
        lemma_be_value_of_bytes(value / 256, (width - 1) as nat);
        assert(be_bytes(value, width).drop_last() =~= rest);
    }
}

/// Reading a byte sequence as a number and spelling that number in as many
/// bytes gives the sequence.
pub proof fn lemma_be_bytes_of_value(bytes: Seq<u8>)
    ensures
        be_bytes(be_value(bytes), bytes.len()) == bytes,
    decreases bytes.len(),
{
    if bytes.len() > 0 {
        lemma_be_bytes_of_value(bytes.drop_last());
        assert(be_bytes(be_value(bytes), bytes.len()) =~= bytes);
    }
}

/// The signed number that `bytes` spells in two's complement, most
/// significant byte first: codes in the upper half of the range stand for the
/// negative numbers.
pub open spec fn be_signed_value(bytes: Seq<u8>) -> int {
    let code = be_value(bytes);
    if 2 * code >= radix_pow(bytes.len()) {
        code - radix_pow(bytes.len())
    } else {
        code as int
    }
}

/// The `width` bytes of the two's-complement code of `value`, most
/// significant first.
pub open spec fn be_signed_bytes(value: int, width: nat) -> Seq<u8> {
    if value < 0 {
        be_bytes((value + radix_pow(width)) as nat, width)
    } else {
        be_bytes(value as nat, width)
    }
}

/// `be_signed_bytes` yields exactly `width` bytes.
pub proof fn lemma_be_signed_bytes_len(value: int, width: nat)
    ensures
        be_signed_bytes(value, width).len() == width,
{
    if value < 0 {
        lemma_be_bytes_len((value + radix_pow(width)) as nat, width);
    } else {
        lemma_be_bytes_len(value as nat, width);
    }
}

/// A byte sequence spells a signed number within the two's-complement range
/// of its length.
pub proof fn lemma_be_signed_value_bound(bytes: Seq<u8>)
    ensures
        -(radix_pow(bytes.len()) as int) <= 2 * be_signed_value(bytes) < radix_pow(bytes.len()),
{
    lemma_be_value_bound(bytes);
}

/// Spelling a signed number that fits in `width` bytes and reading it back
/// gives the number.
pub proof fn lemma_be_signed_value_of_bytes(value: int, width: nat)
    requires
        -(radix_pow(width) as int) <= 2 * value < radix_pow(width),
    ensures
        be_signed_value(be_signed_bytes(value, width)) == value,
{
    let code = if value < 0 {
        (value + radix_pow(width)) as nat
    } else {
        value as nat
    };
    lemma_be_bytes_len(code, width);
    lemma_be_value_of_bytes(code, width);
}

/// Reading a byte sequence as a signed number and spelling that number in as
/// many bytes gives the sequence.
pub proof fn lemma_be_signed_bytes_of_value(bytes: Seq<u8>)
    ensures
        be_signed_bytes(be_signed_value(bytes), bytes.len()) == bytes,
{
    lemma_be_value_bound(bytes);
    lemma_be_bytes_of_value(bytes);
}

} // verus!
