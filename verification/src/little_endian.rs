//! Little-endian, base-256 notation of natural numbers, as a mathematical
//! model: which number a byte sequence spells, which bytes spell a number,
//! and the proofs that the two directions undo each other.

use vstd::prelude::*;

verus! {

/// 256 raised to `exponent`: how many numbers `exponent` bytes can spell.
pub open spec fn radix_power(exponent: nat) -> nat
    decreases exponent,
{
    if exponent == 0 {
        1
    } else {
        256 * radix_power((exponent - 1) as nat)
    }
}

/// The number that `bytes` spell when the first byte is the least
/// significant digit and each following byte weighs 256 times the one
/// before it.
pub open spec fn le_value(bytes: Seq<u8>) -> nat
    decreases bytes.len(),
{
    if bytes.len() == 0 {
        0
    } else {
        bytes[0] as nat + 256 * le_value(bytes.drop_first())
    }
}

/// The `width` lowest base-256 digits of `value`, least significant first.
pub open spec fn le_digits(value: nat, width: nat) -> Seq<u8>
    decreases width,
{
    if width == 0 {
        Seq::empty()
    } else {
        seq![(value % 256) as u8] + le_digits(value / 256, (width - 1) as nat)
    }
}

/// Eight bytes spell exactly the numbers that fit in a `u64`.
pub proof fn lemma_radix_power_eight()
    ensures
        radix_power(8) == 0x1_0000_0000_0000_0000,
{
    reveal_with_fuel(radix_power, 9);
}

/// `le_digits` yields as many bytes as it was asked for.
pub proof fn lemma_le_digits_len(value: nat, width: nat)
    ensures
        le_digits(value, width).len() == width,
    decreases width,
{
    if width > 0 {
        lemma_le_digits_len(value / 256, (width - 1) as nat);
    }
}

/// A byte sequence spells a number below 256 to the power of its length.
pub proof fn lemma_le_value_bound(bytes: Seq<u8>)
    ensures
        le_value(bytes) < radix_power(bytes.len()),
    decreases bytes.len(),
{
    if bytes.len() > 0 {
        lemma_le_value_bound(bytes.drop_first());
    }
}

/// Spelling a number that fits in `width` bytes and reading the bytes back
/// gives the number again.
pub proof fn lemma_le_value_of_digits(value: nat, width: nat)
    requires
        value < radix_power(width),
    ensures
        le_value(le_digits(value, width)) == value,
    decreases width,
{
    if width > 0 {
        let rest = le_digits(value / 256, (width - 1) as nat);
        let digits = le_digits(value, width);
        lemma_le_value_of_digits(value / 256, (width - 1) as nat);
        assert(digits.drop_first() =~= rest);
        assert(digits[0] == (value % 256) as u8);
    }
}

/// Reading a byte sequence and spelling the number in as many bytes gives
/// the same bytes again: no two sequences of one length spell one number.
pub proof fn lemma_le_digits_of_value(bytes: Seq<u8>)
    ensures
        le_digits(le_value(bytes), bytes.len()) == bytes,
    decreases bytes.len(),
{
    if bytes.len() > 0 {
        let tail = bytes.drop_first();
        lemma_le_digits_of_value(tail);
        let value = le_value(bytes);
        assert(value % 256 == bytes[0] as nat);
        assert(value / 256 == le_value(tail));
        assert(le_digits(value, bytes.len()) =~= bytes);
    } else {
        assert(le_digits(le_value(bytes), bytes.len()) =~= bytes);
    }
}

} // verus!
