//! Bytes used as sets of flags, one flag per bit.

use vstd::prelude::*;

verus! {

/// Every bit of `mask` is set in `bits`.
pub open spec fn spec_contains(bits: u8, mask: u8) -> bool {
    bits & mask == mask
}

/// `bits` with the bits of `mask` set (`on`) or cleared (`!on`).
pub open spec fn spec_put(bits: u8, mask: u8, on: bool) -> u8 {
    if on {
        bits | mask
    } else {
        bits & !mask
    }
}

/// `mask` names exactly one bit.
pub open spec fn is_single_bit(mask: u8) -> bool {
    mask == 0x01 || mask == 0x02 || mask == 0x04 || mask == 0x08 || mask == 0x10 || mask == 0x20
        || mask == 0x40 || mask == 0x80
}

/// Tests whether every bit of `mask` is set in `bits`.
pub fn contains(bits: u8, mask: u8) -> (r: bool)
    ensures
        r == spec_contains(bits, mask),
{
    bits & mask == mask
}

/// Sets or clears the bits of `mask` in `bits`.
pub fn put(bits: u8, mask: u8, on: bool) -> (r: u8)
    ensures
        r == spec_put(bits, mask, on),
{
    if on {
        bits | mask
    } else {
        bits & !mask
    }
}

/// A flag that was just written reads back as written.
pub proof fn lemma_put_then_contains(bits: u8, mask: u8, on: bool)
    requires
        mask != 0,
    ensures
        spec_contains(spec_put(bits, mask, on), mask) == on,
{
    assert((bits | mask) & mask == mask) by (bit_vector);
    assert(mask != 0 ==> (bits & !mask) & mask != mask) by (bit_vector);
}

/// Writing one flag leaves every flag outside its mask as it was.
pub proof fn lemma_put_keeps_others(bits: u8, mask: u8, on: bool, other: u8)
    requires
        mask & other == 0,
    ensures
        spec_contains(spec_put(bits, mask, on), other) == spec_contains(bits, other),
        spec_put(bits, mask, on) & other == bits & other,
{
    assert(mask & other == 0 ==> (bits | mask) & other == bits & other) by (bit_vector);
    assert(mask & other == 0 ==> (bits & !mask) & other == bits & other) by (bit_vector);
}

/// Two different single bits do not overlap.
pub proof fn lemma_single_bits_disjoint(a: u8, b: u8)
    requires
        is_single_bit(a),
        is_single_bit(b),
        a != b,
    ensures
        a & b == 0,
        b & a == 0,
        a != 0,
        b != 0,
{
    assert(is_single_bit(a) && is_single_bit(b) && a != b ==> a & b == 0 && b & a == 0)
        by (bit_vector);
}

/// Writing one flag leaves every other flag as it was.
pub proof fn lemma_put_keeps_flag(bits: u8, mask: u8, on: bool, other: u8)
    requires
        is_single_bit(mask),
        is_single_bit(other),
        mask != other,
    ensures
        spec_contains(spec_put(bits, mask, on), other) == spec_contains(bits, other),
{
    lemma_single_bits_disjoint(mask, other);
    lemma_put_keeps_others(bits, mask, on, other);
}

} // verus!
