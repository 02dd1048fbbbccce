//! Bit ranges of machine words, extracted by the `bit_field` crate.

use bit_field::BitField;
use vstd::prelude::*;

verus! {

/// The bits of `value` at positions `start` up to, but not including, `end`,
/// moved down so that the bit at `start` comes to stand at position 0.
pub open spec fn bit_range_u32(value: u32, start: u32, end: u32) -> u32 {
    (value >> start) & (0xffff_ffffu32 >> ((32 - (end - start)) as u32))
}

/// The bits of `value` at positions `start` up to, but not including, `end`,
/// moved down so that the bit at `start` comes to stand at position 0.
pub open spec fn bit_range_u64(value: u64, start: u32, end: u32) -> u64 {
    (value >> start) & (0xffff_ffff_ffff_ffffu64 >> ((64 - (end - start)) as u32))
}

/// Calls `BitField::get_bits` of the `bit_field` crate on a `u32` with the
/// range `start..end`. That method asserts `start < 32`, `end <= 32` and
/// `start <= end`; for a non-empty range it shifts the bits from `end`
/// upwards out to the left, shifts back, and then shifts right by `start`,
/// which leaves exactly the bits `start..end` at the bottom of the word.
#[verifier::external_body]
pub(crate) fn get_bits_u32(value: u32, start: u32, end: u32) -> (r: u32)
    requires
        start < end <= 32,
    ensures
        r == bit_range_u32(value, start, end),
{
    value.get_bits(start as usize..end as usize)
}

/// Calls `BitField::get_bits` of the `bit_field` crate on a `u64` with the
/// range `start..end`. That method asserts `start < 64`, `end <= 64` and
/// `start <= end`; for a non-empty range it shifts the bits from `end`
/// upwards out to the left, shifts back, and then shifts right by `start`,
/// which leaves exactly the bits `start..end` at the bottom of the word.
#[verifier::external_body]
pub(crate) fn get_bits_u64(value: u64, start: u32, end: u32) -> (r: u64)
    requires
        start < end <= 64,
    ensures
        r == bit_range_u64(value, start, end),
{
    value.get_bits(start as usize..end as usize)
}

/// The bit range of a 32-bit word is what is left when the bits from `end`
/// upwards are shifted out to the left and back, and the word is then shifted
/// right by `start`.
pub proof fn lemma_bit_range_u32_by_shifts(value: u32, start: u32, end: u32)
    requires
        start < end <= 32,
    ensures
        bit_range_u32(value, start, end) == ((value << ((32 - end) as u32)) >> ((32 - end) as u32))
            >> start,
{
    assert(start < end <= 32 ==> bit_range_u32(value, start, end) == ((value << ((32 - end) as u32))
        >> ((32 - end) as u32)) >> start) by (bit_vector);
}

/// The lower and the upper half of a 64-bit word are what is left when the
/// bits above the half are shifted out to the left and back, and the word is
/// then shifted right to the start of the half: the remainder and the
/// quotient of the word by 2 to the power of 32.
pub proof fn lemma_bit_range_u64_halves(value: u64)
    ensures
        bit_range_u64(value, 0, 32) == ((value << 32) >> 32) >> 0,
        bit_range_u64(value, 32, 64) == ((value << 0) >> 0) >> 32,
        bit_range_u64(value, 0, 32) == value % 0x1_0000_0000,
        bit_range_u64(value, 32, 64) == value / 0x1_0000_0000,
{
    assert(bit_range_u64(value, 0, 32) == ((value << 32) >> 32) >> 0) by (bit_vector);
    assert(bit_range_u64(value, 32, 64) == ((value << 0) >> 0) >> 32) by (bit_vector);
    assert(bit_range_u64(value, 0, 32) == value % 0x1_0000_0000) by (bit_vector);
    assert(bit_range_u64(value, 32, 64) == value / 0x1_0000_0000) by (bit_vector);
}

} // verus!
