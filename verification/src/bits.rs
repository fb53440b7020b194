//! Bit ranges of 64-bit words, and the calls that read and write them.
use bit_field::BitField;
use vstd::arithmetic::power2::{lemma2_to64, lemma2_to64_rest, pow2};
use vstd::prelude::*;

verus! {

/// The number held in the bits `lo..=hi` of `value`.
pub open spec fn bit_range(value: u64, lo: int, hi: int) -> int {
    (value as int / pow2(lo as nat) as int) % (pow2((hi - lo + 1) as nat) as int)
}

/// `value` with the number in the bits `lo..=hi` replaced by `field`.
pub open spec fn with_bit_range(value: u64, lo: int, hi: int, field: u64) -> int {
    value + (field - bit_range(value, lo, hi)) * pow2(lo as nat)
}

/// The bit ranges of a redirection entry in plain arithmetic.
pub proof fn lemma_bit_ranges(value: u64)
    ensures
        bit_range(value, 0, 7) == value % 0x100,
        bit_range(value, 0, 31) == value % 0x1_0000_0000,
        bit_range(value, 32, 63) == value / 0x1_0000_0000,
        bit_range(value, 56, 63) == value / 0x0100_0000_0000_0000,
{
    lemma2_to64();
    lemma2_to64_rest();
    lemma_bit_range_at(value, 0, 7, 1, 0x100);
    lemma_bit_range_at(value, 0, 31, 1, 0x1_0000_0000);
    lemma_bit_range_at(value, 32, 63, 0x1_0000_0000, 0x1_0000_0000);
    lemma_bit_range_at(value, 56, 63, 0x0100_0000_0000_0000, 0x100);
}

proof fn lemma_bit_range_at(value: u64, lo: int, hi: int, unit: int, span: int)
    requires
        pow2(lo as nat) == unit,
        pow2((hi - lo + 1) as nat) == span,
    ensures
        bit_range(value, lo, hi) == (value as int / unit) % span,
{
}

/// A single bit in plain arithmetic.
pub proof fn lemma_bit_at(value: u64, bit: int, unit: int)
    requires
        pow2(bit as nat) == unit,
    ensures
        value as int / pow2(bit as nat) as int == value as int / unit,
{
}

/// `bit_field::BitField::get_bits` on a `u64`, over the inclusive range `lo..=hi`.
///
/// The claim: the call returns the number held in these bits, moved down to bit 0.
/// It panics when the range leaves the word.
#[verifier::external_body]
pub(crate) fn get_bits(value: u64, lo: usize, hi: usize) -> (field: u64)
    requires
        lo <= hi < 64,
    ensures
        field == bit_range(value, lo as int, hi as int),
{
    value.get_bits(lo..=hi)
}

/// `bit_field::BitField::set_bits` on a `u64`, over the inclusive range `lo..=hi`.
///
/// The claim: the call replaces the number held in these bits by `field` and keeps every other
/// bit. It panics when `field` does not fit into the range.
#[verifier::external_body]
pub(crate) fn set_bits(value: u64, lo: usize, hi: usize, field: u64) -> (updated: u64)
    requires
        lo <= hi < 64,
        field < pow2((hi - lo + 1) as nat),
    ensures
        updated == with_bit_range(value, lo as int, hi as int, field),
{
    let mut updated: u64 = value;
    updated.set_bits(lo..=hi, field);
    updated
}

/// `bit_field::BitField::get_bit` on a `u64`.
///
/// The claim: the call tells whether the bit with this index is set. It panics when the index is
/// not below 64.
#[verifier::external_body]
pub(crate) fn get_bit(value: u64, bit: usize) -> (set: bool)
    requires
        bit < 64,
    ensures
        set == ((value as int / pow2(bit as nat) as int) % 2 == 1),
{
    value.get_bit(bit)
}

} // verus!
