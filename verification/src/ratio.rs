//! Which conversion ratios libsamplerate accepts.
//!
//! A ratio reaches the adapter as an IEEE 754 binary64 value; the adapter
//! reads it through its bit pattern (as `f64::to_bits` gives it), so that the
//! check is exact integer logic.

use vstd::prelude::*;

verus! {

/// Bit pattern of `1.0 / 256.0`, the smallest ratio libsamplerate accepts.
pub const MIN_RATIO_BITS: u64 = 0x3F70_0000_0000_0000;

/// Bit pattern of `256.0`, the largest ratio libsamplerate accepts.
pub const MAX_RATIO_BITS: u64 = 0x4070_0000_0000_0000;

/// The sign bit of a binary64 bit pattern.
pub open spec fn sign_field(bits: u64) -> u64 {
    bits >> 63u64
}

/// The biased exponent field (11 bits) of a binary64 bit pattern.
pub open spec fn exponent_field(bits: u64) -> u64 {
    (bits >> 52u64) & 0x7FFu64
}

/// The fraction field (52 bits) of a binary64 bit pattern.
pub open spec fn fraction_field(bits: u64) -> u64 {
    bits & 0x000F_FFFF_FFFF_FFFFu64
}

/// The binary64 value with bit pattern `bits` is finite and lies in the
/// closed range `[2^-8, 2^8]`.
///
/// Read field by field: the sign is positive; the exponent field is not the
/// all-ones field of infinities and NaNs; the value is at least `2^-8`, that
/// is, its unbiased exponent `e - 1023` is at least `-8` (zeros and
/// subnormals, with field 0, are smaller); and it is at most `2^8`, that is,
/// its unbiased exponent is below `8`, or equals `8` with a zero fraction.
pub open spec fn is_supported_ratio(bits: u64) -> bool {
    &&& sign_field(bits) == 0
    &&& exponent_field(bits) != 0x7FF
    &&& exponent_field(bits) >= 1015
    &&& (exponent_field(bits) < 1031 || (exponent_field(bits) == 1031 && fraction_field(bits) == 0))
}

/// Return whether the conversion ratio with bit pattern `ratio_bits` is finite
/// and supported by libsamplerate, i.e. within `[1/256, 256]`.
pub fn valid_ratio(ratio_bits: u64) -> (r: bool)
    ensures
        r == is_supported_ratio(ratio_bits),
        r == (0x3F70_0000_0000_0000u64 <= ratio_bits && ratio_bits <= 0x4070_0000_0000_0000u64),
{
    proof {
        assert((MIN_RATIO_BITS <= ratio_bits && ratio_bits <= MAX_RATIO_BITS) == (
        (ratio_bits >> 63u64) == 0
            && ((ratio_bits >> 52u64) & 0x7FFu64) != 0x7FF
            && ((ratio_bits >> 52u64) & 0x7FFu64) >= 1015
            && (((ratio_bits >> 52u64) & 0x7FFu64) < 1031 || (((ratio_bits >> 52u64) & 0x7FFu64)
            == 1031 && (ratio_bits & 0x000F_FFFF_FFFF_FFFFu64) == 0)))) by (bit_vector);
    }
    MIN_RATIO_BITS <= ratio_bits && ratio_bits <= MAX_RATIO_BITS
}

/// The supported ratios are exactly the binary64 bit patterns from that of
/// `1/256` to that of `256`, both included: every positive finite value in
/// `[1/256, 256]` is supported and nothing else is.
pub proof fn lemma_supported_ratios_are_the_bit_interval(bits: u64)
    ensures
        is_supported_ratio(bits) == (0x3F70_0000_0000_0000u64 <= bits && bits
            <= 0x4070_0000_0000_0000u64),
{
    assert((0x3F70_0000_0000_0000u64 <= bits && bits <= 0x4070_0000_0000_0000u64) == (
    (bits >> 63u64) == 0 && ((bits >> 52u64) & 0x7FFu64) != 0x7FF && ((bits >> 52u64) & 0x7FFu64)
        >= 1015 && (((bits >> 52u64) & 0x7FFu64) < 1031 || (((bits >> 52u64) & 0x7FFu64) == 1031
        && (bits & 0x000F_FFFF_FFFF_FFFFu64) == 0)))) by (bit_vector);
}

/// Both bounds are supported, and the supported ratios have no gaps: a bit
/// pattern between two supported ones (for positive values, bit order is
/// value order) is supported too.
pub proof fn lemma_supported_ratios_have_no_gaps(low: u64, mid: u64, high: u64)
    ensures
        is_supported_ratio(0x3F70_0000_0000_0000u64),
        is_supported_ratio(0x4070_0000_0000_0000u64),
        (is_supported_ratio(low) && is_supported_ratio(high) && low <= mid && mid <= high)
            ==> is_supported_ratio(mid),
{
    lemma_supported_ratios_are_the_bit_interval(0x3F70_0000_0000_0000u64);
    lemma_supported_ratios_are_the_bit_interval(0x4070_0000_0000_0000u64);
    lemma_supported_ratios_are_the_bit_interval(low);
    lemma_supported_ratios_are_the_bit_interval(mid);
    lemma_supported_ratios_are_the_bit_interval(high);
}

} // verus!
