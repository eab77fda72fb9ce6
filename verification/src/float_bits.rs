//! IEEE 754 binary32 values seen through their bit patterns.

use vstd::prelude::*;

verus! {

/// Bit pattern of `f32::MAX`.
pub const F32_MAX_BITS: u32 = 0x7f7f_ffff;

/// The biased exponent field of a binary32 bit pattern (bits 23 to 30).
pub open spec fn exponent_field(bits: u32) -> u32 {
    (bits >> 23u32) & 0xffu32
}

/// The fraction field of a binary32 bit pattern (bits 0 to 22).
pub open spec fn fraction_field(bits: u32) -> u32 {
    bits & 0x7f_ffffu32
}

/// The pattern encodes a NaN: all exponent bits set and a non-zero fraction.
pub open spec fn is_nan(bits: u32) -> bool {
    exponent_field(bits) == 0xff && fraction_field(bits) != 0
}

/// The pattern encodes `+0.0` or `-0.0`.
pub open spec fn is_zero(bits: u32) -> bool {
    exponent_field(bits) == 0 && fraction_field(bits) == 0
}

/// IEEE 754 equality (what `==` on `f32` computes) of the two values that
/// the patterns encode: no NaN equals anything, the two zeros are equal, and
/// any other value equals exactly the value with the same pattern.
pub open spec fn same_value(a: u32, b: u32) -> bool {
    !is_nan(a) && !is_nan(b) && (a == b || (is_zero(a) && is_zero(b)))
}

/// Clearing the sign bit leaves the magnitude, whose size classifies the value.
proof fn lemma_magnitude_classifies(bits: u32)
    ensures
        is_nan(bits) <==> (bits & 0x7fff_ffffu32) > 0x7f80_0000u32,
        is_zero(bits) <==> (bits & 0x7fff_ffffu32) == 0,
{
    assert((((bits >> 23u32) & 0xffu32) == 0xffu32 && (bits & 0x7f_ffffu32) != 0u32) <==> (bits
        & 0x7fff_ffffu32) > 0x7f80_0000u32) by (bit_vector);
    assert((((bits >> 23u32) & 0xffu32) == 0u32 && (bits & 0x7f_ffffu32) == 0u32) <==> (bits
        & 0x7fff_ffffu32) == 0u32) by (bit_vector);
}

/// Compares the `f32` values encoded by `a` and `b` as `==` on `f32` does.
pub fn f32_bits_equal(a: u32, b: u32) -> (r: bool)
    ensures
        r == same_value(a, b),
        // neither is a NaN, and the patterns agree or both are zeros
        r <==> ((a & 0x7fff_ffffu32) <= 0x7f80_0000u32 && (b & 0x7fff_ffffu32) <= 0x7f80_0000u32 && (
        a == b || ((a & 0x7fff_ffffu32) == 0 && (b & 0x7fff_ffffu32) == 0))),
{
    proof {
        lemma_magnitude_classifies(a);
        lemma_magnitude_classifies(b);
    }
    let magnitude_a = a & 0x7fff_ffff;
    let magnitude_b = b & 0x7fff_ffff;
    if magnitude_a > 0x7f80_0000 || magnitude_b > 0x7f80_0000 {
        false
    } else {
        a == b || (magnitude_a == 0 && magnitude_b == 0)
    }
}

/// Equality of values is symmetric, holds of every value but NaN with
/// itself, never holds of a NaN, and holds of `+0.0` and `-0.0`.
pub proof fn lemma_same_value_laws(a: u32, b: u32)
    ensures
        same_value(a, b) == same_value(b, a),
        same_value(a, a) <==> !is_nan(a),
        is_nan(a) ==> !same_value(a, b),
        same_value(0u32, 0x8000_0000u32),
{
    assert(((0u32 >> 23u32) & 0xffu32) == 0u32 && (0u32 & 0x7f_ffffu32) == 0u32) by (bit_vector);
    assert(((0x8000_0000u32 >> 23u32) & 0xffu32) == 0u32 && (0x8000_0000u32 & 0x7f_ffffu32) == 0u32)
        by (bit_vector);
}

/// Equality of values read off the patterns: with the sign bit cleared, a
/// pattern above that of infinity is a NaN, which equals nothing; the
/// pattern 0 is a zero, and the two zeros are equal; any other two values are
/// equal exactly when their patterns are. So distinct patterns never encode
/// equal values unless both are zeros, and a non-zero value never equals its
/// negation.
pub proof fn lemma_same_value_characterized(a: u32, b: u32)
    ensures
        same_value(a, b) <==> ((a & 0x7fff_ffffu32) <= 0x7f80_0000u32 && (b & 0x7fff_ffffu32)
            <= 0x7f80_0000u32 && (a == b || ((a & 0x7fff_ffffu32) == 0 && (b & 0x7fff_ffffu32)
            == 0))),
        same_value(a, b) && a != b ==> (a & 0x7fff_ffffu32) == 0 && (b & 0x7fff_ffffu32) == 0,
        same_value(a, a ^ 0x8000_0000u32) ==> (a & 0x7fff_ffffu32) == 0,
{
    lemma_magnitude_classifies(a);
    lemma_magnitude_classifies(b);
    lemma_magnitude_classifies(a ^ 0x8000_0000u32);
    assert((a ^ 0x8000_0000u32) != a) by (bit_vector);
}

/// A value equals `f32::MAX` exactly when its pattern is that of `f32::MAX`.
pub proof fn lemma_same_value_as_max(v: u32)
    ensures
        same_value(v, F32_MAX_BITS) <==> v == F32_MAX_BITS,
{
    assert(((0x7f7f_ffffu32 >> 23u32) & 0xffu32) == 0xfeu32 && (0x7f7f_ffffu32 & 0x7f_ffffu32)
        == 0x7f_ffffu32) by (bit_vector);
}

} // verus!
