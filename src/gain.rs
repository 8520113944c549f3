//! Output gain, held as the IEEE-754 bit pattern of an `f32` so that the
//! clamping rule can be stated and proved over integers.
use vstd::prelude::*;

verus! {

/// Bit pattern of `1.0f32`, the loudest gain a sink is given.
pub const FULL_GAIN: u32 = 0x3F80_0000;

/// Bit pattern of `0.0f32`, silence.
pub const SILENT_GAIN: u32 = 0;

/// Bit pattern of `-0.0f32`.
pub const NEGATIVE_ZERO: u32 = 0x8000_0000;

/// The bits hold a NaN: all exponent bits set and a non-zero mantissa.
pub open spec fn is_nan_bits(bits: u32) -> bool {
    (bits / 0x80_0000) % 0x100 == 0xFF && bits % 0x80_0000 != 0
}

/// The bits hold a number in `[0.0, 1.0]`. Among floats with the sign bit
/// clear the order of the values is the order of their bit patterns, so
/// these are exactly the patterns from `0.0` up to `1.0`.
pub open spec fn is_unit_gain(bits: u32) -> bool {
    bits <= FULL_GAIN
}

/// Clamping a gain into `[0.0, 1.0]` on bit patterns: NaN and values with
/// the sign bit set (below zero, and `-0.0`) become `0.0`, values above one
/// become `1.0`, and the rest are kept.
pub open spec fn clamp_unit(bits: u32) -> u32 {
    if is_nan_bits(bits) || bits >= NEGATIVE_ZERO {
        SILENT_GAIN
    } else if bits > FULL_GAIN {
        FULL_GAIN
    } else {
        bits
    }
}

/// Clamps the gain whose bit pattern is `bits` into `[0.0, 1.0]`.
pub fn clamp_gain(bits: u32) -> (r: u32)
    ensures
        r == clamp_unit(bits),
        is_unit_gain(r),
{
    let nan = (bits / 0x80_0000) % 0x100 == 0xFF && bits % 0x80_0000 != 0;
    if nan || bits >= NEGATIVE_ZERO {
        SILENT_GAIN
    } else if bits > FULL_GAIN {
        FULL_GAIN
    } else {
        bits
    }
}

/// A clamped gain is a number in `[0.0, 1.0]` (never NaN), and clamping it
/// again leaves it as it is.
pub proof fn lemma_clamp_settles(bits: u32)
    ensures
        is_unit_gain(clamp_unit(bits)),
        !is_nan_bits(clamp_unit(bits)),
        clamp_unit(clamp_unit(bits)) == clamp_unit(bits),
{
}

} // verus!
