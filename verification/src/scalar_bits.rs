//! Bit-level order on IEEE 754 single-precision scalars.
//!
//! Configuration values such as the tube radius and the yaw and pitch angle
//! bounds are carried as raw 32-bit IEEE 754 bit patterns. Validating a
//! configuration needs two judgements about such patterns — "is this value
//! strictly positive?" and "is this value strictly less than that one?" —
//! and both are pure integer functions of the bits, written out here exactly
//! as the IEEE 754 comparison predicate defines them: NaN compares false
//! with everything, the two zeroes are equal, positives order by magnitude,
//! negatives order by reversed magnitude, and any negative is below any
//! positive.

use vstd::prelude::*;

verus! {

/// Whether the sign bit is set: the pattern lies in the upper half of the
/// 32-bit range.
pub open spec fn spec_sign_bit(bits: u32) -> bool {
    bits >= 0x8000_0000
}

/// The magnitude of a scalar: its bit pattern with the sign bit cleared.
pub open spec fn spec_magnitude_bits(bits: u32) -> u32 {
    if bits >= 0x8000_0000 {
        (bits - 0x8000_0000) as u32
    } else {
        bits
    }
}

/// NaN: exponent all ones and a non-zero fraction, i.e. a magnitude
/// strictly above the magnitude of infinity.
pub open spec fn spec_is_nan_bits(bits: u32) -> bool {
    spec_magnitude_bits(bits) > 0x7f80_0000
}

/// The IEEE 754 `<` on two scalars given by their bit patterns.
pub open spec fn spec_lt_bits(a: u32, b: u32) -> bool {
    if spec_is_nan_bits(a) || spec_is_nan_bits(b) {
        false
    } else if spec_magnitude_bits(a) == 0 && spec_magnitude_bits(b) == 0 {
        false
    } else if spec_sign_bit(a) && spec_sign_bit(b) {
        spec_magnitude_bits(a) > spec_magnitude_bits(b)
    } else if !spec_sign_bit(a) && !spec_sign_bit(b) {
        spec_magnitude_bits(a) < spec_magnitude_bits(b)
    } else {
        spec_sign_bit(a)
    }
}

/// The IEEE 754 judgement `0.0 < x`: not NaN, sign bit clear, and not a zero.
pub open spec fn spec_is_pos_bits(bits: u32) -> bool {
    &&& !spec_is_nan_bits(bits)
    &&& !spec_sign_bit(bits)
    &&& spec_magnitude_bits(bits) != 0
}

/// Decides the IEEE 754 `<` on two bit patterns.
pub fn lt_bits(a: u32, b: u32) -> (r: bool)
    ensures
        r == spec_lt_bits(a, b),
{
    let neg_a: bool = a >= 0x8000_0000;
    let neg_b: bool = b >= 0x8000_0000;
    let mag_a: u32 = if neg_a { a - 0x8000_0000 } else { a };
    let mag_b: u32 = if neg_b { b - 0x8000_0000 } else { b };
    if mag_a > 0x7f80_0000 || mag_b > 0x7f80_0000 {
        false
    } else if mag_a == 0 && mag_b == 0 {
        false
    } else if neg_a && neg_b {
        mag_a > mag_b
    } else if !neg_a && !neg_b {
        mag_a < mag_b
    } else {
        neg_a
    }
}

/// Decides the IEEE 754 judgement `0.0 < x` on a bit pattern.
pub fn is_pos_bits(bits: u32) -> (r: bool)
    ensures
        r == spec_is_pos_bits(bits),
{
    bits < 0x8000_0000 && bits <= 0x7f80_0000 && bits != 0
}

/// A half-open interval of angles in radians, each bound the bit pattern of
/// a 32-bit IEEE 754 scalar. The interval is non-empty exactly when the low
/// bound is strictly below the high bound under the IEEE 754 order.
#[derive(Clone, Copy, PartialEq, Eq, Structural, Debug)]
pub struct AngleRange {
    pub lo: u32,
    pub hi: u32,
}

impl AngleRange {
    /// A non-empty interval: `lo < hi` under the IEEE 754 order, which also
    /// rules NaN bounds out.
    pub open spec fn spec_nonempty(self) -> bool {
        spec_lt_bits(self.lo, self.hi)
    }

    /// Decides whether the interval is non-empty.
    pub fn nonempty(&self) -> (r: bool)
        ensures
            r == self.spec_nonempty(),
    {
        lt_bits(self.lo, self.hi)
    }
}

} // verus!
