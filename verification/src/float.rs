//! IEEE 754 values carried by their bit patterns.
//!
//! Media positions, volumes and speeds are binary64 quantities. The library
//! keeps them as their exact encodings, so every decision that compares or
//! validates such a value is made here on integers; arithmetic and decimal
//! rendering stay with the caller.

use vstd::prelude::*;

verus! {

/// Bit of a binary64 encoding that holds the sign.
pub const SIGN_BIT: u64 = 0x8000_0000_0000_0000;

/// Encoding of positive infinity; every larger magnitude is a NaN.
pub const INFINITY_BITS: u64 = 0x7FF0_0000_0000_0000;

/// Encoding of `0.0`.
pub const ZERO_BITS: u64 = 0;

/// Encoding of `1.0`.
pub const ONE_BITS: u64 = 0x3FF0_0000_0000_0000;

/// Encoding of `100.0`.
pub const HUNDRED_BITS: u64 = 0x4059_0000_0000_0000;

/// Encoding of the largest finite binary64 value.
pub const MAX_FINITE_BITS: u64 = 0x7FEF_FFFF_FFFF_FFFF;

/// The magnitude bits of an encoding: everything but the sign.
pub open spec fn magnitude(bits: u64) -> int {
    (bits % SIGN_BIT) as int
}

/// Whether the sign bit is set.
pub open spec fn sign_set(bits: u64) -> bool {
    bits >= SIGN_BIT
}

/// The encoding is a NaN: all exponent bits set and a nonzero fraction.
pub open spec fn is_nan(bits: u64) -> bool {
    magnitude(bits) > INFINITY_BITS
}

/// The encoding is neither infinite nor NaN.
pub open spec fn is_finite(bits: u64) -> bool {
    magnitude(bits) < INFINITY_BITS
}

/// An integer that orders non-NaN encodings exactly as their values are
/// ordered: the magnitude, negated when the sign is set (so both zeros map
/// to 0).
pub open spec fn order_key(bits: u64) -> int {
    if sign_set(bits) {
        -magnitude(bits)
    } else {
        magnitude(bits)
    }
}

/// `a < b` for binary64 values; false whenever either is NaN.
pub open spec fn less(a: u64, b: u64) -> bool {
    !is_nan(a) && !is_nan(b) && order_key(a) < order_key(b)
}

/// A finite, non-negative value (negative zero included, as `-0.0 >= 0.0`).
pub open spec fn is_nonnegative_finite(bits: u64) -> bool {
    is_finite(bits) && !less(bits, ZERO_BITS)
}

/// A finite value strictly greater than zero.
pub open spec fn is_positive_finite(bits: u64) -> bool {
    is_finite(bits) && less(ZERO_BITS, bits)
}

/// `value.clamp(min, max)`: NaN stays NaN, values below `min` become `min`,
/// values above `max` become `max`, anything else is kept.
pub open spec fn clamped(value: u64, min: u64, max: u64) -> u64 {
    if less(value, min) {
        min
    } else if less(max, value) {
        max
    } else {
        value
    }
}

/// A binary64 value held by its exact bit pattern.
#[derive(Clone, Copy, Debug, PartialEq, Eq, Structural)]
pub struct Float64 {
    /// The IEEE 754 binary64 encoding.
    pub bits: u64,
}

/// A binary32 value held by its exact bit pattern.
#[derive(Clone, Copy, Debug, PartialEq, Eq, Structural)]
pub struct Float32 {
    /// The IEEE 754 binary32 encoding.
    pub bits: u32,
}

impl Float64 {
    /// Wraps an encoding.
    pub fn from_bits(bits: u64) -> (r: Float64)
        ensures
            r.bits == bits,
    {
        Float64 { bits }
    }

    /// `0.0`.
    pub fn zero() -> (r: Float64)
        ensures
            r.bits == ZERO_BITS,
    {
        Float64 { bits: ZERO_BITS }
    }

    /// Whether the value is a NaN.
    pub fn is_nan(self) -> (r: bool)
        ensures
            r == is_nan(self.bits),
    {
        self.bits % SIGN_BIT > INFINITY_BITS
    }

    /// Whether the value is finite.
    pub fn is_finite(self) -> (r: bool)
        ensures
            r == is_finite(self.bits),
    {
        self.bits % SIGN_BIT < INFINITY_BITS
    }

    /// `self < other` with binary64 semantics.
    pub fn less_than(self, other: Float64) -> (r: bool)
        ensures
            r == less(self.bits, other.bits),
    {
        if self.is_nan() || other.is_nan() {
            return false;
        }
        let a = self.bits % SIGN_BIT;
        let b = other.bits % SIGN_BIT;
        let a_negative = self.bits >= SIGN_BIT;
        let b_negative = other.bits >= SIGN_BIT;
        if a_negative && b_negative {
            b < a
        } else if a_negative {
            a != 0 || b != 0
        } else if b_negative {
            false
        } else {
            a < b
        }
    }

    /// Finite and not below zero.
    pub fn is_nonnegative_finite(self) -> (r: bool)
        ensures
            r == is_nonnegative_finite(self.bits),
    {
        self.is_finite() && !self.less_than(Float64::zero())
    }

    /// Finite and above zero.
    pub fn is_positive_finite(self) -> (r: bool)
        ensures
            r == is_positive_finite(self.bits),
    {
        self.is_finite() && Float64::zero().less_than(self)
    }

    /// `self.clamp(min, max)` with binary64 semantics.
    pub fn clamp(self, min: Float64, max: Float64) -> (r: Float64)
        ensures
            r.bits == clamped(self.bits, min.bits, max.bits),
    {
        if self.less_than(min) {
            min
        } else if max.less_than(self) {
            max
        } else {
            self
        }
    }
}

/// Clamping a non-NaN value into `[min, max]` (with `min <= max`) lands in
/// that range.
pub proof fn lemma_clamped_in_range(value: u64, min: u64, max: u64)
    requires
        !is_nan(value),
        !is_nan(min),
        !is_nan(max),
        order_key(min) <= order_key(max),
    ensures
        order_key(min) <= order_key(clamped(value, min, max)) <= order_key(max),
        !is_nan(clamped(value, min, max)),
{
}

/// A number between zero and a finite bound is finite and not negative.
pub proof fn lemma_between_zero_and_finite(value: u64, bound: u64)
    requires
        !is_nan(value),
        is_finite(bound),
        order_key(ZERO_BITS) <= order_key(value) <= order_key(bound),
    ensures
        is_nonnegative_finite(value),
{
    assert(order_key(ZERO_BITS) == 0);
    assert(magnitude(bound) < INFINITY_BITS);
    assert(order_key(bound) <= magnitude(bound));
}

} // verus!
