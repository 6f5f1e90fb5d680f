//! Predicates on IEEE-754 single-precision values, read from their bit patterns.
use vstd::prelude::*;

verus! {

/// The bits that hold the magnitude (exponent and mantissa).
pub const MAGNITUDE_MASK: u32 = 0x7fff_ffff;

/// The exponent field with every bit set.
pub const EXPONENT_MASK: u32 = 0x7f80_0000;

/// The mantissa field.
pub const MANTISSA_MASK: u32 = 0x007f_ffff;

/// The bit pattern of `1.0`.
pub const ONE_BITS: u32 = 0x3f80_0000;

/// The sign bit.
pub const SIGN_MASK: u32 = 0x8000_0000;

pub open spec fn spec_is_nan(b: u32) -> bool {
    b & EXPONENT_MASK == EXPONENT_MASK && b & MANTISSA_MASK != 0
}

pub open spec fn spec_is_zero(b: u32) -> bool {
    b & MAGNITUDE_MASK == 0
}

pub open spec fn spec_sign_set(b: u32) -> bool {
    b & SIGN_MASK != 0
}

/// `a == b` as IEEE-754 compares: NaN equals nothing, and the two zeros are equal.
pub open spec fn spec_float_eq(a: u32, b: u32) -> bool {
    !spec_is_nan(a) && !spec_is_nan(b) && (a == b || (spec_is_zero(a) && spec_is_zero(b)))
}

/// `x >= 0.0`.
pub open spec fn spec_non_negative(b: u32) -> bool {
    !spec_is_nan(b) && (!spec_sign_set(b) || spec_is_zero(b))
}

/// `x < 0.0`.
pub open spec fn spec_negative(b: u32) -> bool {
    !spec_is_nan(b) && spec_sign_set(b) && !spec_is_zero(b)
}

/// `x.abs() == 1.0`.
pub open spec fn spec_abs_is_one(b: u32) -> bool {
    b & MAGNITUDE_MASK == ONE_BITS
}

pub fn is_nan(b: u32) -> (r: bool)
    ensures
        r == spec_is_nan(b),
{
    b & EXPONENT_MASK == EXPONENT_MASK && b & MANTISSA_MASK != 0
}

pub fn is_zero(b: u32) -> (r: bool)
    ensures
        r == spec_is_zero(b),
{
    b & MAGNITUDE_MASK == 0
}

/// Compares two values given by their bit patterns as `==` on `f32` does.
pub fn float_eq(a: u32, b: u32) -> (r: bool)
    ensures
        r == spec_float_eq(a, b),
{
    !is_nan(a) && !is_nan(b) && (a == b || (is_zero(a) && is_zero(b)))
}

/// Whether the value is greater than or equal to zero (false for NaN).
pub fn is_non_negative(b: u32) -> (r: bool)
    ensures
        r == spec_non_negative(b),
{
    !is_nan(b) && (b & SIGN_MASK == 0 || is_zero(b))
}

/// Whether the value is below zero (false for NaN and for both zeros).
pub fn is_negative(b: u32) -> (r: bool)
    ensures
        r == spec_negative(b),
{
    !is_nan(b) && b & SIGN_MASK != 0 && !is_zero(b)
}

/// Whether the magnitude of the value is exactly one.
pub fn abs_is_one(b: u32) -> (r: bool)
    ensures
        r == spec_abs_is_one(b),
{
    b & MAGNITUDE_MASK == ONE_BITS
}

} // verus!
