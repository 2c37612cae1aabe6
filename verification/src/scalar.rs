//! Single-precision numbers as IEEE 754 binary32 bit patterns.
//!
//! A pattern is a `u32`: one sign bit, eight exponent bits, twenty-three
//! fraction bits. Everything here is exact and needs no rounding.

use vstd::prelude::*;

verus! {

/// The sign bit.
pub const SIGN_BIT: u32 = 0x8000_0000;

/// Positive infinity: exponent all ones, fraction zero. Larger magnitudes are NaN.
pub const INFINITY: u32 = 0x7f80_0000;

/// Machine epsilon, `2^-23`: the gap between one and the next larger number.
pub const EPSILON: u32 = 0x3400_0000;

/// Positive zero.
pub const ZERO: u32 = 0;

/// Whether the sign bit of `x` is set.
pub open spec fn negative(x: u32) -> bool {
    x >= SIGN_BIT
}

/// The pattern `x` with its sign bit cleared: the absolute value.
pub open spec fn magnitude(x: u32) -> u32 {
    if x >= SIGN_BIT {
        (x - SIGN_BIT) as u32
    } else {
        x
    }
}

/// The pattern `x` with its sign bit flipped: the number `-x`.
pub open spec fn negated(x: u32) -> u32 {
    if x >= SIGN_BIT {
        (x - SIGN_BIT) as u32
    } else {
        (x + SIGN_BIT) as u32
    }
}

/// Whether `x` is not a number.
pub open spec fn nan(x: u32) -> bool {
    magnitude(x) > INFINITY
}

/// Whether `x` is positive or negative zero.
pub open spec fn zero(x: u32) -> bool {
    magnitude(x) == 0
}

/// Whether `x > 0` holds as numbers: `x` is neither NaN, nor a zero, nor negative.
pub open spec fn positive(x: u32) -> bool {
    !negative(x) && !zero(x) && !nan(x)
}

/// Whether `|x| < 2^-23` holds as numbers. Among magnitudes that are numbers,
/// patterns are ordered as the numbers are, and every NaN lies above infinity.
pub open spec fn below_epsilon(x: u32) -> bool {
    magnitude(x) < EPSILON
}

/// Whether `a == b` holds as numbers: neither is NaN, and they are the same
/// pattern or both zero.
pub open spec fn same_number(a: u32, b: u32) -> bool {
    !nan(a) && !nan(b) && (a == b || (zero(a) && zero(b)))
}

/// The biased exponent field of `x`: the eight bits below the sign.
pub open spec fn exponent(x: u32) -> int {
    magnitude(x) as int / 0x80_0000
}

/// The fraction field of `x`: the low twenty-three bits.
pub open spec fn fraction(x: u32) -> int {
    magnitude(x) as int % 0x80_0000
}

/// What the classes of patterns are in terms of the two fields. A magnitude
/// with exponent field `e` below 255 lies in `[2^(e-127), 2^(e-126))`, or below
/// `2^-126` where `e` is zero; machine epsilon is `2^(104-127)`.
pub proof fn lemma_fields(x: u32)
    ensures
        0 <= exponent(x) <= 255,
        0 <= fraction(x) < 0x80_0000,
        magnitude(x) == exponent(x) * 0x80_0000 + fraction(x),
        exponent(negated(x)) == exponent(x) && fraction(negated(x)) == fraction(x),
        negative(negated(x)) != negative(x),
        nan(x) <==> exponent(x) == 255 && fraction(x) != 0,
        zero(x) <==> exponent(x) == 0 && fraction(x) == 0,
        below_epsilon(x) <==> exponent(x) < 104,
        exponent(EPSILON) == 104 && fraction(EPSILON) == 0,
        exponent(INFINITY) == 255 && fraction(INFINITY) == 0,
{
}

/// Flips the sign of `x`.
pub fn negate(x: u32) -> (r: u32)
    ensures
        r == negated(x),
        negated(r) == x,
{
    let r: u32 = x ^ SIGN_BIT;
    assert(x ^ 0x8000_0000u32 == if x >= 0x8000_0000u32 {
        (x - 0x8000_0000u32) as u32
    } else {
        (x + 0x8000_0000u32) as u32
    }) by (bit_vector);
    r
}

/// Clears the sign of `x`.
pub fn abs(x: u32) -> (r: u32)
    ensures
        r == magnitude(x),
{
    let r: u32 = x & 0x7fff_ffff;
    assert(x & 0x7fff_ffffu32 == if x >= 0x8000_0000u32 {
        (x - 0x8000_0000u32) as u32
    } else {
        x
    }) by (bit_vector);
    r
}

/// Tells whether `x` is not a number.
pub fn is_nan(x: u32) -> (r: bool)
    ensures
        r == nan(x),
{
    abs(x) > INFINITY
}

/// Tells whether `x > 0` as numbers.
pub fn is_positive(x: u32) -> (r: bool)
    ensures
        r == positive(x),
{
    0 < x && x <= INFINITY
}

/// Tells whether `|x| < 2^-23` as numbers.
pub fn is_below_epsilon(x: u32) -> (r: bool)
    ensures
        r == below_epsilon(x),
{
    abs(x) < EPSILON
}

/// Tells whether `a == b` as numbers.
pub fn equal(a: u32, b: u32) -> (r: bool)
    ensures
        r == same_number(a, b),
{
    !is_nan(a) && !is_nan(b) && (a == b || (abs(a) == 0 && abs(b) == 0))
}

} // verus!
