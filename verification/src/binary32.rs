//! IEEE 754 single-precision numbers, carried as their bit patterns.
//!
//! Probabilities, thresholds and ratios cross this library as the 32 bits that
//! encode them. The order of two numbers is read off their patterns: within one
//! sign a larger magnitude field means a larger absolute value, the two zeros are
//! equal, and a pattern that is not a number compares false with everything.
use vstd::prelude::*;

verus! {

/// A single-precision number, as the 32 bits that encode it.
pub type Binary32 = u32;

/// The sign bit of a pattern.
pub const SIGN_BIT: u32 = 0x8000_0000;

/// Positive infinity. A pattern with a larger magnitude is not a number.
pub const INFINITY: Binary32 = 0x7f80_0000;

/// Positive zero.
pub const ZERO: Binary32 = 0;

/// The number 1.
pub const ONE: Binary32 = 0x3f80_0000;

/// The weight of the exponent field in a pattern: the fraction lies below it.
pub const EXPONENT_UNIT: u32 = 0x80_0000;

/// The pattern without its sign bit.
pub open spec fn magnitude(x: Binary32) -> int {
    if x >= SIGN_BIT {
        x - SIGN_BIT
    } else {
        x as int
    }
}

/// Whether the sign bit is set.
pub open spec fn is_negative(x: Binary32) -> bool {
    x >= SIGN_BIT
}

/// The exponent field of a pattern: 0 for zero and the numbers too small for a
/// full significand, 255 for infinity and what is not a number.
pub open spec fn exponent_field(x: Binary32) -> int {
    magnitude(x) / (EXPONENT_UNIT as int)
}

/// The fraction field of a pattern. A number with an exponent field `e`
/// between 1 and 254 has the absolute value
/// `(EXPONENT_UNIT + fraction) * 2^(e - 150)`.
pub open spec fn fraction_field(x: Binary32) -> int {
    magnitude(x) % (EXPONENT_UNIT as int)
}

/// Whether the pattern encodes no number.
pub open spec fn is_nan(x: Binary32) -> bool {
    magnitude(x) > INFINITY
}

/// Where a number stands among the numbers of the format: the magnitude,
/// negated under a set sign bit, so that both zeros stand at 0.
pub open spec fn ordinal(x: Binary32) -> int {
    if is_negative(x) {
        -magnitude(x)
    } else {
        magnitude(x)
    }
}

/// `x < y` between two numbers; false when either is not a number.
pub open spec fn lt(x: Binary32, y: Binary32) -> bool {
    !is_nan(x) && !is_nan(y) && ordinal(x) < ordinal(y)
}

/// `x > y` between two numbers; false when either is not a number.
pub open spec fn gt(x: Binary32, y: Binary32) -> bool {
    lt(y, x)
}

fn magnitude_of(x: Binary32) -> (m: u32)
    ensures
        m == magnitude(x),
{
    if x >= SIGN_BIT {
        x - SIGN_BIT
    } else {
        x
    }
}

fn ordinal_of(x: Binary32) -> (o: i64)
    ensures
        o == ordinal(x),
{
    let m: u32 = magnitude_of(x);
    if x >= SIGN_BIT {
        0 - (m as i64)
    } else {
        m as i64
    }
}

/// Tells whether `x` encodes no number.
pub fn not_a_number(x: Binary32) -> (r: bool)
    ensures
        r == is_nan(x),
{
    magnitude_of(x) > INFINITY
}

/// Computes `x < y`.
pub fn less_than(x: Binary32, y: Binary32) -> (r: bool)
    ensures
        r == lt(x, y),
{
    !not_a_number(x) && !not_a_number(y) && ordinal_of(x) < ordinal_of(y)
}

/// Computes `x > y`.
pub fn greater_than(x: Binary32, y: Binary32) -> (r: bool)
    ensures
        r == gt(x, y),
{
    less_than(y, x)
}

/// The order is strict: nothing is below itself, and no two numbers are below
/// each other.
pub proof fn lemma_lt_strict(x: Binary32, y: Binary32)
    ensures
        !lt(x, x),
        lt(x, y) ==> !lt(y, x),
{
}

/// The order is transitive.
pub proof fn lemma_lt_transitive(x: Binary32, y: Binary32, z: Binary32)
    requires
        lt(x, y),
        lt(y, z),
    ensures
        lt(x, z),
{
}

} // verus!
