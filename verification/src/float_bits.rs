//! IEEE-754 single-precision values, carried as their 32 bit patterns.
//!
//! A caller obtains a pattern with `f32::to_bits` and turns one back with
//! `f32::from_bits`. Equality of patterns is stricter than equality of the
//! numbers they stand for: the two zeros differ as patterns, and a NaN equals
//! itself as a pattern.

use vstd::prelude::*;

verus! {

/// The bit pattern of a 32-bit float: sign in bit 31, exponent in bits 30..23,
/// fraction in bits 22..0.
pub type FloatBits = u32;

/// The pattern of positive zero.
pub const ZERO: FloatBits = 0x0000_0000;

/// The pattern of negative zero.
pub const NEG_ZERO: FloatBits = 0x8000_0000;

/// The pattern of 1.0.
pub const ONE: FloatBits = 0x3f80_0000;

/// The pattern of -1.0.
pub const NEG_ONE: FloatBits = 0xbf80_0000;

/// The pattern of 3.0.
pub const THREE: FloatBits = 0x4040_0000;

/// The pattern of 8.0.
pub const EIGHT: FloatBits = 0x4100_0000;

/// The pattern of 1000.0.
pub const ONE_THOUSAND: FloatBits = 0x447a_0000;

/// The pattern of the float nearest to 0.002.
pub const TWO_THOUSANDTHS: FloatBits = 0x3b03_126f;

/// The pattern of positive infinity; every larger magnitude is a NaN.
pub const INFINITY: FloatBits = 0x7f80_0000;

/// The pattern with the sign bit cleared.
pub open spec fn magnitude(bits: FloatBits) -> FloatBits {
    if bits >= NEG_ZERO {
        (bits - NEG_ZERO) as u32
    } else {
        bits
    }
}

/// Whether the sign bit is set.
pub open spec fn is_negative(bits: FloatBits) -> bool {
    bits >= NEG_ZERO
}

/// Neither an infinity nor a NaN.
pub open spec fn is_finite(bits: FloatBits) -> bool {
    magnitude(bits) < INFINITY
}

/// A NaN: all exponent bits set and a fraction that is not zero.
pub open spec fn is_nan(bits: FloatBits) -> bool {
    magnitude(bits) > INFINITY
}

/// An integer that orders the patterns as IEEE-754 orders the numbers: for
/// patterns that are no NaN, `a < b` as floats exactly when
/// `order_key(a) < order_key(b)`. Both zeros have key 0.
pub open spec fn order_key(bits: FloatBits) -> int {
    if is_negative(bits) {
        -(magnitude(bits) as int)
    } else {
        magnitude(bits) as int
    }
}

/// `a < b` as floats: false as soon as one of them is a NaN.
pub open spec fn less_than(a: FloatBits, b: FloatBits) -> bool {
    !is_nan(a) && !is_nan(b) && order_key(a) < order_key(b)
}

/// `a == b` as floats: false as soon as one of them is a NaN, true of the two
/// zeros.
pub open spec fn same_number(a: FloatBits, b: FloatBits) -> bool {
    !is_nan(a) && !is_nan(b) && order_key(a) == order_key(b)
}

/// Clears the sign bit.
pub fn abs_bits(bits: FloatBits) -> (m: FloatBits)
    ensures
        m == magnitude(bits),
{
    if bits >= NEG_ZERO {
        bits - NEG_ZERO
    } else {
        bits
    }
}

/// Tests for a value that is neither infinite nor a NaN.
pub fn bits_are_finite(bits: FloatBits) -> (finite: bool)
    ensures
        finite == is_finite(bits),
{
    abs_bits(bits) < INFINITY
}

/// Tests for a NaN.
pub fn bits_are_nan(bits: FloatBits) -> (nan: bool)
    ensures
        nan == is_nan(bits),
{
    abs_bits(bits) > INFINITY
}

/// Compares two patterns as the floats they stand for.
pub fn bits_less_than(a: FloatBits, b: FloatBits) -> (less: bool)
    ensures
        less == less_than(a, b),
{
    if bits_are_nan(a) || bits_are_nan(b) {
        return false;
    }
    let ma: u32 = abs_bits(a);
    let mb: u32 = abs_bits(b);
    if a >= NEG_ZERO {
        if b >= NEG_ZERO {
            mb < ma
        } else {
            ma > 0 || mb > 0
        }
    } else {
        if b >= NEG_ZERO {
            false
        } else {
            ma < mb
        }
    }
}

/// Tests two patterns for equality as the floats they stand for.
pub fn bits_same_number(a: FloatBits, b: FloatBits) -> (same: bool)
    ensures
        same == same_number(a, b),
{
    if bits_are_nan(a) || bits_are_nan(b) {
        return false;
    }
    let ma: u32 = abs_bits(a);
    let mb: u32 = abs_bits(b);
    a == b || (ma == 0 && mb == 0)
}

} // verus!
