//! IEEE-754 binary64 values held as their bit patterns, with the comparisons
//! that `f64`'s `<` and `==` perform on them.

use vstd::prelude::*;

verus! {

/// 2^52: the weight of the lowest exponent bit.
pub open spec fn exponent_unit() -> int {
    0x10_0000_0000_0000
}

/// 2^63: the sign bit.
pub open spec fn sign_bit() -> int {
    0x8000_0000_0000_0000
}

/// The 11-bit biased exponent.
pub open spec fn f64_exponent(b: u64) -> int {
    (b as int / exponent_unit()) % 2048
}

/// The 52-bit fraction.
pub open spec fn f64_fraction(b: u64) -> int {
    b as int % exponent_unit()
}

pub open spec fn f64_is_nan(b: u64) -> bool {
    f64_exponent(b) == 2047 && f64_fraction(b) != 0
}

/// Neither infinite nor NaN.
pub open spec fn f64_is_finite(b: u64) -> bool {
    f64_exponent(b) != 2047
}

/// An integer that orders non-NaN values as the reals they denote: the
/// magnitude bits, negated when the sign bit is set (so `-0.0` and `0.0` meet).
pub open spec fn f64_order_key(b: u64) -> int {
    if b as int >= sign_bit() {
        -(b as int - sign_bit())
    } else {
        b as int
    }
}

/// `f64::from_bits(a) < f64::from_bits(b)`.
pub open spec fn f64_bits_lt(a: u64, b: u64) -> bool {
    !f64_is_nan(a) && !f64_is_nan(b) && f64_order_key(a) < f64_order_key(b)
}

/// `f64::from_bits(a) == f64::from_bits(b)`.
pub open spec fn f64_bits_eq(a: u64, b: u64) -> bool {
    !f64_is_nan(a) && !f64_is_nan(b) && f64_order_key(a) == f64_order_key(b)
}

pub fn is_nan_bits(b: u64) -> (r: bool)
    ensures
        r == f64_is_nan(b),
{
    (b / 0x10_0000_0000_0000) % 2048 == 2047 && b % 0x10_0000_0000_0000 != 0
}

pub fn is_finite_bits(b: u64) -> (r: bool)
    ensures
        r == f64_is_finite(b),
{
    (b / 0x10_0000_0000_0000) % 2048 != 2047
}

fn order_key(b: u64) -> (k: i128)
    ensures
        k == f64_order_key(b),
{
    if b >= 0x8000_0000_0000_0000u64 {
        -((b - 0x8000_0000_0000_0000u64) as i128)
    } else {
        b as i128
    }
}

/// `<` on the values the two bit patterns denote.
pub fn lt_bits(a: u64, b: u64) -> (r: bool)
    ensures
        r == f64_bits_lt(a, b),
{
    !is_nan_bits(a) && !is_nan_bits(b) && order_key(a) < order_key(b)
}

/// `==` on the values the two bit patterns denote.
pub fn eq_bits(a: u64, b: u64) -> (r: bool)
    ensures
        r == f64_bits_eq(a, b),
{
    !is_nan_bits(a) && !is_nan_bits(b) && order_key(a) == order_key(b)
}

} // verus!
