//! Classification and comparison of IEEE-754 binary64 values, each held as
//! its 64-bit pattern (sign, 11-bit exponent field, 52-bit fraction field).

use vstd::prelude::*;

verus! {

/// The biased exponent field: bits 52..63 of the pattern.
pub open spec fn exponent_field(bits: u64) -> nat {
    (bits as nat / 0x10_0000_0000_0000) % 0x800
}

/// The fraction field: bits 0..52 of the pattern.
pub open spec fn fraction_field(bits: u64) -> nat {
    bits as nat % 0x10_0000_0000_0000
}

/// Neither infinite nor NaN: the exponent field is not all ones.
pub open spec fn finite(bits: u64) -> bool {
    exponent_field(bits) != 0x7ff
}

/// NaN: exponent field all ones and a non-zero fraction.
pub open spec fn nan(bits: u64) -> bool {
    exponent_field(bits) == 0x7ff && fraction_field(bits) != 0
}

/// Positive or negative zero: every bit but the sign bit is clear.
pub open spec fn zero(bits: u64) -> bool {
    bits as nat % 0x8000_0000_0000_0000 == 0
}

/// IEEE-754 equality of two values: no NaN equals anything, the two zeros
/// are equal, and otherwise values are equal exactly when their patterns are.
pub open spec fn float_eq(a: u64, b: u64) -> bool {
    !nan(a) && !nan(b) && (a == b || (zero(a) && zero(b)))
}

/// Whether the value with pattern `bits` is finite.
pub fn is_finite(bits: u64) -> (r: bool)
    ensures
        r == finite(bits),
{
    (bits / 0x10_0000_0000_0000) % 0x800 != 0x7ff
}

/// Whether the value with pattern `bits` is NaN.
pub fn is_nan(bits: u64) -> (r: bool)
    ensures
        r == nan(bits),
{
    (bits / 0x10_0000_0000_0000) % 0x800 == 0x7ff && bits % 0x10_0000_0000_0000 != 0
}

/// IEEE-754 equality (`==` on `f64`) of the values with patterns `a` and `b`.
pub fn floats_equal(a: u64, b: u64) -> (r: bool)
    ensures
        r == float_eq(a, b),
{
    !is_nan(a) && !is_nan(b) && (a == b || (a % 0x8000_0000_0000_0000 == 0 && b
        % 0x8000_0000_0000_0000 == 0))
}

/// Equality of floating-point values is symmetric.
pub proof fn float_eq_symmetric(a: u64, b: u64)
    ensures
        float_eq(a, b) == float_eq(b, a),
{
}

/// Every value but NaN equals itself; NaN equals nothing.
pub proof fn float_eq_reflexive_unless_nan(a: u64)
    ensures
        float_eq(a, a) == !nan(a),
{
}

/// Floating-point equality, in terms of the bit patterns alone: a NaN
/// (exponent field all ones, fraction non-zero) equals nothing; any other
/// value equals itself; and two different patterns are equal only when both
/// are zeros (all bits but the sign clear).
pub proof fn float_eq_on_patterns(a: u64, b: u64)
    ensures
        ((a as nat / 0x10_0000_0000_0000) % 0x800 == 0x7ff && a as nat % 0x10_0000_0000_0000 != 0)
            ==> !float_eq(a, b),
        ((b as nat / 0x10_0000_0000_0000) % 0x800 == 0x7ff && b as nat % 0x10_0000_0000_0000 != 0)
            ==> !float_eq(a, b),
        a == b && !((a as nat / 0x10_0000_0000_0000) % 0x800 == 0x7ff && a as nat
            % 0x10_0000_0000_0000 != 0) ==> float_eq(a, b),
        float_eq(a, b) && a != b ==> a as nat % 0x8000_0000_0000_0000 == 0 && b as nat
            % 0x8000_0000_0000_0000 == 0,
        a as nat % 0x8000_0000_0000_0000 == 0 && b as nat % 0x8000_0000_0000_0000 == 0 ==> float_eq(
            a,
            b,
        ),
{
}

} // verus!
