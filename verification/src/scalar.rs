//! The scalar model: a double-precision IEEE-754 value carried as its bit
//! pattern in a `u64`, with equality defined exactly over the bits and the
//! four arithmetic operations reached through `rustc_apfloat`.
//!
//! Every value class of a double other than NaN has exactly one bit pattern
//! (zero has one per sign, and the two are equal as doubles). The arithmetic
//! operations are deterministic at the value level; only the bit pattern of a
//! NaN result is left open, so the contracts below pin the result exactly
//! whenever it is not NaN.

use vstd::prelude::*;

verus! {

use rustc_apfloat::Float;

/// Mask of the sign bit of an IEEE-754 double.
pub const SIGN_MASK: u64 = 0x8000_0000_0000_0000;

/// Mask of the exponent bits of an IEEE-754 double.
pub const EXP_MASK: u64 = 0x7FF0_0000_0000_0000;

/// Mask of the fraction (mantissa) bits of an IEEE-754 double.
pub const FRAC_MASK: u64 = 0x000F_FFFF_FFFF_FFFF;

/// Mask of everything but the sign bit of an IEEE-754 double.
pub const ABS_MASK: u64 = 0x7FFF_FFFF_FFFF_FFFF;

/// The bit pattern encodes NaN: exponent all ones and a nonzero fraction.
pub open spec fn is_nan_bits(a: u64) -> bool {
    a & EXP_MASK == EXP_MASK && a & FRAC_MASK != 0
}

/// The bit pattern encodes a zero (of either sign).
pub open spec fn is_zero_bits(a: u64) -> bool {
    a & ABS_MASK == 0
}

/// The bit pattern encodes a finite value (neither NaN nor an infinity).
pub open spec fn is_finite_bits(a: u64) -> bool {
    a & EXP_MASK != EXP_MASK
}

/// Equality of the doubles encoded by `a` and `b`: NaN is equal to nothing,
/// the two zeros are equal to each other, and every other value has a single
/// bit pattern, so equality is equality of the bits.
pub open spec fn eq_bits(a: u64, b: u64) -> bool {
    if is_nan_bits(a) || is_nan_bits(b) {
        false
    } else if is_zero_bits(a) && is_zero_bits(b) {
        true
    } else {
        a == b
    }
}

/// The bit pattern of the sum of the doubles encoded by `a` and `b`,
/// whenever that sum is not NaN.
pub uninterp spec fn add_bits(a: u64, b: u64) -> u64;

/// The bit pattern of the difference of the doubles encoded by `a` and `b`,
/// whenever that difference is not NaN.
pub uninterp spec fn sub_bits(a: u64, b: u64) -> u64;

/// The bit pattern of the product of the doubles encoded by `a` and `b`,
/// whenever that product is not NaN.
pub uninterp spec fn mul_bits(a: u64, b: u64) -> u64;

/// The bit pattern of the quotient of the doubles encoded by `a` and `b`,
/// whenever that quotient is not NaN.
pub uninterp spec fn div_bits(a: u64, b: u64) -> u64;

/// `r` is a result of adding the doubles `a` and `b`: it is NaN exactly when
/// the sum is, and otherwise it is the sum's unique bit pattern. Addition of
/// doubles is commutative, so the same holds with the operands swapped.
pub open spec fn is_sum(r: u64, a: u64, b: u64) -> bool {
    &&& is_nan_bits(r) == is_nan_bits(add_bits(a, b))
    &&& is_nan_bits(r) == is_nan_bits(add_bits(b, a))
    &&& !is_nan_bits(r) ==> r == add_bits(a, b)
    &&& !is_nan_bits(r) ==> r == add_bits(b, a)
}

/// `r` is a result of subtracting the double `b` from the double `a`.
pub open spec fn is_diff(r: u64, a: u64, b: u64) -> bool {
    &&& is_nan_bits(r) == is_nan_bits(sub_bits(a, b))
    &&& !is_nan_bits(r) ==> r == sub_bits(a, b)
}

/// `r` is a result of multiplying the doubles `a` and `b`. Multiplication of
/// doubles is commutative, so the same holds with the operands swapped.
pub open spec fn is_prod(r: u64, a: u64, b: u64) -> bool {
    &&& is_nan_bits(r) == is_nan_bits(mul_bits(a, b))
    &&& is_nan_bits(r) == is_nan_bits(mul_bits(b, a))
    &&& !is_nan_bits(r) ==> r == mul_bits(a, b)
    &&& !is_nan_bits(r) ==> r == mul_bits(b, a)
}

/// `r` is a result of dividing the double `a` by the double `b`. Dividing a
/// non-NaN, nonzero value by zero gives the infinity whose sign is the
/// exclusive or of the operands' signs; dividing zero by zero gives NaN.
pub open spec fn is_quot(r: u64, a: u64, b: u64) -> bool {
    &&& is_nan_bits(r) == is_nan_bits(div_bits(a, b))
    &&& !is_nan_bits(r) ==> r == div_bits(a, b)
    &&& is_zero_bits(b) && !is_zero_bits(a) && !is_nan_bits(a) ==> r == (((a ^ b) & SIGN_MASK)
        | EXP_MASK)
    &&& is_zero_bits(b) && is_zero_bits(a) ==> is_nan_bits(r)
}

/// Equality of the doubles encoded by `a` and `b`, computed on the bits.
pub fn bits_equal(a: u64, b: u64) -> (r: bool)
    ensures
        r == eq_bits(a, b),
{
    if a & EXP_MASK == EXP_MASK && a & FRAC_MASK != 0 {
        false
    } else if b & EXP_MASK == EXP_MASK && b & FRAC_MASK != 0 {
        false
    } else if a & ABS_MASK == 0 && b & ABS_MASK == 0 {
        true
    } else {
        a == b
    }
}

/// Relies on `rustc_apfloat::ieee::Double`'s `Add` (IEEE-754 addition with
/// round to nearest, ties to even): whether the sum is NaN and, when it is
/// not, its unique bit pattern are functions of the operands, and addition is
/// commutative. Only the bit pattern of a NaN result is left open.
#[verifier::external_body]
pub(crate) fn double_add(a: u64, b: u64) -> (r: u64)
    ensures
        is_nan_bits(r) == is_nan_bits(add_bits(a, b)),
        is_nan_bits(r) == is_nan_bits(add_bits(b, a)),
        !is_nan_bits(r) ==> r == add_bits(a, b),
        !is_nan_bits(r) ==> r == add_bits(b, a),
{
    let x = rustc_apfloat::ieee::Double::from_bits(a as u128);
    let y = rustc_apfloat::ieee::Double::from_bits(b as u128);
    (x + y).value.to_bits() as u64
}

/// Relies on `rustc_apfloat::ieee::Double`'s `Sub` (IEEE-754 subtraction with
/// round to nearest, ties to even): whether the difference is NaN and, when
/// it is not, its unique bit pattern are functions of the operands.
#[verifier::external_body]
pub(crate) fn double_sub(a: u64, b: u64) -> (r: u64)
    ensures
        is_nan_bits(r) == is_nan_bits(sub_bits(a, b)),
        !is_nan_bits(r) ==> r == sub_bits(a, b),
{
    let x = rustc_apfloat::ieee::Double::from_bits(a as u128);
    let y = rustc_apfloat::ieee::Double::from_bits(b as u128);
    (x - y).value.to_bits() as u64
}

/// Relies on `rustc_apfloat::ieee::Double`'s `Mul` (IEEE-754 multiplication
/// with round to nearest, ties to even): whether the product is NaN and, when
/// it is not, its unique bit pattern are functions of the operands, and
/// multiplication is commutative.
#[verifier::external_body]
pub(crate) fn double_mul(a: u64, b: u64) -> (r: u64)
    ensures
        is_nan_bits(r) == is_nan_bits(mul_bits(a, b)),
        is_nan_bits(r) == is_nan_bits(mul_bits(b, a)),
        !is_nan_bits(r) ==> r == mul_bits(a, b),
        !is_nan_bits(r) ==> r == mul_bits(b, a),
{
    let x = rustc_apfloat::ieee::Double::from_bits(a as u128);
    let y = rustc_apfloat::ieee::Double::from_bits(b as u128);
    (x * y).value.to_bits() as u64
}

/// Relies on `rustc_apfloat::ieee::Double`'s `Div` (IEEE-754 division with
/// round to nearest, ties to even): whether the quotient is NaN and, when it
/// is not, its unique bit pattern are functions of the operands; a non-NaN,
/// nonzero value divided by zero gives the correctly signed infinity, and
/// zero divided by zero gives NaN.
#[verifier::external_body]
pub(crate) fn double_div(a: u64, b: u64) -> (r: u64)
    ensures
        is_nan_bits(r) == is_nan_bits(div_bits(a, b)),
        !is_nan_bits(r) ==> r == div_bits(a, b),
        is_zero_bits(b) && !is_zero_bits(a) && !is_nan_bits(a) ==> r == (((a ^ b) & SIGN_MASK)
            | EXP_MASK),
        is_zero_bits(b) && is_zero_bits(a) ==> is_nan_bits(r),
{
    let x = rustc_apfloat::ieee::Double::from_bits(a as u128);
    let y = rustc_apfloat::ieee::Double::from_bits(b as u128);
    (x / y).value.to_bits() as u64
}

} // verus!
