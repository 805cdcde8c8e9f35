//! Numbers of the interpreted language: IEEE-754 double-precision values,
//! represented everywhere by their 64-bit patterns.
//!
//! Equality, ordering and negation are defined here directly on the bit
//! pattern, exactly as IEEE-754 defines them: NaN compares false with
//! everything (itself included), positive and negative zero are equal, and
//! negation flips the sign bit. Rounding arithmetic (add, subtract,
//! multiply, divide), decimal-literal conversion and decimal rendering are
//! performed by the `rustc_apfloat` soft-float library behind trusted
//! wrappers.

use vstd::prelude::*;
use core::str::FromStr;
use rustc_apfloat::Float;

verus! {

pub const SIGN_MASK: u64 = 0x8000_0000_0000_0000;
pub const EXP_MASK: u64 = 0x7FF0_0000_0000_0000;
pub const FRAC_MASK: u64 = 0x000F_FFFF_FFFF_FFFF;

/// Whether the pattern has its sign bit set.
pub open spec fn is_negative_bits(b: u64) -> bool {
    b & SIGN_MASK == SIGN_MASK
}

/// Whether the pattern denotes a NaN: exponent all ones, fraction non-zero.
pub open spec fn is_nan_bits(b: u64) -> bool {
    b & EXP_MASK == EXP_MASK && b & FRAC_MASK != 0
}

/// Whether the pattern denotes a zero (positive or negative).
pub open spec fn is_zero_bits(b: u64) -> bool {
    b & EXP_MASK == 0 && b & FRAC_MASK == 0
}

/// IEEE-754 equality of two doubles given by their patterns: false if either
/// is NaN; the two zeroes are equal; otherwise the patterns must agree.
pub open spec fn num_eq_bits(a: u64, b: u64) -> bool {
    &&& !is_nan_bits(a)
    &&& !is_nan_bits(b)
    &&& (a == b || (is_zero_bits(a) && is_zero_bits(b)))
}

/// IEEE-754 strict order of two doubles given by their patterns: false if
/// either is NaN; otherwise sign-magnitude comparison, the two zeroes being
/// equal.
pub open spec fn num_lt_bits(a: u64, b: u64) -> bool {
    if is_nan_bits(a) || is_nan_bits(b) {
        false
    } else if is_zero_bits(a) && is_zero_bits(b) {
        false
    } else if is_negative_bits(a) != is_negative_bits(b) {
        is_negative_bits(a)
    } else if is_negative_bits(a) {
        a > b
    } else {
        a < b
    }
}

/// IEEE-754 non-strict order: less-than or equal, NaN excluded.
pub open spec fn num_le_bits(a: u64, b: u64) -> bool {
    num_lt_bits(a, b) || num_eq_bits(a, b)
}

/// IEEE-754 negation: the sign bit flips, nothing else moves.
pub open spec fn neg_bits(b: u64) -> u64 {
    b ^ SIGN_MASK
}

/// Whether the pattern is a NaN.
pub fn number_is_nan(b: u64) -> (r: bool)
    ensures
        r == is_nan_bits(b),
{
    b & EXP_MASK == EXP_MASK && b & FRAC_MASK != 0
}

/// Whether the pattern is a zero of either sign.
pub fn number_is_zero(b: u64) -> (r: bool)
    ensures
        r == is_zero_bits(b),
{
    b & EXP_MASK == 0 && b & FRAC_MASK == 0
}

/// IEEE-754 equality of two doubles.
pub fn number_eq(a: u64, b: u64) -> (r: bool)
    ensures
        r == num_eq_bits(a, b),
{
    if number_is_nan(a) || number_is_nan(b) {
        false
    } else {
        a == b || (number_is_zero(a) && number_is_zero(b))
    }
}

/// IEEE-754 strict order of two doubles.
pub fn number_lt(a: u64, b: u64) -> (r: bool)
    ensures
        r == num_lt_bits(a, b),
{
    if number_is_nan(a) || number_is_nan(b) {
        false
    } else if number_is_zero(a) && number_is_zero(b) {
        false
    } else {
        let a_neg = a & SIGN_MASK == SIGN_MASK;
        let b_neg = b & SIGN_MASK == SIGN_MASK;
        if a_neg != b_neg {
            a_neg
        } else if a_neg {
            a > b
        } else {
            a < b
        }
    }
}

/// IEEE-754 non-strict order of two doubles.
pub fn number_le(a: u64, b: u64) -> (r: bool)
    ensures
        r == num_le_bits(a, b),
{
    number_lt(a, b) || number_eq(a, b)
}

/// IEEE-754 negation of a double.
pub fn number_neg(b: u64) -> (r: u64)
    ensures
        r == neg_bits(b),
{
    b ^ SIGN_MASK
}

/// Equality on non-NaN patterns is reflexive.
pub proof fn lemma_num_eq_reflexive(a: u64)
    requires
        !is_nan_bits(a),
    ensures
        num_eq_bits(a, a),
{
}

/// The bits of the IEEE-754 double sum of the doubles `a` and `b` denote,
/// rounded to nearest, ties to even.
pub uninterp spec fn sum_bits(a: u64, b: u64) -> u64;

/// The bits of the IEEE-754 double difference `a - b`.
pub uninterp spec fn diff_bits(a: u64, b: u64) -> u64;

/// The bits of the IEEE-754 double product `a * b`.
pub uninterp spec fn prod_bits(a: u64, b: u64) -> u64;

/// The bits of the IEEE-754 double quotient `a / b` (infinite or NaN where
/// IEEE-754 says so; division by zero is not an error).
pub uninterp spec fn quot_bits(a: u64, b: u64) -> u64;

/// The bits of the double nearest the decimal literal `s` denotes.
pub uninterp spec fn decimal_bits(s: Seq<u8>) -> u64;

/// The decimal rendering of the double the pattern denotes.
pub uninterp spec fn number_text(b: u64) -> Seq<u8>;

/// Relies on `rustc_apfloat::ieee::Double`: `add` is IEEE-754 double
/// addition, round to nearest, ties to even; the result depends on the two
/// operand patterns alone.
#[verifier::external_body]
pub fn number_add(a: u64, b: u64) -> (r: u64)
    ensures
        r == sum_bits(a, b),
{
    let x = rustc_apfloat::ieee::Double::from_bits(a as u128);
    let y = rustc_apfloat::ieee::Double::from_bits(b as u128);
    (x + y).value.to_bits() as u64
}

/// Relies on `rustc_apfloat::ieee::Double`: `sub` is IEEE-754 double
/// subtraction, round to nearest, ties to even.
#[verifier::external_body]
pub fn number_sub(a: u64, b: u64) -> (r: u64)
    ensures
        r == diff_bits(a, b),
{
    let x = rustc_apfloat::ieee::Double::from_bits(a as u128);
    let y = rustc_apfloat::ieee::Double::from_bits(b as u128);
    (x - y).value.to_bits() as u64
}

/// Relies on `rustc_apfloat::ieee::Double`: `mul` is IEEE-754 double
/// multiplication, round to nearest, ties to even.
#[verifier::external_body]
pub fn number_mul(a: u64, b: u64) -> (r: u64)
    ensures
        r == prod_bits(a, b),
{
    let x = rustc_apfloat::ieee::Double::from_bits(a as u128);
    let y = rustc_apfloat::ieee::Double::from_bits(b as u128);
    (x * y).value.to_bits() as u64
}

/// Relies on `rustc_apfloat::ieee::Double`: `div` is IEEE-754 double
/// division, round to nearest, ties to even; x/0 is an infinity or NaN, as
/// IEEE-754 has it.
#[verifier::external_body]
pub fn number_div(a: u64, b: u64) -> (r: u64)
    ensures
        r == quot_bits(a, b),
{
    let x = rustc_apfloat::ieee::Double::from_bits(a as u128);
    let y = rustc_apfloat::ieee::Double::from_bits(b as u128);
    (x / y).value.to_bits() as u64
}

/// Relies on `rustc_apfloat::ieee::Double::from_str`: decimal-to-double
/// conversion, round to nearest, ties to even; the result depends on the
/// text alone. Text that is not a number (which the scanner never passes)
/// maps to the zero pattern.
#[verifier::external_body]
pub fn parse_number(s: &Vec<u8>) -> (r: u64)
    ensures
        r == decimal_bits(s@),
{
    let text = core::str::from_utf8(s.as_slice()).unwrap_or("");
    match rustc_apfloat::ieee::Double::from_str(text) {
        Ok(v) => v.to_bits() as u64,
        Err(_) => 0,
    }
}

/// Relies on `rustc_apfloat::ieee::Double`'s decimal rendering (`Display`):
/// decimal at up to 17 significant digits (rounded half-up, trailing zeros
/// dropped, no `.0` on integral values), switching to scientific notation
/// (`7.65E+5`) for large or small magnitudes, and `+Inf`, `-Inf`, `NaN`
/// for the non-finite values; the result depends on the pattern alone.
/// This is the number-display convention of this implementation.
#[verifier::external_body]
pub fn format_number(b: u64) -> (r: Vec<u8>)
    ensures
        r@ == number_text(b),
{
    let x = rustc_apfloat::ieee::Double::from_bits(b as u128);
    format!("{}", x).into_bytes()
}

} // verus!
