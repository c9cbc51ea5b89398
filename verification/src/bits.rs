//! Scalar IEEE-754 binary64 arithmetic on `u64` bit patterns.
//!
//! The rest of the crate never touches a machine float: a real number is
//! carried as the 64 bits of its IEEE-754 double representation.  The four
//! rounding arithmetic operations and the ordering test are performed by
//! `rustc_apfloat`'s software implementation of IEEE-754 binary64 (round to
//! nearest, ties to even), and their results are named by uninterpreted
//! spec functions, so every caller's contract states exactly which operation
//! produced each bit pattern.  Negation and absolute value are pure sign-bit
//! manipulations and are implemented and verified here directly.

use vstd::prelude::*;

verus! {

/// Bit pattern of the IEEE-754 double 0.0.
pub const ZERO_BITS: u64 = 0x0000_0000_0000_0000;

/// Bit pattern of the IEEE-754 double 1.0.
pub const ONE_BITS: u64 = 0x3FF0_0000_0000_0000;

/// Bit pattern of the IEEE-754 double 2.0.
pub const TWO_BITS: u64 = 0x4000_0000_0000_0000;

/// The IEEE-754 double sum of the doubles with bit patterns `a` and `b`,
/// rounded to nearest, ties to even.
pub uninterp spec fn add_bits(a: u64, b: u64) -> u64;

/// The IEEE-754 double difference of the doubles with bit patterns `a` and
/// `b`, rounded to nearest, ties to even.
pub uninterp spec fn sub_bits(a: u64, b: u64) -> u64;

/// The IEEE-754 double product of the doubles with bit patterns `a` and `b`,
/// rounded to nearest, ties to even.
pub uninterp spec fn mul_bits(a: u64, b: u64) -> u64;

/// The IEEE-754 double quotient of the doubles with bit patterns `a` and `b`,
/// rounded to nearest, ties to even.
pub uninterp spec fn div_bits(a: u64, b: u64) -> u64;

/// Whether the double with bit pattern `a` compares strictly below the double
/// with bit pattern `b` (false whenever either is a NaN).
pub uninterp spec fn lt_bits(a: u64, b: u64) -> bool;

/// IEEE-754 negation: the sign bit is flipped, the rest is untouched.
pub open spec fn neg_bits(a: u64) -> u64 {
    a ^ 0x8000_0000_0000_0000
}

/// IEEE-754 absolute value: the sign bit is cleared, the rest is untouched.
pub open spec fn abs_bits(a: u64) -> u64 {
    a & 0x7FFF_FFFF_FFFF_FFFF
}

/// Relies on `rustc_apfloat::ieee::Double`'s `Add` impl: the IEEE-754
/// binary64 sum, rounded to nearest, ties to even, as a pure function of the
/// two operand bit patterns.
#[verifier::external_body]
pub fn fadd(a: u64, b: u64) -> (r: u64)
    ensures
        r == add_bits(a, b),
{
    let x = <rustc_apfloat::ieee::Double as rustc_apfloat::Float>::from_bits(a as u128);
    let y = <rustc_apfloat::ieee::Double as rustc_apfloat::Float>::from_bits(b as u128);
    rustc_apfloat::Float::to_bits((x + y).value) as u64
}

/// Relies on `rustc_apfloat::ieee::Double`'s `Sub` impl: the IEEE-754
/// binary64 difference, rounded to nearest, ties to even, as a pure function
/// of the two operand bit patterns.
#[verifier::external_body]
pub fn fsub(a: u64, b: u64) -> (r: u64)
    ensures
        r == sub_bits(a, b),
{
    let x = <rustc_apfloat::ieee::Double as rustc_apfloat::Float>::from_bits(a as u128);
    let y = <rustc_apfloat::ieee::Double as rustc_apfloat::Float>::from_bits(b as u128);
    rustc_apfloat::Float::to_bits((x - y).value) as u64
}

/// Relies on `rustc_apfloat::ieee::Double`'s `Mul` impl: the IEEE-754
/// binary64 product, rounded to nearest, ties to even, as a pure function of
/// the two operand bit patterns.
#[verifier::external_body]
pub fn fmul(a: u64, b: u64) -> (r: u64)
    ensures
        r == mul_bits(a, b),
{
    let x = <rustc_apfloat::ieee::Double as rustc_apfloat::Float>::from_bits(a as u128);
    let y = <rustc_apfloat::ieee::Double as rustc_apfloat::Float>::from_bits(b as u128);
    rustc_apfloat::Float::to_bits((x * y).value) as u64
}

/// Relies on `rustc_apfloat::ieee::Double`'s `Div` impl: the IEEE-754
/// binary64 quotient, rounded to nearest, ties to even, as a pure function of
/// the two operand bit patterns.
#[verifier::external_body]
pub fn fdiv(a: u64, b: u64) -> (r: u64)
    ensures
        r == div_bits(a, b),
{
    let x = <rustc_apfloat::ieee::Double as rustc_apfloat::Float>::from_bits(a as u128);
    let y = <rustc_apfloat::ieee::Double as rustc_apfloat::Float>::from_bits(b as u128);
    rustc_apfloat::Float::to_bits((x / y).value) as u64
}

/// Relies on `rustc_apfloat::ieee::Double`'s `PartialOrd` impl: the IEEE-754
/// ordering of two binary64 values, which holds of no NaN operand, as a pure
/// function of the two operand bit patterns.
#[verifier::external_body]
pub fn flt(a: u64, b: u64) -> (r: bool)
    ensures
        r == lt_bits(a, b),
{
    let x = <rustc_apfloat::ieee::Double as rustc_apfloat::Float>::from_bits(a as u128);
    let y = <rustc_apfloat::ieee::Double as rustc_apfloat::Float>::from_bits(b as u128);
    x < y
}

/// Flips the sign bit: IEEE-754 negation of the double with bit pattern `a`.
pub fn fneg(a: u64) -> (r: u64)
    ensures
        r == neg_bits(a),
{
    a ^ 0x8000_0000_0000_0000
}

/// Clears the sign bit: IEEE-754 absolute value of the double with bit
/// pattern `a`.
pub fn fabs(a: u64) -> (r: u64)
    ensures
        r == abs_bits(a),
{
    a & 0x7FFF_FFFF_FFFF_FFFF
}

} // verus!
