//! The elementary-function rule table.
//!
//! Each rule takes one dual number and produces one, propagating the
//! derivative by the chain rule applied to the standard calculus derivative
//! of the primal function: `d(sin a) = da * cos(a)`, `d(ln a) = da / a`, and
//! so on.  The transcendental primal values themselves (the sine, cosine,
//! tangent, logarithm or square root of the point) are no rational functions
//! of the bits, so the caller computes them with its floating-point library
//! and hands them in as bit patterns; the rule that combines them with the
//! incoming derivative is what this crate verifies.  The rules are closed
//! over this fixed set: extending the table means adding a new function that
//! follows the same value/derivative contract shape.

use vstd::prelude::*;

use crate::bits::add_bits;
use crate::bits::div_bits;
use crate::bits::mul_bits;
use crate::bits::neg_bits;
use crate::bits::ONE_BITS;
use crate::bits::TWO_BITS;
use crate::variable::Variable;

verus! {

/// Sine rule.  `sin_of_value` and `cos_of_value` are the bit patterns of the
/// sine and cosine of the variable's value; the derivative follows the chain
/// rule `d(sin a) = da * cos(a)`.
pub fn sin(variable: Variable, sin_of_value: u64, cos_of_value: u64) -> (r: Variable)
    ensures
        r.value == sin_of_value,
        r.derivative == mul_bits(variable.derivative, cos_of_value),
{
    Variable {
        value: sin_of_value,
        derivative: crate::bits::fmul(variable.derivative, cos_of_value),
    }
}

/// Cosine rule.  `cos_of_value` and `sin_of_value` are the bit patterns of
/// the cosine and sine of the variable's value; the derivative follows the
/// chain rule `d(cos a) = -da * sin(a)`.
pub fn cos(variable: Variable, cos_of_value: u64, sin_of_value: u64) -> (r: Variable)
    ensures
        r.value == cos_of_value,
        r.derivative == mul_bits(neg_bits(variable.derivative), sin_of_value),
{
    Variable {
        value: cos_of_value,
        derivative: crate::bits::fmul(crate::bits::fneg(variable.derivative), sin_of_value),
    }
}

/// Tangent rule.  `tan_of_value` and `cos_of_value` are the bit patterns of
/// the tangent and cosine of the variable's value; the derivative follows
/// `d(tan a) = da * sec(a)^2`, with the secant computed as `1 / cos(a)`.
pub fn tan(variable: Variable, tan_of_value: u64, cos_of_value: u64) -> (r: Variable)
    ensures
        r.value == tan_of_value,
        r.derivative == mul_bits(
            mul_bits(variable.derivative, div_bits(ONE_BITS, cos_of_value)),
            div_bits(ONE_BITS, cos_of_value),
        ),
{
    let secant: u64 = crate::bits::fdiv(ONE_BITS, cos_of_value);
    Variable {
        value: tan_of_value,
        derivative: crate::bits::fmul(crate::bits::fmul(variable.derivative, secant), secant),
    }
}

/// Natural-logarithm rule.  `ln_of_value` is the bit pattern of the
/// logarithm of the variable's value; the derivative follows
/// `d(ln a) = da / a`.
pub fn ln(variable: Variable, ln_of_value: u64) -> (r: Variable)
    ensures
        r.value == ln_of_value,
        r.derivative == div_bits(variable.derivative, variable.value),
{
    Variable {
        value: ln_of_value,
        derivative: crate::bits::fdiv(variable.derivative, variable.value),
    }
}

/// Square rule: the variable multiplied by itself through the product rule,
/// so `d(a^2) = da*a + a*da`.
pub fn square(variable: Variable) -> (r: Variable)
    ensures
        r.value == mul_bits(variable.value, variable.value),
        r.derivative == add_bits(
            mul_bits(variable.derivative, variable.value),
            mul_bits(variable.value, variable.derivative),
        ),
{
    variable.mul(variable)
}

/// Power rule, delegating to [`Variable::pow`]: the caller supplies the two
/// primal powers `a^e` and `a^(e-1)` as bit patterns.
pub fn pow(
    variable: Variable,
    exponent: u64,
    value_to_exponent: u64,
    value_to_exponent_less_one: u64,
) -> (r: Variable)
    ensures
        r.value == value_to_exponent,
        r.derivative == mul_bits(
            mul_bits(exponent, variable.derivative),
            value_to_exponent_less_one,
        ),
{
    variable.pow(exponent, value_to_exponent, value_to_exponent_less_one)
}

/// Square-root rule.  `root_of_value` is the bit pattern of the square root
/// of the variable's value; the derivative follows
/// `d(sqrt a) = da / (2 * sqrt(a))`.
pub fn sqrt(variable: Variable, root_of_value: u64) -> (r: Variable)
    ensures
        r.value == root_of_value,
        r.derivative == div_bits(variable.derivative, mul_bits(TWO_BITS, root_of_value)),
{
    Variable {
        value: root_of_value,
        derivative: crate::bits::fdiv(
            variable.derivative,
            crate::bits::fmul(TWO_BITS, root_of_value),
        ),
    }
}

} // verus!
