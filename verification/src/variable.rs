//! The dual number: a value paired with a directional derivative.
//!
//! Both fields are IEEE-754 double bit patterns (see [`crate::bits`]).  Each
//! operation returns a fresh `Variable` whose contract states, bit for bit,
//! the value rule and the derivative rule it applies: the sum rule, the
//! product rule, the quotient rule, or the power rule.  The derivative field
//! of a composite expression built from seeded inputs is thereby the exact
//! forward-mode directional derivative of that expression, computed in
//! IEEE-754 double arithmetic.

use vstd::prelude::*;

use crate::bits::add_bits;
use crate::bits::div_bits;
use crate::bits::mul_bits;
use crate::bits::neg_bits;
use crate::bits::sub_bits;
use crate::bits::ONE_BITS;
use crate::bits::ZERO_BITS;

verus! {

/// A dual number: the primal `value` and its directional `derivative`, both
/// IEEE-754 double bit patterns.
#[derive(Clone, Copy, Debug, PartialEq, Eq, Structural)]
pub struct Variable {
    pub value: u64,
    pub derivative: u64,
}

impl Variable {
    /// An independent variable seeded for its own pass: derivative 1.0.
    pub fn new(value: u64) -> (r: Variable)
        ensures
            r.value == value,
            r.derivative == ONE_BITS,
    {
        Variable { value, derivative: ONE_BITS }
    }

    /// An independent variable seeded for its own pass: derivative 1.0.
    pub fn seeded(value: u64) -> (r: Variable)
        ensures
            r.value == value,
            r.derivative == ONE_BITS,
    {
        Variable { value, derivative: ONE_BITS }
    }

    /// A constant: derivative 0.0.
    pub fn from_value(value: u64) -> (r: Variable)
        ensures
            r.value == value,
            r.derivative == ZERO_BITS,
    {
        Variable { value, derivative: ZERO_BITS }
    }

    /// The dual number 0.0 with derivative 0.0.
    pub fn empty() -> (r: Variable)
        ensures
            r.value == ZERO_BITS,
            r.derivative == ZERO_BITS,
    {
        Variable { value: ZERO_BITS, derivative: ZERO_BITS }
    }

    /// A dual number with an explicitly injected initial derivative.
    pub fn with_initial_derivative(value: u64, derivative: u64) -> (r: Variable)
        ensures
            r.value == value,
            r.derivative == derivative,
    {
        Variable { value, derivative }
    }

    /// A dual number with an explicitly injected initial derivative.
    pub fn with_derivative(value: u64, derivative: u64) -> (r: Variable)
        ensures
            r.value == value,
            r.derivative == derivative,
    {
        Variable { value, derivative }
    }

    /// Sum of two dual numbers: values add, derivatives add.
    pub fn add(self, other: Variable) -> (r: Variable)
        ensures
            r.value == add_bits(self.value, other.value),
            r.derivative == add_bits(self.derivative, other.derivative),
    {
        Variable {
            value: crate::bits::fadd(self.value, other.value),
            derivative: crate::bits::fadd(self.derivative, other.derivative),
        }
    }

    /// Sum of a dual number and a scalar: the derivative is unchanged.
    pub fn add_scalar(self, scalar: u64) -> (r: Variable)
        ensures
            r.value == add_bits(self.value, scalar),
            r.derivative == self.derivative,
    {
        Variable { value: crate::bits::fadd(self.value, scalar), derivative: self.derivative }
    }

    /// Sum of a scalar and a dual number: the derivative is unchanged.
    pub fn scalar_add(scalar: u64, variable: Variable) -> (r: Variable)
        ensures
            r.value == add_bits(scalar, variable.value),
            r.derivative == variable.derivative,
    {
        Variable {
            value: crate::bits::fadd(scalar, variable.value),
            derivative: variable.derivative,
        }
    }

    /// Difference of two dual numbers: values subtract, derivatives subtract.
    pub fn sub(self, other: Variable) -> (r: Variable)
        ensures
            r.value == sub_bits(self.value, other.value),
            r.derivative == sub_bits(self.derivative, other.derivative),
    {
        Variable {
            value: crate::bits::fsub(self.value, other.value),
            derivative: crate::bits::fsub(self.derivative, other.derivative),
        }
    }

    /// Difference of a dual number and a scalar: the derivative is unchanged.
    pub fn sub_scalar(self, scalar: u64) -> (r: Variable)
        ensures
            r.value == sub_bits(self.value, scalar),
            r.derivative == self.derivative,
    {
        Variable { value: crate::bits::fsub(self.value, scalar), derivative: self.derivative }
    }

    /// Difference of a scalar and a dual number: the derivative is negated.
    pub fn scalar_sub(scalar: u64, variable: Variable) -> (r: Variable)
        ensures
            r.value == sub_bits(scalar, variable.value),
            r.derivative == neg_bits(variable.derivative),
    {
        Variable {
            value: crate::bits::fsub(scalar, variable.value),
            derivative: crate::bits::fneg(variable.derivative),
        }
    }

    /// Product of two dual numbers, by the product rule:
    /// `d(a*b) = da*b + a*db`.
    pub fn mul(self, other: Variable) -> (r: Variable)
        ensures
            r.value == mul_bits(self.value, other.value),
            r.derivative == add_bits(
                mul_bits(self.derivative, other.value),
                mul_bits(self.value, other.derivative),
            ),
    {
        Variable {
            value: crate::bits::fmul(self.value, other.value),
            derivative: crate::bits::fadd(
                crate::bits::fmul(self.derivative, other.value),
                crate::bits::fmul(self.value, other.derivative),
            ),
        }
    }

    /// Product of a dual number and a scalar: the derivative scales.
    pub fn mul_scalar(self, scalar: u64) -> (r: Variable)
        ensures
            r.value == mul_bits(self.value, scalar),
            r.derivative == mul_bits(self.derivative, scalar),
    {
        Variable {
            value: crate::bits::fmul(self.value, scalar),
            derivative: crate::bits::fmul(self.derivative, scalar),
        }
    }

    /// Product of a scalar and a dual number: the derivative scales.
    pub fn scalar_mul(scalar: u64, variable: Variable) -> (r: Variable)
        ensures
            r.value == mul_bits(scalar, variable.value),
            r.derivative == mul_bits(scalar, variable.derivative),
    {
        Variable {
            value: crate::bits::fmul(scalar, variable.value),
            derivative: crate::bits::fmul(scalar, variable.derivative),
        }
    }

    /// Quotient of two dual numbers, by the quotient rule:
    /// `d(a/b) = (da*b - a*db) / b^2`.
    pub fn div(self, other: Variable) -> (r: Variable)
        ensures
            r.value == div_bits(self.value, other.value),
            r.derivative == div_bits(
                sub_bits(
                    mul_bits(self.derivative, other.value),
                    mul_bits(self.value, other.derivative),
                ),
                mul_bits(other.value, other.value),
            ),
    {
        Variable {
            value: crate::bits::fdiv(self.value, other.value),
            derivative: crate::bits::fdiv(
                crate::bits::fsub(
                    crate::bits::fmul(self.derivative, other.value),
                    crate::bits::fmul(self.value, other.derivative),
                ),
                crate::bits::fmul(other.value, other.value),
            ),
        }
    }

    /// Quotient of a dual number and a scalar: the derivative divides.
    pub fn div_scalar(self, scalar: u64) -> (r: Variable)
        ensures
            r.value == div_bits(self.value, scalar),
            r.derivative == div_bits(self.derivative, scalar),
    {
        Variable {
            value: crate::bits::fdiv(self.value, scalar),
            derivative: crate::bits::fdiv(self.derivative, scalar),
        }
    }

    /// Quotient of a scalar and a dual number, by the quotient rule for a
    /// constant numerator: `d(s/a) = -s*da / a^2`.
    pub fn scalar_div(scalar: u64, variable: Variable) -> (r: Variable)
        ensures
            r.value == div_bits(scalar, variable.value),
            r.derivative == div_bits(
                mul_bits(neg_bits(scalar), variable.derivative),
                mul_bits(variable.value, variable.value),
            ),
    {
        Variable {
            value: crate::bits::fdiv(scalar, variable.value),
            derivative: crate::bits::fdiv(
                crate::bits::fmul(crate::bits::fneg(scalar), variable.derivative),
                crate::bits::fmul(variable.value, variable.value),
            ),
        }
    }

    /// Raises the dual number to a scalar power, by the power rule:
    /// `d(a^e) = e * da * a^(e-1)`.
    ///
    /// The caller supplies the two primal powers `a^e` and `a^(e-1)` as bit
    /// patterns (`value_to_exponent`, `value_to_exponent_less_one`), since no
    /// software power kernel lives in this crate; the rule combining them is
    /// verified here.
    pub fn pow(
        &self,
        exponent: u64,
        value_to_exponent: u64,
        value_to_exponent_less_one: u64,
    ) -> (r: Variable)
        ensures
            r.value == value_to_exponent,
            r.derivative == mul_bits(
                mul_bits(exponent, self.derivative),
                value_to_exponent_less_one,
            ),
    {
        Variable {
            value: value_to_exponent,
            derivative: crate::bits::fmul(
                crate::bits::fmul(exponent, self.derivative),
                value_to_exponent_less_one,
            ),
        }
    }
}

} // verus!
