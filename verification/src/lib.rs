//! Forward-mode automatic differentiation over IEEE-754 double-precision
//! numbers, held as their `u64` bit patterns.
//!
//! A [`variable::Variable`] carries a value together with the directional
//! derivative of that value with respect to a single seeded input.  Every
//! arithmetic operation and every elementary-function rule propagates the
//! derivative by the matching differentiation rule (sum, product, quotient,
//! chain rule), and the evaluators in [`evaluate`] and [`gradient`] drive one
//! seeded pass per input dimension to assemble a Jacobian or a gradient.
//!
//! All scalar arithmetic goes through the software IEEE-754 operations in
//! [`bits`], so each contract pins the produced bit patterns exactly.

pub mod bits;
pub mod compare;
pub mod evaluate;
pub mod functions;
pub mod gradient;
pub mod variable;
