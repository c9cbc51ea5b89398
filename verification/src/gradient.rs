//! The single-output (gradient) specialization of the evaluator, and one
//! step of gradient descent built on it.
//!
//! The seeding and column-assembly semantics are those of
//! [`crate::evaluate`], restricted to an objective with one output: one pass
//! per input dimension, each seeding exactly one input with derivative 1.0,
//! yields one gradient entry per pass, and the value as read on the last
//! pass.

use vstd::prelude::*;

use crate::bits::mul_bits;
use crate::bits::sub_bits;
use crate::bits::ZERO_BITS;
use crate::evaluate::column_of;
use crate::evaluate::is_seeded_input;
use crate::evaluate::jacobian_column;
use crate::evaluate::jacobian_post;
use crate::evaluate::make_variables_from_values;
use crate::evaluate::output_values;
use crate::evaluate::seeded_spec;
use crate::variable::Variable;

verus! {

/// Whether `entry` is a possible gradient entry for the pass seeded at
/// input index `seed`: some result of the objective on that seeded input
/// has this derivative.
pub open spec fn gradient_entry<F: Fn(Vec<Variable>) -> Variable>(
    f: F,
    x: Seq<u64>,
    seed: int,
    entry: u64,
) -> bool {
    exists|vars: Vec<Variable>, out: Variable|
        vars@ == seeded_spec(x, seed) && #[trigger] call_ensures(f, (vars,), out) && entry
            == out.derivative
}

/// Whether `value` is a possible output value for the pass seeded at input
/// index `seed`.
pub open spec fn value_entry<F: Fn(Vec<Variable>) -> Variable>(
    f: F,
    x: Seq<u64>,
    seed: int,
    value: u64,
) -> bool {
    exists|vars: Vec<Variable>, out: Variable|
        vars@ == seeded_spec(x, seed) && #[trigger] call_ensures(f, (vars,), out) && value
            == out.value
}

/// What [`evaluate`] returns: one gradient entry per input dimension, each
/// from the pass seeded at that input, and the value as read on the last
/// pass.
pub open spec fn gradient_post<F: Fn(Vec<Variable>) -> Variable>(
    f: F,
    x: Seq<u64>,
    value: u64,
    gradient: Seq<u64>,
) -> bool {
    &&& gradient.len() == x.len()
    &&& (forall|i: int| 0 <= i < x.len() ==> gradient_entry(f, x, i, #[trigger] gradient[i]))
    &&& value_entry(f, x, x.len() - 1, value)
}

/// Whether the objective is deterministic: its contract admits at most one
/// output for any given input vector.  A pure objective, as the evaluator
/// presumes, satisfies this.
pub open spec fn deterministic<F: Fn(Vec<Variable>) -> Variable>(f: F) -> bool {
    forall|v1: Vec<Variable>, v2: Vec<Variable>, o1: Variable, o2: Variable|
        #![trigger call_ensures(f, (v1,), o1), call_ensures(f, (v2,), o2)]
        v1@ == v2@ && call_ensures(f, (v1,), o1) && call_ensures(f, (v2,), o2) ==> o1 == o2
}

/// Law: the evaluator holds no state.  Two evaluations of one deterministic
/// objective at one input point return bit-identical values and gradients.
pub proof fn lemma_evaluate_deterministic<F: Fn(Vec<Variable>) -> Variable>(
    f: F,
    x: Seq<u64>,
    value1: u64,
    gradient1: Seq<u64>,
    value2: u64,
    gradient2: Seq<u64>,
)
    requires
        deterministic(f),
        gradient_post(f, x, value1, gradient1),
        gradient_post(f, x, value2, gradient2),
    ensures
        value1 == value2,
        gradient1 == gradient2,
{
    assert forall|i: int| 0 <= i < x.len() implies gradient1[i] == gradient2[i] by {
        assert(gradient_entry(f, x, i, gradient1[i]));
        assert(gradient_entry(f, x, i, gradient2[i]));
        let (v1, o1) = choose|v1: Vec<Variable>, o1: Variable|
            v1@ == seeded_spec(x, i) && #[trigger] call_ensures(f, (v1,), o1) && gradient1[i]
                == o1.derivative;
        let (v2, o2) = choose|v2: Vec<Variable>, o2: Variable|
            v2@ == seeded_spec(x, i) && #[trigger] call_ensures(f, (v2,), o2) && gradient2[i]
                == o2.derivative;
        assert(o1 == o2);
    }
    assert(gradient1 =~= gradient2);
    let (v1, o1) = choose|v1: Vec<Variable>, o1: Variable|
        v1@ == seeded_spec(x, x.len() - 1) && #[trigger] call_ensures(f, (v1,), o1) && value1
            == o1.value;
    let (v2, o2) = choose|v2: Vec<Variable>, o2: Variable|
        v2@ == seeded_spec(x, x.len() - 1) && #[trigger] call_ensures(f, (v2,), o2) && value2
            == o2.value;
    assert(o1 == o2);
}

/// Runs one seeded pass of the single-output objective per input dimension
/// and assembles the scalar value and the gradient vector.
///
/// The objective must accept every seeded input vector over `x`.
pub fn evaluate<F: Fn(Vec<Variable>) -> Variable>(function: F, x: &Vec<u64>) -> (r: (
    u64,
    Vec<u64>,
))
    requires
        x@.len() >= 1,
        forall|vars: Vec<Variable>|
            is_seeded_input(x@, vars@) ==> #[trigger] call_requires(function, (vars,)),
    ensures
        gradient_post(function, x@, r.0, r.1@),
{
    let mut value: u64 = ZERO_BITS;
    let mut gradient: Vec<u64> = Vec::new();
    let mut index: usize = 0;
    while index < x.len()
        invariant
            x@.len() >= 1,
            forall|vars: Vec<Variable>|
                is_seeded_input(x@, vars@) ==> #[trigger] call_requires(function, (vars,)),
            0 <= index <= x@.len(),
            gradient@.len() == index,
            forall|i: int|
                0 <= i < index ==> gradient_entry(function, x@, i, #[trigger] gradient@[i]),
            index > 0 ==> value_entry(function, x@, index - 1, value),
        decreases x@.len() - index,
    {
        let variables = make_variables_from_values(x, index);
        let ghost seeded_vars = variables;
        proof {
            assert(is_seeded_input(x@, variables@));
        }
        let result = function(variables);
        value = result.value;
        gradient.push(result.derivative);
        proof {
            assert(gradient_entry(function, x@, index as int, result.derivative));
            assert(value_entry(function, x@, index as int, result.value));
        }
        index += 1;
    }
    (value, gradient)
}

/// One step of gradient descent: evaluates the gradient at `x` and moves
/// each coordinate against it, `next[i] = x[i] - step_size * gradient[i]`,
/// in IEEE-754 double arithmetic.
pub fn gradient_descent_step<F: Fn(Vec<Variable>) -> Variable>(
    function: F,
    x: &Vec<u64>,
    step_size: u64,
) -> (r: Vec<u64>)
    requires
        x@.len() >= 1,
        forall|vars: Vec<Variable>|
            is_seeded_input(x@, vars@) ==> #[trigger] call_requires(function, (vars,)),
    ensures
        r@.len() == x@.len(),
        exists|value: u64, gradient: Seq<u64>|
            #[trigger] gradient_post(function, x@, value, gradient) && (forall|i: int|
                0 <= i < x@.len() ==> r@[i] == sub_bits(x@[i], mul_bits(step_size, gradient[i]))),
{
    let (value, gradient) = evaluate(function, x);
    let mut next: Vec<u64> = Vec::new();
    let mut i: usize = 0;
    while i < x.len()
        invariant
            gradient@.len() == x@.len(),
            0 <= i <= x@.len(),
            next@.len() == i,
            forall|k: int|
                0 <= k < i ==> next@[k] == sub_bits(x@[k], mul_bits(step_size, gradient@[k])),
        decreases x@.len() - i,
    {
        next.push(crate::bits::fsub(x[i], crate::bits::fmul(step_size, gradient[i])));
        i += 1;
    }
    proof {
        assert(gradient_post(function, x@, value, gradient@));
    }
    next
}

/// Law: the gradient form is the restriction of the Jacobian form to a
/// single output.  Let the vector objective `g` wrap the deterministic
/// scalar objective `f`, returning `f`'s output as a one-element vector.
/// Then a one-output Jacobian result for `g` and a gradient result for `f`
/// at the same input point agree: the value vector holds the one value, and
/// the one Jacobian row is the gradient.
pub proof fn lemma_gradient_is_single_output_jacobian<
    F: Fn(Vec<Variable>) -> Variable,
    G: Fn(Vec<Variable>) -> Vec<Variable>,
>(
    f: F,
    g: G,
    x: Seq<u64>,
    value: u64,
    gradient: Seq<u64>,
    values: Seq<u64>,
    jacobian: Seq<Vec<u64>>,
)
    requires
        forall|vars: Vec<Variable>, out: Vec<Variable>|
            #[trigger] call_ensures(g, (vars,), out) ==> exists|o: Variable|
                #[trigger] call_ensures(f, (vars,), o) && out@ == seq![o],
        deterministic(f),
        gradient_post(f, x, value, gradient),
        jacobian_post(g, x, 1, values, jacobian),
    ensures
        values == seq![value],
        jacobian.len() == 1,
        jacobian[0]@ == gradient,
{
    assert forall|i: int| 0 <= i < x.len() implies jacobian[0]@[i] == gradient[i] by {
        assert(jacobian_column(g, x, i, column_of(jacobian, i)));
        let (v1, out1) = choose|v1: Vec<Variable>, out1: Vec<Variable>|
            v1@ == seeded_spec(x, i) && #[trigger] call_ensures(g, (v1,), out1) && column_of(
                jacobian,
                i,
            ).len() == out1@.len() && (forall|k: int|
                0 <= k < out1@.len() ==> column_of(jacobian, i)[k] == out1@[k].derivative);
        let o1 = choose|o1: Variable| #[trigger] call_ensures(f, (v1,), o1) && out1@ == seq![o1];
        assert(gradient_entry(f, x, i, gradient[i]));
        let (v2, o2) = choose|v2: Vec<Variable>, o2: Variable|
            v2@ == seeded_spec(x, i) && #[trigger] call_ensures(f, (v2,), o2) && gradient[i]
                == o2.derivative;
        assert(o1 == o2);
        assert(column_of(jacobian, i)[0] == out1@[0].derivative);
        assert(jacobian[0]@[i] == column_of(jacobian, i)[0]);
    }
    assert(jacobian[0]@ =~= gradient);
    assert(output_values(g, x, x.len() - 1, values));
    let (v1, out1) = choose|v1: Vec<Variable>, out1: Vec<Variable>|
        v1@ == seeded_spec(x, x.len() - 1) && #[trigger] call_ensures(g, (v1,), out1)
            && values.len() == out1@.len() && (forall|k: int|
            0 <= k < out1@.len() ==> values[k] == out1@[k].value);
    let o1 = choose|o1: Variable| #[trigger] call_ensures(f, (v1,), o1) && out1@ == seq![o1];
    assert(value_entry(f, x, x.len() - 1, value));
    let (v2, o2) = choose|v2: Vec<Variable>, o2: Variable|
        v2@ == seeded_spec(x, x.len() - 1) && #[trigger] call_ensures(f, (v2,), o2) && value
            == o2.value;
    assert(o1 == o2);
    assert(values =~= seq![value]);
}

} // verus!
