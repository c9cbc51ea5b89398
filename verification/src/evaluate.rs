//! The multi-output Jacobian evaluator.
//!
//! Given an objective mapping a vector of dual numbers to a vector of dual
//! numbers, and a plain input point, the evaluator runs one pass per input
//! dimension.  Each pass seeds exactly one input with derivative 1.0 and
//! every other input with derivative 0.0, calls the objective once, and
//! reads one full column of the Jacobian (one derivative per output) from
//! the result.  The output values are read on every pass and the ones of
//! the last pass are returned.  The evaluator holds no state: everything it
//! returns is pinned to the input point and to the objective's contract.

use vstd::prelude::*;

use crate::bits::ONE_BITS;
use crate::bits::ZERO_BITS;
use crate::variable::Variable;

verus! {

/// The seeded input vector of one evaluation pass: component `i` carries the
/// coordinate `x[i]`, and only the component at `seed` carries derivative
/// 1.0.
pub open spec fn seeded_spec(x: Seq<u64>, seed: int) -> Seq<Variable> {
    Seq::new(
        x.len(),
        |i: int|
            Variable {
                value: x[i],
                derivative: if i == seed {
                    ONE_BITS
                } else {
                    ZERO_BITS
                },
            },
    )
}

/// Whether `vars` is the seeded input vector of some pass over the input
/// point `x`.
pub open spec fn is_seeded_input(x: Seq<u64>, vars: Seq<Variable>) -> bool {
    exists|i: int| 0 <= i < x.len() && vars == #[trigger] seeded_spec(x, i)
}

/// Builds the seeded input vector of the pass for input index `seed_index`.
pub fn make_variables_from_values(x: &Vec<u64>, seed_index: usize) -> (r: Vec<Variable>)
    requires
        seed_index < x@.len(),
    ensures
        r@ == seeded_spec(x@, seed_index as int),
{
    let mut variables: Vec<Variable> = Vec::new();
    let mut i: usize = 0;
    while i < x.len()
        invariant
            0 <= i <= x@.len(),
            seed_index < x@.len(),
            variables@.len() == i,
            forall|j: int| 0 <= j < i ==> variables@[j] == seeded_spec(x@, seed_index as int)[j],
        decreases x@.len() - i,
    {
        let derivative: u64 = if i == seed_index {
            ONE_BITS
        } else {
            ZERO_BITS
        };
        variables.push(Variable { value: x[i], derivative });
        i += 1;
    }
    proof {
        assert(variables@ =~= seeded_spec(x@, seed_index as int));
    }
    variables
}

/// Whether `column` is a possible Jacobian column for the pass seeded at
/// input index `seed`: some result of the objective on that seeded input
/// has these derivatives, output by output.
pub open spec fn jacobian_column<F: Fn(Vec<Variable>) -> Vec<Variable>>(
    f: F,
    x: Seq<u64>,
    seed: int,
    column: Seq<u64>,
) -> bool {
    exists|vars: Vec<Variable>, out: Vec<Variable>|
        vars@ == seeded_spec(x, seed) && #[trigger] call_ensures(f, (vars,), out)
            && column.len() == out@.len() && (forall|o: int|
            0 <= o < out@.len() ==> column[o] == out@[o].derivative)
}

/// Whether `values` is a possible output-value vector for the pass seeded at
/// input index `seed`.
pub open spec fn output_values<F: Fn(Vec<Variable>) -> Vec<Variable>>(
    f: F,
    x: Seq<u64>,
    seed: int,
    values: Seq<u64>,
) -> bool {
    exists|vars: Vec<Variable>, out: Vec<Variable>|
        vars@ == seeded_spec(x, seed) && #[trigger] call_ensures(f, (vars,), out)
            && values.len() == out@.len() && (forall|o: int|
            0 <= o < out@.len() ==> values[o] == out@[o].value)
}

/// Column `i` of a row-major matrix.
pub open spec fn column_of(jacobian: Seq<Vec<u64>>, i: int) -> Seq<u64> {
    Seq::new(jacobian.len(), |o: int| jacobian[o]@[i])
}

/// What [`evaluate`] returns: a dense `output_count` by `x.len()` Jacobian
/// whose column `i` came from the pass seeded at input `i`, and the output
/// values as read on the last pass.
pub open spec fn jacobian_post<F: Fn(Vec<Variable>) -> Vec<Variable>>(
    f: F,
    x: Seq<u64>,
    output_count: int,
    values: Seq<u64>,
    jacobian: Seq<Vec<u64>>,
) -> bool {
    &&& values.len() == output_count
    &&& jacobian.len() == output_count
    &&& (forall|o: int| 0 <= o < output_count ==> #[trigger] jacobian[o]@.len() == x.len())
    &&& (forall|i: int|
        0 <= i < x.len() ==> #[trigger] jacobian_column(f, x, i, column_of(jacobian, i)))
    &&& output_values(f, x, x.len() - 1, values)
}

/// Whether the objective is deterministic: its contract admits at most one
/// output vector for any given input vector.  A pure objective, as the
/// evaluator presumes, satisfies this.
pub open spec fn deterministic<F: Fn(Vec<Variable>) -> Vec<Variable>>(f: F) -> bool {
    forall|v1: Vec<Variable>, v2: Vec<Variable>, o1: Vec<Variable>, o2: Vec<Variable>|
        #![trigger call_ensures(f, (v1,), o1), call_ensures(f, (v2,), o2)]
        v1@ == v2@ && call_ensures(f, (v1,), o1) && call_ensures(f, (v2,), o2) ==> o1@ == o2@
}

/// Law: the evaluator holds no state.  Two evaluations of one deterministic
/// objective at one input point return bit-identical value vectors and
/// Jacobians.
pub proof fn lemma_evaluate_deterministic<F: Fn(Vec<Variable>) -> Vec<Variable>>(
    f: F,
    x: Seq<u64>,
    output_count: int,
    values1: Seq<u64>,
    jacobian1: Seq<Vec<u64>>,
    values2: Seq<u64>,
    jacobian2: Seq<Vec<u64>>,
)
    requires
        deterministic(f),
        jacobian_post(f, x, output_count, values1, jacobian1),
        jacobian_post(f, x, output_count, values2, jacobian2),
    ensures
        values1 == values2,
        jacobian1.len() == jacobian2.len(),
        forall|o: int| 0 <= o < jacobian1.len() ==> #[trigger] jacobian1[o]@ == jacobian2[o]@,
{
    assert forall|o: int, i: int|
        0 <= o < output_count && 0 <= i < x.len() implies #[trigger] jacobian1[o]@[i]
        == jacobian2[o]@[i] by {
        assert(jacobian_column(f, x, i, column_of(jacobian1, i)));
        assert(jacobian_column(f, x, i, column_of(jacobian2, i)));
        let (v1, o1) = choose|v1: Vec<Variable>, o1: Vec<Variable>|
            v1@ == seeded_spec(x, i) && #[trigger] call_ensures(f, (v1,), o1) && column_of(
                jacobian1,
                i,
            ).len() == o1@.len() && (forall|k: int|
                0 <= k < o1@.len() ==> column_of(jacobian1, i)[k] == o1@[k].derivative);
        let (v2, o2) = choose|v2: Vec<Variable>, o2: Vec<Variable>|
            v2@ == seeded_spec(x, i) && #[trigger] call_ensures(f, (v2,), o2) && column_of(
                jacobian2,
                i,
            ).len() == o2@.len() && (forall|k: int|
                0 <= k < o2@.len() ==> column_of(jacobian2, i)[k] == o2@[k].derivative);
        assert(o1@ == o2@);
        assert(column_of(jacobian1, i)[o] == o1@[o].derivative);
        assert(column_of(jacobian2, i)[o] == o2@[o].derivative);
    }
    assert forall|o: int| 0 <= o < jacobian1.len() implies #[trigger] jacobian1[o]@
        == jacobian2[o]@ by {
        assert(jacobian1[o]@ =~= jacobian2[o]@);
    }
    let (v1, o1) = choose|v1: Vec<Variable>, o1: Vec<Variable>|
        v1@ == seeded_spec(x, x.len() - 1) && #[trigger] call_ensures(f, (v1,), o1) && values1.len()
            == o1@.len() && (forall|k: int| 0 <= k < o1@.len() ==> values1[k] == o1@[k].value);
    let (v2, o2) = choose|v2: Vec<Variable>, o2: Vec<Variable>|
        v2@ == seeded_spec(x, x.len() - 1) && #[trigger] call_ensures(f, (v2,), o2) && values2.len()
            == o2@.len() && (forall|k: int| 0 <= k < o2@.len() ==> values2[k] == o2@[k].value);
    assert(o1@ == o2@);
    assert(values1 =~= values2);
}

/// Runs one seeded pass of the objective per input dimension and assembles
/// the dense Jacobian (rows are outputs, columns are inputs) together with
/// the vector of output values.
///
/// The objective must accept every seeded input vector over `x`, and must
/// return exactly `output_count` outputs.
pub fn evaluate<F: Fn(Vec<Variable>) -> Vec<Variable>>(
    function: F,
    x: &Vec<u64>,
    output_count: usize,
) -> (r: (Vec<u64>, Vec<Vec<u64>>))
    requires
        x@.len() >= 1,
        forall|vars: Vec<Variable>|
            is_seeded_input(x@, vars@) ==> #[trigger] call_requires(function, (vars,)),
        forall|vars: Vec<Variable>, out: Vec<Variable>|
            #[trigger] call_ensures(function, (vars,), out) ==> out@.len() == output_count,
    ensures
        jacobian_post(function, x@, output_count as int, r.0@, r.1@),
{
    let mut values: Vec<u64> = Vec::new();
    let mut columns: Vec<Vec<u64>> = Vec::new();
    let mut index: usize = 0;
    while index < x.len()
        invariant
            x@.len() >= 1,
            forall|vars: Vec<Variable>|
                is_seeded_input(x@, vars@) ==> #[trigger] call_requires(function, (vars,)),
            forall|vars: Vec<Variable>, out: Vec<Variable>|
                #[trigger] call_ensures(function, (vars,), out) ==> out@.len() == output_count,
            0 <= index <= x@.len(),
            columns@.len() == index,
            forall|i: int| 0 <= i < index ==> #[trigger] columns@[i]@.len() == output_count,
            forall|i: int|
                0 <= i < index ==> #[trigger] jacobian_column(function, x@, i, columns@[i]@),
            index > 0 ==> output_values(function, x@, index - 1, values@),
        decreases x@.len() - index,
    {
        let variables = make_variables_from_values(x, index);
        let ghost seeded_vars = variables;
        proof {
            assert(is_seeded_input(x@, variables@));
        }
        let result = function(variables);
        let mut column: Vec<u64> = Vec::new();
        let mut pass_values: Vec<u64> = Vec::new();
        let mut o: usize = 0;
        while o < output_count
            invariant
                call_ensures(function, (seeded_vars,), result),
                result@.len() == output_count,
                0 <= o <= output_count,
                column@.len() == o,
                pass_values@.len() == o,
                forall|k: int| 0 <= k < o ==> column@[k] == result@[k].derivative,
                forall|k: int| 0 <= k < o ==> pass_values@[k] == result@[k].value,
            decreases output_count - o,
        {
            column.push(result[o].derivative);
            pass_values.push(result[o].value);
            o += 1;
        }
        proof {
            assert(jacobian_column(function, x@, index as int, column@));
            assert(output_values(function, x@, index as int, pass_values@));
        }
        values = pass_values;
        columns.push(column);
        index += 1;
    }
    let mut jacobian: Vec<Vec<u64>> = Vec::new();
    let mut o: usize = 0;
    while o < output_count
        invariant
            columns@.len() == x@.len(),
            forall|i: int| 0 <= i < x@.len() ==> #[trigger] columns@[i]@.len() == output_count,
            0 <= o <= output_count,
            jacobian@.len() == o,
            forall|row: int| 0 <= row < o ==> #[trigger] jacobian@[row]@.len() == x@.len(),
            forall|row: int, i: int|
                0 <= row < o && 0 <= i < x@.len() ==> #[trigger] jacobian@[row]@[i] == columns@[i]@[row],
        decreases output_count - o,
    {
        let mut row: Vec<u64> = Vec::new();
        let mut i: usize = 0;
        while i < columns.len()
            invariant
                columns@.len() == x@.len(),
                forall|k: int| 0 <= k < x@.len() ==> #[trigger] columns@[k]@.len() == output_count,
                o < output_count,
                0 <= i <= x@.len(),
                row@.len() == i,
                forall|k: int| 0 <= k < i ==> #[trigger] row@[k] == columns@[k]@[o as int],
            decreases x@.len() - i,
        {
            let column: &Vec<u64> = &columns[i];
            row.push(column[o]);
            i += 1;
        }
        jacobian.push(row);
        o += 1;
    }
    proof {
        assert forall|i: int|
            0 <= i < x@.len() implies #[trigger] jacobian_column(
            function,
            x@,
            i,
            column_of(jacobian@, i),
        ) by {
            assert(column_of(jacobian@, i) =~= columns@[i]@);
            assert(jacobian_column(function, x@, i, columns@[i]@));
        }
    }
    (values, jacobian)
}

} // verus!
