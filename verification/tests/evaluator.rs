use forward_ad::compare::almost_eq;
use forward_ad::compare::almost_equals;
use forward_ad::evaluate;
use forward_ad::functions::square;
use forward_ad::gradient;
use forward_ad::variable::Variable;

#[test]
fn test_evaluate_multi_linear() {
    let objective = |variables: Vec<Variable>| -> Variable {
        variables[0]
            .add(Variable::scalar_mul(2.0f64.to_bits(), variables[1]))
            .add(Variable::scalar_mul(3.0f64.to_bits(), variables[2]))
    };
    let x = vec![1.0f64.to_bits(), 2.0f64.to_bits(), 3.0f64.to_bits()];
    let (fx, gradient) = gradient::evaluate(objective, &x);
    println!("{:?}", fx);
    assert!(almost_eq(fx, 14.0f64.to_bits()));
    let expected = vec![1.0f64.to_bits(), 2.0f64.to_bits(), 3.0f64.to_bits()];
    assert!(almost_equals(&gradient, &expected));
}

#[test]
fn test_gradient_descent() {
    let objective = |variables: Vec<Variable>| -> Variable {
        square(variables[0])
            .add(Variable::scalar_mul(2.0f64.to_bits(), variables[0]))
            .add_scalar(1.0f64.to_bits())
    };
    let mut x = vec![0.0f64.to_bits()];
    for _ in 0..30 {
        x = gradient::gradient_descent_step(objective, &x, 0.5f64.to_bits());
    }
    println!("{:?}", f64::from_bits(x[0]));
    assert!(almost_eq(x[0], (-1.0f64).to_bits()));
}

#[test]
fn test_jacobian_two_outputs() {
    let objective = |variables: Vec<Variable>| -> Vec<Variable> {
        vec![variables[0].mul(variables[1]), variables[0].add(variables[1])]
    };
    let x = vec![2.0f64.to_bits(), 3.0f64.to_bits()];
    let (values, jacobian) = evaluate::evaluate(objective, &x, 2);
    assert_eq!(values.len(), 2);
    assert_eq!(jacobian.len(), 2);
    assert_eq!(jacobian[0].len(), 2);
    assert_eq!(jacobian[1].len(), 2);
    assert!(almost_eq(values[0], 6.0f64.to_bits()));
    assert!(almost_eq(values[1], 5.0f64.to_bits()));
    assert!(almost_eq(jacobian[0][0], 3.0f64.to_bits()));
    assert!(almost_eq(jacobian[0][1], 2.0f64.to_bits()));
    assert!(almost_eq(jacobian[1][0], 1.0f64.to_bits()));
    assert!(almost_eq(jacobian[1][1], 1.0f64.to_bits()));
}

#[test]
fn test_evaluate_is_deterministic() {
    let objective = |variables: Vec<Variable>| -> Variable {
        forward_ad::functions::ln(
            variables[0],
            f64::from_bits(variables[0].value).ln().to_bits(),
        )
        .add(variables[0].mul(variables[1]))
    };
    let x = vec![2.0f64.to_bits(), 5.0f64.to_bits()];
    let (value_first, gradient_first) = gradient::evaluate(objective, &x);
    let (value_second, gradient_second) = gradient::evaluate(objective, &x);
    assert_eq!(value_first, value_second);
    assert_eq!(gradient_first, gradient_second);
}

#[test]
fn test_gradient_matches_single_output_jacobian() {
    let scalar = |variables: Vec<Variable>| -> Variable {
        variables[0].mul(variables[1]).add(variables[0])
    };
    let vector = |variables: Vec<Variable>| -> Vec<Variable> {
        vec![variables[0].mul(variables[1]).add(variables[0])]
    };
    let x = vec![3.0f64.to_bits(), 7.0f64.to_bits()];
    let (value, gradient_vector) = gradient::evaluate(scalar, &x);
    let (values, jacobian) = evaluate::evaluate(vector, &x, 1);
    assert_eq!(values, vec![value]);
    assert_eq!(jacobian, vec![gradient_vector]);
}

#[test]
fn test_quadratic_through_evaluator() {
    let objective = |variables: Vec<Variable>| -> Variable {
        Variable::scalar_mul(2.0f64.to_bits(), variables[0].mul(variables[0]))
            .add(Variable::scalar_mul(3.0f64.to_bits(), variables[0]))
            .add_scalar(4.0f64.to_bits())
    };
    let x = vec![2.0f64.to_bits()];
    let (value, gradient_vector) = gradient::evaluate(objective, &x);
    assert!(almost_eq(value, 18.0f64.to_bits()));
    assert!(almost_eq(gradient_vector[0], 11.0f64.to_bits()));
}

#[test]
fn test_seeding_is_one_hot() {
    let variables = evaluate::make_variables_from_values(
        &vec![4.0f64.to_bits(), 5.0f64.to_bits(), 6.0f64.to_bits()],
        1,
    );
    assert_eq!(variables.len(), 3);
    assert_eq!(variables[0].value, 4.0f64.to_bits());
    assert_eq!(variables[1].value, 5.0f64.to_bits());
    assert_eq!(variables[2].value, 6.0f64.to_bits());
    assert_eq!(variables[0].derivative, 0.0f64.to_bits());
    assert_eq!(variables[1].derivative, 1.0f64.to_bits());
    assert_eq!(variables[2].derivative, 0.0f64.to_bits());
}
