use forward_ad::compare::almost_eq;
use forward_ad::variable::Variable;

#[test]
fn test_add_variables() {
    let x = Variable::with_derivative(1.0f64.to_bits(), 2.0f64.to_bits());
    let y = Variable::with_derivative(2.0f64.to_bits(), 3.0f64.to_bits());
    let z = x.add(y);
    assert!(almost_eq(z.value, 3.0f64.to_bits()));
    assert!(almost_eq(z.derivative, 5.0f64.to_bits()));
}

#[test]
fn test_add_scalar() {
    let x = Variable::with_derivative(1.0f64.to_bits(), 2.0f64.to_bits());
    let y = x.add_scalar(2.0f64.to_bits());
    assert!(almost_eq(y.value, 3.0f64.to_bits()));
    assert!(almost_eq(y.derivative, 2.0f64.to_bits()));
}

#[test]
fn test_add_scalar_rev() {
    let x = Variable::with_derivative(1.0f64.to_bits(), 2.0f64.to_bits());
    let y = Variable::scalar_add(2.0f64.to_bits(), x);
    assert!(almost_eq(y.value, 3.0f64.to_bits()));
    assert!(almost_eq(y.derivative, 2.0f64.to_bits()));
}

#[test]
fn test_sub_variables() {
    let x = Variable::with_derivative(1.0f64.to_bits(), 2.0f64.to_bits());
    let y = Variable::with_derivative(2.0f64.to_bits(), 3.0f64.to_bits());
    let z = x.sub(y);
    assert!(almost_eq(z.value, (-1.0f64).to_bits()));
    assert!(almost_eq(z.derivative, (-1.0f64).to_bits()));
}

#[test]
fn test_sub_scalar() {
    let x = Variable::with_derivative(1.0f64.to_bits(), 2.0f64.to_bits());
    let y = x.sub_scalar(2.0f64.to_bits());
    assert!(almost_eq(y.value, (-1.0f64).to_bits()));
    assert!(almost_eq(y.derivative, 2.0f64.to_bits()));
}

#[test]
fn test_sub_scalar_rev() {
    let x = Variable::with_derivative(1.0f64.to_bits(), 2.0f64.to_bits());
    let y = Variable::scalar_sub(2.0f64.to_bits(), x);
    assert!(almost_eq(y.value, 1.0f64.to_bits()));
    assert!(almost_eq(y.derivative, (-2.0f64).to_bits()));
}

#[test]
fn test_multiply_variables() {
    let x = Variable::with_derivative(2.0f64.to_bits(), 4.0f64.to_bits());
    let y = Variable::with_derivative(3.0f64.to_bits(), 5.0f64.to_bits());
    let z = x.mul(y);
    assert!(almost_eq(z.value, 6.0f64.to_bits()));
    assert!(almost_eq(z.derivative, 22.0f64.to_bits()));
}

#[test]
fn test_multiply_scalar() {
    let x = Variable::with_derivative(2.0f64.to_bits(), 3.0f64.to_bits());
    let y = x.mul_scalar(2.0f64.to_bits());
    assert!(almost_eq(y.value, 4.0f64.to_bits()));
    assert!(almost_eq(y.derivative, 6.0f64.to_bits()));
}

#[test]
fn test_multiply_scalar_rev() {
    let x = Variable::with_derivative(2.0f64.to_bits(), 3.0f64.to_bits());
    let y = Variable::scalar_mul(2.0f64.to_bits(), x);
    assert!(almost_eq(y.value, 4.0f64.to_bits()));
    assert!(almost_eq(y.derivative, 6.0f64.to_bits()));
}

#[test]
fn test_div_variables() {
    let x = Variable::with_derivative(1.0f64.to_bits(), 2.0f64.to_bits());
    let y = Variable::with_derivative(2.0f64.to_bits(), 3.0f64.to_bits());
    let z = x.div(y);
    assert!(almost_eq(z.value, 0.5f64.to_bits()));
    assert!(almost_eq(z.derivative, 0.25f64.to_bits()));
}

#[test]
fn test_div_scalar() {
    let x = Variable::with_derivative(1.0f64.to_bits(), 2.0f64.to_bits());
    let y = x.div_scalar(2.0f64.to_bits());
    assert!(almost_eq(y.value, 0.5f64.to_bits()));
    assert!(almost_eq(y.derivative, 1.0f64.to_bits()));
}

#[test]
fn test_div_scalar_rev() {
    let x = Variable::with_derivative(4.0f64.to_bits(), 2.0f64.to_bits());
    let y = Variable::scalar_div(2.0f64.to_bits(), x);
    println!("Variable: {:?}", y);
    assert!(almost_eq(y.value, 0.5f64.to_bits()));
    assert!(almost_eq(y.derivative, (-0.25f64).to_bits()));
}
