use forward_ad::compare::almost_eq;
use forward_ad::variable::Variable;

#[test]
fn test_linear_positive() {
    let x = Variable::seeded(2.0f64.to_bits());
    let fx = Variable::scalar_mul(3.0f64.to_bits(), x).add_scalar(5.0f64.to_bits());
    assert!(almost_eq(fx.value, 11.0f64.to_bits()));
    assert!(almost_eq(fx.derivative, 3.0f64.to_bits()));
}

#[test]
fn test_linear_negative() {
    let x = Variable::seeded(2.0f64.to_bits());
    let fx = Variable::scalar_mul((-3.0f64).to_bits(), x).add_scalar(5.0f64.to_bits());
    assert!(almost_eq(fx.value, (-1.0f64).to_bits()));
    assert!(almost_eq(fx.derivative, (-3.0f64).to_bits()));
}

#[test]
fn test_quadratic() {
    let x = Variable::seeded(2.0f64.to_bits());
    let x_squared = x.pow(
        2.0f64.to_bits(),
        2.0f64.powf(2.0).to_bits(),
        2.0f64.powf(1.0).to_bits(),
    );
    let fx = Variable::scalar_mul(2.0f64.to_bits(), x_squared)
        .add(Variable::scalar_mul(3.0f64.to_bits(), x))
        .add_scalar(4.0f64.to_bits());
    assert!(almost_eq(fx.value, 18.0f64.to_bits()));
    assert!(almost_eq(fx.derivative, 11.0f64.to_bits()));
}
