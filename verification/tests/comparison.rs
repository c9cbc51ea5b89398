use forward_ad::compare::almost_eq;
use forward_ad::compare::almost_equals;
use forward_ad::variable::Variable;

#[test]
fn test_almost_eq_rejects_distant_values() {
    assert!(!almost_eq(1.0f64.to_bits(), 2.0f64.to_bits()));
    assert!(almost_eq(1.0f64.to_bits(), 1.0f64.to_bits()));
    assert!(almost_eq(1.0f64.to_bits(), (1.0f64 + 1.0e-9).to_bits()));
    assert!(!almost_eq(1.0f64.to_bits(), (1.0f64 + 1.0e-7).to_bits()));
}

#[test]
fn test_almost_equals_componentwise() {
    let lhs = vec![1.0f64.to_bits(), 2.0f64.to_bits()];
    let rhs_equal = vec![1.0f64.to_bits(), 2.0f64.to_bits()];
    let rhs_differs = vec![1.0f64.to_bits(), 2.5f64.to_bits()];
    assert!(almost_equals(&lhs, &rhs_equal));
    assert!(!almost_equals(&lhs, &rhs_differs));
    let empty_left: Vec<u64> = vec![];
    let empty_right: Vec<u64> = vec![];
    assert!(almost_equals(&empty_left, &empty_right));
}

#[test]
fn test_arithmetic_is_exact_ieee() {
    let x = Variable::with_derivative(1.0f64.to_bits(), 2.0f64.to_bits());
    let y = Variable::with_derivative(2.0f64.to_bits(), 3.0f64.to_bits());
    assert_eq!(x.add(y).value, 3.0f64.to_bits());
    assert_eq!(x.sub(y).value, (-1.0f64).to_bits());
    assert_eq!(x.mul(y).value, 2.0f64.to_bits());
    assert_eq!(x.div(y).value, 0.5f64.to_bits());
    assert_eq!(x.mul(y).derivative, 7.0f64.to_bits());
    let tenth = Variable::with_derivative(0.1f64.to_bits(), 0.0f64.to_bits());
    let fifth = tenth.add(tenth);
    assert_eq!(fifth.value, (0.1f64 + 0.1f64).to_bits());
}

#[test]
fn test_division_by_zero_propagates_infinity() {
    let x = Variable::with_derivative(1.0f64.to_bits(), 1.0f64.to_bits());
    let zero = Variable::with_derivative(0.0f64.to_bits(), 0.0f64.to_bits());
    let q = x.div(zero);
    assert!(f64::from_bits(q.value).is_infinite());
}

#[test]
fn test_negation_and_absolute_value_flip_the_sign_bit() {
    let negated = forward_ad::bits::fneg(3.5f64.to_bits());
    assert_eq!(negated, (-3.5f64).to_bits());
    let restored = forward_ad::bits::fabs(negated);
    assert_eq!(restored, 3.5f64.to_bits());
}
