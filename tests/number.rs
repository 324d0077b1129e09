use simplifier::number::Number;

#[test]
fn number_arithmetic() {
    assert_eq!(Number::Real(2) + Number::Real(3), Number::Real(5));
    assert_eq!(Number::Real(2) - Number::Real(3), Number::Real(-1));
    assert_eq!(Number::Real(-4) * Number::Real(3), Number::Real(-12));
    assert_eq!(Number::Real(i64::MIN) - Number::Real(1), Number::NaN);
    assert_eq!(Number::NaN + Number::Real(1), Number::NaN);
    assert_eq!(Number::Real(0) * Number::nan(), Number::NaN);
}

#[test]
fn number_powers() {
    assert_eq!(Number::Real(3).pow(Number::Real(4)), Number::Real(81));
    assert_eq!(Number::Real(-2).pow(Number::Real(63)), Number::Real(i64::MIN));
    assert_eq!(Number::Real(2).pow(Number::Real(63)), Number::NaN);
    assert_eq!(Number::Real(7).pow(Number::Real(0)), Number::Real(1));
    assert_eq!(Number::Real(0).pow(Number::Real(5)), Number::Real(0));
    assert_eq!(Number::Real(1).pow(Number::Real(i64::MAX)), Number::Real(1));
    assert_eq!(Number::Real(-1).pow(Number::Real(-3)), Number::Real(-1));
    assert_eq!(Number::Real(2).pow(Number::Real(-1)), Number::NaN);
    assert_eq!(Number::Real(0).pow(Number::Real(-1)), Number::NaN);
    assert_eq!(Number::NaN.pow(Number::Real(0)), Number::NaN);
}

#[test]
fn number_tests() {
    assert!(Number::Real(0).is_zero());
    assert!(!Number::NaN.is_zero());
    assert!(Number::Real(-1).real_eq(-1));
    assert!(!Number::Real(1).real_eq(-1));
    assert_eq!(Number::NaN, Number::NaN);
}
