use simplifier::expr::{self, con, cos, div, exp, ln, mul, neg, pow, powf, sin, var, zero, Expr};
use simplifier::number::Number;
use simplifier::simplify::simplify;

fn one() -> Expr {
    Expr::Const(Number::Real(1))
}

#[test]
fn test_add_simplify() {
    let tests = vec![
        zero() + con(1),
        con(1) + zero(),
        zero() + zero(),
        con(1) + con(1),
    ];

    let answers = vec![one(), one(), Expr::Const(Number::Real(0)), con(2)];

    for (l, r) in tests.iter().zip(answers.iter()) {
        println!("Left: {:?}", l);
        println!("Right: {:?}", r);
        println!("Simplified left: {:?}", simplify(l.clone()));
        assert_eq!(simplify(l.clone()), r.clone());
    }
}

#[test]
fn test_e_ln_x() {
    let input = exp(ln(var('x')));
    let output = simplify(input);
    let expected = var('x');

    assert_eq!(output, expected);
}

#[test]
fn constant_folding_of_a_sum() {
    assert_eq!(simplify(con(1) + con(1)), con(2));
    assert_eq!(simplify(con(40) + con(2)), con(42));
}

#[test]
fn zero_identity_on_both_sides_and_in_difference() {
    let b = mul(con(3), var('y'));
    let sb = simplify(b.clone());
    assert_eq!(sb, mul(con(3), var('y')));
    assert_eq!(simplify(zero() + b.clone()), sb);
    assert_eq!(simplify(b.clone() + zero()), sb);
    assert_eq!(simplify(expr::sub(b.clone(), zero())), sb);
}

#[test]
fn zero_identity_simplifies_the_operand_again() {
    // x * x^2 first becomes x^(2 + 1); adding 0 simplifies that once more.
    let b = mul(var('x'), powf(var('x'), 2));
    assert_eq!(simplify(b.clone()), pow(var('x'), con(2) + con(1)));
    assert_eq!(simplify(zero() + b), pow(var('x'), con(3)));
}

#[test]
fn multiplicative_identity_and_annihilation() {
    let b = expr::sub(var('x'), zero());
    assert_eq!(simplify(mul(con(1), b.clone())), simplify(b.clone()));
    assert_eq!(simplify(mul(con(0), b)), zero());
    assert_eq!(simplify(mul(con(0), con(7))), zero());
    assert_eq!(simplify(mul(con(0), Expr::Const(Number::NaN))), Expr::Const(Number::NaN));
}

#[test]
fn product_with_minus_one_is_a_negation() {
    assert_eq!(simplify(mul(con(-1), var('x'))), neg(var('x')));
    assert_eq!(simplify(mul(var('x'), con(-1))), neg(var('x')));
    assert_eq!(simplify(mul(var('x'), con(5))), mul(con(5), var('x')));
}

#[test]
fn division_by_zero_is_nan() {
    assert_eq!(simplify(div(var('x'), zero())), Expr::Const(Number::NaN));
    assert_eq!(simplify(div(con(4), zero())), Expr::Const(Number::NaN));
}

#[test]
fn division_by_one_and_by_other_constants() {
    assert_eq!(simplify(div(zero() + var('x'), con(1))), var('x'));
    assert_eq!(simplify(div(zero() + var('x'), con(2))), div(var('x'), con(2)));
    assert_eq!(simplify(div(var('x'), var('y'))), div(var('x'), var('y')));
}

#[test]
fn euler_identity() {
    let e = powf(cos(var('x')), 2) + powf(sin(var('x')), 2);
    assert_eq!(simplify(e), con(1));
    let e = powf(sin(var('x')), 2) + powf(cos(var('x')), 2);
    assert_eq!(simplify(e), con(1));
}

#[test]
fn euler_identity_needs_equal_arguments_and_squares() {
    let e = powf(cos(var('x')), 2) + powf(sin(var('y')), 2);
    assert_eq!(simplify(e.clone()), e);
    let e = powf(cos(var('x')), 3) + powf(sin(var('x')), 2);
    assert_eq!(simplify(e.clone()), e);
    let e = powf(cos(var('x')), 2) + powf(cos(var('x')), 2);
    assert_eq!(simplify(e.clone()), e);
}

#[test]
fn self_squaring() {
    assert_eq!(simplify(mul(var('x'), var('x'))), pow(var('x'), Expr::Const(Number::Real(2))));
    assert_eq!(simplify(mul(var('x'), var('y'))), mul(var('x'), var('y')));
    let s = sin(var('x'));
    assert_eq!(simplify(mul(s.clone(), s.clone())), powf(s, 2));
}

#[test]
fn negation_of_self_in_product() {
    assert_eq!(simplify(mul(var('x'), neg(var('x')))), neg(powf(var('x'), 2)));
    assert_eq!(simplify(mul(neg(var('x')), var('x'))), neg(powf(var('x'), 2)));
    let e = mul(var('x'), neg(var('y')));
    assert_eq!(simplify(e.clone()), e);
}

#[test]
fn product_with_a_power_of_the_same_base() {
    let e = mul(var('x'), powf(var('x'), 3));
    assert_eq!(simplify(e), pow(var('x'), con(3) + con(1)));
    let e = mul(powf(var('x'), 3), var('x'));
    assert_eq!(simplify(e), pow(var('x'), con(3) + con(1)));
}

#[test]
fn product_with_a_power_of_another_base_drops_the_power() {
    assert_eq!(simplify(mul(var('y'), powf(var('x'), 3))), mul(var('y'), var('x')));
    assert_eq!(simplify(mul(powf(var('x'), 3), var('y'))), mul(var('y'), var('x')));
}

#[test]
fn difference_rules() {
    assert_eq!(simplify(expr::sub(con(5), con(7))), con(-2));
    assert_eq!(simplify(expr::sub(zero(), var('x'))), neg(var('x')));
    assert_eq!(simplify(expr::sub(con(2), var('x'))), expr::sub(con(2), var('x')));
    assert_eq!(simplify(expr::sub(var('x'), con(2))), expr::sub(var('x'), con(2)));
    assert_eq!(simplify(expr::sub(var('x'), neg(con(3)))), con(3) + var('x'));
    assert_eq!(simplify(expr::sub(var('x'), var('y'))), expr::sub(var('x'), var('y')));
}

#[test]
fn sum_with_a_nonzero_constant_puts_the_constant_first() {
    assert_eq!(simplify(var('x') + con(2)), con(2) + var('x'));
    assert_eq!(simplify(con(2) + var('x')), con(2) + var('x'));
}

#[test]
fn power_rules() {
    assert_eq!(simplify(powf(con(2), 10)), con(1024));
    assert_eq!(simplify(powf(var('x'), 1)), var('x'));
    assert_eq!(simplify(pow(var('x'), var('n'))), pow(var('x'), var('n')));
    assert_eq!(simplify(powf(zero() + var('x'), 4)), powf(var('x'), 4));
}

#[test]
fn negation_and_other_functions() {
    assert_eq!(simplify(neg(con(1) + con(1))), neg(con(2)));
    assert_eq!(simplify(sin(zero() + var('x'))), sin(zero() + var('x')));
    assert_eq!(simplify(exp(zero() + var('x'))), exp(zero() + var('x')));
    assert_eq!(simplify(exp(ln(zero() + var('x')))), zero() + var('x'));
}

#[test]
fn overflowing_constants_become_nan() {
    assert_eq!(simplify(con(i64::MAX) + con(1)), Expr::Const(Number::NaN));
    assert_eq!(simplify(mul(con(i64::MAX), con(2))), Expr::Const(Number::NaN));
    assert_eq!(simplify(powf(con(2), 64)), Expr::Const(Number::NaN));
}

#[test]
fn canonical_results_are_fixed_points() {
    let cases = vec![
        zero() + con(1),
        con(1) + con(1),
        exp(ln(var('x'))),
        mul(var('x'), var('x')),
        mul(var('x'), neg(var('x'))),
        powf(cos(var('x')), 2) + powf(sin(var('x')), 2),
    ];
    for c in cases {
        let once = simplify(c);
        assert_eq!(simplify(once.clone()), once);
    }
}
