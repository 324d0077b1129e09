//! The simplification pass.
//!
//! `simplified` states the rewrite rules; `simplify` computes them. Some rules
//! simplify a result again (a sum with `0`, a difference of a negation), so
//! termination rests on the fact that no rule makes the tree larger
//! (`lemma_simplified_size`).

use vstd::prelude::*;
use crate::number::{Number, num_add, num_sub, num_mul, num_pow};
use crate::expr;
use crate::expr::Expr;

verus! {

/// The constant `2`.
pub open spec fn two() -> Expr {
    Expr::Const(Number::Real(2))
}

/// `b ^ 2`.
pub open spec fn square(b: Expr) -> Expr {
    Expr::Pow(Box::new(b), Box::new(two()))
}

/// `b ^ (p + 1)`, with the sum left unevaluated.
pub open spec fn next_power(b: Expr, p: Expr) -> Expr {
    Expr::Pow(Box::new(b), Box::new(Expr::Add(Box::new(p), Box::new(Expr::Const(Number::Real(1))))))
}

/// `a` and `b` are `cos u` and `sin u`, in either order, of the same `u`.
pub open spec fn trig_pair(a: Expr, b: Expr) -> bool {
    match (a, b) {
        (Expr::Cos(u), Expr::Sin(v)) => u == v,
        (Expr::Sin(u), Expr::Cos(v)) => u == v,
        _ => false,
    }
}

/// `a + b` is `cos(u)^2 + sin(u)^2` (in either order), which is `1`.
pub open spec fn euler_sum(a: Expr, b: Expr) -> bool {
    match (a, b) {
        (Expr::Pow(x, p), Expr::Pow(y, q)) => *p == two() && *q == two() && trig_pair(*x, *y),
        _ => false,
    }
}

/// The result of simplifying `e`.
///
/// Sums and differences first simplify both operands; products, quotients
/// and powers look at their operands as given and simplify only what each
/// rule names; `exp` cancels a directly nested `ln` and is otherwise kept
/// as it is. A product of `a` with `b ^ p` whose base `b` differs from `a`
/// becomes `a * b`: the power is not kept. The two tests on sizes never
/// fail (`lemma_simplified_size`); they bound the rules that simplify a
/// result again.
pub open spec fn simplified(e: Expr) -> Expr
    decreases e.size(),
{
    match e {
        Expr::Neg(x) => Expr::Neg(Box::new(simplified(*x))),
        Expr::Add(l, r) => {
            let sl = simplified(*l);
            let sr = simplified(*r);
            if sl.size() > l.size() || sr.size() > r.size() {
                e
            } else {
                match (sl, sr) {
                    (Expr::Const(x), Expr::Const(y)) => Expr::Const(num_add(x, y)),
                    (Expr::Const(x), b) => if x == Number::Real(0) {
                        simplified(b)
                    } else {
                        Expr::Add(Box::new(Expr::Const(x)), Box::new(simplified(b)))
                    },
                    (a, Expr::Const(x)) => if x == Number::Real(0) {
                        simplified(a)
                    } else {
                        Expr::Add(Box::new(Expr::Const(x)), Box::new(simplified(a)))
                    },
                    (a, b) => if euler_sum(a, b) {
                        Expr::Const(Number::Real(1))
                    } else {
                        Expr::Add(Box::new(a), Box::new(b))
                    },
                }
            }
        },
        Expr::Sub(l, r) => {
            let sl = simplified(*l);
            let sr = simplified(*r);
            if sl.size() > l.size() || sr.size() > r.size() {
                e
            } else {
                match (sl, sr) {
                    (Expr::Const(x), Expr::Const(y)) => Expr::Const(num_sub(x, y)),
                    (Expr::Const(x), b) => if x == Number::Real(0) {
                        Expr::Neg(Box::new(simplified(b)))
                    } else {
                        Expr::Sub(Box::new(Expr::Const(x)), Box::new(simplified(b)))
                    },
                    (a, Expr::Const(x)) => if x == Number::Real(0) {
                        simplified(a)
                    } else {
                        Expr::Sub(Box::new(simplified(a)), Box::new(Expr::Const(x)))
                    },
                    (a, Expr::Neg(i)) => {
                        let a2 = simplified(a);
                        let i2 = simplified(*i);
                        if a2.size() > a.size() || i2.size() > i.size() {
                            e
                        } else {
                            simplified(Expr::Add(Box::new(a2), Box::new(i2)))
                        }
                    },
                    (a, b) => Expr::Sub(Box::new(simplified(a)), Box::new(simplified(b))),
                }
            }
        },
        Expr::Mul(l, r) => match (*l, *r) {
            (Expr::Const(x), Expr::Const(y)) => Expr::Const(num_mul(x, y)),
            (Expr::Const(x), b) => if x == Number::Real(0) {
                Expr::Const(Number::Real(0))
            } else if x == Number::Real(1) {
                simplified(b)
            } else if x == Number::Real(-1i64) {
                Expr::Neg(Box::new(simplified(b)))
            } else {
                Expr::Mul(Box::new(Expr::Const(x)), Box::new(simplified(b)))
            },
            (a, Expr::Const(y)) => if y == Number::Real(0) {
                Expr::Const(Number::Real(0))
            } else if y == Number::Real(1) {
                simplified(a)
            } else if y == Number::Real(-1i64) {
                Expr::Neg(Box::new(simplified(a)))
            } else {
                Expr::Mul(Box::new(Expr::Const(y)), Box::new(simplified(a)))
            },
            (a, Expr::Neg(i)) => if a == *i {
                Expr::Neg(Box::new(square(a)))
            } else {
                e
            },
            (Expr::Neg(i), b) => if *i == b {
                Expr::Neg(Box::new(square(b)))
            } else {
                e
            },
            (Expr::Var(x), Expr::Var(y)) => if x == y {
                square(Expr::Var(x))
            } else {
                e
            },
            (a, Expr::Pow(b, p)) => if a == *b {
                next_power(a, *p)
            } else {
                Expr::Mul(Box::new(a), b)
            },
            (Expr::Pow(a, p), b) => if *a == b {
                next_power(b, *p)
            } else {
                Expr::Mul(Box::new(b), a)
            },
            (a, b) => if a == b {
                square(a)
            } else {
                Expr::Mul(Box::new(simplified(a)), Box::new(simplified(b)))
            },
        },
        Expr::Div(l, r) => match (*l, *r) {
            (n, Expr::Const(x)) => if x == Number::Real(1) {
                simplified(n)
            } else if x == Number::Real(0) {
                Expr::Const(Number::NaN)
            } else {
                Expr::Div(Box::new(simplified(n)), Box::new(Expr::Const(x)))
            },
            (a, b) => Expr::Div(Box::new(simplified(a)), Box::new(simplified(b))),
        },
        Expr::Pow(l, r) => match (*l, *r) {
            (Expr::Const(b), Expr::Const(p)) => Expr::Const(num_pow(b, p)),
            (a, Expr::Const(p)) => if p == Number::Real(1) {
                simplified(a)
            } else {
                Expr::Pow(Box::new(simplified(a)), Box::new(Expr::Const(p)))
            },
            (a, b) => Expr::Pow(Box::new(simplified(a)), Box::new(simplified(b))),
        },
        Expr::Exp(x) => match *x {
            Expr::Ln(a) => *a,
            _ => e,
        },
        _ => e,
    }
}


/// Every tree has at least one node.
pub proof fn lemma_size_positive(e: Expr)
    ensures
        e.size() >= 1,
{
}

/// Simplification never makes a tree larger.
pub proof fn lemma_simplified_size(e: Expr)
    ensures
        simplified(e).size() <= e.size(),
    decreases e.size(),
{
    match e {
        Expr::Neg(x) => {
            lemma_simplified_size(*x);
        },
        Expr::Add(l, r) => {
            lemma_simplified_size(*l);
            lemma_simplified_size(*r);
            lemma_simplified_size(simplified(*l));
            lemma_simplified_size(simplified(*r));
            lemma_size_positive(simplified(*l));
            lemma_size_positive(simplified(*r));
        },
        Expr::Sub(l, r) => {
            let sl = simplified(*l);
            let sr = simplified(*r);
            lemma_simplified_size(*l);
            lemma_simplified_size(*r);
            lemma_simplified_size(sl);
            lemma_simplified_size(sr);
            lemma_size_positive(sl);
            lemma_size_positive(sr);
            if let Expr::Neg(i) = sr {
                if !(sl is Const) {
                    lemma_simplified_size(*i);
                    let sum = Expr::Add(Box::new(simplified(sl)), Box::new(simplified(*i)));
                    lemma_simplified_size(sum);
                }
            }
        },
        Expr::Mul(l, r) => {
            reveal_with_fuel(Expr::size, 3);
            lemma_simplified_size(*l);
            lemma_simplified_size(*r);
            lemma_size_positive(*l);
            lemma_size_positive(*r);
            if let Expr::Neg(i) = *r {
                lemma_size_positive(*i);
            }
            if let Expr::Neg(i) = *l {
                lemma_size_positive(*i);
                lemma_simplified_size(*i);
            }
            if let Expr::Pow(b, p) = *r {
                lemma_size_positive(*b);
                lemma_size_positive(*p);
            }
            if let Expr::Pow(b, p) = *l {
                lemma_size_positive(*b);
                lemma_size_positive(*p);
            }
        },
        Expr::Div(l, r) => {
            lemma_simplified_size(*l);
            lemma_simplified_size(*r);
        },
        Expr::Pow(l, r) => {
            lemma_simplified_size(*l);
            lemma_simplified_size(*r);
        },
        Expr::Exp(x) => {
            reveal_with_fuel(Expr::size, 2);
        },
        _ => {},
    }
}


/// Whether `a + b` is `cos(u)^2 + sin(u)^2`, in either order.
fn is_euler_sum(a: &Expr, b: &Expr) -> (r: bool)
    ensures
        r == euler_sum(*a, *b),
{
    match (a, b) {
        (Expr::Pow(x, p), Expr::Pow(y, q)) => {
            let two = expr::con(2);
            if **p == two && **q == two {
                match (&**x, &**y) {
                    (Expr::Cos(u), Expr::Sin(v)) => **u == **v,
                    (Expr::Sin(u), Expr::Cos(v)) => **u == **v,
                    _ => false,
                }
            } else {
                false
            }
        },
        _ => false,
    }
}

/// Simplifies `e` by the rules that `simplified` states.
pub fn simplify(e: Expr) -> (r: Expr)
    ensures
        r == simplified(e),
        r.size() <= e.size(),
    decreases e.size(),
{
    proof {
        lemma_simplified_size(e);
    }
    match e {
        Expr::Neg(x) => expr::neg(simplify(*x)),
        Expr::Add(l, r) => {
            let left = simplify(*l);
            let right = simplify(*r);
            match (left, right) {
                (Expr::Const(x), Expr::Const(y)) => Expr::Const(x + y),
                (Expr::Const(x), b) => if x.is_zero() {
                    simplify(b)
                } else {
                    expr::add(Expr::Const(x), simplify(b))
                },
                (a, Expr::Const(x)) => if x.is_zero() {
                    simplify(a)
                } else {
                    expr::add(Expr::Const(x), simplify(a))
                },
                (a, b) => if is_euler_sum(&a, &b) {
                    expr::con(1)
                } else {
                    expr::add(a, b)
                },
            }
        },
        Expr::Sub(l, r) => {
            let left = simplify(*l);
            let right = simplify(*r);
            match (left, right) {
                (Expr::Const(x), Expr::Const(y)) => Expr::Const(x - y),
                (Expr::Const(x), b) => if x.is_zero() {
                    expr::neg(simplify(b))
                } else {
                    expr::sub(Expr::Const(x), simplify(b))
                },
                (a, Expr::Const(x)) => if x.is_zero() {
                    simplify(a)
                } else {
                    expr::sub(simplify(a), Expr::Const(x))
                },
                (a, Expr::Neg(i)) => {
                    let a2 = simplify(a);
                    let i2 = simplify(*i);
                    simplify(expr::add(a2, i2))
                },
                (a, b) => expr::sub(simplify(a), simplify(b)),
            }
        },
        Expr::Mul(l, r) => match (*l, *r) {
            (Expr::Const(x), Expr::Const(y)) => Expr::Const(x * y),
            (Expr::Const(x), b) => if x.is_zero() {
                expr::zero()
            } else if x.real_eq(1) {
                simplify(b)
            } else if x.real_eq(-1) {
                expr::neg(simplify(b))
            } else {
                expr::mul(Expr::Const(x), simplify(b))
            },
            (a, Expr::Const(y)) => if y.is_zero() {
                expr::zero()
            } else if y.real_eq(1) {
                simplify(a)
            } else if y.real_eq(-1) {
                expr::neg(simplify(a))
            } else {
                expr::mul(Expr::Const(y), simplify(a))
            },
            (a, Expr::Neg(i)) => if a == *i {
                expr::neg(expr::powf(a, 2))
            } else {
                expr::mul(a, Expr::Neg(i))
            },
            (Expr::Neg(i), b) => if *i == b {
                expr::neg(expr::powf(b, 2))
            } else {
                expr::mul(Expr::Neg(i), b)
            },
            (Expr::Var(x), Expr::Var(y)) => if x == y {
                expr::powf(expr::var(x), 2)
            } else {
                expr::mul(expr::var(x), expr::var(y))
            },
            (a, Expr::Pow(b, p)) => if a == *b {
                expr::pow(a, *p + expr::con(1))
            } else {
                expr::mul(a, *b)
            },
            (Expr::Pow(a, p), b) => if *a == b {
                expr::pow(b, *p + expr::con(1))
            } else {
                expr::mul(b, *a)
            },
            (a, b) => if a == b {
                expr::powf(a, 2)
            } else {
                expr::mul(simplify(a), simplify(b))
            },
        },
        Expr::Div(l, r) => match (*l, *r) {
            (n, Expr::Const(x)) => if x.real_eq(1) {
                simplify(n)
            } else if x.real_eq(0) {
                Expr::Const(Number::nan())
            } else {
                expr::div(simplify(n), Expr::Const(x))
            },
            (a, b) => expr::div(simplify(a), simplify(b)),
        },
        Expr::Pow(l, r) => match (*l, *r) {
            (Expr::Const(b), Expr::Const(p)) => Expr::Const(b.pow(p)),
            (a, Expr::Const(p)) => if p.real_eq(1) {
                simplify(a)
            } else {
                expr::pow(simplify(a), Expr::Const(p))
            },
            (a, b) => expr::pow(simplify(a), simplify(b)),
        },
        Expr::Exp(x) => match *x {
            Expr::Ln(a) => *a,
            a => expr::exp(a),
        },
        other => other,
    }
}


/// Adding the constant `0` on either side of `b`, or subtracting it from `b`,
/// simplifies to what `b` alone simplifies to, wherever that result is
/// itself left unchanged by simplification (the zero rule simplifies it
/// once more).
pub proof fn lemma_zero_identity(b: Expr)
    requires
        simplified(simplified(b)) == simplified(b),
    ensures
        simplified(Expr::Add(Box::new(Expr::Const(Number::Real(0))), Box::new(b))) == simplified(b),
        simplified(Expr::Add(Box::new(b), Box::new(Expr::Const(Number::Real(0))))) == simplified(b),
        simplified(Expr::Sub(Box::new(b), Box::new(Expr::Const(Number::Real(0))))) == simplified(b),
{
    lemma_simplified_size(b);
    let z = Expr::Const(Number::Real(0));
    assert(simplified(z) == z);
}

/// Multiplying `b` by the constant `1` simplifies to what `b` alone
/// simplifies to.
pub proof fn lemma_mul_one(b: Expr)
    ensures
        simplified(Expr::Mul(Box::new(Expr::Const(Number::Real(1))), Box::new(b))) == simplified(b),
{
}

/// Multiplying `b` by the constant `0` gives the constant `0`, unless `b` is
/// the constant `NaN`, which the product keeps.
pub proof fn lemma_mul_zero(b: Expr)
    requires
        b != Expr::Const(Number::NaN),
    ensures
        simplified(Expr::Mul(Box::new(Expr::Const(Number::Real(0))), Box::new(b))) == Expr::Const(
            Number::Real(0),
        ),
{
}

/// Dividing any `x` by the constant `0` gives the constant `NaN`.
pub proof fn lemma_div_by_zero(x: Expr)
    ensures
        simplified(Expr::Div(Box::new(x), Box::new(Expr::Const(Number::Real(0))))) == Expr::Const(
            Number::NaN,
        ),
{
}

} // verus!
