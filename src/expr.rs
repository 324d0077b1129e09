//! Expression trees and the constructors that build them.
//!
//! Each composite node owns its operands; equality is syntactic, over the
//! variant and the operands.

use vstd::prelude::*;
use crate::number::Number;

verus! {

/// An arithmetic expression.
#[derive(Debug)]
pub enum Expr {
    Const(Number),
    Var(char),
    Neg(Box<Expr>),
    Add(Box<Expr>, Box<Expr>),
    Sub(Box<Expr>, Box<Expr>),
    Mul(Box<Expr>, Box<Expr>),
    Div(Box<Expr>, Box<Expr>),
    Pow(Box<Expr>, Box<Expr>),
    Exp(Box<Expr>),
    Ln(Box<Expr>),
    Sin(Box<Expr>),
    Cos(Box<Expr>),
}

impl Expr {
    /// Number of nodes in the tree.
    pub open spec fn size(self) -> nat
        decreases self,
    {
        match self {
            Expr::Const(_) => 1,
            Expr::Var(_) => 1,
            Expr::Neg(x) => 1 + x.size(),
            Expr::Exp(x) => 1 + x.size(),
            Expr::Ln(x) => 1 + x.size(),
            Expr::Sin(x) => 1 + x.size(),
            Expr::Cos(x) => 1 + x.size(),
            Expr::Add(l, r) => 1 + l.size() + r.size(),
            Expr::Sub(l, r) => 1 + l.size() + r.size(),
            Expr::Mul(l, r) => 1 + l.size() + r.size(),
            Expr::Div(l, r) => 1 + l.size() + r.size(),
            Expr::Pow(l, r) => 1 + l.size() + r.size(),
        }
    }
}

/// Syntactic equality of two trees.
fn same(a: &Expr, b: &Expr) -> (r: bool)
    ensures
        r == (*a == *b),
    decreases a.size(),
{
    match (a, b) {
        (Expr::Const(x), Expr::Const(y)) => *x == *y,
        (Expr::Var(x), Expr::Var(y)) => *x == *y,
        (Expr::Neg(x), Expr::Neg(y)) => same(x, y),
        (Expr::Exp(x), Expr::Exp(y)) => same(x, y),
        (Expr::Ln(x), Expr::Ln(y)) => same(x, y),
        (Expr::Sin(x), Expr::Sin(y)) => same(x, y),
        (Expr::Cos(x), Expr::Cos(y)) => same(x, y),
        (Expr::Add(l1, r1), Expr::Add(l2, r2)) => same(l1, l2) && same(r1, r2),
        (Expr::Sub(l1, r1), Expr::Sub(l2, r2)) => same(l1, l2) && same(r1, r2),
        (Expr::Mul(l1, r1), Expr::Mul(l2, r2)) => same(l1, l2) && same(r1, r2),
        (Expr::Div(l1, r1), Expr::Div(l2, r2)) => same(l1, l2) && same(r1, r2),
        (Expr::Pow(l1, r1), Expr::Pow(l2, r2)) => same(l1, l2) && same(r1, r2),
        _ => false,
    }
}

/// A copy of the tree, node for node.
fn copy_of(e: &Expr) -> (r: Expr)
    ensures
        r == *e,
    decreases e.size(),
{
    match e {
        Expr::Const(x) => Expr::Const(*x),
        Expr::Var(c) => Expr::Var(*c),
        Expr::Neg(x) => Expr::Neg(Box::new(copy_of(x))),
        Expr::Exp(x) => Expr::Exp(Box::new(copy_of(x))),
        Expr::Ln(x) => Expr::Ln(Box::new(copy_of(x))),
        Expr::Sin(x) => Expr::Sin(Box::new(copy_of(x))),
        Expr::Cos(x) => Expr::Cos(Box::new(copy_of(x))),
        Expr::Add(l, r) => Expr::Add(Box::new(copy_of(l)), Box::new(copy_of(r))),
        Expr::Sub(l, r) => Expr::Sub(Box::new(copy_of(l)), Box::new(copy_of(r))),
        Expr::Mul(l, r) => Expr::Mul(Box::new(copy_of(l)), Box::new(copy_of(r))),
        Expr::Div(l, r) => Expr::Div(Box::new(copy_of(l)), Box::new(copy_of(r))),
        Expr::Pow(l, r) => Expr::Pow(Box::new(copy_of(l)), Box::new(copy_of(r))),
    }
}

impl Clone for Expr {
    fn clone(&self) -> (r: Expr)
        ensures
            r == *self,
    {
        copy_of(self)
    }
}

impl PartialEq for Expr {
    fn eq(&self, o: &Expr) -> (r: bool) {
        same(self, o)
    }
}

impl vstd::std_specs::cmp::PartialEqSpecImpl for Expr {
    open spec fn obeys_eq_spec() -> bool {
        true
    }

    open spec fn eq_spec(&self, o: &Expr) -> bool {
        *self == *o
    }
}

impl Eq for Expr {
}

/// `l + r`, built without simplification.
impl core::ops::Add for Expr {
    type Output = Expr;

    fn add(self, o: Expr) -> (r: Expr) {
        Expr::Add(Box::new(self), Box::new(o))
    }
}

impl vstd::std_specs::ops::AddSpecImpl for Expr {
    open spec fn obeys_add_spec() -> bool {
        true
    }

    open spec fn add_req(self, o: Expr) -> bool {
        true
    }

    open spec fn add_spec(self, o: Expr) -> Expr {
        Expr::Add(Box::new(self), Box::new(o))
    }
}

/// The constant `v`.
pub fn con(v: i64) -> (e: Expr)
    ensures
        e == Expr::Const(Number::Real(v)),
{
    Expr::Const(Number::Real(v))
}

/// The constant `0`.
pub fn zero() -> (e: Expr)
    ensures
        e == Expr::Const(Number::Real(0)),
{
    Expr::Const(Number::Real(0))
}

/// The variable named `c`.
pub fn var(c: char) -> (e: Expr)
    ensures
        e == Expr::Var(c),
{
    Expr::Var(c)
}

/// `-x`.
pub fn neg(x: Expr) -> (e: Expr)
    ensures
        e == Expr::Neg(Box::new(x)),
{
    Expr::Neg(Box::new(x))
}

/// `l + r`.
pub fn add(l: Expr, r: Expr) -> (e: Expr)
    ensures
        e == Expr::Add(Box::new(l), Box::new(r)),
{
    Expr::Add(Box::new(l), Box::new(r))
}

/// `l - r`.
pub fn sub(l: Expr, r: Expr) -> (e: Expr)
    ensures
        e == Expr::Sub(Box::new(l), Box::new(r)),
{
    Expr::Sub(Box::new(l), Box::new(r))
}

/// `l * r`.
pub fn mul(l: Expr, r: Expr) -> (e: Expr)
    ensures
        e == Expr::Mul(Box::new(l), Box::new(r)),
{
    Expr::Mul(Box::new(l), Box::new(r))
}

/// `l / r`.
pub fn div(l: Expr, r: Expr) -> (e: Expr)
    ensures
        e == Expr::Div(Box::new(l), Box::new(r)),
{
    Expr::Div(Box::new(l), Box::new(r))
}

/// `b ^ p`.
pub fn pow(b: Expr, p: Expr) -> (e: Expr)
    ensures
        e == Expr::Pow(Box::new(b), Box::new(p)),
{
    Expr::Pow(Box::new(b), Box::new(p))
}

/// `b ^ k` for the constant power `k`.
pub fn powf(b: Expr, k: i64) -> (e: Expr)
    ensures
        e == Expr::Pow(Box::new(b), Box::new(Expr::Const(Number::Real(k)))),
{
    Expr::Pow(Box::new(b), Box::new(Expr::Const(Number::Real(k))))
}

/// `e ^ x`.
pub fn exp(x: Expr) -> (e: Expr)
    ensures
        e == Expr::Exp(Box::new(x)),
{
    Expr::Exp(Box::new(x))
}

/// The natural logarithm of `x`.
pub fn ln(x: Expr) -> (e: Expr)
    ensures
        e == Expr::Ln(Box::new(x)),
{
    Expr::Ln(Box::new(x))
}

/// The sine of `x`.
pub fn sin(x: Expr) -> (e: Expr)
    ensures
        e == Expr::Sin(Box::new(x)),
{
    Expr::Sin(Box::new(x))
}

/// The cosine of `x`.
pub fn cos(x: Expr) -> (e: Expr)
    ensures
        e == Expr::Cos(Box::new(x)),
{
    Expr::Cos(Box::new(x))
}

} // verus!
