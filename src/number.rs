//! Numbers held by constant nodes.
//!
//! A `Number` is either an exact integer or the undefined value `NaN`.
//! Every operation is total: a result that is not an integer in the range of
//! `i64` (an overflow, a power with a fractional value) is `NaN`, and `NaN`
//! absorbs every operation it takes part in.

use vstd::prelude::*;
use vstd::arithmetic::power::pow;

verus! {

/// An exact integer value, or the undefined value.
///
/// Equality is structural: `NaN == NaN` holds, so that expression trees that
/// carry `NaN` compare equal to themselves.
#[derive(Clone, Copy, Debug, PartialEq, Eq, Structural)]
pub enum Number {
    Real(i64),
    NaN,
}

/// The number that stands for the integer `v`: `v` itself where it fits in
/// an `i64`, else `NaN`.
pub open spec fn from_int(v: int) -> Number {
    if i64::MIN <= v <= i64::MAX {
        Number::Real(v as i64)
    } else {
        Number::NaN
    }
}

/// Sum of two numbers.
pub open spec fn num_add(a: Number, b: Number) -> Number {
    match (a, b) {
        (Number::Real(x), Number::Real(y)) => from_int(x + y),
        _ => Number::NaN,
    }
}

/// Difference of two numbers.
pub open spec fn num_sub(a: Number, b: Number) -> Number {
    match (a, b) {
        (Number::Real(x), Number::Real(y)) => from_int(x - y),
        _ => Number::NaN,
    }
}

/// Product of two numbers.
pub open spec fn num_mul(a: Number, b: Number) -> Number {
    match (a, b) {
        (Number::Real(x), Number::Real(y)) => from_int(x * y),
        _ => Number::NaN,
    }
}

/// `b` raised to the power `p`.
///
/// A negative power is an integer only for the bases `1` and `-1`; for any
/// other base (`0` included) it is `NaN`.
pub open spec fn num_pow(b: Number, p: Number) -> Number {
    match (b, p) {
        (Number::Real(x), Number::Real(n)) => {
            if n >= 0 {
                from_int(pow(x as int, n as nat))
            } else if x == 1 {
                Number::Real(1)
            } else if x == -1 {
                if n % 2 == 0 {
                    Number::Real(1)
                } else {
                    Number::Real(-1i64)
                }
            } else {
                Number::NaN
            }
        },
        _ => Number::NaN,
    }
}

pub open spec fn abs(v: int) -> int {
    if v < 0 {
        -v
    } else {
        v
    }
}

proof fn lemma_abs_mul(a: int, b: int)
    ensures
        abs(a * b) == abs(a) * abs(b),
{
    if a < 0 && b < 0 {
        assert(a * b == (-a) * (-b)) by (nonlinear_arith);
    } else if a < 0 {
        assert(-(a * b) == (-a) * b) by (nonlinear_arith);
        assert((-a) * b >= 0) by (nonlinear_arith)
            requires
                a < 0,
                b >= 0,
        ;
    } else if b < 0 {
        assert(-(a * b) == a * (-b)) by (nonlinear_arith);
        assert(a * (-b) >= 0) by (nonlinear_arith)
            requires
                a >= 0,
                b < 0,
        ;
    } else {
        assert(a * b >= 0) by (nonlinear_arith)
            requires
                a >= 0,
                b >= 0,
        ;
    }
}

/// For a base of magnitude at least 2, each further factor at least doubles
/// the magnitude of the power.
proof fn lemma_pow_grows(x: int, n: nat, m: nat)
    requires
        abs(x) >= 2,
        n < m,
    ensures
        abs(pow(x, m)) >= 2 * abs(pow(x, n)),
    decreases m,
{
    reveal(pow);
    lemma_abs_mul(x, pow(x, (m - 1) as nat));
    let q = abs(pow(x, (m - 1) as nat));
    assert(abs(x) * q >= 2 * q) by (nonlinear_arith)
        requires
            abs(x) >= 2,
            q >= 0,
    ;
    if n + 1 < m {
        lemma_pow_grows(x, n, (m - 1) as nat);
    }
}

impl Number {
    /// The undefined value.
    pub fn nan() -> (r: Number)
        ensures
            r == Number::NaN,
    {
        Number::NaN
    }

    /// Whether this is the integer zero.
    pub fn is_zero(&self) -> (r: bool)
        ensures
            r == (*self == Number::Real(0)),
    {
        match self {
            Number::Real(x) => *x == 0,
            Number::NaN => false,
        }
    }

    /// Whether this is the integer `v`.
    pub fn real_eq(&self, v: i64) -> (r: bool)
        ensures
            r == (*self == Number::Real(v)),
    {
        match self {
            Number::Real(x) => *x == v,
            Number::NaN => false,
        }
    }

    /// This number raised to the power `p`.
    pub fn pow(self, p: Number) -> (r: Number)
        ensures
            r == num_pow(self, p),
    {
        match (self, p) {
            (Number::Real(x), Number::Real(n)) => {
                if n < 0 {
                    if x == 1 {
                        Number::Real(1)
                    } else if x == -1 {
                        if n % 2 == 0 {
                            Number::Real(1)
                        } else {
                            Number::Real(-1)
                        }
                    } else {
                        Number::NaN
                    }
                } else if x == 0 || x == 1 {
                    proof {
                        lemma_pow_small(x as int, n as nat);
                    }
                    if n == 0 {
                        Number::Real(1)
                    } else {
                        Number::Real(x)
                    }
                } else if x == -1 {
                    proof {
                        lemma_pow_small(x as int, n as nat);
                    }
                    if n % 2 == 0 {
                        Number::Real(1)
                    } else {
                        Number::Real(-1)
                    }
                } else {
                    let mut acc: i64 = 1;
                    let mut i: i64 = 0;
                    proof {
                        reveal(pow);
                    }
                    while i < n
                        invariant
                            0 <= i <= n,
                            self == Number::Real(x),
                            p == Number::Real(n),
                            abs(x as int) >= 2,
                            acc as int == pow(x as int, i as nat),
                        decreases n - i,
                    {
                        match acc.checked_mul(x) {
                            Some(v) => {
                                proof {
                                    reveal(pow);
                                }
                                acc = v;
                                i = i + 1;
                            },
                            None => {
                                proof {
                                    reveal(pow);
                                    let k = (i + 1) as nat;
                                    assert(pow(x as int, k) == x * pow(x as int, i as nat));
                                    assert(abs(pow(x as int, k)) > i64::MAX);
                                    if k < n {
                                        lemma_pow_grows(x as int, k, n as nat);
                                    }
                                    assert(!(i64::MIN <= pow(x as int, n as nat) <= i64::MAX));
                                }
                                return Number::NaN;
                            },
                        }
                    }
                    Number::Real(acc)
                }
            },
            _ => Number::NaN,
        }
    }
}

/// Powers of `0`, `1` and `-1`.
proof fn lemma_pow_small(x: int, n: nat)
    requires
        -1 <= x <= 1,
    ensures
        x == 0 ==> pow(x, n) == if n == 0 { 1int } else { 0int },
        x == 1 ==> pow(x, n) == 1,
        x == -1 ==> pow(x, n) == if n % 2 == 0 { 1int } else { -1int },
    decreases n,
{
    reveal(pow);
    if n > 0 {
        lemma_pow_small(x, (n - 1) as nat);
    }
}

impl core::ops::Add for Number {
    type Output = Number;

    fn add(self, o: Number) -> (r: Number) {
        match (self, o) {
            (Number::Real(x), Number::Real(y)) => match x.checked_add(y) {
                Some(v) => Number::Real(v),
                None => Number::NaN,
            },
            _ => Number::NaN,
        }
    }
}

impl vstd::std_specs::ops::AddSpecImpl for Number {
    open spec fn obeys_add_spec() -> bool {
        true
    }

    open spec fn add_req(self, o: Number) -> bool {
        true
    }

    open spec fn add_spec(self, o: Number) -> Number {
        num_add(self, o)
    }
}

impl core::ops::Sub for Number {
    type Output = Number;

    fn sub(self, o: Number) -> (r: Number) {
        match (self, o) {
            (Number::Real(x), Number::Real(y)) => match x.checked_sub(y) {
                Some(v) => Number::Real(v),
                None => Number::NaN,
            },
            _ => Number::NaN,
        }
    }
}

impl vstd::std_specs::ops::SubSpecImpl for Number {
    open spec fn obeys_sub_spec() -> bool {
        true
    }

    open spec fn sub_req(self, o: Number) -> bool {
        true
    }

    open spec fn sub_spec(self, o: Number) -> Number {
        num_sub(self, o)
    }
}

impl core::ops::Mul for Number {
    type Output = Number;

    fn mul(self, o: Number) -> (r: Number) {
        match (self, o) {
            (Number::Real(x), Number::Real(y)) => match x.checked_mul(y) {
                Some(v) => Number::Real(v),
                None => Number::NaN,
            },
            _ => Number::NaN,
        }
    }
}

impl vstd::std_specs::ops::MulSpecImpl for Number {
    open spec fn obeys_mul_spec() -> bool {
        true
    }

    open spec fn mul_req(self, o: Number) -> bool {
        true
    }

    open spec fn mul_spec(self, o: Number) -> Number {
        num_mul(self, o)
    }
}

} // verus!
