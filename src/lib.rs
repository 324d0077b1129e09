//! Simplification of symbolic arithmetic expressions.
//!
//! `number` holds the numeric values stored in constants, `expr` the
//! expression tree and its constructors, and `simplify` the rewrite pass.

pub mod number;
pub mod expr;
pub mod simplify;
