//! SQL built-in functions.
use vstd::prelude::*;
use crate::expr::{Expr, IntoExpr};
use crate::types::{IntoColumnRef, column_ref_parts};

verus! {

/// SQL built-in functions.
#[derive(Debug, Clone, Copy, PartialEq, Eq, Structural)]
pub enum Func {
    Max,
    Min,
    Sum,
    Avg,
    Count,
    Coalesce,
}

/// A function call: the function and its arguments.
#[derive(Debug, PartialEq)]
pub struct FunctionCall {
    pub func: Func,
    pub args: Vec<Expr>,
}

impl FunctionCall {
    /// `MAX(expr)`.
    pub fn max<T: IntoExpr>(expr: T) -> (r: FunctionCall)
        ensures
            r.func == Func::Max,
            r.args@.len() == 1,
            expr.converts_to_expr(r.args@[0]),
    {
        FunctionCall { func: Func::Max, args: vec![expr.into_expr()] }
    }

    /// `MIN(expr)`.
    pub fn min<T: IntoExpr>(expr: T) -> (r: FunctionCall)
        ensures
            r.func == Func::Min,
            r.args@.len() == 1,
            expr.converts_to_expr(r.args@[0]),
    {
        FunctionCall { func: Func::Min, args: vec![expr.into_expr()] }
    }

    /// `SUM(expr)`.
    pub fn sum<T: IntoExpr>(expr: T) -> (r: FunctionCall)
        ensures
            r.func == Func::Sum,
            r.args@.len() == 1,
            expr.converts_to_expr(r.args@[0]),
    {
        FunctionCall { func: Func::Sum, args: vec![expr.into_expr()] }
    }

    /// `AVG(expr)`.
    pub fn avg<T: IntoExpr>(expr: T) -> (r: FunctionCall)
        ensures
            r.func == Func::Avg,
            r.args@.len() == 1,
            expr.converts_to_expr(r.args@[0]),
    {
        FunctionCall { func: Func::Avg, args: vec![expr.into_expr()] }
    }

    /// `COUNT(expr)`.
    pub fn count<T: IntoExpr>(expr: T) -> (r: FunctionCall)
        ensures
            r.func == Func::Count,
            r.args@.len() == 1,
            expr.converts_to_expr(r.args@[0]),
    {
        FunctionCall { func: Func::Count, args: vec![expr.into_expr()] }
    }

    /// `COUNT(*)`.
    pub fn count_all() -> (r: FunctionCall)
        ensures
            r.func == Func::Count,
            r.args@ == seq![Expr::Asterisk],
    {
        FunctionCall { func: Func::Count, args: vec![Expr::Asterisk] }
    }

    /// `COALESCE(a, b)`.
    pub fn coalesce<A: IntoExpr, B: IntoExpr>(a: A, b: B) -> (r: FunctionCall)
        ensures
            r.func == Func::Coalesce,
            r.args@.len() == 2,
            a.converts_to_expr(r.args@[0]),
            b.converts_to_expr(r.args@[1]),
    {
        FunctionCall { func: Func::Coalesce, args: vec![a.into_expr(), b.into_expr()] }
    }
}

/// A column reference, for use in aggregate functions.
pub fn col<T: IntoColumnRef>(name: T) -> (r: Expr)
    ensures
        r is Column,
        column_ref_parts(r->Column_0) == name.column_parts(),
{
    Expr::column(name)
}

} // verus!
