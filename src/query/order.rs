//! Ordering of result rows.
use vstd::prelude::*;
use crate::expr::{Expr, IntoExpr};
use crate::types::{IntoColumnRef, column_ref_parts};

verus! {

/// Sort direction.
#[derive(Debug, Clone, Copy, PartialEq, Eq)]
pub enum SortDirection {
    Asc,
    Desc,
}

/// Where NULLs sort.
#[derive(Debug, Clone, Copy, PartialEq, Eq)]
pub enum NullOrdering {
    First,
    Last,
}

/// One item of `ORDER BY`.
#[derive(Debug, PartialEq)]
pub struct Order {
    pub expr: Expr,
    pub direction: SortDirection,
    pub nulls: Option<NullOrdering>,
}

impl Order {
    /// Order by a column, ascending.
    pub fn column<T: IntoColumnRef>(col: T) -> (r: Order)
        ensures
            r.expr is Column,
            column_ref_parts(r.expr->Column_0) == col.column_parts(),
            r.direction == SortDirection::Asc,
            r.nulls is None,
    {
        Order { expr: Expr::column(col), direction: SortDirection::Asc, nulls: None }
    }

    /// Order by an expression, ascending.
    pub fn expr<E: IntoExpr>(expr: E) -> (r: Order)
        ensures
            expr.converts_to_expr(r.expr),
            r.direction == SortDirection::Asc,
            r.nulls is None,
    {
        Order { expr: expr.into_expr(), direction: SortDirection::Asc, nulls: None }
    }

    /// Ascending.
    pub fn asc(self) -> (r: Order)
        ensures
            r == (Order { direction: SortDirection::Asc, ..self }),
    {
        Order { direction: SortDirection::Asc, ..self }
    }

    /// Descending.
    pub fn desc(self) -> (r: Order)
        ensures
            r == (Order { direction: SortDirection::Desc, ..self }),
    {
        Order { direction: SortDirection::Desc, ..self }
    }

    /// NULLs first.
    pub fn nulls_first(self) -> (r: Order)
        ensures
            r == (Order { nulls: Some(NullOrdering::First), ..self }),
    {
        Order { nulls: Some(NullOrdering::First), ..self }
    }

    /// NULLs last.
    pub fn nulls_last(self) -> (r: Order)
        ensures
            r == (Order { nulls: Some(NullOrdering::Last), ..self }),
    {
        Order { nulls: Some(NullOrdering::Last), ..self }
    }
}

} // verus!
