//! `RETURNING` clauses.
use vstd::prelude::*;
use crate::expr::{Expr, IntoExpr, exprs_of};
use crate::types::{IntoColumnRef, column_ref_parts};

verus! {

/// What a data-modifying statement returns.
#[derive(Debug, PartialEq)]
pub enum Returning {
    /// `RETURNING *`.
    All,
    /// `RETURNING e0, e1, ..`.
    Exprs(Vec<Expr>),
}

impl Returning {
    /// `RETURNING *`.
    pub fn all() -> (r: Returning)
        ensures
            r == Returning::All,
    {
        Returning::All
    }

    /// Returns one column.
    pub fn column<T: IntoColumnRef>(col: T) -> (r: Returning)
        ensures
            r is Exprs,
            r->Exprs_0@.len() == 1,
            r->Exprs_0@[0] is Column,
            column_ref_parts(r->Exprs_0@[0]->Column_0) == col.column_parts(),
    {
        Returning::Exprs(vec![Expr::column(col)])
    }

    /// Returns columns, in order.
    pub fn columns<T: IntoColumnRef>(cols: Vec<T>) -> (r: Returning)
        ensures
            r is Exprs,
            r->Exprs_0@.len() == cols@.len(),
            forall|i: int|
                0 <= i < cols@.len() ==> {
                    let e = #[trigger] r->Exprs_0@[i];
                    e is Column && column_ref_parts(e->Column_0) == cols@[i].column_parts()
                },
    {
        let ghost orig = cols@;
        let mut rest = cols;
        let mut out: Vec<Expr> = Vec::new();
        while rest.len() > 0
            invariant
                out@.len() + rest@.len() == orig.len(),
                rest@ == orig.subrange(out@.len() as int, orig.len() as int),
                forall|i: int|
                    0 <= i < out@.len() ==> {
                        let e = #[trigger] out@[i];
                        e is Column && column_ref_parts(e->Column_0) == orig[i].column_parts()
                    },
            decreases rest@.len(),
        {
            let c = rest.remove(0);
            assert(c == orig[out@.len() as int]);
            out.push(Expr::column(c));
        }
        Returning::Exprs(out)
    }

    /// Returns expressions, in order.
    pub fn exprs<T: IntoExpr>(exprs: Vec<T>) -> (r: Returning)
        ensures
            r is Exprs,
            r->Exprs_0@.len() == exprs@.len(),
            forall|i: int| 0 <= i < exprs@.len() ==> #[trigger] exprs@[i].converts_to_expr(r->Exprs_0@[i]),
    {
        Returning::Exprs(exprs_of(exprs))
    }
}

} // verus!
