//! Common table expressions: `WITH name (cols) AS (..)`.
use vstd::prelude::*;
use crate::query::select::Select;
use crate::types::{Iden, IntoIden};
use crate::value::Value;

verus! {

/// What a common table expression stands for: a query, or rows of literal values.
#[derive(Debug, PartialEq)]
pub enum CteQuery {
    Select(Box<Select>),
    Values(Vec<Vec<Value>>),
}

/// One common table expression.
#[derive(Debug, PartialEq)]
pub struct CommonTableExpression {
    pub name: Iden,
    pub columns: Vec<Iden>,
    pub query: CteQuery,
    pub materialized: Option<bool>,
}

/// A `WITH` clause: its common table expressions, in order.
#[derive(Debug, PartialEq)]
pub struct With {
    pub ctes: Vec<CommonTableExpression>,
}

impl With {
    /// A `WITH` clause of no expressions yet.
    pub fn new() -> (r: With)
        ensures
            r.ctes@.len() == 0,
    {
        With { ctes: Vec::new() }
    }

    /// Adds a common table expression.
    pub fn cte(self, cte: CommonTableExpression) -> (r: With)
        ensures
            r.ctes@ == self.ctes@.push(cte),
    {
        let mut w = self;
        w.ctes.push(cte);
        w
    }
}

impl CommonTableExpression {
    /// A common table expression of no rows and no columns, under `name`.
    pub fn new<T: IntoIden>(name: T) -> (r: CommonTableExpression)
        ensures
            r.name@ == name.iden_name(),
            r.columns@.len() == 0,
            r.query is Values,
            r.query->Values_0@.len() == 0,
            r.materialized is None,
    {
        CommonTableExpression {
            name: name.into_iden(),
            columns: Vec::new(),
            query: CteQuery::Values(Vec::new()),
            materialized: None,
        }
    }

    /// Stands for rows of literal values.
    pub fn values(self, values: Vec<Vec<Value>>) -> (r: CommonTableExpression)
        ensures
            r == (CommonTableExpression { query: CteQuery::Values(values), ..self }),
    {
        CommonTableExpression { query: CteQuery::Values(values), ..self }
    }

    /// Stands for a query.
    pub fn select(self, select: Select) -> (r: CommonTableExpression)
        ensures
            r == (CommonTableExpression { query: CteQuery::Select(Box::new(select)), ..self }),
    {
        CommonTableExpression { query: CteQuery::Select(Box::new(select)), ..self }
    }

    /// Adds a column name.
    pub fn column<C: IntoIden>(self, col: C) -> (r: CommonTableExpression)
        ensures
            r.name == self.name,
            r.query == self.query,
            r.materialized == self.materialized,
            r.columns@.len() == self.columns@.len() + 1,
            r.columns@.drop_last() == self.columns@,
            r.columns@.last()@ == col.iden_name(),
    {
        let mut c = self;
        let ghost start = c.columns@;
        c.columns.push(col.into_iden());
        assert(c.columns@.drop_last() =~= start);
        c
    }

    /// Adds column names, in order.
    pub fn columns<C: IntoIden>(self, cols: Vec<C>) -> (r: CommonTableExpression)
        ensures
            r.name == self.name,
            r.query == self.query,
            r.materialized == self.materialized,
            r.columns@.len() == self.columns@.len() + cols@.len(),
            r.columns@.take(self.columns@.len() as int) == self.columns@,
            forall|i: int|
                0 <= i < cols@.len() ==> #[trigger] r.columns@[self.columns@.len() + i]@
                    == cols@[i].iden_name(),
    {
        let ghost orig = cols@;
        let mut c = self;
        let ghost start = c.columns@;
        let mut rest = cols;
        let total = rest.len();
        let mut i: usize = 0;
        while rest.len() > 0
            invariant
                orig.len() == total,
                i + rest@.len() == orig.len(),
                rest@ == orig.subrange(i as int, orig.len() as int),
                c.columns@.len() == start.len() + i,
                c.columns@.take(start.len() as int) == start,
                c.name == self.name,
                c.query == self.query,
                c.materialized == self.materialized,
                forall|j: int|
                    0 <= j < i ==> #[trigger] c.columns@[start.len() + j]@ == orig[j].iden_name(),
            decreases rest@.len(),
        {
            let x = rest.remove(0);
            assert(x == orig[i as int]);
            c.columns.push(x.into_iden());
            assert(c.columns@.take(start.len() as int) =~= start);
            i = i + 1;
        }
        c
    }

    /// `AS MATERIALIZED` (`true`) or `AS NOT MATERIALIZED` (`false`).
    pub fn materialized(self, materialized: bool) -> (r: CommonTableExpression)
        ensures
            r == (CommonTableExpression { materialized: Some(materialized), ..self }),
    {
        CommonTableExpression { materialized: Some(materialized), ..self }
    }
}

} // verus!
