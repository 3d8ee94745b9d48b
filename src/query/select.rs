//! `SELECT` statements.
use vstd::prelude::*;
use crate::expr::{Expr, IntoExpr, exprs_of};
use crate::query::order::Order;
use crate::query::with::With;
use crate::value::Decimal;
use crate::render::{select_pieces, write_select};
use crate::value::values_model;
use crate::writer::{SqlWriter, SqlWriterValues, inline_text, parameterized_text, params_of};
use crate::types::{
    Iden, IntoColumnRef, IntoIden, IntoTableRef, JoinType, TableRef, column_ref_parts,
};

verus! {

/// A `SELECT` statement.
#[derive(Debug, PartialEq)]
pub struct Select {
    pub selects: Vec<SelectExpr>,
    pub from: Vec<TableRef>,
    pub joins: Vec<JoinExpr>,
    pub conditions: Vec<Expr>,
    pub groups: Vec<Expr>,
    pub having: Vec<Expr>,
    pub orders: Vec<Order>,
    pub limit: Option<u64>,
    pub offset: Option<u64>,
    pub lock: Option<RowLevelLock>,
    pub table_sample: Option<TableSample>,
    pub with: Option<With>,
}

/// The sampling method of `TABLESAMPLE`.
#[derive(Debug, Clone, Copy, PartialEq, Eq)]
pub enum SampleMethod {
    Bernoulli,
    System,
}

/// A `TABLESAMPLE` clause; its numbers are held as their decimal text.
#[derive(Debug, PartialEq)]
pub struct TableSample {
    pub method: SampleMethod,
    pub percentage: Decimal,
    pub repeatable: Option<Decimal>,
}

impl TableSample {
    /// `TABLESAMPLE SYSTEM (100)`.
    pub fn system() -> (r: TableSample)
        ensures
            r.method == SampleMethod::System,
            r.percentage@ == "100"@,
            r.repeatable is None,
    {
        TableSample { method: SampleMethod::System, percentage: Decimal::hundred(), repeatable: None }
    }

    /// `TABLESAMPLE BERNOULLI (100)`.
    pub fn bernoulli() -> (r: TableSample)
        ensures
            r.method == SampleMethod::Bernoulli,
            r.percentage@ == "100"@,
            r.repeatable is None,
    {
        TableSample {
            method: SampleMethod::Bernoulli,
            percentage: Decimal::hundred(),
            repeatable: None,
        }
    }

    /// The percentage of rows to sample.
    pub fn percentage(self, percentage: Decimal) -> (r: TableSample)
        ensures
            r == (TableSample { percentage, ..self }),
    {
        TableSample { percentage, ..self }
    }

    /// The seed of a repeatable sample.
    pub fn repeatable(self, seed: Decimal) -> (r: TableSample)
        ensures
            r == (TableSample { repeatable: Some(seed), ..self }),
    {
        TableSample { repeatable: Some(seed), ..self }
    }
}

/// One join of a `SELECT`.
#[derive(Debug, PartialEq)]
pub struct JoinExpr {
    pub join_type: JoinType,
    pub table: TableRef,
    pub on: Option<Expr>,
}

/// One item of the select list, with an optional alias.
#[derive(Debug, PartialEq)]
pub struct SelectExpr {
    pub expr: Expr,
    pub alias: Option<Iden>,
}

/// The strength of a row-level lock.
#[derive(Debug, Clone, Copy, PartialEq, Eq)]
pub enum RowLevelLockType {
    Update,
    NoKeyUpdate,
    Share,
    KeyShare,
}

/// What a row-level lock does when a row is already locked.
#[derive(Debug, Clone, Copy, PartialEq, Eq)]
pub enum RowLevelLockBehavior {
    Nowait,
    SkipLocked,
}

/// A row-level lock clause: `FOR UPDATE`, `FOR SHARE`, and the like.
#[derive(Debug, PartialEq)]
pub struct RowLevelLock {
    pub ty: RowLevelLockType,
    pub tables: Vec<Iden>,
    pub behavior: Option<RowLevelLockBehavior>,
}

/// A new, empty `SELECT`.
pub fn select() -> (r: Select)
    ensures
        r.is_empty_select(),
{
    Select::new()
}

/// `xs` is `old` with one more item at the end, the item meeting `p`.
pub open spec fn pushed<T>(xs: Seq<T>, old: Seq<T>, p: spec_fn(T) -> bool) -> bool {
    &&& xs.len() == old.len() + 1
    &&& xs.drop_last() == old
    &&& p(xs.last())
}

impl Select {
    /// The SQL text, values inlined as literals.
    pub fn to_sql(&self) -> (r: String)
        ensures
            r@ == inline_text(select_pieces(*self)),
    {
        let mut w = SqlWriter::inline();
        write_select(&mut w, self);
        assert(w.pieces() =~= select_pieces(*self));
        w.into_sql()
    }

    /// The SQL text with `$n` placeholders, and the values they stand for.
    pub fn to_values(&self) -> (r: SqlWriterValues)
        ensures
            r.sql@ == parameterized_text(select_pieces(*self)),
            values_model(r.values@) == params_of(select_pieces(*self)),
    {
        let mut w = SqlWriter::parameterized();
        write_select(&mut w, self);
        assert(w.pieces() =~= select_pieces(*self));
        w.into_values()
    }

    /// Nothing chosen yet: every list empty, no limit, offset or lock.
    pub open spec fn is_empty_select(&self) -> bool {
        &&& self.selects@.len() == 0
        &&& self.from@.len() == 0
        &&& self.joins@.len() == 0
        &&& self.conditions@.len() == 0
        &&& self.groups@.len() == 0
        &&& self.having@.len() == 0
        &&& self.orders@.len() == 0
        &&& self.limit is None
        &&& self.offset is None
        &&& self.lock is None
        &&& self.table_sample is None
        &&& self.with is None
    }

    /// A new, empty `SELECT`.
    pub fn new() -> (r: Select)
        ensures
            r.is_empty_select(),
    {
        Select {
            selects: Vec::new(),
            from: Vec::new(),
            joins: Vec::new(),
            conditions: Vec::new(),
            groups: Vec::new(),
            having: Vec::new(),
            orders: Vec::new(),
            limit: None,
            offset: None,
            lock: None,
            table_sample: None,
            with: None,
        }
    }

    /// Adds a table to `FROM`.
    pub fn from<R: IntoTableRef>(self, table: R) -> (r: Select)
        ensures
            r == (Select { from: r.from, ..self }),
            pushed(r.from@, self.from@, |t: TableRef| table.converts_to_table_ref(t)),
    {
        let mut s = self;
        let ghost start = s.from@;
        s.from.push(table.into_table_ref());
        assert(s.from@.drop_last() =~= start);
        s
    }

    /// Adds a table to `FROM` under an alias.
    pub fn from_as<R: IntoTableRef, A: IntoIden>(self, table: R, alias: A) -> (r: Select)
        ensures
            r == (Select { from: r.from, ..self }),
            r.from@.len() == self.from@.len() + 1,
            r.from@.drop_last() == self.from@,
            exists|t: TableRef| #[trigger]
                table.converts_to_table_ref(t) && match t {
                    TableRef::Table(n, _) => r.from@.last() is Table && r.from@.last()->Table_0
                        == n && r.from@.last()->Table_1 is Some
                        && r.from@.last()->Table_1->0@ == alias.iden_name(),
                    TableRef::SubQuery(q, _) => r.from@.last() is SubQuery
                        && r.from@.last()->SubQuery_0 == q && r.from@.last()->SubQuery_1@
                        == alias.iden_name(),
                },
    {
        let mut s = self;
        let t = table.into_table_ref();
        let ghost t0 = t;
        let ghost start = s.from@;
        s.from.push(t.alias(alias));
        assert(s.from@.drop_last() =~= start);
        assert(table.converts_to_table_ref(t0));
        s
    }

    /// Adds a sub-query to `FROM` under an alias.
    pub fn from_subquery<T: IntoIden>(self, query: Select, alias: T) -> (r: Select)
        ensures
            r == (Select { from: r.from, ..self }),
            pushed(
                r.from@,
                self.from@,
                |t: TableRef|
                    t is SubQuery && *t->SubQuery_0 == query && t->SubQuery_1@ == alias.iden_name(),
            ),
    {
        let mut s = self;
        let ghost start = s.from@;
        s.from.push(TableRef::SubQuery(Box::new(query), alias.into_iden()));
        assert(s.from@.drop_last() =~= start);
        s
    }

    /// Adds an expression to the select list.
    pub fn expr<T: IntoExpr>(self, expr: T) -> (r: Select)
        ensures
            r == (Select { selects: r.selects, ..self }),
            pushed(
                r.selects@,
                self.selects@,
                |x: SelectExpr| expr.converts_to_expr(x.expr) && x.alias is None,
            ),
    {
        let mut s = self;
        let ghost start = s.selects@;
        s.selects.push(SelectExpr { expr: expr.into_expr(), alias: None });
        assert(s.selects@.drop_last() =~= start);
        s
    }

    /// Adds an expression (typically a function call) to the select list.
    pub fn func<F: IntoExpr>(self, func: F) -> (r: Select)
        ensures
            r == (Select { selects: r.selects, ..self }),
            pushed(
                r.selects@,
                self.selects@,
                |x: SelectExpr| func.converts_to_expr(x.expr) && x.alias is None,
            ),
    {
        self.expr(func)
    }

    /// Adds an expression to the select list under an alias.
    pub fn expr_as<T: IntoExpr, A: IntoIden>(self, expr: T, alias: A) -> (r: Select)
        ensures
            r == (Select { selects: r.selects, ..self }),
            pushed(
                r.selects@,
                self.selects@,
                |x: SelectExpr|
                    expr.converts_to_expr(x.expr) && x.alias is Some && x.alias->0@
                        == alias.iden_name(),
            ),
    {
        let mut s = self;
        let ghost start = s.selects@;
        s.selects.push(SelectExpr { expr: expr.into_expr(), alias: Some(alias.into_iden()) });
        assert(s.selects@.drop_last() =~= start);
        s
    }

    /// Adds expressions to the select list, in order.
    pub fn exprs<T: IntoExpr>(self, exprs: Vec<T>) -> (r: Select)
        ensures
            r == (Select { selects: r.selects, ..self }),
            r.selects@.len() == self.selects@.len() + exprs@.len(),
            r.selects@.take(self.selects@.len() as int) == self.selects@,
            forall|i: int|
                0 <= i < exprs@.len() ==> #[trigger] exprs@[i].converts_to_expr(
                    r.selects@[self.selects@.len() + i].expr,
                ) && r.selects@[self.selects@.len() + i].alias is None,
    {
        let es = exprs_of(exprs);
        let mut s = self;
        let ghost start = s.selects@;
        let mut i: usize = 0;
        let mut rest = es;
        let ghost all = rest@;
        let total = rest.len();
        while rest.len() > 0
            invariant
                all.len() == total,
                i + rest@.len() == all.len(),
                rest@ == all.subrange(i as int, all.len() as int),
                s.selects@.len() == start.len() + i,
                s.selects@.take(start.len() as int) == start,
                forall|j: int|
                    0 <= j < i ==> #[trigger] s.selects@[start.len() + j].expr == all[j]
                        && s.selects@[start.len() + j].alias is None,
                s == (Select { selects: s.selects, ..self }),
            decreases rest@.len(),
        {
            let e = rest.remove(0);
            s.selects.push(SelectExpr { expr: e, alias: None });
            assert(s.selects@.take(start.len() as int) =~= start);
            i = i + 1;
        }
        s
    }

    /// Adds a column to the select list.
    pub fn column<C: IntoColumnRef>(self, col: C) -> (r: Select)
        ensures
            r == (Select { selects: r.selects, ..self }),
            pushed(
                r.selects@,
                self.selects@,
                |x: SelectExpr|
                    x.expr is Column && column_ref_parts(x.expr->Column_0) == col.column_parts()
                        && x.alias is None,
            ),
    {
        self.expr(Expr::column(col))
    }

    /// Adds columns to the select list, in order.
    pub fn columns<T: IntoColumnRef>(self, cols: Vec<T>) -> (r: Select)
        ensures
            r == (Select { selects: r.selects, ..self }),
            r.selects@.len() == self.selects@.len() + cols@.len(),
            r.selects@.take(self.selects@.len() as int) == self.selects@,
            forall|i: int|
                0 <= i < cols@.len() ==> {
                    let x = #[trigger] r.selects@[self.selects@.len() + i];
                    &&& x.expr is Column
                    &&& column_ref_parts(x.expr->Column_0) == cols@[i].column_parts()
                    &&& x.alias is None
                },
    {
        let ghost orig = cols@;
        let mut s = self;
        let ghost start = s.selects@;
        let mut rest = cols;
        let total = rest.len();
        let mut i: usize = 0;
        while rest.len() > 0
            invariant
                orig.len() == total,
                i + rest@.len() == orig.len(),
                rest@ == orig.subrange(i as int, orig.len() as int),
                s.selects@.len() == start.len() + i,
                s.selects@.take(start.len() as int) == start,
                forall|j: int|
                    0 <= j < i ==> {
                        let x = #[trigger] s.selects@[start.len() + j];
                        &&& x.expr is Column
                        &&& column_ref_parts(x.expr->Column_0) == orig[j].column_parts()
                        &&& x.alias is None
                    },
                s == (Select { selects: s.selects, ..self }),
            decreases rest@.len(),
        {
            let c = rest.remove(0);
            assert(c == orig[i as int]);
            s.selects.push(SelectExpr { expr: Expr::column(c), alias: None });
            assert(s.selects@.take(start.len() as int) =~= start);
            i = i + 1;
        }
        s
    }

    /// Adds a condition to `WHERE`; the conditions are joined by `AND`.
    pub fn and_where<T: IntoExpr>(self, expr: T) -> (r: Select)
        ensures
            r == (Select { conditions: r.conditions, ..self }),
            pushed(r.conditions@, self.conditions@, |e: Expr| expr.converts_to_expr(e)),
    {
        let mut s = self;
        let ghost start = s.conditions@;
        s.conditions.push(expr.into_expr());
        assert(s.conditions@.drop_last() =~= start);
        s
    }

    /// Adds a `LEFT JOIN` on a condition.
    pub fn left_join<T: IntoTableRef, E: IntoExpr>(self, table: T, on: E) -> (r: Select)
        ensures
            r == (Select { joins: r.joins, ..self }),
            pushed(
                r.joins@,
                self.joins@,
                |j: JoinExpr|
                    j.join_type == JoinType::LeftJoin && table.converts_to_table_ref(j.table)
                        && j.on is Some && on.converts_to_expr(j.on->0),
            ),
    {
        let mut s = self;
        let ghost start = s.joins@;
        s.joins.push(
            JoinExpr {
                join_type: JoinType::LeftJoin,
                table: table.into_table_ref(),
                on: Some(on.into_expr()),
            },
        );
        assert(s.joins@.drop_last() =~= start);
        s
    }

    /// Adds an `INNER JOIN` on a condition.
    pub fn inner_join<T: IntoTableRef, E: IntoExpr>(self, table: T, on: E) -> (r: Select)
        ensures
            r == (Select { joins: r.joins, ..self }),
            pushed(
                r.joins@,
                self.joins@,
                |j: JoinExpr|
                    j.join_type == JoinType::InnerJoin && table.converts_to_table_ref(j.table)
                        && j.on is Some && on.converts_to_expr(j.on->0),
            ),
    {
        let mut s = self;
        let ghost start = s.joins@;
        s.joins.push(
            JoinExpr {
                join_type: JoinType::InnerJoin,
                table: table.into_table_ref(),
                on: Some(on.into_expr()),
            },
        );
        assert(s.joins@.drop_last() =~= start);
        s
    }

    /// Adds `ORDER BY` items, in order.
    pub fn order_by(self, orders: Vec<Order>) -> (r: Select)
        ensures
            r == (Select { orders: r.orders, ..self }),
            r.orders@ == self.orders@ + orders@,
    {
        let mut s = self;
        let mut o = orders;
        s.orders.append(&mut o);
        s
    }

    /// Adds columns to `GROUP BY`, in order.
    pub fn group_by_columns<T: IntoColumnRef>(self, cols: Vec<T>) -> (r: Select)
        ensures
            r == (Select { groups: r.groups, ..self }),
            r.groups@.len() == self.groups@.len() + cols@.len(),
            r.groups@.take(self.groups@.len() as int) == self.groups@,
            forall|i: int|
                0 <= i < cols@.len() ==> {
                    let x = #[trigger] r.groups@[self.groups@.len() + i];
                    &&& x is Column
                    &&& column_ref_parts(x->Column_0) == cols@[i].column_parts()
                },
    {
        let ghost orig = cols@;
        let mut s = self;
        let ghost start = s.groups@;
        let mut rest = cols;
        let total = rest.len();
        let mut i: usize = 0;
        while rest.len() > 0
            invariant
                orig.len() == total,
                i + rest@.len() == orig.len(),
                rest@ == orig.subrange(i as int, orig.len() as int),
                s.groups@.len() == start.len() + i,
                s.groups@.take(start.len() as int) == start,
                forall|j: int|
                    0 <= j < i ==> {
                        let x = #[trigger] s.groups@[start.len() + j];
                        &&& x is Column
                        &&& column_ref_parts(x->Column_0) == orig[j].column_parts()
                    },
                s == (Select { groups: s.groups, ..self }),
            decreases rest@.len(),
        {
            let c = rest.remove(0);
            assert(c == orig[i as int]);
            s.groups.push(Expr::column(c));
            assert(s.groups@.take(start.len() as int) =~= start);
            i = i + 1;
        }
        s
    }

    /// Adds expressions to `GROUP BY`, in order.
    pub fn group_by_exprs<T: IntoExpr>(self, exprs: Vec<T>) -> (r: Select)
        ensures
            r == (Select { groups: r.groups, ..self }),
            r.groups@.len() == self.groups@.len() + exprs@.len(),
            r.groups@.take(self.groups@.len() as int) == self.groups@,
            forall|i: int|
                0 <= i < exprs@.len() ==> #[trigger] exprs@[i].converts_to_expr(
                    r.groups@[self.groups@.len() + i],
                ),
    {
        let mut es = exprs_of(exprs);
        let mut s = self;
        let ghost start = s.groups@;
        let ghost added = es@;
        s.groups.append(&mut es);
        assert(s.groups@.take(start.len() as int) =~= start);
        assert forall|i: int| 0 <= i < added.len() implies s.groups@[start.len() + i] == added[i] by {}
        s
    }

    /// Adds a condition to `HAVING`; the conditions are joined by `AND`.
    pub fn and_having<T: IntoExpr>(self, expr: T) -> (r: Select)
        ensures
            r == (Select { having: r.having, ..self }),
            pushed(r.having@, self.having@, |e: Expr| expr.converts_to_expr(e)),
    {
        let mut s = self;
        let ghost start = s.having@;
        s.having.push(expr.into_expr());
        assert(s.having@.drop_last() =~= start);
        s
    }

    /// Sets `OFFSET`.
    pub fn offset(self, offset: u64) -> (r: Select)
        ensures
            r == (Select { offset: Some(offset), ..self }),
    {
        Select { offset: Some(offset), ..self }
    }

    /// Sets `LIMIT`.
    pub fn limit(self, limit: u64) -> (r: Select)
        ensures
            r == (Select { limit: Some(limit), ..self }),
    {
        Select { limit: Some(limit), ..self }
    }

    /// Sets the `WITH` clause.
    pub fn with(self, with: With) -> (r: Select)
        ensures
            r == (Select { with: Some(with), ..self }),
    {
        Select { with: Some(with), ..self }
    }

    /// Sets the `TABLESAMPLE` clause.
    pub fn table_sample(self, table_sample: TableSample) -> (r: Select)
        ensures
            r == (Select { table_sample: Some(table_sample), ..self }),
    {
        Select { table_sample: Some(table_sample), ..self }
    }

    /// Sets the row-level lock.
    pub fn lock(self, lock: RowLevelLock) -> (r: Select)
        ensures
            r == (Select { lock: Some(lock), ..self }),
    {
        Select { lock: Some(lock), ..self }
    }
}

impl RowLevelLock {
    /// `FOR UPDATE`.
    pub fn for_update() -> (r: RowLevelLock)
        ensures
            r.ty == RowLevelLockType::Update,
            r.tables@.len() == 0,
            r.behavior is None,
    {
        RowLevelLock { ty: RowLevelLockType::Update, tables: Vec::new(), behavior: None }
    }

    /// `FOR NO KEY UPDATE`.
    pub fn for_no_key_update() -> (r: RowLevelLock)
        ensures
            r.ty == RowLevelLockType::NoKeyUpdate,
            r.tables@.len() == 0,
            r.behavior is None,
    {
        RowLevelLock { ty: RowLevelLockType::NoKeyUpdate, tables: Vec::new(), behavior: None }
    }

    /// `FOR SHARE`.
    pub fn for_share() -> (r: RowLevelLock)
        ensures
            r.ty == RowLevelLockType::Share,
            r.tables@.len() == 0,
            r.behavior is None,
    {
        RowLevelLock { ty: RowLevelLockType::Share, tables: Vec::new(), behavior: None }
    }

    /// `FOR KEY SHARE`.
    pub fn for_key_share() -> (r: RowLevelLock)
        ensures
            r.ty == RowLevelLockType::KeyShare,
            r.tables@.len() == 0,
            r.behavior is None,
    {
        RowLevelLock { ty: RowLevelLockType::KeyShare, tables: Vec::new(), behavior: None }
    }

    /// `NOWAIT`.
    pub fn no_wait(self) -> (r: RowLevelLock)
        ensures
            r == (RowLevelLock { behavior: Some(RowLevelLockBehavior::Nowait), ..self }),
    {
        RowLevelLock { behavior: Some(RowLevelLockBehavior::Nowait), ..self }
    }

    /// `SKIP LOCKED`.
    pub fn skip_locked(self) -> (r: RowLevelLock)
        ensures
            r == (RowLevelLock { behavior: Some(RowLevelLockBehavior::SkipLocked), ..self }),
    {
        RowLevelLock { behavior: Some(RowLevelLockBehavior::SkipLocked), ..self }
    }

    /// Locks only the rows of these tables (`OF ..`), replacing any given before.
    pub fn tables<T: IntoIden>(self, tables: Vec<T>) -> (r: RowLevelLock)
        ensures
            r.ty == self.ty,
            r.behavior == self.behavior,
            r.tables@.len() == tables@.len(),
            forall|i: int| 0 <= i < tables@.len() ==> #[trigger] r.tables@[i]@ == tables@[i].iden_name(),
    {
        let ghost orig = tables@;
        let mut rest = tables;
        let mut out: Vec<Iden> = Vec::new();
        while rest.len() > 0
            invariant
                out@.len() + rest@.len() == orig.len(),
                rest@ == orig.subrange(out@.len() as int, orig.len() as int),
                forall|i: int| 0 <= i < out@.len() ==> #[trigger] out@[i]@ == orig[i].iden_name(),
            decreases rest@.len(),
        {
            let t = rest.remove(0);
            assert(t == orig[out@.len() as int]);
            out.push(t.into_iden());
        }
        RowLevelLock { ty: self.ty, tables: out, behavior: self.behavior }
    }
}

} // verus!
