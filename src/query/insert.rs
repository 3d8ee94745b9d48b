//! `INSERT` statements.
use vstd::prelude::*;
use crate::expr::Expr;
use crate::query::conflict::{OnConflict, on_conflict_pieces, write_on_conflict};
use crate::query::returning::Returning;
use crate::query::select::Select;
use crate::render::{
    iden_list, list_pieces, opt_returning_pieces, select_pieces, table_ref_pieces, text,
    write_iden_list, write_list, write_returning, write_select, write_table_ref,
};
use crate::types::{Iden, IntoIden, IntoTableRef, TableRef};
use crate::value::values_model;
use crate::writer::{
    Piece, SqlWriter, SqlWriterValues, inline_text, lemma_wrote_chain, lemma_wrote_nothing,
    parameterized_text,
    params_of, wrote,
};

verus! {

/// Where the inserted rows come from.
#[derive(Debug, PartialEq)]
pub enum InsertValueSource {
    Values(Vec<Vec<Expr>>),
    Select(Box<Select>),
}

/// An `INSERT` statement.
#[derive(Debug, PartialEq)]
pub struct Insert {
    pub table: Option<TableRef>,
    pub columns: Vec<Iden>,
    pub source: Option<InsertValueSource>,
    pub defaults: Option<u32>,
    pub on_conflict: Option<OnConflict>,
    pub returning: Option<Returning>,
}

/// The `ON CONFLICT` clause, or nothing.
pub open spec fn opt_on_conflict_pieces(o: Option<OnConflict>) -> Seq<Piece> {
    match o {
        Some(o) => on_conflict_pieces(o),
        None => Seq::empty(),
    }
}

/// `n` rows of `(DEFAULT)`, joined by `, `.
pub open spec fn default_rows(n: nat) -> Seq<Piece>
    decreases n,
{
    if n == 0 {
        Seq::empty()
    } else if n == 1 {
        text("(DEFAULT)"@)
    } else {
        default_rows((n - 1) as nat) + text(", "@) + text("(DEFAULT)"@)
    }
}

/// Rows of expressions: `(e, ..), (e, ..)`.
pub open spec fn expr_rows(rows: Seq<Vec<Expr>>) -> Seq<Piece>
    decreases rows.len(),
{
    if rows.len() == 0 {
        Seq::empty()
    } else {
        expr_rows(rows.drop_last()) + (if rows.len() == 1 {
            Seq::empty()
        } else {
            text(", "@)
        }) + text(seq!['(']) + list_pieces(rows.last()@) + text(seq![')'])
    }
}

/// Whether the statement inserts rows of defaults only: a nonzero count of
/// them, and no columns or source.
pub open spec fn inserts_defaults(i: Insert) -> bool {
    &&& i.defaults is Some
    &&& i.defaults->0 != 0
    &&& i.columns@.len() == 0
    &&& i.source is None
}

/// The source of the rows, after a space; nothing for none.
pub open spec fn source_pieces(s: Option<InsertValueSource>) -> Seq<Piece> {
    match s {
        Some(InsertValueSource::Values(rows)) => text(seq![' ']) + text("VALUES "@) + expr_rows(
            rows@,
        ),
        Some(InsertValueSource::Select(q)) => text(seq![' ']) + select_pieces(*q),
        None => Seq::empty(),
    }
}

/// `INSERT` and the target table.
pub open spec fn insert_head(i: Insert) -> Seq<Piece> {
    text("INSERT "@) + match i.table {
        Some(t) => text("INTO "@) + table_ref_pieces(t),
        None => Seq::empty(),
    }
}

/// The pieces of an `INSERT` statement.
pub open spec fn insert_pieces(i: Insert) -> Seq<Piece> {
    insert_head(i) + if inserts_defaults(i) {
        text(" VALUES "@) + default_rows(i.defaults->0 as nat)
    } else {
        text(" ("@) + iden_list(i.columns@) + text(")"@) + source_pieces(i.source)
            + opt_on_conflict_pieces(i.on_conflict) + opt_returning_pieces(i.returning)
    }
}

fn write_default_rows(w: &mut SqlWriter, n: u32)
    requires
        old(w).wf(),
    ensures
        wrote(*old(w), *final(w), default_rows(n as nat)),
{
    let ghost p0 = w.pieces();
    let mut i: u32 = 0;
    while i < n
        invariant
            i <= n,
            wrote(*old(w), *w, default_rows(i as nat)),
            p0 == old(w).pieces(),
        decreases n - i,
    {
        if i > 0 {
            w.push_str(", ");
        }
        w.push_str("(DEFAULT)");
        assert(w.pieces() =~= p0 + default_rows((i + 1) as nat));
        i = i + 1;
    }
}

#[verifier::spinoff_prover]
fn write_expr_rows(w: &mut SqlWriter, rows: &Vec<Vec<Expr>>)
    requires
        old(w).wf(),
    ensures
        wrote(*old(w), *final(w), expr_rows(rows@)),
{
    let ghost p0 = w.pieces();
    let mut j: usize = 0;
    while j < rows.len()
        invariant
            j <= rows@.len(),
            wrote(*old(w), *w, expr_rows(rows@.subrange(0, j as int))),
            p0 == old(w).pieces(),
        decreases rows@.len() - j,
    {
        if j > 0 {
            w.push_str(", ");
        }
        w.push_char('(');
        write_list(w, &rows[j]);
        w.push_char(')');
        proof {
            let s1 = rows@.subrange(0, j + 1);
            assert(s1.drop_last() =~= rows@.subrange(0, j as int));
            if j == 0 {
                assert(rows@.subrange(0, 0) =~= Seq::<Vec<Expr>>::empty());
            }
            assert(w.pieces() =~= p0 + expr_rows(s1));
        }
        j = j + 1;
    }
    assert(rows@.subrange(0, rows@.len() as int) =~= rows@);
}

#[verifier::spinoff_prover]
fn write_source(w: &mut SqlWriter, source: &Option<InsertValueSource>)
    requires
        old(w).wf(),
    ensures
        wrote(*old(w), *final(w), source_pieces(*source)),
{
    let ghost p0 = w.pieces();
    match source {
        Some(InsertValueSource::Values(rows)) => {
            w.push_char(' ');
            w.push_str("VALUES ");
            write_expr_rows(w, rows);
        },
        Some(InsertValueSource::Select(q)) => {
            w.push_char(' ');
            write_select(w, q);
        },
        None => {},
    }
    assert(w.pieces() =~= p0 + source_pieces(*source));
}

impl Insert {
    /// An `INSERT` of no table, columns or rows yet.
    pub fn new() -> (r: Insert)
        ensures
            r.table is None,
            r.columns@.len() == 0,
            r.source is None,
            r.defaults is None,
            r.on_conflict is None,
            r.returning is None,
    {
        Insert {
            table: None,
            columns: Vec::new(),
            source: None,
            defaults: None,
            on_conflict: None,
            returning: None,
        }
    }

    /// Writes the statement.
    #[verifier::spinoff_prover]
    pub fn write(&self, w: &mut SqlWriter)
        requires
            old(w).wf(),
        ensures
            wrote(*old(w), *final(w), insert_pieces(*self)),
    {
        let ghost w0 = *w;
        w.push_str("INSERT ");
        match &self.table {
            Some(t) => {
                w.push_str("INTO ");
                write_table_ref(w, t);
            },
            None => {},
        }
        assert(w.pieces() =~= w0.pieces() + insert_head(*self));
        let ghost w1 = *w;
        let n: u32 = match self.defaults {
            Some(n) => n,
            None => 0,
        };
        if n != 0 && self.columns.len() == 0 && self.source.is_none() {
            w.push_str(" VALUES ");
            write_default_rows(w, n);
            assert(w.pieces() =~= w1.pieces() + (text(" VALUES "@) + default_rows(n as nat)));
            proof {
                lemma_wrote_chain(w0, w1, *w, insert_head(*self), text(" VALUES "@) + default_rows(n as nat));
            }
        } else {
            w.push_str(" (");
            write_iden_list(w, &self.columns);
            w.push_str(")");
            let ghost v1 = *w;
            assert(w.pieces() =~= w1.pieces() + (text(" ("@) + iden_list(self.columns@) + text(")"@)));
            write_source(w, &self.source);
            let ghost v2 = *w;
            proof {
                lemma_wrote_chain(w1, v1, v2, text(" ("@) + iden_list(self.columns@) + text(")"@), source_pieces(self.source));
            }
            match &self.on_conflict {
                Some(o) => write_on_conflict(w, o),
                None => {
                    proof {
                        lemma_wrote_nothing(*w);
                    }
                },
            }
            let ghost v3 = *w;
            assert(opt_on_conflict_pieces(self.on_conflict) == match self.on_conflict {
                Some(o) => on_conflict_pieces(o),
                None => Seq::<Piece>::empty(),
            });
            proof {
                lemma_wrote_chain(
                    w1,
                    v2,
                    v3,
                    text(" ("@) + iden_list(self.columns@) + text(")"@) + source_pieces(self.source),
                    opt_on_conflict_pieces(self.on_conflict),
                );
            }
            write_returning(w, &self.returning);
            proof {
                lemma_wrote_chain(
                    w1,
                    v3,
                    *w,
                    text(" ("@) + iden_list(self.columns@) + text(")"@) + source_pieces(self.source)
                        + opt_on_conflict_pieces(self.on_conflict),
                    opt_returning_pieces(self.returning),
                );
                lemma_wrote_chain(
                    w0,
                    w1,
                    *w,
                    insert_head(*self),
                    text(" ("@) + iden_list(self.columns@) + text(")"@) + source_pieces(self.source)
                        + opt_on_conflict_pieces(self.on_conflict) + opt_returning_pieces(
                        self.returning,
                    ),
                );
            }
        }
    }

    /// The SQL text, values inlined as literals.
    pub fn to_sql(&self) -> (r: String)
        ensures
            r@ == inline_text(insert_pieces(*self)),
    {
        let mut w = SqlWriter::inline();
        self.write(&mut w);
        assert(w.pieces() =~= insert_pieces(*self));
        w.into_sql()
    }

    /// The SQL text with `$n` placeholders, and the values they stand for.
    pub fn to_values(&self) -> (r: SqlWriterValues)
        ensures
            r.sql@ == parameterized_text(insert_pieces(*self)),
            values_model(r.values@) == params_of(insert_pieces(*self)),
    {
        let mut w = SqlWriter::parameterized();
        self.write(&mut w);
        assert(w.pieces() =~= insert_pieces(*self));
        w.into_values()
    }

    /// The table to insert into.
    pub fn into_table<T: IntoTableRef>(self, table: T) -> (r: Insert)
        ensures
            r.columns == self.columns,
            r.source == self.source,
            r.defaults == self.defaults,
            r.on_conflict == self.on_conflict,
            r.returning == self.returning,
            r.table is Some,
            table.converts_to_table_ref(r.table->0),
    {
        Insert { table: Some(table.into_table_ref()), ..self }
    }

    /// Adds columns, in order.
    pub fn columns<T: IntoIden>(self, cols: Vec<T>) -> (r: Insert)
        ensures
            r == (Insert { columns: r.columns, ..self }),
            r.columns@.len() == self.columns@.len() + cols@.len(),
            r.columns@.take(self.columns@.len() as int) == self.columns@,
            forall|i: int|
                0 <= i < cols@.len() ==> #[trigger] r.columns@[self.columns@.len() + i]@
                    == cols@[i].iden_name(),
    {
        let ghost orig = cols@;
        let mut s = self;
        let ghost start = s.columns@;
        let mut rest = cols;
        let total = rest.len();
        let mut i: usize = 0;
        while rest.len() > 0
            invariant
                orig.len() == total,
                i + rest@.len() == orig.len(),
                rest@ == orig.subrange(i as int, orig.len() as int),
                s.columns@.len() == start.len() + i,
                s.columns@.take(start.len() as int) == start,
                s == (Insert { columns: s.columns, ..self }),
                forall|j: int|
                    0 <= j < i ==> #[trigger] s.columns@[start.len() + j]@ == orig[j].iden_name(),
            decreases rest@.len(),
        {
            let c = rest.remove(0);
            assert(c == orig[i as int]);
            s.columns.push(c.into_iden());
            assert(s.columns@.take(start.len() as int) =~= start);
            i = i + 1;
        }
        s
    }

    /// Sets the `RETURNING` clause.
    pub fn returning(self, returning: Returning) -> (r: Insert)
        ensures
            r == (Insert { returning: Some(returning), ..self }),
    {
        Insert { returning: Some(returning), ..self }
    }

    /// Adds a row of values, one per column; an empty row adds nothing. A
    /// query given before as the source is replaced.
    pub fn values(self, values: Vec<Expr>) -> (r: Insert)
        requires
            values@.len() == self.columns@.len(),
        ensures
            r.table == self.table,
            r.columns == self.columns,
            r.defaults == self.defaults,
            r.on_conflict == self.on_conflict,
            r.returning == self.returning,
            values@.len() == 0 ==> r.source == self.source,
            values@.len() > 0 ==> r.source is Some && r.source->0 is Values,
            values@.len() > 0 ==> match self.source {
                Some(InsertValueSource::Values(rows)) => r.source->0->Values_0@ == rows@.push(
                    values,
                ),
                _ => r.source->0->Values_0@ == seq![values],
            },
    {
        if values.len() == 0 {
            return self;
        }
        let mut s = self;
        let src = s.source;
        let new_source = match src {
            Some(InsertValueSource::Values(rows)) => {
                let mut rows = rows;
                rows.push(values);
                InsertValueSource::Values(rows)
            },
            _ => {
                let mut rows: Vec<Vec<Expr>> = Vec::new();
                rows.push(values);
                assert(rows@ =~= seq![values]);
                InsertValueSource::Values(rows)
            },
        };
        Insert { source: Some(new_source), ..s }
    }

    /// Takes the rows from a query, whose select list has one item per column.
    pub fn select_from(self, select: Select) -> (r: Insert)
        requires
            select.selects@.len() == self.columns@.len(),
        ensures
            r == (Insert { source: Some(InsertValueSource::Select(Box::new(select))), ..self }),
    {
        Insert { source: Some(InsertValueSource::Select(Box::new(select))), ..self }
    }

    /// Sets the `ON CONFLICT` clause.
    pub fn on_conflict(self, on_conflict: OnConflict) -> (r: Insert)
        ensures
            r == (Insert { on_conflict: Some(on_conflict), ..self }),
    {
        Insert { on_conflict: Some(on_conflict), ..self }
    }

    /// Inserts `n` rows of defaults when no columns or source are given.
    pub fn or_default_values(self, n: u32) -> (r: Insert)
        ensures
            r == (Insert { defaults: Some(n), ..self }),
    {
        Insert { defaults: Some(n), ..self }
    }
}

} // verus!
