//! `UPDATE` statements.
use vstd::prelude::*;
use crate::expr::{Expr, IntoExpr};
use crate::query::returning::Returning;
use crate::render::{
    conditions_pieces, expr_pieces, opt_returning_pieces, table_ref_pieces, text,
    write_conditions, write_expr, write_returning, write_table_ref,
};
use crate::types::{Iden, IntoIden, IntoTableRef, TableRef, push_iden, quote_iden};
use crate::value::values_model;
use crate::writer::{
    Piece, SqlWriter, SqlWriterValues, inline_text, lemma_wrote_chain, parameterized_text,
    params_of, wrote,
};

verus! {

/// An `UPDATE` statement.
#[derive(Debug, PartialEq)]
pub struct Update {
    pub table: Option<TableRef>,
    pub values: Vec<(Iden, Expr)>,
    pub conditions: Vec<Expr>,
    pub returning: Option<Returning>,
}

/// One assignment: `"col" = expr`.
pub open spec fn assignment_pieces(a: (Iden, Expr)) -> Seq<Piece> {
    text(quote_iden(a.0@)) + text(" = "@) + expr_pieces(a.1)
}

/// The assignments, joined by `, `.
pub open spec fn assignments(vs: Seq<(Iden, Expr)>) -> Seq<Piece>
    decreases vs.len(),
{
    if vs.len() == 0 {
        Seq::empty()
    } else if vs.len() == 1 {
        assignment_pieces(vs[0])
    } else {
        assignments(vs.drop_last()) + text(", "@) + assignment_pieces(vs.last())
    }
}

/// The head of an `UPDATE`: the table and the `SET` list.
pub open spec fn update_head(u: Update) -> Seq<Piece> {
    text("UPDATE "@) + match u.table {
        Some(t) => table_ref_pieces(t),
        None => Seq::empty(),
    } + if u.values@.len() > 0 {
        text(" SET "@) + assignments(u.values@)
    } else {
        Seq::empty()
    }
}

/// The pieces of an `UPDATE` statement.
pub open spec fn update_pieces(u: Update) -> Seq<Piece> {
    update_head(u) + conditions_pieces(" WHERE "@, u.conditions@) + opt_returning_pieces(
        u.returning,
    )
}

#[verifier::spinoff_prover]
fn write_assignments(w: &mut SqlWriter, vs: &Vec<(Iden, Expr)>)
    requires
        old(w).wf(),
    ensures
        wrote(*old(w), *final(w), assignments(vs@)),
{
    let ghost p0 = w.pieces();
    let mut i: usize = 0;
    while i < vs.len()
        invariant
            i <= vs@.len(),
            wrote(*old(w), *w, assignments(vs@.subrange(0, i as int))),
            p0 == old(w).pieces(),
        decreases vs@.len() - i,
    {
        if i > 0 {
            w.push_str(", ");
        }
        let (col, val) = &vs[i];
        let mut s = String::new();
        push_iden(&mut s, col);
        assert(s@ =~= quote_iden(col@));
        w.push_str(s.as_str());
        w.push_str(" = ");
        write_expr(w, val);
        proof {
            let s1 = vs@.subrange(0, i + 1);
            assert(s1.drop_last() =~= vs@.subrange(0, i as int));
            if i == 0 {
                assert(vs@.subrange(0, 0) =~= Seq::<(Iden, Expr)>::empty());
            }
            assert(w.pieces() =~= p0 + assignments(s1));
        }
        i = i + 1;
    }
    assert(vs@.subrange(0, vs@.len() as int) =~= vs@);
}

impl Update {
    /// An `UPDATE` of no table yet.
    pub fn new() -> (r: Update)
        ensures
            r.table is None,
            r.values@.len() == 0,
            r.conditions@.len() == 0,
            r.returning is None,
    {
        Update { table: None, values: Vec::new(), conditions: Vec::new(), returning: None }
    }

    /// Writes the statement.
    #[verifier::spinoff_prover]
    pub fn write(&self, w: &mut SqlWriter)
        requires
            old(w).wf(),
        ensures
            wrote(*old(w), *final(w), update_pieces(*self)),
    {
        let ghost w0 = *w;
        w.push_str("UPDATE ");
        match &self.table {
            Some(t) => write_table_ref(w, t),
            None => {},
        }
        if self.values.len() > 0 {
            w.push_str(" SET ");
            write_assignments(w, &self.values);
        }
        assert(w.pieces() =~= w0.pieces() + update_head(*self));
        let ghost w1 = *w;
        write_conditions(w, " WHERE ", &self.conditions);
        let ghost w2 = *w;
        proof {
            lemma_wrote_chain(w0, w1, w2, update_head(*self), conditions_pieces(" WHERE "@, self.conditions@));
        }
        write_returning(w, &self.returning);
        proof {
            lemma_wrote_chain(
                w0,
                w2,
                *w,
                update_head(*self) + conditions_pieces(" WHERE "@, self.conditions@),
                opt_returning_pieces(self.returning),
            );
        }
    }

    /// The SQL text, values inlined as literals.
    pub fn to_sql(&self) -> (r: String)
        ensures
            r@ == inline_text(update_pieces(*self)),
    {
        let mut w = SqlWriter::inline();
        self.write(&mut w);
        assert(w.pieces() =~= update_pieces(*self));
        w.into_sql()
    }

    /// The SQL text with `$n` placeholders, and the values they stand for.
    pub fn to_values(&self) -> (r: SqlWriterValues)
        ensures
            r.sql@ == parameterized_text(update_pieces(*self)),
            values_model(r.values@) == params_of(update_pieces(*self)),
    {
        let mut w = SqlWriter::parameterized();
        self.write(&mut w);
        assert(w.pieces() =~= update_pieces(*self));
        w.into_values()
    }

    /// The table to update.
    pub fn table<T: IntoTableRef>(self, table: T) -> (r: Update)
        ensures
            r.values == self.values,
            r.conditions == self.conditions,
            r.returning == self.returning,
            r.table is Some,
            table.converts_to_table_ref(r.table->0),
    {
        Update { table: Some(table.into_table_ref()), ..self }
    }

    /// Adds assignments `col = expr`, in order.
    pub fn values<T: IntoIden>(self, values: Vec<(T, Expr)>) -> (r: Update)
        ensures
            r == (Update { values: r.values, ..self }),
            r.values@.len() == self.values@.len() + values@.len(),
            r.values@.take(self.values@.len() as int) == self.values@,
            forall|i: int|
                0 <= i < values@.len() ==> {
                    let a = #[trigger] r.values@[self.values@.len() + i];
                    a.0@ == values@[i].0.iden_name() && a.1 == values@[i].1
                },
    {
        let ghost orig = values@;
        let mut u = self;
        let ghost start = u.values@;
        let mut rest = values;
        let total = rest.len();
        let mut i: usize = 0;
        while rest.len() > 0
            invariant
                orig.len() == total,
                i + rest@.len() == orig.len(),
                rest@ == orig.subrange(i as int, orig.len() as int),
                u.values@.len() == start.len() + i,
                u.values@.take(start.len() as int) == start,
                u == (Update { values: u.values, ..self }),
                forall|j: int|
                    0 <= j < i ==> {
                        let a = #[trigger] u.values@[start.len() + j];
                        a.0@ == orig[j].0.iden_name() && a.1 == orig[j].1
                    },
            decreases rest@.len(),
        {
            let (k, v) = rest.remove(0);
            assert(k == orig[i as int].0 && v == orig[i as int].1);
            u.values.push((k.into_iden(), v));
            assert(u.values@.take(start.len() as int) =~= start);
            i = i + 1;
        }
        u
    }

    /// Adds a condition to `WHERE`; the conditions are joined by `AND`.
    pub fn and_where<T: IntoExpr>(self, expr: T) -> (r: Update)
        ensures
            r == (Update { conditions: r.conditions, ..self }),
            r.conditions@.len() == self.conditions@.len() + 1,
            r.conditions@.drop_last() == self.conditions@,
            expr.converts_to_expr(r.conditions@.last()),
    {
        let mut u = self;
        let ghost start = u.conditions@;
        u.conditions.push(expr.into_expr());
        assert(u.conditions@.drop_last() =~= start);
        u
    }

    /// Sets the `RETURNING` clause.
    pub fn returning(self, returning: Returning) -> (r: Update)
        ensures
            r == (Update { returning: Some(returning), ..self }),
    {
        Update { returning: Some(returning), ..self }
    }
}

} // verus!
