//! `DELETE` statements.
use vstd::prelude::*;
use crate::expr::{Expr, IntoExpr};
use crate::query::returning::Returning;
use crate::query::with::With;
use crate::render::{
    conditions_pieces, opt_returning_pieces, table_ref_pieces, text, with_prefix, write_conditions,
    write_returning, write_table_ref, write_with,
};
use crate::types::{IntoTableRef, TableRef};
use crate::value::values_model;
use crate::writer::{
    Piece, SqlWriter, SqlWriterValues, inline_text, lemma_wrote_chain, parameterized_text,
    params_of, wrote,
};

verus! {

/// A `DELETE` statement.
#[derive(Debug, PartialEq)]
pub struct Delete {
    pub table: Option<TableRef>,
    pub conditions: Vec<Expr>,
    pub returning: Option<Returning>,
    pub with: Option<With>,
}

/// `FROM` and the table, or nothing.
pub open spec fn delete_table_pieces(t: Option<TableRef>) -> Seq<Piece> {
    match t {
        Some(t) => text("FROM "@) + table_ref_pieces(t),
        None => Seq::empty(),
    }
}

/// The pieces of a `DELETE` statement.
pub open spec fn delete_pieces(d: Delete) -> Seq<Piece> {
    with_prefix(d.with) + text("DELETE "@) + delete_table_pieces(d.table) + conditions_pieces(
        " WHERE "@,
        d.conditions@,
    ) + opt_returning_pieces(d.returning)
}

impl Delete {
    /// A `DELETE` of no table yet.
    pub fn new() -> (r: Delete)
        ensures
            r.table is None,
            r.conditions@.len() == 0,
            r.returning is None,
            r.with is None,
    {
        Delete { table: None, conditions: Vec::new(), returning: None, with: None }
    }

    /// Writes the statement.
    #[verifier::spinoff_prover]
    pub fn write(&self, w: &mut SqlWriter)
        requires
            old(w).wf(),
        ensures
            wrote(*old(w), *final(w), delete_pieces(*self)),
    {
        let ghost w0 = *w;
        match &self.with {
            Some(with) => {
                write_with(w, with);
                w.push_char(' ');
            },
            None => {},
        }
        w.push_str("DELETE ");
        match &self.table {
            Some(t) => {
                w.push_str("FROM ");
                write_table_ref(w, t);
            },
            None => {},
        }
        assert(w.pieces() =~= w0.pieces() + (with_prefix(self.with) + text("DELETE "@)
            + delete_table_pieces(self.table)));
        let ghost w1 = *w;
        write_conditions(w, " WHERE ", &self.conditions);
        let ghost w2 = *w;
        proof {
            lemma_wrote_chain(
                w0,
                w1,
                w2,
                with_prefix(self.with) + text("DELETE "@) + delete_table_pieces(self.table),
                conditions_pieces(" WHERE "@, self.conditions@),
            );
        }
        write_returning(w, &self.returning);
        proof {
            lemma_wrote_chain(
                w0,
                w2,
                *w,
                with_prefix(self.with) + text("DELETE "@) + delete_table_pieces(self.table)
                    + conditions_pieces(" WHERE "@, self.conditions@),
                opt_returning_pieces(self.returning),
            );
        }
    }

    /// The SQL text, values inlined as literals.
    pub fn to_sql(&self) -> (r: String)
        ensures
            r@ == inline_text(delete_pieces(*self)),
    {
        let mut w = SqlWriter::inline();
        self.write(&mut w);
        assert(w.pieces() =~= delete_pieces(*self));
        w.into_sql()
    }

    /// The SQL text with `$n` placeholders, and the values they stand for.
    pub fn to_values(&self) -> (r: SqlWriterValues)
        ensures
            r.sql@ == parameterized_text(delete_pieces(*self)),
            values_model(r.values@) == params_of(delete_pieces(*self)),
    {
        let mut w = SqlWriter::parameterized();
        self.write(&mut w);
        assert(w.pieces() =~= delete_pieces(*self));
        w.into_values()
    }

    /// The table to delete from.
    pub fn from_table<T: IntoTableRef>(self, table: T) -> (r: Delete)
        ensures
            r.conditions == self.conditions,
            r.returning == self.returning,
            r.with == self.with,
            r.table is Some,
            table.converts_to_table_ref(r.table->0),
    {
        Delete { table: Some(table.into_table_ref()), ..self }
    }

    /// Adds a condition to `WHERE`; the conditions are joined by `AND`.
    pub fn and_where<T: IntoExpr>(self, expr: T) -> (r: Delete)
        ensures
            r == (Delete { conditions: r.conditions, ..self }),
            r.conditions@.len() == self.conditions@.len() + 1,
            r.conditions@.drop_last() == self.conditions@,
            expr.converts_to_expr(r.conditions@.last()),
    {
        let mut d = self;
        let ghost start = d.conditions@;
        d.conditions.push(expr.into_expr());
        assert(d.conditions@.drop_last() =~= start);
        d
    }

    /// Sets the `RETURNING` clause.
    pub fn returning(self, returning_cols: Returning) -> (r: Delete)
        ensures
            r == (Delete { returning: Some(returning_cols), ..self }),
    {
        Delete { returning: Some(returning_cols), ..self }
    }

    /// Sets the `WITH` clause.
    pub fn with(self, with: With) -> (r: Delete)
        ensures
            r == (Delete { with: Some(with), ..self }),
    {
        Delete { with: Some(with), ..self }
    }
}

} // verus!
