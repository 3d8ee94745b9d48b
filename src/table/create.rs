//! `CREATE TABLE` statements.
use vstd::prelude::*;
use crate::index::create::{CreateIndex, table_index_pieces, write_table_index};
use crate::render::{table_ref_pieces, text, text_if, write_table_ref, write_text_if};
use crate::table::column::{ColumnDef, column_def_pieces, write_column_def};
use crate::types::{IntoTableRef, TableRef};
use crate::value::values_model;
use crate::writer::{
    Piece, SqlWriter, SqlWriterValues, inline_text, lemma_wrote_chain, parameterized_text,
    params_of, wrote,
};

verus! {

/// A `CREATE TABLE` statement.
#[derive(Debug, PartialEq)]
pub struct CreateTable {
    pub table: Option<TableRef>,
    pub columns: Vec<ColumnDef>,
    pub indexes: Vec<CreateIndex>,
    pub if_not_exists: bool,
    pub temporary: bool,
}

/// The column definitions, joined by `, `.
pub open spec fn column_defs(cs: Seq<ColumnDef>) -> Seq<Piece>
    decreases cs.len(),
{
    if cs.len() == 0 {
        Seq::empty()
    } else if cs.len() == 1 {
        column_def_pieces(cs[0])
    } else {
        column_defs(cs.drop_last()) + text(", "@) + column_def_pieces(cs.last())
    }
}

/// The table's indexes after its columns, each after `, ` unless it comes first.
pub open spec fn table_indexes(is: Seq<CreateIndex>, after_columns: bool) -> Seq<Piece>
    decreases is.len(),
{
    if is.len() == 0 {
        Seq::empty()
    } else {
        table_indexes(is.drop_last(), after_columns) + (if is.len() > 1 || after_columns {
            text(", "@)
        } else {
            Seq::empty()
        }) + table_index_pieces(is.last())
    }
}

/// Everything of a `CREATE TABLE` before its columns.
pub open spec fn create_table_head(t: CreateTable) -> Seq<Piece> {
    text("CREATE "@) + text_if(t.temporary, "TEMPORARY "@) + text("TABLE "@) + text_if(
        t.if_not_exists,
        "IF NOT EXISTS "@,
    ) + match t.table {
        Some(r) => table_ref_pieces(r),
        None => Seq::empty(),
    } + text(" ( "@)
}

/// The pieces of a `CREATE TABLE` statement.
pub open spec fn create_table_pieces(t: CreateTable) -> Seq<Piece> {
    create_table_head(t) + column_defs(t.columns@) + table_indexes(t.indexes@, t.columns@.len() > 0)
        + text(" )"@)
}

#[verifier::spinoff_prover]
fn write_column_defs(w: &mut SqlWriter, cs: &Vec<ColumnDef>)
    requires
        old(w).wf(),
    ensures
        wrote(*old(w), *final(w), column_defs(cs@)),
{
    let ghost p0 = w.pieces();
    let mut i: usize = 0;
    while i < cs.len()
        invariant
            i <= cs@.len(),
            wrote(*old(w), *w, column_defs(cs@.subrange(0, i as int))),
            p0 == old(w).pieces(),
        decreases cs@.len() - i,
    {
        if i > 0 {
            w.push_str(", ");
        }
        write_column_def(w, &cs[i]);
        proof {
            let s1 = cs@.subrange(0, i + 1);
            assert(s1.drop_last() =~= cs@.subrange(0, i as int));
            if i == 0 {
                assert(cs@.subrange(0, 0) =~= Seq::<ColumnDef>::empty());
            }
            assert(w.pieces() =~= p0 + column_defs(s1));
        }
        i = i + 1;
    }
    assert(cs@.subrange(0, cs@.len() as int) =~= cs@);
}

#[verifier::spinoff_prover]
fn write_table_indexes(w: &mut SqlWriter, is: &Vec<CreateIndex>, after_columns: bool)
    requires
        old(w).wf(),
    ensures
        wrote(*old(w), *final(w), table_indexes(is@, after_columns)),
{
    let ghost p0 = w.pieces();
    let mut i: usize = 0;
    while i < is.len()
        invariant
            i <= is@.len(),
            wrote(*old(w), *w, table_indexes(is@.subrange(0, i as int), after_columns)),
            p0 == old(w).pieces(),
        decreases is@.len() - i,
    {
        if i > 0 || after_columns {
            w.push_str(", ");
        }
        write_table_index(w, &is[i]);
        proof {
            let s1 = is@.subrange(0, i + 1);
            assert(s1.drop_last() =~= is@.subrange(0, i as int));
            if i == 0 {
                assert(is@.subrange(0, 0) =~= Seq::<CreateIndex>::empty());
            }
            assert(w.pieces() =~= p0 + table_indexes(s1, after_columns));
        }
        i = i + 1;
    }
    assert(is@.subrange(0, is@.len() as int) =~= is@);
}

impl CreateTable {
    /// A `CREATE TABLE` of nothing yet.
    pub fn new() -> (r: CreateTable)
        ensures
            r.table is None,
            r.columns@.len() == 0,
            r.indexes@.len() == 0,
            !r.if_not_exists,
            !r.temporary,
    {
        CreateTable {
            table: None,
            columns: Vec::new(),
            indexes: Vec::new(),
            if_not_exists: false,
            temporary: false,
        }
    }

    /// Writes the statement.
    #[verifier::spinoff_prover]
    pub fn write(&self, w: &mut SqlWriter)
        requires
            old(w).wf(),
        ensures
            wrote(*old(w), *final(w), create_table_pieces(*self)),
    {
        let ghost w0 = *w;
        w.push_str("CREATE ");
        write_text_if(w, self.temporary, "TEMPORARY ");
        w.push_str("TABLE ");
        write_text_if(w, self.if_not_exists, "IF NOT EXISTS ");
        match &self.table {
            Some(t) => write_table_ref(w, t),
            None => {},
        }
        w.push_str(" ( ");
        assert(w.pieces() =~= w0.pieces() + create_table_head(*self));
        let ghost w1 = *w;
        write_column_defs(w, &self.columns);
        let ghost w2 = *w;
        write_table_indexes(w, &self.indexes, self.columns.len() > 0);
        let ghost w3 = *w;
        w.push_str(" )");
        proof {
            let a = create_table_head(*self);
            let b = column_defs(self.columns@);
            let c = table_indexes(self.indexes@, self.columns@.len() > 0);
            lemma_wrote_chain(w0, w1, w2, a, b);
            lemma_wrote_chain(w0, w2, w3, a + b, c);
            lemma_wrote_chain(w0, w3, *w, a + b + c, text(" )"@));
        }
    }

    /// The SQL text, values inlined as literals.
    pub fn to_sql(&self) -> (r: String)
        ensures
            r@ == inline_text(create_table_pieces(*self)),
    {
        let mut w = SqlWriter::inline();
        self.write(&mut w);
        assert(w.pieces() =~= create_table_pieces(*self));
        w.into_sql()
    }

    /// The SQL text with `$n` placeholders, and the values they stand for.
    pub fn to_values(&self) -> (r: SqlWriterValues)
        ensures
            r.sql@ == parameterized_text(create_table_pieces(*self)),
            values_model(r.values@) == params_of(create_table_pieces(*self)),
    {
        let mut w = SqlWriter::parameterized();
        self.write(&mut w);
        assert(w.pieces() =~= create_table_pieces(*self));
        w.into_values()
    }

    /// `IF NOT EXISTS`.
    pub fn if_not_exists(self) -> (r: CreateTable)
        ensures
            r == (CreateTable { if_not_exists: true, ..self }),
    {
        CreateTable { if_not_exists: true, ..self }
    }

    /// `TEMPORARY`.
    pub fn temporary(self) -> (r: CreateTable)
        ensures
            r == (CreateTable { temporary: true, ..self }),
    {
        CreateTable { temporary: true, ..self }
    }

    /// The table to create.
    pub fn table<T: IntoTableRef>(self, table: T) -> (r: CreateTable)
        ensures
            r.table is Some,
            table.converts_to_table_ref(r.table->0),
            r == (CreateTable { table: r.table, ..self }),
    {
        CreateTable { table: Some(table.into_table_ref()), ..self }
    }

    /// Adds a column.
    pub fn column(self, column: ColumnDef) -> (r: CreateTable)
        ensures
            r == (CreateTable { columns: r.columns, ..self }),
            r.columns@ == self.columns@.push(column),
    {
        let mut t = self;
        t.columns.push(column);
        t
    }

    /// Adds a primary key over the index's columns.
    pub fn primary_key(self, index: CreateIndex) -> (r: CreateTable)
        ensures
            r == (CreateTable { indexes: r.indexes, ..self }),
            r.indexes@ == self.indexes@.push(CreateIndex { primary: true, ..index }),
    {
        let mut t = self;
        t.indexes.push(index.primary());
        t
    }
}

} // verus!
