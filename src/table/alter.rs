//! `ALTER TABLE` statements.
use vstd::prelude::*;

use crate::render::{expr_pieces, table_ref_pieces, text, text_if, write_expr, write_table_ref, write_text_if};
use crate::table::column::{
    ColumnDef, column_head, column_spec_pieces, column_type_text, push_column_type,
    write_column_def,
};
use crate::types::{Iden, IntoIden, IntoTableRef, TableRef, push_iden, quote_iden};
use crate::value::values_model;
use crate::writer::{Piece, SqlWriter, SqlWriterValues, inline_text, lemma_wrote_chain, parameterized_text, params_of, wrote};

verus! {

/// Adding a column.
#[derive(Debug, PartialEq)]
pub struct AddColumnOption {
    pub column: ColumnDef,
    pub if_not_exists: bool,
}

/// Dropping a column.
#[derive(Debug, PartialEq)]
pub struct DropColumnOption {
    pub column: Iden,
    pub if_exists: bool,
}

/// One change of an `ALTER TABLE`.
#[derive(Debug, PartialEq)]
pub enum TableAlterOption {
    AddColumn(AddColumnOption),
    ModifyColumn(ColumnDef),
    RenameColumn(Iden, Iden),
    DropColumn(DropColumnOption),
}

/// An `ALTER TABLE` statement.
#[derive(Debug, PartialEq)]
pub struct AlterTable {
    pub table: Option<TableRef>,
    pub options: Vec<TableAlterOption>,
}

/// Pieces joined by `, `.
pub open spec fn joined_segments(segs: Seq<Seq<Piece>>) -> Seq<Piece>
    decreases segs.len(),
{
    if segs.len() == 0 {
        Seq::empty()
    } else if segs.len() == 1 {
        segs[0]
    } else {
        joined_segments(segs.drop_last()) + text(", "@) + segs.last()
    }
}

/// `ALTER COLUMN "name"`.
pub open spec fn alter_column(c: ColumnDef) -> Seq<Piece> {
    text("ALTER COLUMN "@) + text(quote_iden(c.name@))
}

/// The changes a modified column stands for, in their fixed order: its type,
/// its nullability, its default, uniqueness and primary key.
pub open spec fn modify_segments(c: ColumnDef) -> Seq<Seq<Piece>> {
    (match c.ty {
        Some(t) => seq![alter_column(c) + text(" TYPE "@) + text(column_type_text(t))],
        None => Seq::empty(),
    }) + (match c.spec.nullable {
        Some(true) => seq![alter_column(c) + text(" DROP NOT NULL"@)],
        Some(false) => seq![alter_column(c) + text(" SET NOT NULL"@)],
        None => Seq::empty(),
    }) + (match c.spec.default {
        Some(d) => seq![alter_column(c) + text(" SET DEFAULT "@) + expr_pieces(d)],
        None => Seq::empty(),
    }) + (if c.spec.unique {
        seq![text("ADD UNIQUE ("@) + text(quote_iden(c.name@)) + text(")"@)]
    } else {
        Seq::empty()
    }) + (if c.spec.primary_key {
        seq![text("ADD PRIMARY KEY ("@) + text(quote_iden(c.name@)) + text(")"@)]
    } else {
        Seq::empty()
    })
}

/// The pieces of one change.
pub open spec fn alter_option_pieces(o: TableAlterOption) -> Seq<Piece> {
    match o {
        TableAlterOption::AddColumn(a) => text("ADD COLUMN "@) + text_if(
            a.if_not_exists,
            "IF NOT EXISTS "@,
        ) + column_head(a.column) + column_spec_pieces(a.column.spec),
        TableAlterOption::ModifyColumn(c) => joined_segments(modify_segments(c)),
        TableAlterOption::RenameColumn(from, to) => text("RENAME COLUMN "@) + text(
            quote_iden(from@),
        ) + text(" TO "@) + text(quote_iden(to@)),
        TableAlterOption::DropColumn(d) => text("DROP COLUMN "@) + text_if(
            d.if_exists,
            "IF EXISTS "@,
        ) + text(quote_iden(d.column@)),
    }
}

/// The changes, joined by `, `.
pub open spec fn alter_options(os: Seq<TableAlterOption>) -> Seq<Piece>
    decreases os.len(),
{
    if os.len() == 0 {
        Seq::empty()
    } else if os.len() == 1 {
        alter_option_pieces(os[0])
    } else {
        alter_options(os.drop_last()) + text(", "@) + alter_option_pieces(os.last())
    }
}

/// The pieces of an `ALTER TABLE` statement.
pub open spec fn alter_table_pieces(a: AlterTable) -> Seq<Piece> {
    alter_table_head(a) + alter_options(a.options@)
}

/// `ALTER TABLE` and the table.
pub open spec fn alter_table_head(a: AlterTable) -> Seq<Piece> {
    text("ALTER TABLE "@) + match a.table {
        Some(t) => table_ref_pieces(t) + text(seq![' ']),
        None => Seq::empty(),
    }
}

proof fn lemma_joined_push(segs: Seq<Seq<Piece>>, s: Seq<Piece>)
    ensures
        joined_segments(segs.push(s)) == joined_segments(segs) + (if segs.len() > 0 {
            text(", "@)
        } else {
            Seq::empty()
        }) + s,
{
    assert(segs.push(s).drop_last() =~= segs);
    if segs.len() == 0 {
        assert(joined_segments(segs) =~= Seq::<Piece>::empty());
        assert(Seq::<Piece>::empty() + Seq::<Piece>::empty() + s =~= s);
    }
}

fn write_iden_text(w: &mut SqlWriter, i: &Iden)
    requires
        old(w).wf(),
    ensures
        wrote(*old(w), *final(w), text(quote_iden(i@))),
{
    let ghost p0 = w.pieces();
    let mut s = String::new();
    push_iden(&mut s, i);
    assert(s@ =~= quote_iden(i@));
    w.push_str(s.as_str());
    assert(w.pieces() =~= p0 + text(quote_iden(i@)));
}

/// Writes `, ` before a segment that is not the first.
fn write_separator(w: &mut SqlWriter, first: bool)
    requires
        old(w).wf(),
    ensures
        wrote(*old(w), *final(w), if !first { text(", "@) } else { Seq::empty() }),
{
    let ghost p0 = w.pieces();
    if !first {
        w.push_str(", ");
    }
    assert(w.pieces() =~= p0 + if !first { text(", "@) } else { Seq::<Piece>::empty() });
}

/// The column's type change, if it has a type.
pub open spec fn type_segments(c: ColumnDef) -> Seq<Seq<Piece>> {
    match c.ty {
        Some(t) => seq![alter_column(c) + text(" TYPE "@) + text(column_type_text(t))],
        None => Seq::empty(),
    }
}

/// The column's nullability change, if given.
pub open spec fn null_segments(c: ColumnDef) -> Seq<Seq<Piece>> {
    match c.spec.nullable {
        Some(true) => seq![alter_column(c) + text(" DROP NOT NULL"@)],
        Some(false) => seq![alter_column(c) + text(" SET NOT NULL"@)],
        None => Seq::empty(),
    }
}

/// The column's default change, if given.
pub open spec fn default_segments(c: ColumnDef) -> Seq<Seq<Piece>> {
    match c.spec.default {
        Some(d) => seq![alter_column(c) + text(" SET DEFAULT "@) + expr_pieces(d)],
        None => Seq::empty(),
    }
}

/// A constraint over the column, if asked for.
pub open spec fn constraint_segments(on: bool, keyword: Seq<char>, c: ColumnDef) -> Seq<Seq<Piece>> {
    if on {
        seq![text(keyword) + text(quote_iden(c.name@)) + text(")"@)]
    } else {
        Seq::empty()
    }
}

/// Writing one more optional segment after `segs`.
pub open spec fn segment_step(
    before: SqlWriter,
    after: SqlWriter,
    base: Seq<Piece>,
    segs: Seq<Seq<Piece>>,
    more: Seq<Seq<Piece>>,
) -> bool {
    &&& after.wf()
    &&& after.is_parameterized() == before.is_parameterized()
    &&& after.pieces() == base + joined_segments(segs + more)
}

proof fn lemma_segment(
    v: SqlWriter,
    v1: SqlWriter,
    w: SqlWriter,
    base: Seq<Piece>,
    segs: Seq<Seq<Piece>>,
    s: Seq<Piece>,
)
    requires
        v.pieces() == base + joined_segments(segs),
        wrote(v, v1, if segs.len() > 0 { text(", "@) } else { Seq::empty() }),
        wrote(v1, w, s),
    ensures
        segment_step(v, w, base, segs, seq![s]),
{
    lemma_joined_push(segs, s);
    assert(segs + seq![s] =~= segs.push(s));
    assert(w.pieces() =~= base + joined_segments(segs.push(s)));
}

fn write_type_segment(w: &mut SqlWriter, c: &ColumnDef, first: bool, base: Ghost<Seq<Piece>>, segs: Ghost<Seq<Seq<Piece>>>)
    requires
        old(w).wf(),
        old(w).pieces() == base@ + joined_segments(segs@),
        first == (segs@.len() == 0),
    ensures
        segment_step(*old(w), *final(w), base@, segs@, type_segments(*c)),
{
    match &c.ty {
        Some(t) => {
            let ghost v = *w;
            write_separator(w, first);
            let ghost v1 = *w;
            w.push_str("ALTER COLUMN ");
            write_iden_text(w, &c.name);
            w.push_str(" TYPE ");
            let mut ts = String::new();
            push_column_type(&mut ts, t);
            assert(ts@ =~= column_type_text(*t));
            w.push_str(ts.as_str());
            let ghost s = alter_column(*c) + text(" TYPE "@) + text(column_type_text(*t));
            assert(w.pieces() =~= v1.pieces() + s);
            proof {
                lemma_segment(v, v1, *w, base@, segs@, s);
            }
        },
        None => {
            assert(segs@ + type_segments(*c) =~= segs@);
        },
    }
}

fn write_null_segment(w: &mut SqlWriter, c: &ColumnDef, first: bool, base: Ghost<Seq<Piece>>, segs: Ghost<Seq<Seq<Piece>>>)
    requires
        old(w).wf(),
        old(w).pieces() == base@ + joined_segments(segs@),
        first == (segs@.len() == 0),
    ensures
        segment_step(*old(w), *final(w), base@, segs@, null_segments(*c)),
{
    match c.spec.nullable {
        Some(nullable) => {
            let ghost v = *w;
            write_separator(w, first);
            let ghost v1 = *w;
            w.push_str("ALTER COLUMN ");
            write_iden_text(w, &c.name);
            if nullable {
                w.push_str(" DROP NOT NULL");
            } else {
                w.push_str(" SET NOT NULL");
            }
            let ghost s = alter_column(*c) + text(
                if nullable {
                    " DROP NOT NULL"@
                } else {
                    " SET NOT NULL"@
                },
            );
            assert(w.pieces() =~= v1.pieces() + s);
            proof {
                lemma_segment(v, v1, *w, base@, segs@, s);
            }
        },
        None => {
            assert(segs@ + null_segments(*c) =~= segs@);
        },
    }
}

fn write_default_segment(w: &mut SqlWriter, c: &ColumnDef, first: bool, base: Ghost<Seq<Piece>>, segs: Ghost<Seq<Seq<Piece>>>)
    requires
        old(w).wf(),
        old(w).pieces() == base@ + joined_segments(segs@),
        first == (segs@.len() == 0),
    ensures
        segment_step(*old(w), *final(w), base@, segs@, default_segments(*c)),
{
    match &c.spec.default {
        Some(d) => {
            let ghost v = *w;
            write_separator(w, first);
            let ghost v1 = *w;
            w.push_str("ALTER COLUMN ");
            write_iden_text(w, &c.name);
            w.push_str(" SET DEFAULT ");
            write_expr(w, d);
            let ghost s = alter_column(*c) + text(" SET DEFAULT "@) + expr_pieces(*d);
            assert(w.pieces() =~= v1.pieces() + s);
            proof {
                lemma_segment(v, v1, *w, base@, segs@, s);
            }
        },
        None => {
            assert(segs@ + default_segments(*c) =~= segs@);
        },
    }
}

fn write_constraint_segment(
    w: &mut SqlWriter,
    on: bool,
    keyword: &str,
    c: &ColumnDef,
    first: bool,
    base: Ghost<Seq<Piece>>,
    segs: Ghost<Seq<Seq<Piece>>>,
)
    requires
        old(w).wf(),
        old(w).pieces() == base@ + joined_segments(segs@),
        first == (segs@.len() == 0),
    ensures
        segment_step(*old(w), *final(w), base@, segs@, constraint_segments(on, keyword@, *c)),
{
    if on {
        let ghost v = *w;
        write_separator(w, first);
        let ghost v1 = *w;
        w.push_str(keyword);
        write_iden_text(w, &c.name);
        w.push_str(")");
        let ghost s = text(keyword@) + text(quote_iden(c.name@)) + text(")"@);
        assert(w.pieces() =~= v1.pieces() + s);
        proof {
            lemma_segment(v, v1, *w, base@, segs@, s);
        }
    } else {
        assert(segs@ + constraint_segments(on, keyword@, *c) =~= segs@);
    }
}

#[verifier::spinoff_prover]
fn write_modify_column(w: &mut SqlWriter, c: &ColumnDef)
    requires
        old(w).wf(),
    ensures
        wrote(*old(w), *final(w), joined_segments(modify_segments(*c))),
{
    let ghost base = w.pieces();
    let ghost s0: Seq<Seq<Piece>> = Seq::empty();
    assert(w.pieces() =~= base + joined_segments(s0));
    write_type_segment(w, c, true, Ghost(base), Ghost(s0));
    let ghost s1 = s0 + type_segments(*c);
    let first = c.ty.is_none();
    write_null_segment(w, c, first, Ghost(base), Ghost(s1));
    let ghost s2 = s1 + null_segments(*c);
    let first = first && c.spec.nullable.is_none();
    write_default_segment(w, c, first, Ghost(base), Ghost(s2));
    let ghost s3 = s2 + default_segments(*c);
    let first = first && c.spec.default.is_none();
    write_constraint_segment(w, c.spec.unique, "ADD UNIQUE (", c, first, Ghost(base), Ghost(s3));
    let ghost s4 = s3 + constraint_segments(c.spec.unique, "ADD UNIQUE ("@, *c);
    let first = first && !c.spec.unique;
    write_constraint_segment(w, c.spec.primary_key, "ADD PRIMARY KEY (", c, first, Ghost(base), Ghost(s4));
    let ghost s5 = s4 + constraint_segments(c.spec.primary_key, "ADD PRIMARY KEY ("@, *c);
    assert(s5 =~= modify_segments(*c));
}

#[verifier::spinoff_prover]
fn write_alter_option(w: &mut SqlWriter, o: &TableAlterOption)
    requires
        old(w).wf(),
    ensures
        wrote(*old(w), *final(w), alter_option_pieces(*o)),
{
    let ghost p0 = w.pieces();
    match o {
        TableAlterOption::AddColumn(a) => {
            w.push_str("ADD COLUMN ");
            write_text_if(w, a.if_not_exists, "IF NOT EXISTS ");
            write_column_def(w, &a.column);
            assert(w.pieces() =~= p0 + alter_option_pieces(*o));
        },
        TableAlterOption::ModifyColumn(c) => {
            write_modify_column(w, c);
        },
        TableAlterOption::RenameColumn(from, to) => {
            w.push_str("RENAME COLUMN ");
            write_iden_text(w, from);
            w.push_str(" TO ");
            write_iden_text(w, to);
            assert(w.pieces() =~= p0 + alter_option_pieces(*o));
        },
        TableAlterOption::DropColumn(d) => {
            w.push_str("DROP COLUMN ");
            write_text_if(w, d.if_exists, "IF EXISTS ");
            write_iden_text(w, &d.column);
            assert(w.pieces() =~= p0 + alter_option_pieces(*o));
        },
    }
}

impl AlterTable {
    /// An `ALTER TABLE` of no table and no changes yet.
    pub fn new() -> (r: AlterTable)
        ensures
            r.table is None,
            r.options@.len() == 0,
    {
        AlterTable { table: None, options: Vec::new() }
    }

    /// Writes the statement.
    #[verifier::spinoff_prover]
    pub fn write(&self, w: &mut SqlWriter)
        requires
            old(w).wf(),
        ensures
            wrote(*old(w), *final(w), alter_table_pieces(*self)),
    {
        let ghost w0 = *w;
        w.push_str("ALTER TABLE ");
        match &self.table {
            Some(t) => {
                write_table_ref(w, t);
                w.push_char(' ');
            },
            None => {},
        }
        let ghost head = alter_table_head(*self);
        assert(w.pieces() =~= w0.pieces() + head);
        let ghost w1 = *w;
        let mut i: usize = 0;
        while i < self.options.len()
            invariant
                i <= self.options@.len(),
                wrote(w1, *w, alter_options(self.options@.subrange(0, i as int))),
            decreases self.options@.len() - i,
        {
            if i > 0 {
                w.push_str(", ");
            }
            write_alter_option(w, &self.options[i]);
            proof {
                let s1 = self.options@.subrange(0, i + 1);
                assert(s1.drop_last() =~= self.options@.subrange(0, i as int));
                if i == 0 {
                    assert(self.options@.subrange(0, 0) =~= Seq::<TableAlterOption>::empty());
                }
                assert(w.pieces() =~= w1.pieces() + alter_options(s1));
            }
            i = i + 1;
        }
        assert(self.options@.subrange(0, self.options@.len() as int) =~= self.options@);
        proof {
            lemma_wrote_chain(w0, w1, *w, head, alter_options(self.options@));
        }
    }

    /// The SQL text, values inlined as literals.
    pub fn to_sql(&self) -> (r: String)
        ensures
            r@ == inline_text(alter_table_pieces(*self)),
    {
        let mut w = SqlWriter::inline();
        self.write(&mut w);
        assert(w.pieces() =~= alter_table_pieces(*self));
        w.into_sql()
    }

    /// The SQL text with `$n` placeholders, and the values they stand for.
    pub fn to_values(&self) -> (r: SqlWriterValues)
        ensures
            r.sql@ == parameterized_text(alter_table_pieces(*self)),
            values_model(r.values@) == params_of(alter_table_pieces(*self)),
    {
        let mut w = SqlWriter::parameterized();
        self.write(&mut w);
        assert(w.pieces() =~= alter_table_pieces(*self));
        w.into_values()
    }

    /// The table to alter.
    pub fn table<R: IntoTableRef>(self, table: R) -> (r: AlterTable)
        ensures
            r.options == self.options,
            r.table is Some,
            table.converts_to_table_ref(r.table->0),
    {
        AlterTable { table: Some(table.into_table_ref()), ..self }
    }

    /// Adds a column.
    pub fn add_column(self, column_def: ColumnDef) -> (r: AlterTable)
        ensures
            r.table == self.table,
            r.options@ == self.options@.push(
                TableAlterOption::AddColumn(AddColumnOption { column: column_def, if_not_exists: false }),
            ),
    {
        let mut a = self;
        a.options.push(
            TableAlterOption::AddColumn(AddColumnOption { column: column_def, if_not_exists: false }),
        );
        a
    }

    /// Changes a column's type and constraints to those given.
    pub fn modify_column(self, column_def: ColumnDef) -> (r: AlterTable)
        ensures
            r.table == self.table,
            r.options@ == self.options@.push(TableAlterOption::ModifyColumn(column_def)),
    {
        let mut a = self;
        a.options.push(TableAlterOption::ModifyColumn(column_def));
        a
    }

    /// Drops a column.
    pub fn drop_column<T: IntoIden>(self, col: T) -> (r: AlterTable)
        ensures
            r.table == self.table,
            r.options@.len() == self.options@.len() + 1,
            r.options@.drop_last() == self.options@,
            r.options@.last() is DropColumn,
            r.options@.last()->DropColumn_0.column@ == col.iden_name(),
            !r.options@.last()->DropColumn_0.if_exists,
    {
        let mut a = self;
        let ghost start = a.options@;
        a.options.push(
            TableAlterOption::DropColumn(DropColumnOption { column: col.into_iden(), if_exists: false }),
        );
        assert(a.options@.drop_last() =~= start);
        a
    }

    /// Renames a column.
    pub fn rename_column<T: IntoIden, R: IntoIden>(self, from_name: T, to_name: R) -> (r: AlterTable)
        ensures
            r.table == self.table,
            r.options@.len() == self.options@.len() + 1,
            r.options@.drop_last() == self.options@,
            r.options@.last() is RenameColumn,
            r.options@.last()->RenameColumn_0@ == from_name.iden_name(),
            r.options@.last()->RenameColumn_1@ == to_name.iden_name(),
    {
        let mut a = self;
        let ghost start = a.options@;
        a.options.push(TableAlterOption::RenameColumn(from_name.into_iden(), to_name.into_iden()));
        assert(a.options@.drop_last() =~= start);
        a
    }
}

} // verus!
