//! `DROP TABLE`.
use vstd::prelude::*;
use vstd::string::*;
use crate::render::{behavior_pieces, joined_texts, strings_view, text, write_drop_tail};
use crate::types::{
    DropBehavior, MaybeQualifiedTwice, TableName, push_table_name, qualified_text,
    table_name_parts,
};
use crate::writer::{Piece, SqlWriter, SqlWriterValues, inline_text, params_of, parameterized_text};

verus! {

/// A `DROP TABLE` statement.
#[derive(Debug)]
pub struct DropTable {
    pub tables: Vec<TableName>,
    pub if_exists: bool,
    pub behavior: Option<DropBehavior>,
}

/// The quoted, qualified texts of table names.
pub open spec fn table_name_texts(ts: Seq<TableName>) -> Seq<Seq<char>> {
    ts.map_values(|t: TableName| qualified_text(table_name_parts(t)))
}

/// The pieces of a `DROP TABLE` statement.
pub open spec fn drop_table_pieces(d: DropTable) -> Seq<Piece> {
    text("DROP TABLE "@) + (if d.if_exists {
        text("IF EXISTS "@)
    } else {
        Seq::empty()
    }) + joined_texts(table_name_texts(d.tables@)) + behavior_pieces(d.behavior)
}

/// The texts of the table names, in order.
pub fn table_name_strings(ts: &Vec<TableName>) -> (r: Vec<String>)
    ensures
        strings_view(r@) == table_name_texts(ts@),
{
    let mut out: Vec<String> = Vec::new();
    let mut i: usize = 0;
    while i < ts.len()
        invariant
            i <= ts@.len(),
            out@.len() == i,
            forall|j: int| 0 <= j < i ==> #[trigger] out@[j]@ == qualified_text(table_name_parts(ts@[j])),
        decreases ts@.len() - i,
    {
        let mut s = String::new();
        push_table_name(&mut s, &ts[i]);
        assert(s@ =~= qualified_text(table_name_parts(ts@[i as int])));
        out.push(s);
        i = i + 1;
    }
    assert(strings_view(out@) =~= table_name_texts(ts@));
    out
}

impl DropTable {
    /// A new `DROP TABLE` of no tables yet.
    pub fn new() -> (r: DropTable)
        ensures
            r.tables@.len() == 0,
            !r.if_exists,
            r.behavior is None,
    {
        DropTable { tables: Vec::new(), if_exists: false, behavior: None }
    }

    fn write(&self, w: &mut SqlWriter)
        requires
            old(w).wf(),
        ensures
            final(w).wf(),
            final(w).is_parameterized() == old(w).is_parameterized(),
            final(w).pieces() == old(w).pieces() + drop_table_pieces(*self),
    {
        let ghost p0 = w.pieces();
        w.push_str("DROP TABLE ");
        if self.if_exists {
            w.push_str("IF EXISTS ");
        }
        let names = table_name_strings(&self.tables);
        write_drop_tail(w, &names, self.behavior);
        assert(w.pieces() =~= p0 + drop_table_pieces(*self));
    }

    /// The SQL text.
    pub fn to_sql(&self) -> (r: String)
        ensures
            r@ == inline_text(drop_table_pieces(*self)),
    {
        let mut w = SqlWriter::inline();
        self.write(&mut w);
        assert(w.pieces() =~= drop_table_pieces(*self));
        w.into_sql()
    }

    /// The SQL text and its (here, no) values.
    pub fn to_values(&self) -> (r: SqlWriterValues)
        ensures
            r.sql@ == parameterized_text(drop_table_pieces(*self)),
            crate::value::values_model(r.values@) == params_of(drop_table_pieces(*self)),
    {
        let mut w = SqlWriter::parameterized();
        self.write(&mut w);
        assert(w.pieces() =~= drop_table_pieces(*self));
        w.into_values()
    }

    /// Adds a table to drop.
    pub fn table<T: MaybeQualifiedTwice>(self, table: T) -> (r: DropTable)
        ensures
            r.if_exists == self.if_exists,
            r.behavior == self.behavior,
            r.tables@.len() == self.tables@.len() + 1,
            r.tables@.drop_last() == self.tables@,
            table_name_parts(r.tables@.last()) == table.parts_twice(),
    {
        let mut d = self;
        let ghost start = d.tables@;
        d.tables.push(TableName::from_parts(table));
        assert(d.tables@.drop_last() =~= start);
        d
    }

    /// Adds tables to drop, in order.
    pub fn tables<T: MaybeQualifiedTwice>(self, tables: Vec<T>) -> (r: DropTable)
        ensures
            r.if_exists == self.if_exists,
            r.behavior == self.behavior,
            r.tables@.len() == self.tables@.len() + tables@.len(),
            r.tables@.take(self.tables@.len() as int) == self.tables@,
            forall|i: int|
                0 <= i < tables@.len() ==> table_name_parts(
                    #[trigger] r.tables@[self.tables@.len() + i],
                ) == tables@[i].parts_twice(),
    {
        let ghost orig = tables@;
        let mut d = self;
        let ghost start = d.tables@;
        let mut rest = tables;
        let total = rest.len();
        let mut i: usize = 0;
        while rest.len() > 0
            invariant
                orig.len() == total,
                i + rest@.len() == orig.len(),
                rest@ == orig.subrange(i as int, orig.len() as int),
                d.tables@.len() == start.len() + i,
                d.tables@.take(start.len() as int) == start,
                d.if_exists == self.if_exists,
                d.behavior == self.behavior,
                forall|j: int|
                    0 <= j < i ==> table_name_parts(#[trigger] d.tables@[start.len() + j])
                        == orig[j].parts_twice(),
            decreases rest@.len(),
        {
            let t = rest.remove(0);
            assert(t == orig[i as int]);
            d.tables.push(TableName::from_parts(t));
            assert(d.tables@.take(start.len() as int) =~= start);
            i = i + 1;
        }
        d
    }

    /// `IF EXISTS`.
    pub fn if_exists(self) -> (r: DropTable)
        ensures
            r == (DropTable { if_exists: true, ..self }),
    {
        DropTable { if_exists: true, ..self }
    }

    /// `CASCADE`.
    pub fn cascade(self) -> (r: DropTable)
        ensures
            r == (DropTable { behavior: Some(DropBehavior::Cascade), ..self }),
    {
        DropTable { behavior: Some(DropBehavior::Cascade), ..self }
    }

    /// `RESTRICT`.
    pub fn restrict(self) -> (r: DropTable)
        ensures
            r == (DropTable { behavior: Some(DropBehavior::Restrict), ..self }),
    {
        DropTable { behavior: Some(DropBehavior::Restrict), ..self }
    }
}

} // verus!
