//! `DROP INDEX`.
use vstd::prelude::*;
use vstd::string::*;
use crate::render::{behavior_pieces, joined_texts, text, write_drop_tail};
use crate::table::drop::{table_name_strings, table_name_texts};
use crate::types::{DropBehavior, MaybeQualifiedTwice, TableName, table_name_parts};
use crate::writer::{Piece, SqlWriter, SqlWriterValues, inline_text, params_of, parameterized_text};

verus! {

/// A `DROP INDEX` statement.
#[derive(Debug)]
pub struct DropIndex {
    pub indexes: Vec<TableName>,
    pub concurrently: bool,
    pub if_exists: bool,
    pub behavior: Option<DropBehavior>,
}

/// The pieces of a `DROP INDEX` statement.
pub open spec fn drop_index_pieces(d: DropIndex) -> Seq<Piece> {
    text("DROP INDEX "@) + (if d.concurrently {
        text("CONCURRENTLY "@)
    } else {
        Seq::empty()
    }) + (if d.if_exists {
        text("IF EXISTS "@)
    } else {
        Seq::empty()
    }) + joined_texts(table_name_texts(d.indexes@)) + behavior_pieces(d.behavior)
}

impl DropIndex {
    /// A new `DROP INDEX` of no indexes yet.
    pub fn new() -> (r: DropIndex)
        ensures
            r.indexes@.len() == 0,
            !r.concurrently,
            !r.if_exists,
            r.behavior is None,
    {
        DropIndex { indexes: Vec::new(), concurrently: false, if_exists: false, behavior: None }
    }

    fn write(&self, w: &mut SqlWriter)
        requires
            old(w).wf(),
        ensures
            final(w).wf(),
            final(w).is_parameterized() == old(w).is_parameterized(),
            final(w).pieces() == old(w).pieces() + drop_index_pieces(*self),
    {
        let ghost p0 = w.pieces();
        w.push_str("DROP INDEX ");
        if self.concurrently {
            w.push_str("CONCURRENTLY ");
        }
        if self.if_exists {
            w.push_str("IF EXISTS ");
        }
        let names = table_name_strings(&self.indexes);
        write_drop_tail(w, &names, self.behavior);
        assert(w.pieces() =~= p0 + drop_index_pieces(*self));
    }

    /// The SQL text.
    pub fn to_sql(&self) -> (r: String)
        ensures
            r@ == inline_text(drop_index_pieces(*self)),
    {
        let mut w = SqlWriter::inline();
        self.write(&mut w);
        assert(w.pieces() =~= drop_index_pieces(*self));
        w.into_sql()
    }

    /// The SQL text and its (here, no) values.
    pub fn to_values(&self) -> (r: SqlWriterValues)
        ensures
            r.sql@ == parameterized_text(drop_index_pieces(*self)),
            crate::value::values_model(r.values@) == params_of(drop_index_pieces(*self)),
    {
        let mut w = SqlWriter::parameterized();
        self.write(&mut w);
        assert(w.pieces() =~= drop_index_pieces(*self));
        w.into_values()
    }

    /// Adds an index to drop.
    pub fn index<T: MaybeQualifiedTwice>(self, index: T) -> (r: DropIndex)
        ensures
            r.concurrently == self.concurrently,
            r.if_exists == self.if_exists,
            r.behavior == self.behavior,
            r.indexes@.len() == self.indexes@.len() + 1,
            r.indexes@.drop_last() == self.indexes@,
            table_name_parts(r.indexes@.last()) == index.parts_twice(),
    {
        let mut d = self;
        let ghost start = d.indexes@;
        d.indexes.push(TableName::from_parts(index));
        assert(d.indexes@.drop_last() =~= start);
        d
    }

    /// Adds indexes to drop, in order.
    pub fn indexes<T: MaybeQualifiedTwice>(self, indexes: Vec<T>) -> (r: DropIndex)
        ensures
            r.concurrently == self.concurrently,
            r.if_exists == self.if_exists,
            r.behavior == self.behavior,
            r.indexes@.len() == self.indexes@.len() + indexes@.len(),
            r.indexes@.take(self.indexes@.len() as int) == self.indexes@,
            forall|i: int|
                0 <= i < indexes@.len() ==> table_name_parts(
                    #[trigger] r.indexes@[self.indexes@.len() + i],
                ) == indexes@[i].parts_twice(),
    {
        let ghost orig = indexes@;
        let mut d = self;
        let ghost start = d.indexes@;
        let mut rest = indexes;
        let total = rest.len();
        let mut i: usize = 0;
        while rest.len() > 0
            invariant
                orig.len() == total,
                i + rest@.len() == orig.len(),
                rest@ == orig.subrange(i as int, orig.len() as int),
                d.indexes@.len() == start.len() + i,
                d.indexes@.take(start.len() as int) == start,
                d.concurrently == self.concurrently,
                d.if_exists == self.if_exists,
                d.behavior == self.behavior,
                forall|j: int|
                    0 <= j < i ==> table_name_parts(#[trigger] d.indexes@[start.len() + j])
                        == orig[j].parts_twice(),
            decreases rest@.len(),
        {
            let t = rest.remove(0);
            assert(t == orig[i as int]);
            d.indexes.push(TableName::from_parts(t));
            assert(d.indexes@.take(start.len() as int) =~= start);
            i = i + 1;
        }
        d
    }

    /// `IF EXISTS`.
    pub fn if_exists(self) -> (r: DropIndex)
        ensures
            r == (DropIndex { if_exists: true, ..self }),
    {
        DropIndex { if_exists: true, ..self }
    }

    /// `CONCURRENTLY`.
    pub fn concurrently(self) -> (r: DropIndex)
        ensures
            r == (DropIndex { concurrently: true, ..self }),
    {
        DropIndex { concurrently: true, ..self }
    }

    /// `CASCADE`.
    pub fn cascade(self) -> (r: DropIndex)
        ensures
            r == (DropIndex { behavior: Some(DropBehavior::Cascade), ..self }),
    {
        DropIndex { behavior: Some(DropBehavior::Cascade), ..self }
    }

    /// `RESTRICT`.
    pub fn restrict(self) -> (r: DropIndex)
        ensures
            r == (DropIndex { behavior: Some(DropBehavior::Restrict), ..self }),
    {
        DropIndex { behavior: Some(DropBehavior::Restrict), ..self }
    }
}

} // verus!
