//! `DROP SCHEMA`.
use vstd::prelude::*;
use vstd::string::*;
use crate::render::{behavior_pieces, joined_texts, strings_view, text, write_drop_tail};
use crate::types::{
    DropBehavior, MaybeQualifiedOnce, SchemaName, push_schema_name, qualified_text,
    schema_name_parts,
};
use crate::writer::{Piece, SqlWriter, SqlWriterValues, inline_text, params_of, parameterized_text};

verus! {

/// A `DROP SCHEMA` statement.
#[derive(Debug)]
pub struct DropSchema {
    pub schemas: Vec<SchemaName>,
    pub if_exists: bool,
    pub behavior: Option<DropBehavior>,
}

/// The quoted, qualified texts of schema names.
pub open spec fn schema_name_texts(ts: Seq<SchemaName>) -> Seq<Seq<char>> {
    ts.map_values(|t: SchemaName| qualified_text(schema_name_parts(t)))
}

/// The pieces of a `DROP SCHEMA` statement.
pub open spec fn drop_schema_pieces(d: DropSchema) -> Seq<Piece> {
    text("DROP SCHEMA "@) + (if d.if_exists {
        text("IF EXISTS "@)
    } else {
        Seq::empty()
    }) + joined_texts(schema_name_texts(d.schemas@)) + behavior_pieces(d.behavior)
}

/// The texts of the schema names, in order.
pub fn schema_name_strings(ts: &Vec<SchemaName>) -> (r: Vec<String>)
    ensures
        strings_view(r@) == schema_name_texts(ts@),
{
    let mut out: Vec<String> = Vec::new();
    let mut i: usize = 0;
    while i < ts.len()
        invariant
            i <= ts@.len(),
            out@.len() == i,
            forall|j: int| 0 <= j < i ==> #[trigger] out@[j]@ == qualified_text(schema_name_parts(ts@[j])),
        decreases ts@.len() - i,
    {
        let mut s = String::new();
        push_schema_name(&mut s, &ts[i]);
        assert(s@ =~= qualified_text(schema_name_parts(ts@[i as int])));
        out.push(s);
        i = i + 1;
    }
    assert(strings_view(out@) =~= schema_name_texts(ts@));
    out
}

impl DropSchema {
    /// A new `DROP SCHEMA` of no schemas yet.
    pub fn new() -> (r: DropSchema)
        ensures
            r.schemas@.len() == 0,
            !r.if_exists,
            r.behavior is None,
    {
        DropSchema { schemas: Vec::new(), if_exists: false, behavior: None }
    }

    fn write(&self, w: &mut SqlWriter)
        requires
            old(w).wf(),
        ensures
            final(w).wf(),
            final(w).is_parameterized() == old(w).is_parameterized(),
            final(w).pieces() == old(w).pieces() + drop_schema_pieces(*self),
    {
        let ghost p0 = w.pieces();
        w.push_str("DROP SCHEMA ");
        if self.if_exists {
            w.push_str("IF EXISTS ");
        }
        let names = schema_name_strings(&self.schemas);
        write_drop_tail(w, &names, self.behavior);
        assert(w.pieces() =~= p0 + drop_schema_pieces(*self));
    }

    /// The SQL text.
    pub fn to_sql(&self) -> (r: String)
        ensures
            r@ == inline_text(drop_schema_pieces(*self)),
    {
        let mut w = SqlWriter::inline();
        self.write(&mut w);
        assert(w.pieces() =~= drop_schema_pieces(*self));
        w.into_sql()
    }

    /// The SQL text and its (here, no) values.
    pub fn to_values(&self) -> (r: SqlWriterValues)
        ensures
            r.sql@ == parameterized_text(drop_schema_pieces(*self)),
            crate::value::values_model(r.values@) == params_of(drop_schema_pieces(*self)),
    {
        let mut w = SqlWriter::parameterized();
        self.write(&mut w);
        assert(w.pieces() =~= drop_schema_pieces(*self));
        w.into_values()
    }

    /// Adds a schema to drop.
    pub fn schema<T: MaybeQualifiedOnce>(self, schema: T) -> (r: DropSchema)
        ensures
            r.if_exists == self.if_exists,
            r.behavior == self.behavior,
            r.schemas@.len() == self.schemas@.len() + 1,
            r.schemas@.drop_last() == self.schemas@,
            schema_name_parts(r.schemas@.last()) == schema.parts_once(),
    {
        let mut d = self;
        let ghost start = d.schemas@;
        d.schemas.push(SchemaName::from_parts(schema));
        assert(d.schemas@.drop_last() =~= start);
        d
    }

    /// Adds schemas to drop, in order.
    pub fn schemas<T: MaybeQualifiedOnce>(self, schemas: Vec<T>) -> (r: DropSchema)
        ensures
            r.if_exists == self.if_exists,
            r.behavior == self.behavior,
            r.schemas@.len() == self.schemas@.len() + schemas@.len(),
            r.schemas@.take(self.schemas@.len() as int) == self.schemas@,
            forall|i: int|
                0 <= i < schemas@.len() ==> schema_name_parts(
                    #[trigger] r.schemas@[self.schemas@.len() + i],
                ) == schemas@[i].parts_once(),
    {
        let ghost orig = schemas@;
        let mut d = self;
        let ghost start = d.schemas@;
        let mut rest = schemas;
        let total = rest.len();
        let mut i: usize = 0;
        while rest.len() > 0
            invariant
                orig.len() == total,
                i + rest@.len() == orig.len(),
                rest@ == orig.subrange(i as int, orig.len() as int),
                d.schemas@.len() == start.len() + i,
                d.schemas@.take(start.len() as int) == start,
                d.if_exists == self.if_exists,
                d.behavior == self.behavior,
                forall|j: int|
                    0 <= j < i ==> schema_name_parts(#[trigger] d.schemas@[start.len() + j])
                        == orig[j].parts_once(),
            decreases rest@.len(),
        {
            let t = rest.remove(0);
            assert(t == orig[i as int]);
            d.schemas.push(SchemaName::from_parts(t));
            assert(d.schemas@.take(start.len() as int) =~= start);
            i = i + 1;
        }
        d
    }

    /// `IF EXISTS`.
    pub fn if_exists(self) -> (r: DropSchema)
        ensures
            r == (DropSchema { if_exists: true, ..self }),
    {
        DropSchema { if_exists: true, ..self }
    }

    /// `CASCADE`.
    pub fn cascade(self) -> (r: DropSchema)
        ensures
            r == (DropSchema { behavior: Some(DropBehavior::Cascade), ..self }),
    {
        DropSchema { behavior: Some(DropBehavior::Cascade), ..self }
    }

    /// `RESTRICT`.
    pub fn restrict(self) -> (r: DropSchema)
        ensures
            r == (DropSchema { behavior: Some(DropBehavior::Restrict), ..self }),
    {
        DropSchema { behavior: Some(DropBehavior::Restrict), ..self }
    }
}

} // verus!
