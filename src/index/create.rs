//! `CREATE INDEX`, and the index parts of `CREATE TABLE`.
use vstd::prelude::*;
use vstd::string::*;
use crate::expr::{Expr, IntoExpr};
use crate::render::{
    expr_pieces, iden_list, table_ref_pieces, text, text_if, write_text_if, write_expr, write_iden_list, write_table_ref,
};
use crate::types::{
    Iden, IntoIden, IntoTableRef, TableRef, column_ref_parts, push_iden, quote_iden,
};
use crate::value::values_model;
use crate::writer::{
    Piece, SqlWriter, SqlWriterValues, inline_text, lemma_wrote_chain, parameterized_text,
    params_of, wrote,
};

verus! {

/// Index access methods.
#[derive(Debug, Clone, PartialEq, Eq)]
pub enum IndexMethod {
    Btree,
    Hash,
    Gist,
    Brin,
    Custom(String),
}

impl IndexMethod {
    /// A method of another name, written as it is.
    pub fn custom(method: &str) -> (r: IndexMethod)
        ensures
            r is Custom,
            r->Custom_0@ == method@,
    {
        IndexMethod::Custom(method.to_owned())
    }
}

/// The name of an index method.
pub open spec fn index_method_text(m: IndexMethod) -> Seq<char> {
    match m {
        IndexMethod::Btree => "btree"@,
        IndexMethod::Hash => "hash"@,
        IndexMethod::Gist => "gist"@,
        IndexMethod::Brin => "brin"@,
        IndexMethod::Custom(s) => s@,
    }
}

/// A storage parameter of an index: `name = value`.
#[derive(Debug, PartialEq)]
pub struct IndexOption {
    pub name: Iden,
    pub value: Expr,
}

impl IndexOption {
    /// The parameter `name = value`.
    pub fn new<N: IntoIden, V: IntoExpr>(name: N, value: V) -> (r: IndexOption)
        ensures
            r.name@ == name.iden_name(),
            value.converts_to_expr(r.value),
    {
        IndexOption { name: name.into_iden(), value: value.into_expr() }
    }
}

/// A `CREATE INDEX` statement, or an index of a `CREATE TABLE`.
#[derive(Debug, PartialEq)]
pub struct CreateIndex {
    pub table: Option<TableRef>,
    pub concurrently: bool,
    pub if_not_exists: bool,
    pub primary: bool,
    pub unique: bool,
    pub name: Option<Iden>,
    pub columns: Vec<Expr>,
    pub include_columns: Vec<Iden>,
    pub method: Option<IndexMethod>,
    pub options: Vec<IndexOption>,
    pub predicate: Option<Expr>,
}

/// One indexed column or expression; operations go in parentheses.
pub open spec fn index_column_pieces(e: Expr) -> Seq<Piece> {
    if e is Binary || e is Unary {
        text(seq!['(']) + expr_pieces(e) + text(seq![')'])
    } else {
        expr_pieces(e)
    }
}

/// The indexed columns, joined by `, `.
pub open spec fn index_column_list(cs: Seq<Expr>) -> Seq<Piece>
    decreases cs.len(),
{
    if cs.len() == 0 {
        Seq::empty()
    } else if cs.len() == 1 {
        index_column_pieces(cs[0])
    } else {
        index_column_list(cs.drop_last()) + text(", "@) + index_column_pieces(cs.last())
    }
}

/// `INCLUDE (..)`, or nothing for no columns.
pub open spec fn include_pieces(cols: Seq<Iden>) -> Seq<Piece> {
    if cols.len() == 0 {
        Seq::empty()
    } else {
        text(" INCLUDE ("@) + iden_list(cols) + text(")"@)
    }
}

/// One storage parameter.
pub open spec fn option_pieces(o: IndexOption) -> Seq<Piece> {
    text(quote_iden(o.name@)) + text(" = "@) + expr_pieces(o.value)
}

/// The storage parameters, joined by `, `.
pub open spec fn option_list(os: Seq<IndexOption>) -> Seq<Piece>
    decreases os.len(),
{
    if os.len() == 0 {
        Seq::empty()
    } else if os.len() == 1 {
        option_pieces(os[0])
    } else {
        option_list(os.drop_last()) + text(", "@) + option_pieces(os.last())
    }
}

/// `WITH (..)`, or nothing for no parameters.
pub open spec fn options_pieces(os: Seq<IndexOption>) -> Seq<Piece> {
    if os.len() == 0 {
        Seq::empty()
    } else {
        text(" WITH ("@) + option_list(os) + text(")"@)
    }
}

/// The columns, included columns and parameters of an index.
pub open spec fn index_body(i: CreateIndex) -> Seq<Piece> {
    text("("@) + index_column_list(i.columns@) + text(")"@) + include_pieces(i.include_columns@)
        + options_pieces(i.options@)
}

/// `CREATE INDEX`, its flags, the name and `ON`.
pub open spec fn create_index_flags(i: CreateIndex) -> Seq<Piece> {
    text("CREATE INDEX "@) + text_if(i.primary, "PRIMARY KEY "@) + text_if(i.unique, "UNIQUE "@)
        + text_if(i.concurrently, "CONCURRENTLY "@) + text_if(i.if_not_exists, "IF NOT EXISTS "@)
        + name_pieces(i.name) + text("ON "@)
}

/// The quoted index name and a space, or nothing.
pub open spec fn name_pieces(n: Option<Iden>) -> Seq<Piece> {
    match n {
        Some(n) => text(quote_iden(n@)) + text(seq![' ']),
        None => Seq::empty(),
    }
}

/// The table, the method and a space after them when either is given.
pub open spec fn create_index_target(i: CreateIndex) -> Seq<Piece> {
    (match i.table {
        Some(t) => table_ref_pieces(t),
        None => Seq::empty(),
    }) + match i.method {
        Some(m) => text(" USING "@) + text(index_method_text(m)),
        None => Seq::empty(),
    } + if i.table is Some || i.method is Some {
        text(seq![' '])
    } else {
        Seq::empty()
    }
}

/// Everything of a `CREATE INDEX` up to the columns.
pub open spec fn create_index_head(i: CreateIndex) -> Seq<Piece> {
    create_index_flags(i) + create_index_target(i)
}

/// The pieces of a `CREATE INDEX` statement.
pub open spec fn create_index_pieces(i: CreateIndex) -> Seq<Piece> {
    create_index_head(i) + index_body(i) + predicate_pieces(i.predicate)
}

/// ` WHERE` and the predicate of a partial index, or nothing.
pub open spec fn predicate_pieces(p: Option<Expr>) -> Seq<Piece> {
    match p {
        Some(p) => text(" WHERE "@) + expr_pieces(p),
        None => Seq::empty(),
    }
}

/// The pieces of an index inside `CREATE TABLE`.
pub open spec fn table_index_pieces(i: CreateIndex) -> Seq<Piece> {
    (if i.primary {
        text("PRIMARY KEY "@)
    } else {
        Seq::empty()
    }) + (if i.unique {
        text("UNIQUE "@)
    } else {
        Seq::empty()
    }) + index_body(i)
}

#[verifier::spinoff_prover]
fn write_index_columns(w: &mut SqlWriter, cs: &Vec<Expr>)
    requires
        old(w).wf(),
    ensures
        wrote(*old(w), *final(w), index_column_list(cs@)),
{
    let ghost p0 = w.pieces();
    let mut i: usize = 0;
    while i < cs.len()
        invariant
            i <= cs@.len(),
            wrote(*old(w), *w, index_column_list(cs@.subrange(0, i as int))),
            p0 == old(w).pieces(),
        decreases cs@.len() - i,
    {
        if i > 0 {
            w.push_str(", ");
        }
        let c = &cs[i];
        let ghost q = w.pieces();
        match c {
            Expr::Binary(_, _, _) | Expr::Unary(_, _) => {
                w.push_char('(');
                write_expr(w, c);
                w.push_char(')');
            },
            _ => write_expr(w, c),
        }
        assert(w.pieces() =~= q + index_column_pieces(*c));
        proof {
            let s1 = cs@.subrange(0, i + 1);
            assert(s1.drop_last() =~= cs@.subrange(0, i as int));
            if i == 0 {
                assert(cs@.subrange(0, 0) =~= Seq::<Expr>::empty());
            }
            assert(w.pieces() =~= p0 + index_column_list(s1));
        }
        i = i + 1;
    }
    assert(cs@.subrange(0, cs@.len() as int) =~= cs@);
}

#[verifier::spinoff_prover]
fn write_index_options(w: &mut SqlWriter, os: &Vec<IndexOption>)
    requires
        old(w).wf(),
    ensures
        wrote(*old(w), *final(w), option_list(os@)),
{
    let ghost p0 = w.pieces();
    let mut i: usize = 0;
    while i < os.len()
        invariant
            i <= os@.len(),
            wrote(*old(w), *w, option_list(os@.subrange(0, i as int))),
            p0 == old(w).pieces(),
        decreases os@.len() - i,
    {
        if i > 0 {
            w.push_str(", ");
        }
        let o = &os[i];
        let mut s = String::new();
        push_iden(&mut s, &o.name);
        assert(s@ =~= quote_iden(o.name@));
        w.push_str(s.as_str());
        w.push_str(" = ");
        write_expr(w, &o.value);
        proof {
            let s1 = os@.subrange(0, i + 1);
            assert(s1.drop_last() =~= os@.subrange(0, i as int));
            if i == 0 {
                assert(os@.subrange(0, 0) =~= Seq::<IndexOption>::empty());
            }
            assert(w.pieces() =~= p0 + option_list(s1));
        }
        i = i + 1;
    }
    assert(os@.subrange(0, os@.len() as int) =~= os@);
}

/// Writes the columns, included columns and parameters of an index.
#[verifier::spinoff_prover]
fn write_index_body(w: &mut SqlWriter, i: &CreateIndex)
    requires
        old(w).wf(),
    ensures
        wrote(*old(w), *final(w), index_body(*i)),
{
    let ghost p0 = w.pieces();
    w.push_str("(");
    write_index_columns(w, &i.columns);
    w.push_str(")");
    let ghost p1 = w.pieces();
    if i.include_columns.len() > 0 {
        w.push_str(" INCLUDE (");
        write_iden_list(w, &i.include_columns);
        w.push_str(")");
    }
    assert(w.pieces() =~= p1 + include_pieces(i.include_columns@));
    let ghost p2 = w.pieces();
    if i.options.len() > 0 {
        w.push_str(" WITH (");
        write_index_options(w, &i.options);
        w.push_str(")");
    }
    assert(w.pieces() =~= p2 + options_pieces(i.options@));
    assert(w.pieces() =~= p0 + index_body(*i));
}

fn write_index_method(w: &mut SqlWriter, m: &IndexMethod)
    requires
        old(w).wf(),
    ensures
        wrote(*old(w), *final(w), text(index_method_text(*m))),
{
    let ghost p0 = w.pieces();
    match m {
        IndexMethod::Btree => w.push_str("btree"),
        IndexMethod::Hash => w.push_str("hash"),
        IndexMethod::Gist => w.push_str("gist"),
        IndexMethod::Brin => w.push_str("brin"),
        IndexMethod::Custom(name) => w.push_str(name.as_str()),
    }
    assert(w.pieces() =~= p0 + text(index_method_text(*m)));
}

#[verifier::spinoff_prover]
fn write_create_index_target(w: &mut SqlWriter, i: &CreateIndex)
    requires
        old(w).wf(),
    ensures
        wrote(*old(w), *final(w), create_index_target(*i)),
{
    let ghost p0 = w.pieces();
    match &i.table {
        Some(t) => write_table_ref(w, t),
        None => {},
    }
    match &i.method {
        Some(m) => {
            w.push_str(" USING ");
            write_index_method(w, m);
        },
        None => {},
    }
    if i.table.is_some() || i.method.is_some() {
        w.push_char(' ');
    }
    assert(w.pieces() =~= p0 + create_index_target(*i));
}

#[verifier::spinoff_prover]
fn write_create_index_head(w: &mut SqlWriter, i: &CreateIndex)
    requires
        old(w).wf(),
    ensures
        wrote(*old(w), *final(w), create_index_head(*i)),
{
    let ghost w0 = *w;
    w.push_str("CREATE INDEX ");
    let ghost w1 = *w;
    write_text_if(w, i.primary, "PRIMARY KEY ");
    let ghost w2 = *w;
    write_text_if(w, i.unique, "UNIQUE ");
    let ghost w3 = *w;
    write_text_if(w, i.concurrently, "CONCURRENTLY ");
    let ghost w4 = *w;
    write_text_if(w, i.if_not_exists, "IF NOT EXISTS ");
    let ghost w5 = *w;
    match &i.name {
        Some(n) => {
            let mut s = String::new();
            push_iden(&mut s, n);
            assert(s@ =~= quote_iden(n@));
            w.push_str(s.as_str());
            w.push_char(' ');
        },
        None => {},
    }
    assert(w.pieces() =~= w5.pieces() + name_pieces(i.name));
    let ghost w6 = *w;
    w.push_str("ON ");
    let ghost w7 = *w;
    proof {
        let a = text("CREATE INDEX "@);
        let b = text_if(i.primary, "PRIMARY KEY "@);
        let c = text_if(i.unique, "UNIQUE "@);
        let d = text_if(i.concurrently, "CONCURRENTLY "@);
        let e = text_if(i.if_not_exists, "IF NOT EXISTS "@);
        lemma_wrote_chain(w0, w1, w2, a, b);
        lemma_wrote_chain(w0, w2, w3, a + b, c);
        lemma_wrote_chain(w0, w3, w4, a + b + c, d);
        lemma_wrote_chain(w0, w4, w5, a + b + c + d, e);
        lemma_wrote_chain(w0, w5, w6, a + b + c + d + e, name_pieces(i.name));
        lemma_wrote_chain(w0, w6, w7, a + b + c + d + e + name_pieces(i.name), text("ON "@));
    }
    write_create_index_target(w, i);
    proof {
        lemma_wrote_chain(w0, w7, *w, create_index_flags(*i), create_index_target(*i));
    }
}

/// Writes an index as it stands inside `CREATE TABLE`.
#[verifier::spinoff_prover]
pub fn write_table_index(w: &mut SqlWriter, i: &CreateIndex)
    requires
        old(w).wf(),
    ensures
        wrote(*old(w), *final(w), table_index_pieces(*i)),
{
    let ghost w0 = *w;
    if i.primary {
        w.push_str("PRIMARY KEY ");
    }
    if i.unique {
        w.push_str("UNIQUE ");
    }
    let ghost head = (if i.primary {
        text("PRIMARY KEY "@)
    } else {
        Seq::empty()
    }) + (if i.unique {
        text("UNIQUE "@)
    } else {
        Seq::empty()
    });
    assert(w.pieces() =~= w0.pieces() + head);
    let ghost w1 = *w;
    write_index_body(w, i);
    proof {
        lemma_wrote_chain(w0, w1, *w, head, index_body(*i));
    }
}

impl CreateIndex {
    /// A `CREATE INDEX` of nothing yet.
    pub fn new() -> (r: CreateIndex)
        ensures
            r.table is None,
            !r.concurrently && !r.if_not_exists && !r.primary && !r.unique,
            r.name is None,
            r.columns@.len() == 0,
            r.include_columns@.len() == 0,
            r.method is None,
            r.options@.len() == 0,
            r.predicate is None,
    {
        CreateIndex {
            table: None,
            concurrently: false,
            if_not_exists: false,
            primary: false,
            unique: false,
            name: None,
            columns: Vec::new(),
            include_columns: Vec::new(),
            method: None,
            options: Vec::new(),
            predicate: None,
        }
    }

    /// Writes the statement.
    #[verifier::spinoff_prover]
    pub fn write(&self, w: &mut SqlWriter)
        requires
            old(w).wf(),
        ensures
            wrote(*old(w), *final(w), create_index_pieces(*self)),
    {
        let ghost w0 = *w;
        write_create_index_head(w, self);
        let ghost w1 = *w;
        write_index_body(w, self);
        let ghost w2 = *w;
        proof {
            lemma_wrote_chain(w0, w1, w2, create_index_head(*self), index_body(*self));
        }
        match &self.predicate {
            Some(p) => {
                w.push_str(" WHERE ");
                write_expr(w, p);
            },
            None => {},
        }
        let ghost tail = predicate_pieces(self.predicate);
        assert(w.pieces() =~= w2.pieces() + tail);
        proof {
            lemma_wrote_chain(w0, w2, *w, create_index_head(*self) + index_body(*self), tail);
        }
    }

    /// The SQL text, values inlined as literals.
    pub fn to_sql(&self) -> (r: String)
        ensures
            r@ == inline_text(create_index_pieces(*self)),
    {
        let mut w = SqlWriter::inline();
        self.write(&mut w);
        assert(w.pieces() =~= create_index_pieces(*self));
        w.into_sql()
    }

    /// The SQL text with `$n` placeholders, and the values they stand for.
    pub fn to_values(&self) -> (r: SqlWriterValues)
        ensures
            r.sql@ == parameterized_text(create_index_pieces(*self)),
            values_model(r.values@) == params_of(create_index_pieces(*self)),
    {
        let mut w = SqlWriter::parameterized();
        self.write(&mut w);
        assert(w.pieces() =~= create_index_pieces(*self));
        w.into_values()
    }

    /// The table the index is on.
    pub fn table<T: IntoTableRef>(self, table: T) -> (r: CreateIndex)
        ensures
            r.table is Some,
            table.converts_to_table_ref(r.table->0),
            r == (CreateIndex { table: r.table, ..self }),
    {
        CreateIndex { table: Some(table.into_table_ref()), ..self }
    }

    /// The index's name.
    pub fn name<N: IntoIden>(self, name: N) -> (r: CreateIndex)
        ensures
            r.name is Some,
            r.name->0@ == name.iden_name(),
            r == (CreateIndex { name: r.name, ..self }),
    {
        CreateIndex { name: Some(name.into_iden()), ..self }
    }

    /// Adds an indexed column.
    pub fn column<T: IntoIden>(self, column: T) -> (r: CreateIndex)
        ensures
            r == (CreateIndex { columns: r.columns, ..self }),
            r.columns@.len() == self.columns@.len() + 1,
            r.columns@.drop_last() == self.columns@,
            r.columns@.last() is Column,
            column_ref_parts(r.columns@.last()->Column_0) == (seq![column.iden_name()], false),
    {
        let mut s = self;
        let ghost start = s.columns@;
        s.columns.push(Expr::column(column.into_iden()));
        assert(s.columns@.drop_last() =~= start);
        s
    }

    /// Adds an indexed expression.
    pub fn expr<E: IntoExpr>(self, expr: E) -> (r: CreateIndex)
        ensures
            r == (CreateIndex { columns: r.columns, ..self }),
            r.columns@.len() == self.columns@.len() + 1,
            r.columns@.drop_last() == self.columns@,
            expr.converts_to_expr(r.columns@.last()),
    {
        let mut s = self;
        let ghost start = s.columns@;
        s.columns.push(expr.into_expr());
        assert(s.columns@.drop_last() =~= start);
        s
    }

    /// Adds an included (non-key) column.
    pub fn include_column<T: IntoIden>(self, column: T) -> (r: CreateIndex)
        ensures
            r == (CreateIndex { include_columns: r.include_columns, ..self }),
            r.include_columns@.len() == self.include_columns@.len() + 1,
            r.include_columns@.drop_last() == self.include_columns@,
            r.include_columns@.last()@ == column.iden_name(),
    {
        let mut s = self;
        let ghost start = s.include_columns@;
        s.include_columns.push(column.into_iden());
        assert(s.include_columns@.drop_last() =~= start);
        s
    }

    /// Adds included (non-key) columns, in order.
    pub fn include_columns<C: IntoIden>(self, columns: Vec<C>) -> (r: CreateIndex)
        ensures
            r == (CreateIndex { include_columns: r.include_columns, ..self }),
            r.include_columns@.len() == self.include_columns@.len() + columns@.len(),
            r.include_columns@.take(self.include_columns@.len() as int) == self.include_columns@,
            forall|i: int|
                0 <= i < columns@.len() ==> #[trigger] r.include_columns@[self.include_columns@.len()
                    + i]@ == columns@[i].iden_name(),
    {
        let ghost orig = columns@;
        let mut s = self;
        let ghost start = s.include_columns@;
        let mut rest = columns;
        let total = rest.len();
        let mut i: usize = 0;
        while rest.len() > 0
            invariant
                orig.len() == total,
                i + rest@.len() == orig.len(),
                rest@ == orig.subrange(i as int, orig.len() as int),
                s.include_columns@.len() == start.len() + i,
                s.include_columns@.take(start.len() as int) == start,
                s == (CreateIndex { include_columns: s.include_columns, ..self }),
                forall|j: int|
                    0 <= j < i ==> #[trigger] s.include_columns@[start.len() + j]@
                        == orig[j].iden_name(),
            decreases rest@.len(),
        {
            let c = rest.remove(0);
            assert(c == orig[i as int]);
            s.include_columns.push(c.into_iden());
            assert(s.include_columns@.take(start.len() as int) =~= start);
            i = i + 1;
        }
        s
    }

    /// A primary-key index.
    pub fn primary(self) -> (r: CreateIndex)
        ensures
            r == (CreateIndex { primary: true, ..self }),
    {
        CreateIndex { primary: true, ..self }
    }

    /// A unique index.
    pub fn unique(self) -> (r: CreateIndex)
        ensures
            r == (CreateIndex { unique: true, ..self }),
    {
        CreateIndex { unique: true, ..self }
    }

    /// `IF NOT EXISTS`.
    pub fn if_not_exists(self) -> (r: CreateIndex)
        ensures
            r == (CreateIndex { if_not_exists: true, ..self }),
    {
        CreateIndex { if_not_exists: true, ..self }
    }

    /// `CONCURRENTLY`.
    pub fn concurrently(self) -> (r: CreateIndex)
        ensures
            r == (CreateIndex { concurrently: true, ..self }),
    {
        CreateIndex { concurrently: true, ..self }
    }

    /// The access method.
    pub fn using(self, method: IndexMethod) -> (r: CreateIndex)
        ensures
            r == (CreateIndex { method: Some(method), ..self }),
    {
        CreateIndex { method: Some(method), ..self }
    }

    /// `USING gist`.
    pub fn gist(self) -> (r: CreateIndex)
        ensures
            r == (CreateIndex { method: Some(IndexMethod::Gist), ..self }),
    {
        CreateIndex { method: Some(IndexMethod::Gist), ..self }
    }

    /// `USING brin`.
    pub fn brin(self) -> (r: CreateIndex)
        ensures
            r == (CreateIndex { method: Some(IndexMethod::Brin), ..self }),
    {
        CreateIndex { method: Some(IndexMethod::Brin), ..self }
    }

    /// `USING hash`.
    pub fn hash(self) -> (r: CreateIndex)
        ensures
            r == (CreateIndex { method: Some(IndexMethod::Hash), ..self }),
    {
        CreateIndex { method: Some(IndexMethod::Hash), ..self }
    }

    /// Adds a storage parameter `name = value`.
    pub fn with_option<N: IntoIden, V: IntoExpr>(self, name: N, value: V) -> (r: CreateIndex)
        ensures
            r == (CreateIndex { options: r.options, ..self }),
            r.options@.len() == self.options@.len() + 1,
            r.options@.drop_last() == self.options@,
            r.options@.last().name@ == name.iden_name(),
            value.converts_to_expr(r.options@.last().value),
    {
        let mut s = self;
        let ghost start = s.options@;
        s.options.push(IndexOption::new(name, value));
        assert(s.options@.drop_last() =~= start);
        s
    }

    /// Adds storage parameters, in order.
    pub fn with_options(self, options: Vec<IndexOption>) -> (r: CreateIndex)
        ensures
            r == (CreateIndex { options: r.options, ..self }),
            r.options@ == self.options@ + options@,
    {
        let mut s = self;
        let mut o = options;
        s.options.append(&mut o);
        s
    }

    /// The predicate of a partial index.
    pub fn index_where<E: IntoExpr>(self, expr: E) -> (r: CreateIndex)
        ensures
            r.predicate is Some,
            expr.converts_to_expr(r.predicate->0),
            r == (CreateIndex { predicate: r.predicate, ..self }),
    {
        CreateIndex { predicate: Some(expr.into_expr()), ..self }
    }
}

} // verus!
