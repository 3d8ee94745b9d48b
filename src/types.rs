//! Identifiers, qualified names and their quoting.
use vstd::prelude::*;
use vstd::string::*;
use crate::text::push_char;
use crate::query::Select;

verus! {

/// A character that may start a bare identifier: an ASCII letter or `_`.
pub open spec fn is_iden_start(c: char) -> bool {
    c == '_' || (65 <= (c as u32) && (c as u32) <= 90) || (97 <= (c as u32) && (c as u32) <= 122)
}

/// A character that may follow in a bare identifier: also an ASCII digit.
pub open spec fn is_iden_char(c: char) -> bool {
    is_iden_start(c) || (48 <= (c as u32) && (c as u32) <= 57)
}

/// A bare identifier: nonempty, a letter or `_` first, then letters, digits and `_`.
pub open spec fn is_bare_iden(s: Seq<char>) -> bool {
    &&& s.len() > 0
    &&& is_iden_start(s[0])
    &&& forall|i: int| 1 <= i < s.len() ==> is_iden_char(#[trigger] s[i])
}

/// `s` with every `"` doubled.
pub open spec fn double_quotes(s: Seq<char>) -> Seq<char>
    decreases s.len(),
{
    if s.len() == 0 {
        Seq::empty()
    } else {
        double_quotes(s.drop_last()) + if s.last() == '"' {
            seq!['"', '"']
        } else {
            seq![s.last()]
        }
    }
}

/// The quoted form of an identifier: between double quotes, each `"` doubled.
pub open spec fn quote_iden(s: Seq<char>) -> Seq<char> {
    seq!['"'] + double_quotes(s) + seq!['"']
}

/// A name of several parts, outermost first, each quoted and joined by `.`.
pub open spec fn qualified_text(parts: Seq<Seq<char>>) -> Seq<char>
    decreases parts.len(),
{
    if parts.len() == 0 {
        Seq::empty()
    } else if parts.len() == 1 {
        quote_iden(parts[0])
    } else {
        qualified_text(parts.drop_last()) + seq!['.'] + quote_iden(parts.last())
    }
}

/// An identifier, with whether it is bare computed once.
#[derive(Debug, PartialEq, Eq, Hash)]
pub struct Iden {
    name: String,
    escaped: bool,
}

impl View for Iden {
    type V = Seq<char>;

    closed spec fn view(&self) -> Seq<char> {
        self.name@
    }
}

impl Clone for Iden {
    fn clone(&self) -> (r: Iden)
        ensures
            r@ == self@,
    {
        proof {
            use_type_invariant(self);
        }
        Iden { name: self.name.clone(), escaped: self.escaped }
    }
}

impl Iden {
    #[verifier::type_invariant]
    spec fn inv(self) -> bool {
        self.escaped == is_bare_iden(self.name@)
    }

    /// A new identifier.
    pub fn new(name: &str) -> (r: Iden)
        ensures
            r@ == name@,
    {
        let escaped = is_escaped_iden(name);
        Iden { name: name.to_owned(), escaped }
    }

    /// A new identifier from a static string.
    pub fn new_static(name: &'static str) -> (r: Iden)
        ensures
            r@ == name@,
    {
        Iden::new(name)
    }

    /// A new identifier that takes the string.
    pub fn from_string(name: String) -> (r: Iden)
        ensures
            r@ == name@,
    {
        let escaped = is_escaped_iden(name.as_str());
        Iden { name, escaped }
    }

    /// Whether the identifier is bare, so that quoting copies it as it is.
    pub fn is_escaped(&self) -> (r: bool)
        ensures
            r == is_bare_iden(self@),
    {
        proof {
            use_type_invariant(self);
        }
        self.escaped
    }

    /// The identifier's text.
    pub fn as_str(&self) -> (r: &str)
        ensures
            r@ == self@,
    {
        self.name.as_str()
    }
}

fn is_escaped_iden(s: &str) -> (r: bool)
    ensures
        r == is_bare_iden(s@),
{
    let n = s.unicode_len();
    if n == 0 {
        return false;
    }
    let first = s.get_char(0);
    let f = first as u32;
    if !(first == '_' || (65 <= f && f <= 90) || (97 <= f && f <= 122)) {
        return false;
    }
    let mut i: usize = 1;
    while i < n
        invariant
            n == s@.len(),
            1 <= i <= n,
            forall|j: int| 1 <= j < i ==> is_iden_char(#[trigger] s@[j]),
        decreases n - i,
    {
        let c = s.get_char(i);
        let u = c as u32;
        if !(c == '_' || (65 <= u && u <= 90) || (97 <= u && u <= 122) || (48 <= u && u <= 57)) {
            return false;
        }
        i = i + 1;
    }
    true
}

proof fn lemma_double_quotes_bare(s: Seq<char>)
    requires
        forall|i: int| 0 <= i < s.len() ==> s[i] != '"',
    ensures
        double_quotes(s) == s,
    decreases s.len(),
{
    if s.len() > 0 {
        lemma_double_quotes_bare(s.drop_last());
        assert(s.last() != '"');
        assert(double_quotes(s) =~= s);
    }
}

/// Appends the quoted form of an identifier.
pub fn push_iden(out: &mut String, iden: &Iden)
    ensures
        final(out)@ == old(out)@ + quote_iden(iden@),
{
    proof {
        use_type_invariant(iden);
    }
    push_char(out, '"');
    if iden.escaped {
        out.append(iden.name.as_str());
        proof {
            assert forall|i: int| 0 <= i < iden@.len() implies iden@[i] != '"' by {
                if i > 0 {
                    assert(is_iden_char(iden@[i]));
                }
            }
            lemma_double_quotes_bare(iden@);
        }
    } else {
        let s = iden.name.as_str();
        let n = s.unicode_len();
        let ghost start = out@;
        let mut i: usize = 0;
        while i < n
            invariant
                n == s@.len(),
                s@ == iden@,
                i <= n,
                out@ == start + double_quotes(s@.subrange(0, i as int)),
            decreases n - i,
        {
            let c = s.get_char(i);
            if c == '"' {
                push_char(out, '"');
            }
            push_char(out, c);
            proof {
                assert(s@.subrange(0, i + 1).drop_last() =~= s@.subrange(0, i as int));
            }
            i = i + 1;
        }
        assert(s@.subrange(0, n as int) =~= s@);
    }
    push_char(out, '"');
    assert(final(out)@ =~= old(out)@ + quote_iden(iden@));
}

/// The `*` of a select list, with no table before it.
#[derive(Debug, Clone, Copy, Default)]
pub struct Asterisk;

/// A database name.
#[derive(Debug, Clone, PartialEq, Eq, Hash)]
pub struct DatabaseName(pub Iden);

/// A schema name, maybe qualified: `(database.)schema`.
#[derive(Debug, Clone, PartialEq, Eq, Hash)]
pub struct SchemaName(pub Option<DatabaseName>, pub Iden);

/// A table name, maybe qualified: `(database.)(schema.)table`.
#[derive(Debug, Clone, PartialEq, Eq, Hash)]
pub struct TableName(pub Option<SchemaName>, pub Iden);

/// A column name, maybe qualified: `(database.)(schema.)(table.)column`.
#[derive(Debug, Clone, PartialEq, Eq, Hash)]
pub struct ColumnName(pub Option<TableName>, pub Iden);

/// The parts of a schema name, outermost first.
pub open spec fn schema_name_parts(s: SchemaName) -> Seq<Seq<char>> {
    match s.0 {
        Some(d) => seq![d.0@, s.1@],
        None => seq![s.1@],
    }
}

/// The parts of a table name, outermost first.
pub open spec fn table_name_parts(t: TableName) -> Seq<Seq<char>> {
    match t.0 {
        Some(s) => schema_name_parts(s).push(t.1@),
        None => seq![t.1@],
    }
}

/// The parts of a column name, outermost first.
pub open spec fn column_name_parts(c: ColumnName) -> Seq<Seq<char>> {
    match c.0 {
        Some(t) => table_name_parts(t).push(c.1@),
        None => seq![c.1@],
    }
}

/// A reference to a column, or to all columns (`*`) of a table or of the query.
#[derive(Debug, Clone, PartialEq)]
pub enum ColumnRef {
    Column(ColumnName),
    Asterisk(Option<TableName>),
}

/// The text of a column reference.
pub open spec fn column_ref_text(c: ColumnRef) -> Seq<char> {
    match c {
        ColumnRef::Column(n) => qualified_text(column_name_parts(n)),
        ColumnRef::Asterisk(Some(t)) => qualified_text(table_name_parts(t)) + seq!['.', '*'],
        ColumnRef::Asterisk(None) => seq!['*'],
    }
}

/// Appends the quoted schema name.
pub fn push_schema_name(out: &mut String, s: &SchemaName)
    ensures
        final(out)@ == old(out)@ + qualified_text(schema_name_parts(*s)),
{
    let ghost parts = schema_name_parts(*s);
    match &s.0 {
        Some(d) => {
            push_iden(out, &d.0);
            push_char(out, '.');
            assert(parts.drop_last() =~= seq![d.0@]);
            assert(qualified_text(seq![d.0@]) == quote_iden(d.0@));
        },
        None => {},
    }
    push_iden(out, &s.1);
    assert(final(out)@ =~= old(out)@ + qualified_text(parts));
}

/// Appends the quoted table name.
pub fn push_table_name(out: &mut String, t: &TableName)
    ensures
        final(out)@ == old(out)@ + qualified_text(table_name_parts(*t)),
{
    let ghost parts = table_name_parts(*t);
    match &t.0 {
        Some(s) => {
            push_schema_name(out, s);
            push_char(out, '.');
            assert(parts.drop_last() =~= schema_name_parts(*s));
            assert(parts.len() >= 2);
            assert(parts.last() == t.1@);
            assert(qualified_text(parts) == qualified_text(schema_name_parts(*s)) + seq!['.']
                + quote_iden(t.1@));
        },
        None => {},
    }
    push_iden(out, &t.1);
    assert(final(out)@ =~= old(out)@ + qualified_text(parts));
}

/// Appends the quoted column name.
pub fn push_column_name(out: &mut String, c: &ColumnName)
    ensures
        final(out)@ == old(out)@ + qualified_text(column_name_parts(*c)),
{
    let ghost parts = column_name_parts(*c);
    match &c.0 {
        Some(t) => {
            push_table_name(out, t);
            push_char(out, '.');
            assert(parts.drop_last() =~= table_name_parts(*t));
        },
        None => {},
    }
    push_iden(out, &c.1);
    assert(final(out)@ =~= old(out)@ + qualified_text(parts));
}

/// Appends the text of a column reference.
pub fn push_column_ref(out: &mut String, c: &ColumnRef)
    ensures
        final(out)@ == old(out)@ + column_ref_text(*c),
{
    match c {
        ColumnRef::Column(n) => push_column_name(out, n),
        ColumnRef::Asterisk(Some(t)) => {
            push_table_name(out, t);
            push_char(out, '.');
            push_char(out, '*');
        },
        ColumnRef::Asterisk(None) => push_char(out, '*'),
    }
    assert(final(out)@ =~= old(out)@ + column_ref_text(*c));
}

/// Values that convert into an identifier.
pub trait IntoIden: Sized {
    /// The name of the identifier that `self` converts into.
    spec fn iden_name(&self) -> Seq<char>;

    /// Convert into an identifier.
    fn into_iden(self) -> (r: Iden)
        ensures
            r@ == self.iden_name(),
    ;
}

impl IntoIden for Iden {
    open spec fn iden_name(&self) -> Seq<char> {
        self@
    }

    fn into_iden(self) -> (r: Iden) {
        self
    }
}

impl<'a> IntoIden for &'a str {
    open spec fn iden_name(&self) -> Seq<char> {
        (*self)@
    }

    fn into_iden(self) -> (r: Iden) {
        Iden::new(self)
    }
}

impl IntoIden for String {
    open spec fn iden_name(&self) -> Seq<char> {
        self@
    }

    fn into_iden(self) -> (r: Iden) {
        Iden::from_string(self)
    }
}

/// The parts of a name of one or two parts, outermost first.
pub open spec fn two_parts(r: (Option<Iden>, Iden)) -> Seq<Seq<char>> {
    match r.0 {
        Some(q) => seq![q@, r.1@],
        None => seq![r.1@],
    }
}

/// The parts of a name of one to three parts, outermost first.
pub open spec fn three_parts(r: (Option<(Option<Iden>, Iden)>, Iden)) -> Seq<Seq<char>> {
    match r.0 {
        Some(q) => two_parts(q).push(r.1@),
        None => seq![r.1@],
    }
}

/// A name that is unqualified (`foo`) or qualified once (`foo.bar`).
pub trait MaybeQualifiedOnce: Sized {
    /// The parts of the name, outermost first.
    spec fn parts_once(&self) -> Seq<Seq<char>>;

    /// The name as `(qualifier?, base)`.
    fn into_2_parts(self) -> (r: (Option<Iden>, Iden))
        ensures
            two_parts(r) == self.parts_once(),
    ;
}

impl<T: IntoIden> MaybeQualifiedOnce for T {
    open spec fn parts_once(&self) -> Seq<Seq<char>> {
        seq![self.iden_name()]
    }

    fn into_2_parts(self) -> (r: (Option<Iden>, Iden)) {
        (None, self.into_iden())
    }
}

impl<S: IntoIden, T: IntoIden> MaybeQualifiedOnce for (S, T) {
    open spec fn parts_once(&self) -> Seq<Seq<char>> {
        seq![self.0.iden_name(), self.1.iden_name()]
    }

    fn into_2_parts(self) -> (r: (Option<Iden>, Iden)) {
        let (qual, base) = self;
        (Some(qual.into_iden()), base.into_iden())
    }
}

/// A name that is unqualified, qualified once, or qualified twice (`foo.bar.baz`).
pub trait MaybeQualifiedTwice: Sized {
    /// The parts of the name, outermost first.
    spec fn parts_twice(&self) -> Seq<Seq<char>>;

    /// The name as `((outer?, middle)?, base)`.
    fn into_3_parts(self) -> (r: (Option<(Option<Iden>, Iden)>, Iden))
        ensures
            three_parts(r) == self.parts_twice(),
    ;
}

impl<T: MaybeQualifiedOnce> MaybeQualifiedTwice for T {
    open spec fn parts_twice(&self) -> Seq<Seq<char>> {
        self.parts_once()
    }

    fn into_3_parts(self) -> (r: (Option<(Option<Iden>, Iden)>, Iden)) {
        let (middle, base) = self.into_2_parts();
        match middle {
            Some(m) => (Some((None, m)), base),
            None => (None, base),
        }
    }
}

impl<S: IntoIden, T: IntoIden, U: IntoIden> MaybeQualifiedTwice for (S, T, U) {
    open spec fn parts_twice(&self) -> Seq<Seq<char>> {
        seq![self.0.iden_name(), self.1.iden_name(), self.2.iden_name()]
    }

    fn into_3_parts(self) -> (r: (Option<(Option<Iden>, Iden)>, Iden)) {
        let (q2, q1, base) = self;
        let r = (Some((Some(q2.into_iden()), q1.into_iden())), base.into_iden());
        assert(three_parts(r) =~= self.parts_twice());
        r
    }
}

impl SchemaName {
    /// A schema name from one or two parts: `(database.)schema`.
    pub fn from_parts<T: MaybeQualifiedOnce>(value: T) -> (r: SchemaName)
        ensures
            schema_name_parts(r) == value.parts_once(),
    {
        let (db, schema) = value.into_2_parts();
        match db {
            Some(d) => SchemaName(Some(DatabaseName(d)), schema),
            None => SchemaName(None, schema),
        }
    }
}

fn table_name_of(parts: (Option<(Option<Iden>, Iden)>, Iden)) -> (r: TableName)
    ensures
        table_name_parts(r) == three_parts(parts),
{
    let (schema_parts, table) = parts;
    match schema_parts {
        Some((Some(db), schema)) => TableName(Some(SchemaName(Some(DatabaseName(db)), schema)), table),
        Some((None, schema)) => TableName(Some(SchemaName(None, schema)), table),
        None => TableName(None, table),
    }
}

impl TableName {
    /// A table name from one to three parts: `(database.)(schema.)table`.
    pub fn from_parts<T: MaybeQualifiedTwice>(value: T) -> (r: TableName)
        ensures
            table_name_parts(r) == value.parts_twice(),
    {
        table_name_of(value.into_3_parts())
    }
}

impl ColumnName {
    /// A column name from one to three parts: `(schema.)(table.)column`.
    pub fn from_parts<T: MaybeQualifiedTwice>(value: T) -> (r: ColumnName)
        ensures
            column_name_parts(r) == value.parts_twice(),
    {
        let (table_parts, column) = value.into_3_parts();
        let r = match table_parts {
            Some((Some(schema), table)) => ColumnName(
                Some(TableName(Some(SchemaName(None, schema)), table)),
                column,
            ),
            Some((None, table)) => ColumnName(Some(TableName(None, table)), column),
            None => ColumnName(None, column),
        };
        r
    }
}

/// The parts of a column reference and whether it ends in `*`.
pub open spec fn column_ref_parts(c: ColumnRef) -> (Seq<Seq<char>>, bool) {
    match c {
        ColumnRef::Column(n) => (column_name_parts(n), false),
        ColumnRef::Asterisk(Some(t)) => (table_name_parts(t), true),
        ColumnRef::Asterisk(None) => (Seq::empty(), true),
    }
}

/// Values that convert into a column reference.
pub trait IntoColumnRef: Sized {
    /// The parts of the reference, and whether it ends in `*`.
    spec fn column_parts(&self) -> (Seq<Seq<char>>, bool);

    /// Convert into a column reference.
    fn into_column_ref(self) -> (r: ColumnRef)
        ensures
            column_ref_parts(r) == self.column_parts(),
    ;
}

impl IntoColumnRef for ColumnRef {
    open spec fn column_parts(&self) -> (Seq<Seq<char>>, bool) {
        column_ref_parts(*self)
    }

    fn into_column_ref(self) -> (r: ColumnRef) {
        self
    }
}

impl<T: MaybeQualifiedTwice> IntoColumnRef for T {
    open spec fn column_parts(&self) -> (Seq<Seq<char>>, bool) {
        (self.parts_twice(), false)
    }

    fn into_column_ref(self) -> (r: ColumnRef) {
        ColumnRef::Column(ColumnName::from_parts(self))
    }
}

impl IntoColumnRef for Asterisk {
    open spec fn column_parts(&self) -> (Seq<Seq<char>>, bool) {
        (Seq::empty(), true)
    }

    fn into_column_ref(self) -> (r: ColumnRef) {
        ColumnRef::Asterisk(None)
    }
}

impl<T: IntoIden> IntoColumnRef for (T, Asterisk) {
    open spec fn column_parts(&self) -> (Seq<Seq<char>>, bool) {
        (seq![self.0.iden_name()], true)
    }

    fn into_column_ref(self) -> (r: ColumnRef) {
        ColumnRef::Asterisk(Some(TableName::from_parts(self.0)))
    }
}

impl<S: IntoIden, T: IntoIden> IntoColumnRef for (S, T, Asterisk) {
    open spec fn column_parts(&self) -> (Seq<Seq<char>>, bool) {
        (seq![self.0.iden_name(), self.1.iden_name()], true)
    }

    fn into_column_ref(self) -> (r: ColumnRef) {
        ColumnRef::Asterisk(Some(TableName::from_parts((self.0, self.1))))
    }
}

impl<R: IntoIden, S: IntoIden, T: IntoIden> IntoColumnRef for (R, S, T, Asterisk) {
    open spec fn column_parts(&self) -> (Seq<Seq<char>>, bool) {
        (seq![self.0.iden_name(), self.1.iden_name(), self.2.iden_name()], true)
    }

    fn into_column_ref(self) -> (r: ColumnRef) {
        ColumnRef::Asterisk(Some(TableName::from_parts((self.0, self.1, self.2))))
    }
}

/// A table in `FROM` or a join: a named table with an optional alias, or a
/// sub-query with its alias.
#[derive(Debug, PartialEq)]
pub enum TableRef {
    Table(TableName, Option<Iden>),
    SubQuery(Box<Select>, Iden),
}

impl TableRef {
    /// The same table under `alias`, replacing any alias it had.
    pub fn alias<A: IntoIden>(self, alias: A) -> (r: TableRef)
        ensures
            match self {
                TableRef::Table(t, _) => r is Table && r->Table_0 == t && r->Table_1 is Some
                    && r->Table_1->0@ == alias.iden_name(),
                TableRef::SubQuery(q, _) => r is SubQuery && r->SubQuery_0 == q
                    && r->SubQuery_1@ == alias.iden_name(),
            },
    {
        match self {
            TableRef::Table(table, _) => TableRef::Table(table, Some(alias.into_iden())),
            TableRef::SubQuery(statement, _) => TableRef::SubQuery(statement, alias.into_iden()),
        }
    }
}

/// Values that convert into a table reference.
pub trait IntoTableRef: Sized {
    /// Whether `t` is the table reference that `self` converts into.
    spec fn converts_to_table_ref(&self, t: TableRef) -> bool;

    /// Convert into a table reference.
    fn into_table_ref(self) -> (r: TableRef)
        ensures
            self.converts_to_table_ref(r),
    ;
}

impl IntoTableRef for TableRef {
    open spec fn converts_to_table_ref(&self, t: TableRef) -> bool {
        t == *self
    }

    fn into_table_ref(self) -> (r: TableRef) {
        self
    }
}

impl<T: MaybeQualifiedTwice> IntoTableRef for T {
    open spec fn converts_to_table_ref(&self, t: TableRef) -> bool {
        &&& t is Table
        &&& table_name_parts(t->Table_0) == self.parts_twice()
        &&& t->Table_1 is None
    }

    fn into_table_ref(self) -> (r: TableRef) {
        TableRef::Table(TableName::from_parts(self), None)
    }
}

/// Join types.
#[derive(Debug, Clone, Copy, PartialEq, Eq)]
pub enum JoinType {
    LeftJoin,
    InnerJoin,
}

/// What a `DROP` does to objects that depend on what it drops.
#[derive(Debug, Clone, Copy, PartialEq, Eq)]
pub enum DropBehavior {
    Cascade,
    Restrict,
}

} // verus!
