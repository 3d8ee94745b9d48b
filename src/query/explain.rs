//! `EXPLAIN` statements.
use vstd::prelude::*;
use vstd::string::*;
use crate::query::delete::{Delete, delete_pieces};
use crate::query::insert::{Insert, insert_pieces};
use crate::query::select::Select;
use crate::query::update::{Update, update_pieces};
use crate::render::{joined_texts, select_pieces, strings_view, text, write_drop_tail, write_select};
use crate::value::values_model;
use crate::writer::{
    Piece, SqlWriter, SqlWriterValues, inline_text, lemma_wrote_chain, parameterized_text,
    params_of, wrote,
};

verus! {

/// A statement that `EXPLAIN` can show the plan of.
#[derive(Debug, PartialEq)]
pub enum ExplainableStatement {
    Select(Select),
    Insert(Insert),
    Update(Update),
    Delete(Delete),
}

/// Statements that convert into an [`ExplainableStatement`].
pub trait IntoExplainable: Sized {
    /// Whether `s` is what `self` converts into.
    spec fn converts_to_statement(&self, s: ExplainableStatement) -> bool;

    /// Convert into an explainable statement.
    fn into_explainable(self) -> (s: ExplainableStatement)
        ensures
            self.converts_to_statement(s),
    ;
}

impl IntoExplainable for ExplainableStatement {
    open spec fn converts_to_statement(&self, s: ExplainableStatement) -> bool {
        s == *self
    }

    fn into_explainable(self) -> (s: ExplainableStatement) {
        self
    }
}

impl IntoExplainable for Select {
    open spec fn converts_to_statement(&self, s: ExplainableStatement) -> bool {
        s == ExplainableStatement::Select(*self)
    }

    fn into_explainable(self) -> (s: ExplainableStatement) {
        ExplainableStatement::Select(self)
    }
}

impl IntoExplainable for Insert {
    open spec fn converts_to_statement(&self, s: ExplainableStatement) -> bool {
        s == ExplainableStatement::Insert(*self)
    }

    fn into_explainable(self) -> (s: ExplainableStatement) {
        ExplainableStatement::Insert(self)
    }
}

impl IntoExplainable for Update {
    open spec fn converts_to_statement(&self, s: ExplainableStatement) -> bool {
        s == ExplainableStatement::Update(*self)
    }

    fn into_explainable(self) -> (s: ExplainableStatement) {
        ExplainableStatement::Update(self)
    }
}

impl IntoExplainable for Delete {
    open spec fn converts_to_statement(&self, s: ExplainableStatement) -> bool {
        s == ExplainableStatement::Delete(*self)
    }

    fn into_explainable(self) -> (s: ExplainableStatement) {
        ExplainableStatement::Delete(self)
    }
}

/// The output format of `EXPLAIN`.
#[derive(Debug, Clone, Copy, PartialEq, Eq)]
pub enum Format {
    Text,
    Xml,
    Json,
    Yaml,
}

/// The `SERIALIZE` option of `EXPLAIN`.
#[derive(Debug, Clone, Copy, PartialEq, Eq)]
pub enum Serialize {
    Nothing,
    Text,
    Binary,
}

/// The keyword of a format.
pub open spec fn format_text(f: Format) -> Seq<char> {
    match f {
        Format::Text => "TEXT"@,
        Format::Xml => "XML"@,
        Format::Json => "JSON"@,
        Format::Yaml => "YAML"@,
    }
}

/// The keyword of a serialization.
pub open spec fn serialize_text(s: Serialize) -> Seq<char> {
    match s {
        Serialize::Nothing => "NONE"@,
        Serialize::Text => "TEXT"@,
        Serialize::Binary => "BINARY"@,
    }
}

impl Format {
    /// The keyword.
    pub fn as_str(&self) -> (r: &'static str)
        ensures
            r@ == format_text(*self),
    {
        match self {
            Format::Text => "TEXT",
            Format::Xml => "XML",
            Format::Json => "JSON",
            Format::Yaml => "YAML",
        }
    }
}

impl Serialize {
    /// The keyword.
    pub fn as_str(&self) -> (r: &'static str)
        ensures
            r@ == serialize_text(*self),
    {
        match self {
            Serialize::Nothing => "NONE",
            Serialize::Text => "TEXT",
            Serialize::Binary => "BINARY",
        }
    }
}

/// An `EXPLAIN` statement: options, each given or not, and the statement.
#[derive(Debug, PartialEq)]
pub struct Explain {
    pub statement: Option<ExplainableStatement>,
    pub analyze: Option<bool>,
    pub format: Option<Format>,
    pub verbose: Option<bool>,
    pub costs: Option<bool>,
    pub settings: Option<bool>,
    pub generic_plan: Option<bool>,
    pub buffers: Option<bool>,
    pub serialize: Option<Serialize>,
    pub wal: Option<bool>,
    pub timing: Option<bool>,
    pub summary: Option<bool>,
    pub memory: Option<bool>,
}

/// A boolean option: its name, followed by ` 0` when off; nothing when not given.
pub open spec fn flag_option(name: Seq<char>, v: Option<bool>) -> Seq<Seq<char>> {
    match v {
        Some(true) => seq![name],
        Some(false) => seq![name + " 0"@],
        None => Seq::empty(),
    }
}

/// The given options, in their fixed order.
pub open spec fn explain_options(e: Explain) -> Seq<Seq<char>> {
    flag_option("ANALYZE"@, e.analyze) + flag_option("VERBOSE"@, e.verbose) + flag_option(
        "COSTS"@,
        e.costs,
    ) + flag_option("SETTINGS"@, e.settings) + flag_option("GENERIC_PLAN"@, e.generic_plan)
        + flag_option("BUFFERS"@, e.buffers) + match e.serialize {
        Some(s) => seq!["SERIALIZE "@ + serialize_text(s)],
        None => Seq::empty(),
    } + flag_option("WAL"@, e.wal) + flag_option("TIMING"@, e.timing) + flag_option(
        "SUMMARY"@,
        e.summary,
    ) + flag_option("MEMORY"@, e.memory) + match e.format {
        Some(f) => seq!["FORMAT "@ + format_text(f)],
        None => Seq::empty(),
    }
}

/// The pieces of an explained statement.
pub open spec fn statement_pieces(s: ExplainableStatement) -> Seq<Piece> {
    match s {
        ExplainableStatement::Select(q) => select_pieces(q),
        ExplainableStatement::Insert(i) => insert_pieces(i),
        ExplainableStatement::Update(u) => update_pieces(u),
        ExplainableStatement::Delete(d) => delete_pieces(d),
    }
}

/// `EXPLAIN` and the options in parentheses, when any is given.
pub open spec fn explain_head(e: Explain) -> Seq<Piece> {
    text("EXPLAIN"@) + if explain_options(e).len() > 0 {
        text(" ("@) + joined_texts(explain_options(e)) + text(")"@)
    } else {
        Seq::empty()
    }
}

/// The pieces of an `EXPLAIN` statement.
pub open spec fn explain_pieces(e: Explain) -> Seq<Piece> {
    explain_head(e) + match e.statement {
        Some(s) => text(" "@) + statement_pieces(s),
        None => Seq::empty(),
    }
}

fn push_option(opts: &mut Vec<String>, name: &str, v: Option<bool>)
    ensures
        strings_view(final(opts)@) == strings_view(old(opts)@) + flag_option(name@, v),
{
    let ghost before = opts@;
    match v {
        Some(true) => {
            opts.push(name.to_owned());
        },
        Some(false) => {
            let mut s = name.to_owned();
            s.append(" 0");
            opts.push(s);
        },
        None => {},
    }
    assert(strings_view(opts@) =~= strings_view(before) + flag_option(name@, v));
}

fn push_keyword_option(opts: &mut Vec<String>, name: &str, value: &str)
    ensures
        strings_view(final(opts)@) == strings_view(old(opts)@) + seq![name@ + value@],
{
    let ghost before = opts@;
    let mut s = name.to_owned();
    s.append(value);
    opts.push(s);
    assert(strings_view(opts@) =~= strings_view(before) + seq![name@ + value@]);
}

impl Explain {
    /// An `EXPLAIN` with no options and no statement yet.
    pub fn new() -> (r: Explain)
        ensures
            r.statement is None,
            explain_options(r).len() == 0,
    {
        let r = Explain {
            statement: None,
            analyze: None,
            format: None,
            verbose: None,
            costs: None,
            settings: None,
            generic_plan: None,
            buffers: None,
            serialize: None,
            wal: None,
            timing: None,
            summary: None,
            memory: None,
        };
        assert(explain_options(r) =~= Seq::<Seq<char>>::empty());
        r
    }

    /// The options given, as texts, in their fixed order.
    pub fn options(&self) -> (r: Vec<String>)
        ensures
            strings_view(r@) == explain_options(*self),
    {
        let mut opts: Vec<String> = Vec::new();
        push_option(&mut opts, "ANALYZE", self.analyze);
        push_option(&mut opts, "VERBOSE", self.verbose);
        push_option(&mut opts, "COSTS", self.costs);
        push_option(&mut opts, "SETTINGS", self.settings);
        push_option(&mut opts, "GENERIC_PLAN", self.generic_plan);
        push_option(&mut opts, "BUFFERS", self.buffers);
        match self.serialize {
            Some(s) => push_keyword_option(&mut opts, "SERIALIZE ", s.as_str()),
            None => {},
        }
        push_option(&mut opts, "WAL", self.wal);
        push_option(&mut opts, "TIMING", self.timing);
        push_option(&mut opts, "SUMMARY", self.summary);
        push_option(&mut opts, "MEMORY", self.memory);
        match self.format {
            Some(f) => push_keyword_option(&mut opts, "FORMAT ", f.as_str()),
            None => {},
        }
        assert(strings_view(opts@) =~= explain_options(*self));
        opts
    }

    /// Writes the statement.
    #[verifier::spinoff_prover]
    pub fn write(&self, w: &mut SqlWriter)
        requires
            old(w).wf(),
        ensures
            wrote(*old(w), *final(w), explain_pieces(*self)),
    {
        let ghost w0 = *w;
        w.push_str("EXPLAIN");
        let opts = self.options();
        if opts.len() > 0 {
            w.push_str(" (");
            write_drop_tail(w, &opts, None);
            w.push_str(")");
        }
        assert(w.pieces() =~= w0.pieces() + explain_head(*self));
        let ghost w1 = *w;
        match &self.statement {
            Some(s) => {
                w.push_str(" ");
                let ghost v = *w;
                match s {
                    ExplainableStatement::Select(q) => write_select(w, q),
                    ExplainableStatement::Insert(i) => i.write(w),
                    ExplainableStatement::Update(u) => u.write(w),
                    ExplainableStatement::Delete(d) => d.write(w),
                }
                proof {
                    lemma_wrote_chain(w1, v, *w, text(" "@), statement_pieces(*s));
                    lemma_wrote_chain(w0, w1, *w, explain_head(*self), text(" "@) + statement_pieces(*s));
                }
            },
            None => {
                assert(w.pieces() =~= w0.pieces() + explain_pieces(*self));
            },
        }
    }

    /// The SQL text, values inlined as literals.
    pub fn to_sql(&self) -> (r: String)
        ensures
            r@ == inline_text(explain_pieces(*self)),
    {
        let mut w = SqlWriter::inline();
        self.write(&mut w);
        assert(w.pieces() =~= explain_pieces(*self));
        w.into_sql()
    }

    /// The SQL text with `$n` placeholders, and the values they stand for.
    pub fn to_values(&self) -> (r: SqlWriterValues)
        ensures
            r.sql@ == parameterized_text(explain_pieces(*self)),
            values_model(r.values@) == params_of(explain_pieces(*self)),
    {
        let mut w = SqlWriter::parameterized();
        self.write(&mut w);
        assert(w.pieces() =~= explain_pieces(*self));
        w.into_values()
    }

    /// The statement to explain.
    pub fn statement<S: IntoExplainable>(self, statement: S) -> (r: Explain)
        ensures
            r.statement is Some,
            statement.converts_to_statement(r.statement->0),
            explain_options(r) == explain_options(self),
    {
        Explain { statement: Some(statement.into_explainable()), ..self }
    }

    /// `ANALYZE`.
    pub fn analyze(self) -> (r: Explain)
        ensures
            r == (Explain { analyze: Some(true), ..self }),
    {
        Explain { analyze: Some(true), ..self }
    }

    /// `FORMAT TEXT`.
    pub fn format_text(self) -> (r: Explain)
        ensures
            r == (Explain { format: Some(Format::Text), ..self }),
    {
        Explain { format: Some(Format::Text), ..self }
    }

    /// `FORMAT XML`.
    pub fn format_xml(self) -> (r: Explain)
        ensures
            r == (Explain { format: Some(Format::Xml), ..self }),
    {
        Explain { format: Some(Format::Xml), ..self }
    }

    /// `FORMAT JSON`.
    pub fn format_json(self) -> (r: Explain)
        ensures
            r == (Explain { format: Some(Format::Json), ..self }),
    {
        Explain { format: Some(Format::Json), ..self }
    }

    /// `FORMAT YAML`.
    pub fn format_yaml(self) -> (r: Explain)
        ensures
            r == (Explain { format: Some(Format::Yaml), ..self }),
    {
        Explain { format: Some(Format::Yaml), ..self }
    }

    /// `VERBOSE`, on or off.
    pub fn verbose(self, verbose: bool) -> (r: Explain)
        ensures
            r == (Explain { verbose: Some(verbose), ..self }),
    {
        Explain { verbose: Some(verbose), ..self }
    }

    /// `COSTS`, on or off.
    pub fn costs(self, costs: bool) -> (r: Explain)
        ensures
            r == (Explain { costs: Some(costs), ..self }),
    {
        Explain { costs: Some(costs), ..self }
    }

    /// `SETTINGS`, on or off.
    pub fn settings(self, settings: bool) -> (r: Explain)
        ensures
            r == (Explain { settings: Some(settings), ..self }),
    {
        Explain { settings: Some(settings), ..self }
    }

    /// `GENERIC_PLAN`, on or off.
    pub fn generic_plan(self, generic_plan: bool) -> (r: Explain)
        ensures
            r == (Explain { generic_plan: Some(generic_plan), ..self }),
    {
        Explain { generic_plan: Some(generic_plan), ..self }
    }

    /// `BUFFERS`, on or off.
    pub fn buffers(self, buffers: bool) -> (r: Explain)
        ensures
            r == (Explain { buffers: Some(buffers), ..self }),
    {
        Explain { buffers: Some(buffers), ..self }
    }

    /// `SERIALIZE TEXT`.
    pub fn serialize_text(self) -> (r: Explain)
        ensures
            r == (Explain { serialize: Some(Serialize::Text), ..self }),
    {
        Explain { serialize: Some(Serialize::Text), ..self }
    }

    /// `SERIALIZE BINARY`.
    pub fn serialize_binary(self) -> (r: Explain)
        ensures
            r == (Explain { serialize: Some(Serialize::Binary), ..self }),
    {
        Explain { serialize: Some(Serialize::Binary), ..self }
    }

    /// `SERIALIZE NONE`.
    pub fn serialize_none(self) -> (r: Explain)
        ensures
            r == (Explain { serialize: Some(Serialize::Nothing), ..self }),
    {
        Explain { serialize: Some(Serialize::Nothing), ..self }
    }

    /// `WAL`, on or off.
    pub fn wal(self, wal: bool) -> (r: Explain)
        ensures
            r == (Explain { wal: Some(wal), ..self }),
    {
        Explain { wal: Some(wal), ..self }
    }

    /// `TIMING`, on or off.
    pub fn timing(self, timing: bool) -> (r: Explain)
        ensures
            r == (Explain { timing: Some(timing), ..self }),
    {
        Explain { timing: Some(timing), ..self }
    }

    /// `SUMMARY`, on or off.
    pub fn summary(self, summary: bool) -> (r: Explain)
        ensures
            r == (Explain { summary: Some(summary), ..self }),
    {
        Explain { summary: Some(summary), ..self }
    }

    /// `MEMORY`, on or off.
    pub fn memory(self, memory: bool) -> (r: Explain)
        ensures
            r == (Explain { memory: Some(memory), ..self }),
    {
        Explain { memory: Some(memory), ..self }
    }
}

} // verus!
