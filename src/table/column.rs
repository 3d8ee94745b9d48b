//! Column definitions: names, types and constraints.
use vstd::prelude::*;
use vstd::string::*;
use crate::expr::{Expr, IntoExpr};
use crate::render::{expr_pieces, text, text_if, write_expr, write_text_if};
use crate::text::{push_decimal, push_signed_decimal, decimal, signed_decimal};
use crate::types::{Iden, IntoIden, push_iden, quote_iden};
use crate::writer::{Piece, SqlWriter, lemma_wrote_chain, wrote};

verus! {

/// Column types.
#[derive(Debug, PartialEq)]
pub enum ColumnType {
    Char(u32),
    Varchar(u32),
    Text,
    Bytea,
    SmallInt,
    Int,
    BigInt,
    Float,
    Double,
    Numeric(Option<(i32, i32)>),
    Int4Range,
    Int8Range,
    NumRange,
    TsRange,
    TsTzRange,
    DateRange,
    SmallSerial,
    Serial,
    BigSerial,
    DateTime,
    Timestamp,
    TimestampWithTimeZone,
    Time,
    Date,
    Boolean,
    Json,
    JsonBinary,
    Uuid,
    Array(Box<ColumnType>),
}

/// The SQL name of a column type.
pub open spec fn column_type_text(t: ColumnType) -> Seq<char>
    decreases t,
{
    match t {
        ColumnType::Char(n) => "char("@ + decimal(n as nat) + ")"@,
        ColumnType::Varchar(n) => "varchar("@ + decimal(n as nat) + ")"@,
        ColumnType::Text => "text"@,
        ColumnType::Bytea => "bytea"@,
        ColumnType::SmallInt => "smallint"@,
        ColumnType::Int => "integer"@,
        ColumnType::BigInt => "bigint"@,
        ColumnType::Float => "real"@,
        ColumnType::Double => "double precision"@,
        ColumnType::Numeric(Some((p, s))) => "numeric("@ + signed_decimal(p as int) + ", "@
            + signed_decimal(s as int) + ")"@,
        ColumnType::Numeric(None) => "numeric"@,
        ColumnType::SmallSerial => "smallserial"@,
        ColumnType::Serial => "serial"@,
        ColumnType::BigSerial => "bigserial"@,
        ColumnType::Int4Range => "int4range"@,
        ColumnType::Int8Range => "int8range"@,
        ColumnType::NumRange => "numrange"@,
        ColumnType::TsRange => "tsrange"@,
        ColumnType::TsTzRange => "tstzrange"@,
        ColumnType::DateRange => "daterange"@,
        ColumnType::DateTime => "timestamp without time zone"@,
        ColumnType::Timestamp => "timestamp"@,
        ColumnType::TimestampWithTimeZone => "timestamp with time zone"@,
        ColumnType::Time => "time"@,
        ColumnType::Date => "date"@,
        ColumnType::Boolean => "bool"@,
        ColumnType::Json => "json"@,
        ColumnType::JsonBinary => "jsonb"@,
        ColumnType::Uuid => "uuid"@,
        ColumnType::Array(inner) => column_type_text(*inner) + "[]"@,
    }
}

/// Appends the SQL name of a column type.
pub fn push_column_type(out: &mut String, t: &ColumnType)
    ensures
        final(out)@ == old(out)@ + column_type_text(*t),
    decreases t,
{
    match t {
        ColumnType::Char(n) => {
            out.append("char(");
            push_decimal(out, *n as u64);
            out.append(")");
        },
        ColumnType::Varchar(n) => {
            out.append("varchar(");
            push_decimal(out, *n as u64);
            out.append(")");
        },
        ColumnType::Text => out.append("text"),
        ColumnType::Bytea => out.append("bytea"),
        ColumnType::SmallInt => out.append("smallint"),
        ColumnType::Int => out.append("integer"),
        ColumnType::BigInt => out.append("bigint"),
        ColumnType::Float => out.append("real"),
        ColumnType::Double => out.append("double precision"),
        ColumnType::Numeric(Some((p, s))) => {
            out.append("numeric(");
            push_signed_decimal(out, *p as i64);
            out.append(", ");
            push_signed_decimal(out, *s as i64);
            out.append(")");
        },
        ColumnType::Numeric(None) => out.append("numeric"),
        ColumnType::SmallSerial => out.append("smallserial"),
        ColumnType::Serial => out.append("serial"),
        ColumnType::BigSerial => out.append("bigserial"),
        ColumnType::Int4Range => out.append("int4range"),
        ColumnType::Int8Range => out.append("int8range"),
        ColumnType::NumRange => out.append("numrange"),
        ColumnType::TsRange => out.append("tsrange"),
        ColumnType::TsTzRange => out.append("tstzrange"),
        ColumnType::DateRange => out.append("daterange"),
        ColumnType::DateTime => out.append("timestamp without time zone"),
        ColumnType::Timestamp => out.append("timestamp"),
        ColumnType::TimestampWithTimeZone => out.append("timestamp with time zone"),
        ColumnType::Time => out.append("time"),
        ColumnType::Date => out.append("date"),
        ColumnType::Boolean => out.append("bool"),
        ColumnType::Json => out.append("json"),
        ColumnType::JsonBinary => out.append("jsonb"),
        ColumnType::Uuid => out.append("uuid"),
        ColumnType::Array(inner) => {
            push_column_type(out, inner);
            out.append("[]");
        },
    }
    assert(final(out)@ =~= old(out)@ + column_type_text(*t));
}

/// How a generated column is kept.
#[derive(Debug, Clone, Copy, PartialEq, Eq)]
pub enum GeneratedColumnKind {
    Stored,
    Virtual,
}

/// A generated column's expression and kind.
#[derive(Debug, PartialEq)]
pub struct GeneratedColumn {
    pub expr: Expr,
    pub kind: GeneratedColumnKind,
}

/// The constraints of a column.
#[derive(Debug, PartialEq)]
pub struct ColumnSpec {
    pub nullable: Option<bool>,
    pub default: Option<Expr>,
    pub generated: Option<GeneratedColumn>,
    pub unique: bool,
    pub primary_key: bool,
}

/// A column definition.
#[derive(Debug, PartialEq)]
pub struct ColumnDef {
    pub name: Iden,
    pub ty: Option<ColumnType>,
    pub spec: ColumnSpec,
}

/// ` DEFAULT` and the value; anything but a value or keyword in parentheses.
pub open spec fn default_pieces(d: Option<Expr>) -> Seq<Piece> {
    match d {
        Some(e) => text(" DEFAULT "@) + if e is Value || e is Keyword {
            expr_pieces(e)
        } else {
            text("("@) + expr_pieces(e) + text(")"@)
        },
        None => Seq::empty(),
    }
}

/// ` GENERATED ALWAYS AS (..) STORED` or `VIRTUAL`, or nothing.
pub open spec fn generated_pieces(g: Option<GeneratedColumn>) -> Seq<Piece> {
    match g {
        Some(g) => text(" GENERATED ALWAYS AS ("@) + expr_pieces(g.expr) + text(")"@) + text(
            match g.kind {
                GeneratedColumnKind::Stored => " STORED"@,
                GeneratedColumnKind::Virtual => " VIRTUAL"@,
            },
        ),
        None => Seq::empty(),
    }
}

/// ` NULL` or ` NOT NULL`, or nothing.
pub open spec fn nullable_pieces(n: Option<bool>) -> Seq<Piece> {
    match n {
        Some(true) => text(" NULL"@),
        Some(false) => text(" NOT NULL"@),
        None => Seq::empty(),
    }
}

/// The pieces of a column's constraints.
pub open spec fn column_spec_pieces(s: ColumnSpec) -> Seq<Piece> {
    nullable_pieces(s.nullable) + default_pieces(s.default) + generated_pieces(s.generated) + text_if(
        s.primary_key,
        " PRIMARY KEY"@,
    ) + text_if(s.unique, " UNIQUE"@)
}

/// The pieces of a column definition.
pub open spec fn column_def_pieces(c: ColumnDef) -> Seq<Piece> {
    column_head(c) + column_spec_pieces(c.spec)
}

/// The quoted name of a column and its type.
pub open spec fn column_head(c: ColumnDef) -> Seq<Piece> {
    text(quote_iden(c.name@)) + match c.ty {
        Some(t) => text(" "@) + text(column_type_text(t)),
        None => Seq::empty(),
    }
}

fn write_default(w: &mut SqlWriter, d: &Option<Expr>)
    requires
        old(w).wf(),
    ensures
        wrote(*old(w), *final(w), default_pieces(*d)),
{
    let ghost p0 = w.pieces();
    match d {
        Some(e) => {
            w.push_str(" DEFAULT ");
            match e {
                Expr::Value(_) | Expr::Keyword(_) => write_expr(w, e),
                _ => {
                    w.push_str("(");
                    write_expr(w, e);
                    w.push_str(")");
                },
            }
        },
        None => {},
    }
    assert(w.pieces() =~= p0 + default_pieces(*d));
}

fn write_generated(w: &mut SqlWriter, g: &Option<GeneratedColumn>)
    requires
        old(w).wf(),
    ensures
        wrote(*old(w), *final(w), generated_pieces(*g)),
{
    let ghost p0 = w.pieces();
    match g {
        Some(g) => {
            w.push_str(" GENERATED ALWAYS AS (");
            write_expr(w, &g.expr);
            w.push_str(")");
            match g.kind {
                GeneratedColumnKind::Stored => w.push_str(" STORED"),
                GeneratedColumnKind::Virtual => w.push_str(" VIRTUAL"),
            }
        },
        None => {},
    }
    assert(w.pieces() =~= p0 + generated_pieces(*g));
}

/// Writes a column's constraints.
#[verifier::spinoff_prover]
pub fn write_column_spec(w: &mut SqlWriter, s: &ColumnSpec)
    requires
        old(w).wf(),
    ensures
        wrote(*old(w), *final(w), column_spec_pieces(*s)),
{
    let ghost w0 = *w;
    match s.nullable {
        Some(true) => w.push_str(" NULL"),
        Some(false) => w.push_str(" NOT NULL"),
        None => {},
    }
    let ghost a = nullable_pieces(s.nullable);
    assert(w.pieces() =~= w0.pieces() + a);
    let ghost w1 = *w;
    write_default(w, &s.default);
    let ghost w2 = *w;
    write_generated(w, &s.generated);
    let ghost w3 = *w;
    write_text_if(w, s.primary_key, " PRIMARY KEY");
    let ghost w4 = *w;
    write_text_if(w, s.unique, " UNIQUE");
    proof {
        let b = default_pieces(s.default);
        let c = generated_pieces(s.generated);
        let d = text_if(s.primary_key, " PRIMARY KEY"@);
        let e = text_if(s.unique, " UNIQUE"@);
        lemma_wrote_chain(w0, w1, w2, a, b);
        lemma_wrote_chain(w0, w2, w3, a + b, c);
        lemma_wrote_chain(w0, w3, w4, a + b + c, d);
        lemma_wrote_chain(w0, w4, *w, a + b + c + d, e);
    }
}

/// Writes a column definition.
#[verifier::spinoff_prover]
pub fn write_column_def(w: &mut SqlWriter, c: &ColumnDef)
    requires
        old(w).wf(),
    ensures
        wrote(*old(w), *final(w), column_def_pieces(*c)),
{
    let ghost w0 = *w;
    let mut s = String::new();
    push_iden(&mut s, &c.name);
    assert(s@ =~= quote_iden(c.name@));
    w.push_str(s.as_str());
    match &c.ty {
        Some(t) => {
            w.push_str(" ");
            let mut ts = String::new();
            push_column_type(&mut ts, t);
            assert(ts@ =~= column_type_text(*t));
            w.push_str(ts.as_str());
        },
        None => {},
    }
    let ghost head = column_head(*c);
    assert(w.pieces() =~= w0.pieces() + head);
    let ghost w1 = *w;
    write_column_spec(w, &c.spec);
    proof {
        lemma_wrote_chain(w0, w1, *w, head, column_spec_pieces(c.spec));
    }
}

impl ColumnDef {
    /// A column of no type and no constraints yet.
    pub fn new<N: IntoIden>(name: N) -> (r: ColumnDef)
        ensures
            r.name@ == name.iden_name(),
            r.ty is None,
            r.spec.nullable is None,
            r.spec.default is None,
            r.spec.generated is None,
            !r.spec.unique,
            !r.spec.primary_key,
    {
        ColumnDef {
            name: name.into_iden(),
            ty: None,
            spec: ColumnSpec {
                nullable: None,
                default: None,
                generated: None,
                unique: false,
                primary_key: false,
            },
        }
    }

    /// A default value; a generated column has none.
    pub fn default(self, expr: Expr) -> (r: ColumnDef)
        requires
            self.spec.generated is None,
        ensures
            r == (ColumnDef { spec: ColumnSpec { default: Some(expr), ..self.spec }, ..self }),
    {
        ColumnDef { spec: ColumnSpec { default: Some(expr), ..self.spec }, ..self }
    }

    /// `NOT NULL`.
    pub fn not_null(self) -> (r: ColumnDef)
        ensures
            r == (ColumnDef { spec: ColumnSpec { nullable: Some(false), ..self.spec }, ..self }),
    {
        ColumnDef { spec: ColumnSpec { nullable: Some(false), ..self.spec }, ..self }
    }

    /// `NULL`.
    pub fn null(self) -> (r: ColumnDef)
        ensures
            r == (ColumnDef { spec: ColumnSpec { nullable: Some(true), ..self.spec }, ..self }),
    {
        ColumnDef { spec: ColumnSpec { nullable: Some(true), ..self.spec }, ..self }
    }

    /// `char(size)`, of a positive size.
    pub fn char(self, size: u32) -> (r: ColumnDef)
        requires
            size > 0,
        ensures
            r == (ColumnDef { ty: Some(ColumnType::Char(size)), ..self }),
    {
        ColumnDef { ty: Some(ColumnType::Char(size)), ..self }
    }

    /// `varchar(size)`, of a positive size.
    pub fn varchar(self, size: u32) -> (r: ColumnDef)
        requires
            size > 0,
        ensures
            r == (ColumnDef { ty: Some(ColumnType::Varchar(size)), ..self }),
    {
        ColumnDef { ty: Some(ColumnType::Varchar(size)), ..self }
    }

    /// `numeric(precision, scale)`: the scale at most the precision, the
    /// precision at most 1000.
    pub fn numeric(self, precision: i32, scale: i32) -> (r: ColumnDef)
        requires
            scale <= precision,
            precision <= 1000,
        ensures
            r == (ColumnDef { ty: Some(ColumnType::Numeric(Some((precision, scale)))), ..self }),
    {
        ColumnDef { ty: Some(ColumnType::Numeric(Some((precision, scale)))), ..self }
    }

    /// Sets the column type.
    pub fn of_type(self, ty: ColumnType) -> (r: ColumnDef)
        ensures
            r == (ColumnDef { ty: Some(ty), ..self }),
    {
        ColumnDef { ty: Some(ty), ..self }
    }

    /// `text`.
    pub fn text(self) -> (r: ColumnDef)
        ensures
            r == (ColumnDef { ty: Some(ColumnType::Text), ..self }),
    {
        self.of_type(ColumnType::Text)
    }

    /// `bytea`.
    pub fn bytea(self) -> (r: ColumnDef)
        ensures
            r == (ColumnDef { ty: Some(ColumnType::Bytea), ..self }),
    {
        self.of_type(ColumnType::Bytea)
    }

    /// `smallint`.
    pub fn smallint(self) -> (r: ColumnDef)
        ensures
            r == (ColumnDef { ty: Some(ColumnType::SmallInt), ..self }),
    {
        self.of_type(ColumnType::SmallInt)
    }

    /// `integer`.
    pub fn integer(self) -> (r: ColumnDef)
        ensures
            r == (ColumnDef { ty: Some(ColumnType::Int), ..self }),
    {
        self.of_type(ColumnType::Int)
    }

    /// `bigint`.
    pub fn bigint(self) -> (r: ColumnDef)
        ensures
            r == (ColumnDef { ty: Some(ColumnType::BigInt), ..self }),
    {
        self.of_type(ColumnType::BigInt)
    }

    /// `real`.
    pub fn float(self) -> (r: ColumnDef)
        ensures
            r == (ColumnDef { ty: Some(ColumnType::Float), ..self }),
    {
        self.of_type(ColumnType::Float)
    }

    /// `double precision`.
    pub fn double(self) -> (r: ColumnDef)
        ensures
            r == (ColumnDef { ty: Some(ColumnType::Double), ..self }),
    {
        self.of_type(ColumnType::Double)
    }

    /// `numeric`, unbounded.
    pub fn numeric_unbounded(self) -> (r: ColumnDef)
        ensures
            r == (ColumnDef { ty: Some(ColumnType::Numeric(None)), ..self }),
    {
        self.of_type(ColumnType::Numeric(None))
    }

    /// `smallserial`.
    pub fn smallserial(self) -> (r: ColumnDef)
        ensures
            r == (ColumnDef { ty: Some(ColumnType::SmallSerial), ..self }),
    {
        self.of_type(ColumnType::SmallSerial)
    }

    /// `serial`.
    pub fn serial(self) -> (r: ColumnDef)
        ensures
            r == (ColumnDef { ty: Some(ColumnType::Serial), ..self }),
    {
        self.of_type(ColumnType::Serial)
    }

    /// `bigserial`.
    pub fn bigserial(self) -> (r: ColumnDef)
        ensures
            r == (ColumnDef { ty: Some(ColumnType::BigSerial), ..self }),
    {
        self.of_type(ColumnType::BigSerial)
    }

    /// `int4range`.
    pub fn int4_range(self) -> (r: ColumnDef)
        ensures
            r == (ColumnDef { ty: Some(ColumnType::Int4Range), ..self }),
    {
        self.of_type(ColumnType::Int4Range)
    }

    /// `int8range`.
    pub fn int8_range(self) -> (r: ColumnDef)
        ensures
            r == (ColumnDef { ty: Some(ColumnType::Int8Range), ..self }),
    {
        self.of_type(ColumnType::Int8Range)
    }

    /// `numrange`.
    pub fn num_range(self) -> (r: ColumnDef)
        ensures
            r == (ColumnDef { ty: Some(ColumnType::NumRange), ..self }),
    {
        self.of_type(ColumnType::NumRange)
    }

    /// `tsrange`.
    pub fn ts_range(self) -> (r: ColumnDef)
        ensures
            r == (ColumnDef { ty: Some(ColumnType::TsRange), ..self }),
    {
        self.of_type(ColumnType::TsRange)
    }

    /// `tstzrange`.
    pub fn ts_tz_range(self) -> (r: ColumnDef)
        ensures
            r == (ColumnDef { ty: Some(ColumnType::TsTzRange), ..self }),
    {
        self.of_type(ColumnType::TsTzRange)
    }

    /// `daterange`.
    pub fn date_range(self) -> (r: ColumnDef)
        ensures
            r == (ColumnDef { ty: Some(ColumnType::DateRange), ..self }),
    {
        self.of_type(ColumnType::DateRange)
    }

    /// `timestamp without time zone`.
    pub fn date_time(self) -> (r: ColumnDef)
        ensures
            r == (ColumnDef { ty: Some(ColumnType::DateTime), ..self }),
    {
        self.of_type(ColumnType::DateTime)
    }

    /// `timestamp`.
    pub fn timestamp(self) -> (r: ColumnDef)
        ensures
            r == (ColumnDef { ty: Some(ColumnType::Timestamp), ..self }),
    {
        self.of_type(ColumnType::Timestamp)
    }

    /// `timestamp with time zone`.
    pub fn timestamp_with_time_zone(self) -> (r: ColumnDef)
        ensures
            r == (ColumnDef { ty: Some(ColumnType::TimestampWithTimeZone), ..self }),
    {
        self.of_type(ColumnType::TimestampWithTimeZone)
    }

    /// `time`.
    pub fn time(self) -> (r: ColumnDef)
        ensures
            r == (ColumnDef { ty: Some(ColumnType::Time), ..self }),
    {
        self.of_type(ColumnType::Time)
    }

    /// `date`.
    pub fn date(self) -> (r: ColumnDef)
        ensures
            r == (ColumnDef { ty: Some(ColumnType::Date), ..self }),
    {
        self.of_type(ColumnType::Date)
    }

    /// `bool`.
    pub fn boolean(self) -> (r: ColumnDef)
        ensures
            r == (ColumnDef { ty: Some(ColumnType::Boolean), ..self }),
    {
        self.of_type(ColumnType::Boolean)
    }

    /// `json`.
    pub fn json(self) -> (r: ColumnDef)
        ensures
            r == (ColumnDef { ty: Some(ColumnType::Json), ..self }),
    {
        self.of_type(ColumnType::Json)
    }

    /// `jsonb`.
    pub fn json_binary(self) -> (r: ColumnDef)
        ensures
            r == (ColumnDef { ty: Some(ColumnType::JsonBinary), ..self }),
    {
        self.of_type(ColumnType::JsonBinary)
    }

    /// `uuid`.
    pub fn uuid(self) -> (r: ColumnDef)
        ensures
            r == (ColumnDef { ty: Some(ColumnType::Uuid), ..self }),
    {
        self.of_type(ColumnType::Uuid)
    }

    /// An array of `ty`.
    pub fn array_of(self, ty: ColumnType) -> (r: ColumnDef)
        ensures
            r == (ColumnDef { ty: Some(ColumnType::Array(Box::new(ty))), ..self }),
    {
        self.of_type(ColumnType::Array(Box::new(ty)))
    }

    /// A stored generated column; such a column has no default.
    pub fn generated_as_stored<E: IntoExpr>(self, expr: E) -> (r: ColumnDef)
        requires
            self.spec.default is None,
        ensures
            r.name == self.name,
            r.ty == self.ty,
            r.spec.nullable == self.spec.nullable,
            r.spec.default is None,
            r.spec.unique == self.spec.unique,
            r.spec.primary_key == self.spec.primary_key,
            r.spec.generated is Some,
            r.spec.generated->0.kind == GeneratedColumnKind::Stored,
            expr.converts_to_expr(r.spec.generated->0.expr),
    {
        let g = GeneratedColumn { expr: expr.into_expr(), kind: GeneratedColumnKind::Stored };
        ColumnDef { spec: ColumnSpec { generated: Some(g), ..self.spec }, ..self }
    }

    /// A virtual generated column; such a column has no default.
    pub fn generated_as_virtual<E: IntoExpr>(self, expr: E) -> (r: ColumnDef)
        requires
            self.spec.default is None,
        ensures
            r.name == self.name,
            r.ty == self.ty,
            r.spec.nullable == self.spec.nullable,
            r.spec.default is None,
            r.spec.unique == self.spec.unique,
            r.spec.primary_key == self.spec.primary_key,
            r.spec.generated is Some,
            r.spec.generated->0.kind == GeneratedColumnKind::Virtual,
            expr.converts_to_expr(r.spec.generated->0.expr),
    {
        let g = GeneratedColumn { expr: expr.into_expr(), kind: GeneratedColumnKind::Virtual };
        ColumnDef { spec: ColumnSpec { generated: Some(g), ..self.spec }, ..self }
    }
}

} // verus!
