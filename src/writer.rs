//! The writer that statements and expressions render through, in two modes:
//! with values inlined as literals, or with values collected as `$n` parameters.
use vstd::prelude::*;
use vstd::string::*;
use crate::text::{decimal, push_char, push_decimal};
use crate::value::{value_literal, value_model, values_model, write_value, Value, ValueModel};

verus! {

/// One piece of rendered SQL: fixed text, or a value whose form depends on the mode.
pub enum Piece {
    Text(Seq<char>),
    Param(ValueModel),
}

/// The values among `ps`, in order.
pub open spec fn params_of(ps: Seq<Piece>) -> Seq<ValueModel>
    decreases ps.len(),
{
    if ps.len() == 0 {
        Seq::empty()
    } else {
        match ps.last() {
            Piece::Param(v) => params_of(ps.drop_last()).push(v),
            Piece::Text(_) => params_of(ps.drop_last()),
        }
    }
}

/// The SQL text of `ps` with each value written as its literal.
pub open spec fn inline_text(ps: Seq<Piece>) -> Seq<char>
    decreases ps.len(),
{
    if ps.len() == 0 {
        Seq::empty()
    } else {
        inline_text(ps.drop_last()) + match ps.last() {
            Piece::Param(v) => value_literal(v),
            Piece::Text(t) => t,
        }
    }
}

/// The placeholder for the `n`-th parameter (counting from one).
pub open spec fn placeholder(n: nat) -> Seq<char> {
    seq!['$'] + decimal(n)
}

/// The SQL text of `ps` with the `k`-th value (from one) written as `$k`.
pub open spec fn parameterized_text(ps: Seq<Piece>) -> Seq<char>
    decreases ps.len(),
{
    if ps.len() == 0 {
        Seq::empty()
    } else {
        parameterized_text(ps.drop_last()) + match ps.last() {
            Piece::Param(v) => placeholder(params_of(ps.drop_last()).len() + 1),
            Piece::Text(t) => t,
        }
    }
}

/// `after` is `before` with the pieces `ps` written, in the same mode.
pub open spec fn wrote(before: SqlWriter, after: SqlWriter, ps: Seq<Piece>) -> bool {
    &&& after.wf()
    &&& after.pieces() == before.pieces() + ps
    &&& after.is_parameterized() == before.is_parameterized()
}

/// Writing `x` and then `y` is writing `x + y`.
pub proof fn lemma_wrote_chain(a: SqlWriter, b: SqlWriter, c: SqlWriter, x: Seq<Piece>, y: Seq<Piece>)
    requires
        wrote(a, b, x),
        wrote(b, c, y),
    ensures
        wrote(a, c, x + y),
{
    assert(a.pieces() + x + y =~= a.pieces() + (x + y));
}

/// Writing nothing.
pub proof fn lemma_wrote_nothing(a: SqlWriter)
    requires
        a.wf(),
    ensures
        wrote(a, a, Seq::empty()),
{
    assert(a.pieces() + Seq::<Piece>::empty() =~= a.pieces());
}

/// A sink for SQL text that renders values inline or as parameters.
pub struct SqlWriter {
    sql: String,
    values: Vec<Value>,
    parameterized: bool,
    pieces: Ghost<Seq<Piece>>,
}

/// The result of a parameterized rendering: the SQL text and its values,
/// the `k`-th value standing for the placeholder `$k`.
#[derive(Debug)]
pub struct SqlWriterValues {
    pub sql: String,
    pub values: Vec<Value>,
}

impl SqlWriterValues {
    /// The SQL text and the values.
    pub fn into_parts(self) -> (r: (String, Vec<Value>))
        ensures
            r.0 == self.sql,
            r.1 == self.values,
    {
        (self.sql, self.values)
    }
}

impl SqlWriter {
    /// The pieces written so far.
    pub closed spec fn pieces(&self) -> Seq<Piece> {
        self.pieces@
    }

    /// Whether values are written as parameters.
    pub closed spec fn is_parameterized(&self) -> bool {
        self.parameterized
    }

    /// The text and the values agree with the pieces written.
    pub closed spec fn wf(&self) -> bool {
        if self.parameterized {
            &&& self.sql@ == parameterized_text(self.pieces@)
            &&& values_model(self.values@) == params_of(self.pieces@)
        } else {
            &&& self.sql@ == inline_text(self.pieces@)
            &&& self.values@.len() == 0
        }
    }

    /// A writer that inlines values as literals.
    pub fn inline() -> (w: SqlWriter)
        ensures
            w.wf(),
            w.pieces() == Seq::<Piece>::empty(),
            !w.is_parameterized(),
    {
        SqlWriter {
            sql: String::new(),
            values: Vec::new(),
            parameterized: false,
            pieces: Ghost(Seq::empty()),
        }
    }

    /// A writer that collects values as `$n` parameters.
    pub fn parameterized() -> (w: SqlWriter)
        ensures
            w.wf(),
            w.pieces() == Seq::<Piece>::empty(),
            w.is_parameterized(),
    {
        SqlWriter {
            sql: String::new(),
            values: Vec::new(),
            parameterized: true,
            pieces: Ghost(Seq::empty()),
        }
    }

    /// Appends fixed text.
    pub fn push_str(&mut self, s: &str)
        requires
            old(self).wf(),
        ensures
            final(self).wf(),
            final(self).pieces() == old(self).pieces().push(Piece::Text(s@)),
            final(self).is_parameterized() == old(self).is_parameterized(),
            wrote(*old(self), *final(self), seq![Piece::Text(s@)]),
    {
        self.sql.append(s);
        self.pieces = Ghost(self.pieces@.push(Piece::Text(s@)));
        assert(self.pieces@.drop_last() =~= old(self).pieces@);
        assert(self.pieces@ =~= old(self).pieces@ + seq![Piece::Text(s@)]);
    }

    /// Appends one character of fixed text.
    pub fn push_char(&mut self, c: char)
        requires
            old(self).wf(),
        ensures
            final(self).wf(),
            final(self).pieces() == old(self).pieces().push(Piece::Text(seq![c])),
            final(self).is_parameterized() == old(self).is_parameterized(),
    {
        push_char(&mut self.sql, c);
        self.pieces = Ghost(self.pieces@.push(Piece::Text(seq![c])));
        assert(self.pieces@.drop_last() =~= old(self).pieces@);
        assert(self.sql@ =~= old(self).sql@ + seq![c]);
    }

    /// Appends a value: its literal when inlining, else the next placeholder,
    /// the value itself going to the parameter list.
    pub fn push_param(&mut self, v: Value)
        requires
            old(self).wf(),
        ensures
            final(self).wf(),
            final(self).pieces() == old(self).pieces().push(Piece::Param(value_model(v))),
            final(self).is_parameterized() == old(self).is_parameterized(),
    {
        let ghost v0 = value_model(v);
        if self.parameterized {
            let ghost before = self.values@;
            self.values.push(v);
            assert(self.values@.drop_last() =~= before);
            proof {
                crate::value::lemma_values_model_len(before);
            }
            let n = self.values.len();
            push_char(&mut self.sql, '$');
            push_decimal(&mut self.sql, n as u64);
        } else {
            write_value(&mut self.sql, &v);
        }
        self.pieces = Ghost(self.pieces@.push(Piece::Param(v0)));
        assert(self.pieces@.drop_last() =~= old(self).pieces@);
        assert(self.sql@ =~= old(self).sql@ + match self.pieces@.last() {
            Piece::Param(v) => if self.parameterized {
                placeholder(params_of(old(self).pieces@).len() + 1)
            } else {
                value_literal(v)
            },
            Piece::Text(t) => t,
        });
    }

    /// The SQL text, values inlined.
    pub fn into_sql(self) -> (r: String)
        requires
            self.wf(),
            !self.is_parameterized(),
        ensures
            r@ == inline_text(self.pieces()),
    {
        self.sql
    }

    /// The SQL text with placeholders, and the values in placeholder order.
    pub fn into_values(self) -> (r: SqlWriterValues)
        requires
            self.wf(),
            self.is_parameterized(),
        ensures
            r.sql@ == parameterized_text(self.pieces()),
            values_model(r.values@) == params_of(self.pieces()),
    {
        SqlWriterValues { sql: self.sql, values: self.values }
    }
}


proof fn lemma_prefix(ps: Seq<Piece>, j: int)
    requires
        0 <= j <= ps.len(),
    ensures
        params_of(ps.take(j)).len() <= params_of(ps).len(),
        params_of(ps).take(params_of(ps.take(j)).len() as int) == params_of(ps.take(j)),
        parameterized_text(ps.take(j)).len() <= parameterized_text(ps).len(),
        parameterized_text(ps).take(parameterized_text(ps.take(j)).len() as int)
            == parameterized_text(ps.take(j)),
    decreases ps.len(),
{
    if j == ps.len() {
        assert(ps.take(j) =~= ps);
        assert(params_of(ps).take(params_of(ps).len() as int) =~= params_of(ps));
        assert(parameterized_text(ps).take(parameterized_text(ps).len() as int)
            =~= parameterized_text(ps));
    } else {
        let q = ps.drop_last();
        lemma_prefix(q, j);
        assert(q.take(j) =~= ps.take(j));
        let a = params_of(q);
        let b = params_of(ps);
        let k = params_of(ps.take(j)).len() as int;
        assert(b.take(k) =~= a.take(k));
        let ta = parameterized_text(q);
        let tb = parameterized_text(ps);
        let m = parameterized_text(ps.take(j)).len() as int;
        assert(tb.take(m) =~= ta.take(m));
    }
}

/// Placeholders and values correspond: the piece at position `i`, when it is a
/// value, is written as `$k` where `k - 1` values come before it, and the
/// value list holds it at index `k - 1`; the text up to and including that
/// placeholder is a prefix of the whole text.
pub proof fn lemma_placeholder_matches_value(ps: Seq<Piece>, i: int)
    requires
        0 <= i < ps.len(),
        ps[i] is Param,
    ensures
        ({
            let k = params_of(ps.take(i)).len();
            let text = parameterized_text(ps);
            let before = parameterized_text(ps.take(i));
            let upto = before + placeholder(k + 1);
            &&& k < params_of(ps).len()
            &&& params_of(ps)[k as int] == ps[i]->Param_0
            &&& upto.len() <= text.len()
            &&& text.take(upto.len() as int) == upto
        }),
{
    lemma_prefix(ps, i + 1);
    assert(ps.take(i + 1).drop_last() =~= ps.take(i));
    let k = params_of(ps.take(i)).len();
    let p1 = params_of(ps.take(i + 1));
    assert(p1 == params_of(ps.take(i)).push(ps[i]->Param_0));
    assert(params_of(ps).take(p1.len() as int)[k as int] == p1[k as int]);
}


/// The two modes differ only in how values are written: pieces without values
/// render to the same text in both.
pub proof fn lemma_modes_agree_without_values(ps: Seq<Piece>)
    requires
        params_of(ps).len() == 0,
    ensures
        inline_text(ps) == parameterized_text(ps),
    decreases ps.len(),
{
    if ps.len() > 0 {
        let init = ps.drop_last();
        match ps.last() {
            Piece::Param(v) => {
                assert(params_of(ps) == params_of(init).push(v));
            },
            Piece::Text(_) => {
                lemma_modes_agree_without_values(init);
            },
        }
    }
}

} // verus!
