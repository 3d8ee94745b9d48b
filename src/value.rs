//! SQL values: a nullable, typed literal, and its rendering as PostgreSQL text.
use vstd::prelude::*;
use vstd::string::*;
use serde_json::Value as Json;
use crate::text::{push_char, 
    decimal, digit_char, push_decimal, push_signed_decimal, push_string_literal, signed_decimal, string_literal,
};

verus! {

/// A SQL value. Each variant holds an `Option`: `None` is a NULL that keeps its type.
#[derive(Debug, PartialEq)]
pub enum Value {
    Bool(Option<bool>),
    TinyInt(Option<i8>),
    SmallInt(Option<i16>),
    Int(Option<i32>),
    BigInt(Option<i64>),
    TinyUnsigned(Option<u8>),
    SmallUnsigned(Option<u16>),
    Unsigned(Option<u32>),
    BigUnsigned(Option<u64>),
    /// A single-precision number, held as its decimal text.
    Float(Option<Decimal>),
    /// A double-precision number, held as its decimal text.
    Double(Option<Decimal>),
    String(Option<String>),
    Array(Option<Vec<Value>>),
    /// A JSON document, held as its text.
    Json(Option<String>),
    Uuid(Option<Uuid>),
}

/// An ASCII digit.
pub open spec fn is_digit(c: char) -> bool {
    48 <= (c as u32) && (c as u32) <= 57
}

/// Unsigned decimal text: digits with at most one `.`, which stands neither
/// first nor last.
pub open spec fn is_unsigned_decimal(s: Seq<char>) -> bool {
    &&& s.len() > 0
    &&& forall|i: int| 0 <= i < s.len() ==> is_digit(#[trigger] s[i]) || s[i] == '.'
    &&& s[0] != '.'
    &&& s[s.len() - 1] != '.'
    &&& forall|i: int, j: int| 0 <= i < j < s.len() && #[trigger] s[i] == '.' ==> #[trigger] s[j] != '.'
}

/// The text of a floating-point number: unsigned decimal text with an
/// optional leading `-`, or `NaN`, `inf` or `-inf`.
pub open spec fn is_decimal_text(s: Seq<char>) -> bool {
    ||| s == seq!['N', 'a', 'N']
    ||| s == seq!['i', 'n', 'f']
    ||| s == seq!['-', 'i', 'n', 'f']
    ||| is_unsigned_decimal(s)
    ||| (s.len() > 1 && s[0] == '-' && is_unsigned_decimal(s.skip(1)))
}

fn is_unsigned_decimal_from(s: &str, start: usize, n: usize) -> (r: bool)
    requires
        n == s@.len(),
        start <= n,
    ensures
        r == is_unsigned_decimal(s@.skip(start as int)),
{
    let ghost t = s@.skip(start as int);
    if start == n {
        return false;
    }
    let mut i: usize = start;
    let mut seen_dot = false;
    let mut dot_at: usize = start;
    while i < n
        invariant
            n == s@.len(),
            start < n,
            start <= i <= n,
            t == s@.skip(start as int),
            forall|k: int| start <= k < i ==> is_digit(#[trigger] s@[k]) || s@[k] == '.',
            forall|a: int, b: int| start <= a < b < i && #[trigger] s@[a] == '.' ==> #[trigger] s@[b] != '.',
            seen_dot ==> start <= dot_at < i && s@[dot_at as int] == '.',
            !seen_dot ==> forall|k: int| start <= k < i ==> #[trigger] s@[k] != '.',
        decreases n - i,
    {
        let c = s.get_char(i);
        let u = c as u32;
        if c == '.' {
            if seen_dot {
                assert(t[dot_at - start] == '.' && t[i - start] == '.');
                return false;
            }
            seen_dot = true;
            dot_at = i;
        } else if !(48 <= u && u <= 57) {
            assert(!(is_digit(t[i - start]) || t[i - start] == '.'));
            return false;
        }
        i = i + 1;
    }
    let first = s.get_char(start);
    let last = s.get_char(n - 1);
    assert(t.len() == n - start);
    assert forall|k: int| 0 <= k < t.len() implies is_digit(#[trigger] t[k]) || t[k] == '.' by {
        assert(t[k] == s@[start + k]);
    }
    assert forall|a: int, b: int| 0 <= a < b < t.len() && #[trigger] t[a] == '.' implies #[trigger] t[b] != '.' by {
        assert(t[a] == s@[start + a] && t[b] == s@[start + b]);
    }
    assert(t[0] == first && t[t.len() - 1] == last);
    first != '.' && last != '.'
}

/// Whether `s` is the text of a floating-point number.
pub fn is_decimal_str(s: &str) -> (r: bool)
    ensures
        r == is_decimal_text(s@),
{
    let n = s.unicode_len();
    let special = if n == 3 {
        let (a, b, c) = (s.get_char(0), s.get_char(1), s.get_char(2));
        (a == 'N' && b == 'a' && c == 'N') || (a == 'i' && b == 'n' && c == 'f')
    } else if n == 4 {
        s.get_char(0) == '-' && s.get_char(1) == 'i' && s.get_char(2) == 'n' && s.get_char(3) == 'f'
    } else {
        false
    };
    proof {
        if n == 3 {
            assert(s@ == seq!['N', 'a', 'N'] <==> (s@[0] == 'N' && s@[1] == 'a' && s@[2] == 'N')) by {
                if s@[0] == 'N' && s@[1] == 'a' && s@[2] == 'N' {
                    assert(s@ =~= seq!['N', 'a', 'N']);
                }
            }
            assert(s@ == seq!['i', 'n', 'f'] <==> (s@[0] == 'i' && s@[1] == 'n' && s@[2] == 'f')) by {
                if s@[0] == 'i' && s@[1] == 'n' && s@[2] == 'f' {
                    assert(s@ =~= seq!['i', 'n', 'f']);
                }
            }
        }
        if n == 4 {
            assert(s@ == seq!['-', 'i', 'n', 'f'] <==> (s@[0] == '-' && s@[1] == 'i' && s@[2] == 'n'
                && s@[3] == 'f')) by {
                if s@[0] == '-' && s@[1] == 'i' && s@[2] == 'n' && s@[3] == 'f' {
                    assert(s@ =~= seq!['-', 'i', 'n', 'f']);
                }
            }
        }
    }
    if special {
        return true;
    }
    assert(s@.skip(0) =~= s@);
    if is_unsigned_decimal_from(s, 0, n) {
        return true;
    }
    if n > 1 && s.get_char(0) == '-' {
        is_unsigned_decimal_from(s, 1, n)
    } else {
        false
    }
}

/// The text of a floating-point number; it can stand in SQL as it is.
#[derive(Debug, PartialEq, Eq, Hash)]
pub struct Decimal {
    text: String,
}

impl View for Decimal {
    type V = Seq<char>;

    closed spec fn view(&self) -> Seq<char> {
        self.text@
    }
}

impl Clone for Decimal {
    fn clone(&self) -> (r: Decimal)
        ensures
            r@ == self@,
    {
        proof {
            use_type_invariant(self);
        }
        Decimal { text: self.text.clone() }
    }
}

impl Decimal {
    #[verifier::type_invariant]
    spec fn inv(self) -> bool {
        is_decimal_text(self.text@)
    }

    /// The number written as `s`, when `s` is the text of a floating-point number.
    pub fn new(s: &str) -> (r: Option<Decimal>)
        ensures
            r is Some <==> is_decimal_text(s@),
            r matches Some(d) ==> d@ == s@,
    {
        if is_decimal_str(s) {
            Some(Decimal { text: s.to_owned() })
        } else {
            None
        }
    }

    /// One hundred.
    pub fn hundred() -> (r: Decimal)
        ensures
            r@ == "100"@,
    {
        proof {
            reveal_strlit("100");
        }
        let text = "100".to_owned();
        assert(is_unsigned_decimal(text@)) by {
            assert(text@ =~= seq!['1', '0', '0']);
        }
        Decimal { text }
    }

    /// The text.
    pub fn as_str(&self) -> (r: &str)
        ensures
            r@ == self@,
            is_decimal_text(r@),
    {
        proof {
            use_type_invariant(self);
        }
        self.text.as_str()
    }
}

/// A UUID, as its sixteen bytes.
#[derive(Debug, Clone, Copy, PartialEq, Eq, Hash)]
pub struct Uuid {
    pub bytes: [u8; 16],
}

impl Uuid {
    /// The UUID of these bytes, most significant first.
    pub fn from_bytes(bytes: [u8; 16]) -> (r: Uuid)
        ensures
            r.bytes == bytes,
    {
        Uuid { bytes }
    }
}

/// The lower-case hexadecimal digit for `n` (`n < 16`).
pub open spec fn hex_digit(n: nat) -> char {
    if n < 10 {
        digit_char(n)
    } else if n == 10 {
        'a'
    } else if n == 11 {
        'b'
    } else if n == 12 {
        'c'
    } else if n == 13 {
        'd'
    } else if n == 14 {
        'e'
    } else {
        'f'
    }
}

/// Two lower-case hexadecimal digits for each byte.
pub open spec fn hex_bytes(b: Seq<u8>) -> Seq<char>
    decreases b.len(),
{
    if b.len() == 0 {
        Seq::empty()
    } else {
        hex_bytes(b.drop_last()) + seq![
            hex_digit((b.last() / 16) as nat),
            hex_digit((b.last() % 16) as nat),
        ]
    }
}

/// The hyphenated form of a UUID's bytes: groups of 8, 4, 4, 4 and 12
/// lower-case hexadecimal digits, joined by `-`.
pub open spec fn uuid_text(b: Seq<u8>) -> Seq<char> {
    hex_bytes(b.subrange(0, 4)) + seq!['-'] + hex_bytes(b.subrange(4, 6)) + seq!['-'] + hex_bytes(
        b.subrange(6, 8),
    ) + seq!['-'] + hex_bytes(b.subrange(8, 10)) + seq!['-'] + hex_bytes(b.subrange(10, 16))
}

/// Relies on uuid's `Display` for `Uuid`, which writes the lower-case hyphenated form.
#[verifier::external_body]
fn uuid_hyphenated(bytes: &[u8; 16]) -> (r: String)
    ensures
        r@ == uuid_text(bytes@),
{
    uuid::Uuid::from_bytes(*bytes).to_string()
}

#[verifier::external_type_specification]
#[verifier::external_body]
pub struct ExJson(Json);

/// The compact JSON text of a document, as serde_json writes it.
pub uninterp spec fn json_doc_text(v: Json) -> Seq<char>;

/// Relies on serde_json's `Display` for `Value`, which writes the document as
/// compact JSON text, a function of the document alone.
#[verifier::external_body]
fn json_text(v: &Json) -> (r: String)
    ensures
        r@ == json_doc_text(*v),
{
    v.to_string()
}

impl Value {
    /// The value of a JSON document: its JSON text.
    pub fn json(v: &Json) -> (r: Value)
        ensures
            r is Json,
            r->Json_0 is Some,
            r->Json_0->0@ == json_doc_text(*v),
    {
        Value::Json(Some(json_text(v)))
    }
}

/// What a [`Value`] holds, as a mathematical value.
pub enum ValueModel {
    Bool(Option<bool>),
    TinyInt(Option<i8>),
    SmallInt(Option<i16>),
    Int(Option<i32>),
    BigInt(Option<i64>),
    TinyUnsigned(Option<u8>),
    SmallUnsigned(Option<u16>),
    Unsigned(Option<u32>),
    BigUnsigned(Option<u64>),
    Float(Option<Seq<char>>),
    Double(Option<Seq<char>>),
    String(Option<Seq<char>>),
    Array(Option<Seq<ValueModel>>),
    Json(Option<Seq<char>>),
    Uuid(Option<Seq<u8>>),
}

/// The model of a value.
pub open spec fn value_model(v: Value) -> ValueModel
    decreases v,
{
    match v {
        Value::Bool(b) => ValueModel::Bool(b),
        Value::TinyInt(i) => ValueModel::TinyInt(i),
        Value::SmallInt(i) => ValueModel::SmallInt(i),
        Value::Int(i) => ValueModel::Int(i),
        Value::BigInt(i) => ValueModel::BigInt(i),
        Value::TinyUnsigned(u) => ValueModel::TinyUnsigned(u),
        Value::SmallUnsigned(u) => ValueModel::SmallUnsigned(u),
        Value::Unsigned(u) => ValueModel::Unsigned(u),
        Value::BigUnsigned(u) => ValueModel::BigUnsigned(u),
        Value::Float(Some(t)) => ValueModel::Float(Some(t@)),
        Value::Float(None) => ValueModel::Float(None),
        Value::Double(Some(t)) => ValueModel::Double(Some(t@)),
        Value::Double(None) => ValueModel::Double(None),
        Value::String(Some(s)) => ValueModel::String(Some(s@)),
        Value::String(None) => ValueModel::String(None),
        Value::Array(Some(a)) => ValueModel::Array(Some(values_model(a@))),
        Value::Array(None) => ValueModel::Array(None),
        Value::Json(Some(t)) => ValueModel::Json(Some(t@)),
        Value::Json(None) => ValueModel::Json(None),
        Value::Uuid(Some(u)) => ValueModel::Uuid(Some(u.bytes@)),
        Value::Uuid(None) => ValueModel::Uuid(None),
    }
}

/// The models of a sequence of values.
pub open spec fn values_model(vs: Seq<Value>) -> Seq<ValueModel>
    decreases vs,
{
    if vs.len() == 0 {
        Seq::empty()
    } else {
        values_model(vs.drop_last()).push(value_model(vs.last()))
    }
}

pub proof fn lemma_values_model_len(vs: Seq<Value>)
    ensures
        values_model(vs).len() == vs.len(),
    decreases vs.len(),
{
    if vs.len() > 0 {
        lemma_values_model_len(vs.drop_last());
    }
}

/// The literal text of a value: `NULL` for any null, `TRUE`/`FALSE`, plain
/// decimal numbers (floating-point ones as their text), quoted and escaped strings, and `ARRAY [..]` (or `'{}'`
/// when empty) for arrays.
pub open spec fn value_literal(v: ValueModel) -> Seq<char>
    decreases v,
{
    match v {
        ValueModel::Bool(Some(b)) => if b {
            "TRUE"@
        } else {
            "FALSE"@
        },
        ValueModel::TinyInt(Some(i)) => signed_decimal(i as int),
        ValueModel::SmallInt(Some(i)) => signed_decimal(i as int),
        ValueModel::Int(Some(i)) => signed_decimal(i as int),
        ValueModel::BigInt(Some(i)) => signed_decimal(i as int),
        ValueModel::TinyUnsigned(Some(u)) => decimal(u as nat),
        ValueModel::SmallUnsigned(Some(u)) => decimal(u as nat),
        ValueModel::Unsigned(Some(u)) => decimal(u as nat),
        ValueModel::BigUnsigned(Some(u)) => decimal(u as nat),
        ValueModel::Float(Some(t)) => t,
        ValueModel::Double(Some(t)) => t,
        ValueModel::String(Some(s)) => string_literal(s),
        ValueModel::Array(Some(a)) => if a.len() == 0 {
            "'{}'"@
        } else {
            "ARRAY ["@ + array_elements(a) + "]"@
        },
        ValueModel::Json(Some(t)) => string_literal(t),
        ValueModel::Uuid(Some(b)) => seq!['\''] + uuid_text(b) + seq!['\''],
        _ => "NULL"@,
    }
}

/// The literals of `vs`, joined by `, `.
pub open spec fn array_elements(vs: Seq<ValueModel>) -> Seq<char>
    decreases vs,
{
    if vs.len() == 0 {
        Seq::empty()
    } else if vs.len() == 1 {
        value_literal(vs[0])
    } else {
        array_elements(vs.drop_last()) + ", "@ + value_literal(vs.last())
    }
}

/// Appends the literal text of `v`.
pub fn write_value(out: &mut String, v: &Value)
    ensures
        final(out)@ == old(out)@ + value_literal(value_model(*v)),
    decreases v,
{
    match v {
        Value::Bool(Some(b)) => {
            if *b {
                out.append("TRUE");
            } else {
                out.append("FALSE");
            }
        },
        Value::TinyInt(Some(i)) => push_signed_decimal(out, *i as i64),
        Value::SmallInt(Some(i)) => push_signed_decimal(out, *i as i64),
        Value::Int(Some(i)) => push_signed_decimal(out, *i as i64),
        Value::BigInt(Some(i)) => push_signed_decimal(out, *i),
        Value::TinyUnsigned(Some(u)) => push_decimal(out, *u as u64),
        Value::SmallUnsigned(Some(u)) => push_decimal(out, *u as u64),
        Value::Unsigned(Some(u)) => push_decimal(out, *u as u64),
        Value::BigUnsigned(Some(u)) => push_decimal(out, *u),
        Value::Float(Some(t)) => out.append(t.as_str()),
        Value::Double(Some(t)) => out.append(t.as_str()),
        Value::String(Some(s)) => push_string_literal(out, s.as_str()),
        Value::Array(Some(a)) => {
            proof {
                lemma_values_model_len(a@);
            }
            if a.len() == 0 {
                out.append("'{}'");
            } else {
                out.append("ARRAY [");
                let ghost start = out@;
                let mut i: usize = 0;
                while i < a.len()
                    invariant
                        i <= a@.len(),
                        a@.len() > 0,
                        *v == Value::Array(Some(*a)),
                        out@ == start + array_elements(values_model(a@.subrange(0, i as int))),
                    decreases a@.len() - i,
                {
                    if i > 0 {
                        out.append(", ");
                    }
                    proof {
                        assert(decreases_to!(*v => (*v)->Array_0));
                        assert(decreases_to!((*v)->Array_0 => (*v)->Array_0->0));
                        assert(decreases_to!(*a => a@));
                        assert(decreases_to!(a@ => a@[i as int]));
                    }
                    write_value(out, &a[i]);
                    proof {
                        let s1 = a@.subrange(0, i + 1);
                        assert(s1.drop_last() =~= a@.subrange(0, i as int));
                        lemma_values_model_len(a@.subrange(0, i as int));
                        let prev = values_model(a@.subrange(0, i as int));
                        assert(values_model(s1) == prev.push(value_model(a@[i as int])));
                        if i == 0 {
                            assert(a@.subrange(0, 0) =~= Seq::<Value>::empty());
                            assert(values_model(s1) =~= seq![value_model(a@[0])]);
                        } else {
                            assert(prev.push(value_model(a@[i as int])).drop_last() =~= prev);
                        }
                    }
                    i = i + 1;
                }
                assert(a@.subrange(0, a@.len() as int) =~= a@);
                out.append("]");
            }
        },
        Value::Json(Some(t)) => push_string_literal(out, t.as_str()),
        Value::Uuid(Some(u)) => {
            push_char(out, '\'');
            let text = uuid_hyphenated(&u.bytes);
            out.append(text.as_str());
            push_char(out, '\'');
        },
        _ => out.append("NULL"),
    }
    assert(final(out)@ =~= old(out)@ + value_literal(value_model(*v)));
}

/// A copy of `v`.
pub fn clone_value(v: &Value) -> (r: Value)
    ensures
        value_model(r) == value_model(*v),
    decreases v,
{
    match v {
        Value::Bool(b) => Value::Bool(*b),
        Value::TinyInt(i) => Value::TinyInt(*i),
        Value::SmallInt(i) => Value::SmallInt(*i),
        Value::Int(i) => Value::Int(*i),
        Value::BigInt(i) => Value::BigInt(*i),
        Value::TinyUnsigned(u) => Value::TinyUnsigned(*u),
        Value::SmallUnsigned(u) => Value::SmallUnsigned(*u),
        Value::Unsigned(u) => Value::Unsigned(*u),
        Value::BigUnsigned(u) => Value::BigUnsigned(*u),
        Value::Float(Some(t)) => Value::Float(Some(t.clone())),
        Value::Float(None) => Value::Float(None),
        Value::Double(Some(t)) => Value::Double(Some(t.clone())),
        Value::Double(None) => Value::Double(None),
        Value::String(Some(s)) => Value::String(Some(s.clone())),
        Value::String(None) => Value::String(None),
        Value::Array(Some(a)) => {
            let mut out: Vec<Value> = Vec::new();
            let mut i: usize = 0;
            while i < a.len()
                invariant
                    i <= a@.len(),
                    *v == Value::Array(Some(*a)),
                    values_model(out@) == values_model(a@.subrange(0, i as int)),
                decreases a@.len() - i,
            {
                proof {
                    assert(decreases_to!(*v => (*v)->Array_0));
                    assert(decreases_to!((*v)->Array_0 => (*v)->Array_0->0));
                    assert(decreases_to!(*a => a@));
                    assert(decreases_to!(a@ => a@[i as int]));
                }
                let x = clone_value(&a[i]);
                let ghost before = out@;
                out.push(x);
                proof {
                    assert(out@.drop_last() =~= before);
                    assert(a@.subrange(0, i + 1).drop_last() =~= a@.subrange(0, i as int));
                }
                i = i + 1;
            }
            assert(a@.subrange(0, a@.len() as int) =~= a@);
            Value::Array(Some(out))
        },
        Value::Array(None) => Value::Array(None),
        Value::Json(Some(t)) => Value::Json(Some(t.clone())),
        Value::Json(None) => Value::Json(None),
        Value::Uuid(u) => Value::Uuid(*u),
    }
}

impl Clone for Value {
    fn clone(&self) -> (r: Value)
        ensures
            value_model(r) == value_model(*self),
    {
        clone_value(self)
    }
}

impl Value {
    /// An array value holding `values` in order.
    pub fn array(values: Vec<Value>) -> (r: Value)
        ensures
            value_model(r) == ValueModel::Array(Some(values_model(values@))),
    {
        Value::Array(Some(values))
    }
}

/// Native values that convert into a [`Value`] of a fixed variant.
pub trait IntoValue: Sized {
    /// The model of the value that `self` converts into.
    spec fn value_of(&self) -> ValueModel;

    /// Convert into a [`Value`].
    fn into_value(self) -> (v: Value)
        ensures
            value_model(v) == self.value_of(),
    ;
}

impl IntoValue for Value {
    open spec fn value_of(&self) -> ValueModel {
        value_model(*self)
    }

    fn into_value(self) -> (v: Value) {
        self
    }
}

impl IntoValue for bool {
    open spec fn value_of(&self) -> ValueModel {
        ValueModel::Bool(Some(*self))
    }

    fn into_value(self) -> (v: Value) {
        Value::Bool(Some(self))
    }
}

impl IntoValue for i8 {
    open spec fn value_of(&self) -> ValueModel {
        ValueModel::TinyInt(Some(*self))
    }

    fn into_value(self) -> (v: Value) {
        Value::TinyInt(Some(self))
    }
}

impl IntoValue for i16 {
    open spec fn value_of(&self) -> ValueModel {
        ValueModel::SmallInt(Some(*self))
    }

    fn into_value(self) -> (v: Value) {
        Value::SmallInt(Some(self))
    }
}

impl IntoValue for i32 {
    open spec fn value_of(&self) -> ValueModel {
        ValueModel::Int(Some(*self))
    }

    fn into_value(self) -> (v: Value) {
        Value::Int(Some(self))
    }
}

impl IntoValue for i64 {
    open spec fn value_of(&self) -> ValueModel {
        ValueModel::BigInt(Some(*self))
    }

    fn into_value(self) -> (v: Value) {
        Value::BigInt(Some(self))
    }
}

impl IntoValue for u8 {
    open spec fn value_of(&self) -> ValueModel {
        ValueModel::TinyUnsigned(Some(*self))
    }

    fn into_value(self) -> (v: Value) {
        Value::TinyUnsigned(Some(self))
    }
}

impl IntoValue for u16 {
    open spec fn value_of(&self) -> ValueModel {
        ValueModel::SmallUnsigned(Some(*self))
    }

    fn into_value(self) -> (v: Value) {
        Value::SmallUnsigned(Some(self))
    }
}

impl IntoValue for u32 {
    open spec fn value_of(&self) -> ValueModel {
        ValueModel::Unsigned(Some(*self))
    }

    fn into_value(self) -> (v: Value) {
        Value::Unsigned(Some(self))
    }
}

impl IntoValue for u64 {
    open spec fn value_of(&self) -> ValueModel {
        ValueModel::BigUnsigned(Some(*self))
    }

    fn into_value(self) -> (v: Value) {
        Value::BigUnsigned(Some(self))
    }
}

impl IntoValue for String {
    open spec fn value_of(&self) -> ValueModel {
        ValueModel::String(Some(self@))
    }

    fn into_value(self) -> (v: Value) {
        Value::String(Some(self))
    }
}

impl IntoValue for Uuid {
    open spec fn value_of(&self) -> ValueModel {
        ValueModel::Uuid(Some(self.bytes@))
    }

    fn into_value(self) -> (v: Value) {
        Value::Uuid(Some(self))
    }
}

impl<'a> IntoValue for &'a str {
    open spec fn value_of(&self) -> ValueModel {
        ValueModel::String(Some((*self)@))
    }

    fn into_value(self) -> (v: Value) {
        Value::String(Some(self.to_owned()))
    }
}


/// Native types whose absence converts into the NULL of their own variant.
pub trait Nullable {
    /// The model of the typed NULL.
    spec fn null_model() -> ValueModel;

    /// The typed NULL.
    fn null() -> (v: Value)
        ensures
            value_model(v) == Self::null_model(),
    ;
}

impl Nullable for bool {
    open spec fn null_model() -> ValueModel {
        ValueModel::Bool(None)
    }

    fn null() -> (v: Value) {
        Value::Bool(None)
    }
}

impl Nullable for i8 {
    open spec fn null_model() -> ValueModel {
        ValueModel::TinyInt(None)
    }

    fn null() -> (v: Value) {
        Value::TinyInt(None)
    }
}

impl Nullable for i16 {
    open spec fn null_model() -> ValueModel {
        ValueModel::SmallInt(None)
    }

    fn null() -> (v: Value) {
        Value::SmallInt(None)
    }
}

impl Nullable for i32 {
    open spec fn null_model() -> ValueModel {
        ValueModel::Int(None)
    }

    fn null() -> (v: Value) {
        Value::Int(None)
    }
}

impl Nullable for i64 {
    open spec fn null_model() -> ValueModel {
        ValueModel::BigInt(None)
    }

    fn null() -> (v: Value) {
        Value::BigInt(None)
    }
}

impl Nullable for u8 {
    open spec fn null_model() -> ValueModel {
        ValueModel::TinyUnsigned(None)
    }

    fn null() -> (v: Value) {
        Value::TinyUnsigned(None)
    }
}

impl Nullable for u16 {
    open spec fn null_model() -> ValueModel {
        ValueModel::SmallUnsigned(None)
    }

    fn null() -> (v: Value) {
        Value::SmallUnsigned(None)
    }
}

impl Nullable for u32 {
    open spec fn null_model() -> ValueModel {
        ValueModel::Unsigned(None)
    }

    fn null() -> (v: Value) {
        Value::Unsigned(None)
    }
}

impl Nullable for u64 {
    open spec fn null_model() -> ValueModel {
        ValueModel::BigUnsigned(None)
    }

    fn null() -> (v: Value) {
        Value::BigUnsigned(None)
    }
}

impl Nullable for String {
    open spec fn null_model() -> ValueModel {
        ValueModel::String(None)
    }

    fn null() -> (v: Value) {
        Value::String(None)
    }
}

impl<'a> Nullable for &'a str {
    open spec fn null_model() -> ValueModel {
        ValueModel::String(None)
    }

    fn null() -> (v: Value) {
        Value::String(None)
    }
}

impl Nullable for Uuid {
    open spec fn null_model() -> ValueModel {
        ValueModel::Uuid(None)
    }

    fn null() -> (v: Value) {
        Value::Uuid(None)
    }
}

impl<T: IntoValue + Nullable> IntoValue for Option<T> {
    open spec fn value_of(&self) -> ValueModel {
        match self {
            Some(x) => x.value_of(),
            None => T::null_model(),
        }
    }

    fn into_value(self) -> (v: Value) {
        match self {
            Some(x) => x.into_value(),
            None => T::null(),
        }
    }
}

} // verus!
