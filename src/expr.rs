//! Expressions: the tree that conditions, select items and defaults are built from.
use vstd::prelude::*;
use crate::func::FunctionCall;
use crate::query::Select;
use crate::types::{ColumnRef, IntoColumnRef, column_ref_parts};
use crate::value::{IntoValue, Value, value_model};

verus! {

/// SQL keywords.
#[derive(Debug, Clone, Copy, PartialEq, Eq)]
pub enum Keyword {
    Null,
}

/// An arbitrary, dynamically-typed SQL expression.
#[derive(Debug, PartialEq)]
pub enum Expr {
    Column(ColumnRef),
    Asterisk,
    Keyword(Keyword),
    Tuple(Vec<Expr>),
    Value(Value),
    Unary(UnaryOp, Box<Expr>),
    Binary(Box<Expr>, BinaryOp, Box<Expr>),
    FunctionCall(FunctionCall),
    SubQuery(Option<SubQueryOp>, Box<Select>),
    /// Verbatim SQL, written out as it is: neither escaped nor parenthesized.
    Custom(String),
}

/// Sub-query operators.
#[derive(Debug, Clone, Copy, PartialEq, Eq)]
pub enum SubQueryOp {
    Exists,
    Any,
    SomeOf,
    All,
}

/// Unary operators.
#[derive(Debug, Clone, Copy, PartialEq, Eq, Structural)]
pub enum UnaryOp {
    Not,
}

/// Binary operators.
#[derive(Debug, Clone, Copy, PartialEq, Eq, Structural)]
pub enum BinaryOp {
    And,
    Or,
    Equal,
    NotEqual,
    Between,
    NotBetween,
    Like,
    NotLike,
    Is,
    IsNot,
    In,
    NotIn,
    LShift,
    RShift,
    Add,
    Sub,
    Mul,
    Div,
    Mod,
    LessThan,
    LessThanOrEqual,
    GreaterThan,
    GreaterThanOrEqual,
}

/// Values that convert into an expression: expressions themselves, function
/// calls, and every value type (as a literal value).
pub trait IntoExpr: Sized {
    /// Whether `e` is the expression that `self` converts into.
    spec fn converts_to_expr(&self, e: Expr) -> bool;

    /// Convert into an expression.
    fn into_expr(self) -> (e: Expr)
        ensures
            self.converts_to_expr(e),
    ;
}

impl IntoExpr for Expr {
    open spec fn converts_to_expr(&self, e: Expr) -> bool {
        e == *self
    }

    fn into_expr(self) -> (e: Expr) {
        self
    }
}

impl IntoExpr for FunctionCall {
    open spec fn converts_to_expr(&self, e: Expr) -> bool {
        e == Expr::FunctionCall(*self)
    }

    fn into_expr(self) -> (e: Expr) {
        Expr::FunctionCall(self)
    }
}

impl<T: IntoValue> IntoExpr for T {
    open spec fn converts_to_expr(&self, e: Expr) -> bool {
        e is Value && value_model(e->Value_0) == self.value_of()
    }

    fn into_expr(self) -> (e: Expr) {
        Expr::Value(self.into_value())
    }
}

/// `r` is the call of `f` on `args`.
pub open spec fn call_of(r: Expr, f: crate::func::Func, args: Seq<Expr>) -> bool {
    &&& r is FunctionCall
    &&& r->FunctionCall_0.func == f
    &&& r->FunctionCall_0.args@ == args
}

/// `r` is the binary expression `l op _`.
pub open spec fn binary_of(r: Expr, l: Expr, op: BinaryOp) -> bool {
    &&& r is Binary
    &&& *r->Binary_0 == l
    &&& r->Binary_1 == op
}

/// `r` is `l op (a AND b)`, the shape of `BETWEEN`.
pub open spec fn between_of<A: IntoExpr, B: IntoExpr>(
    r: Expr,
    l: Expr,
    op: BinaryOp,
    a: A,
    b: B,
) -> bool {
    &&& binary_of(r, l, op)
    &&& (*r->Binary_2) is Binary
    &&& (*r->Binary_2)->Binary_1 == BinaryOp::And
    &&& a.converts_to_expr(*(*r->Binary_2)->Binary_0)
    &&& b.converts_to_expr(*(*r->Binary_2)->Binary_2)
}

/// The left-to-right `AND` of the conditions, left-associated: `((c0 AND c1) AND c2) ..`.
pub open spec fn and_fold(cs: Seq<Expr>) -> Expr
    decreases cs.len(),
{
    if cs.len() <= 1 {
        cs[0]
    } else {
        Expr::Binary(Box::new(and_fold(cs.drop_last())), BinaryOp::And, Box::new(cs.last()))
    }
}

/// # Expression constructors
impl Expr {
    /// A literal value.
    pub fn value<T: IntoValue>(value: T) -> (r: Expr)
        ensures
            r is Value,
            value_model(r->Value_0) == value.value_of(),
    {
        Expr::Value(value.into_value())
    }

    /// A column reference.
    pub fn column<T: IntoColumnRef>(n: T) -> (r: Expr)
        ensures
            r is Column,
            column_ref_parts(r->Column_0) == n.column_parts(),
    {
        Expr::Column(n.into_column_ref())
    }

    /// The asterisk (`*`), with no table before it.
    pub fn asterisk() -> (r: Expr)
        ensures
            r == Expr::Asterisk,
    {
        Expr::Asterisk
    }

    /// A tuple of expressions.
    pub fn tuple(n: Vec<Expr>) -> (r: Expr)
        ensures
            r == Expr::Tuple(n),
    {
        Expr::Tuple(n)
    }

    /// Verbatim SQL.
    pub fn custom(expr: &str) -> (r: Expr)
        ensures
            r is Custom,
            r->Custom_0@ == expr@,
    {
        Expr::Custom(expr.to_owned())
    }

    /// Expressions and conditions of several parts: `AND` of all of them,
    /// left-associated, or `None` for none.
    pub fn from_conditions(conditions: Vec<Expr>) -> (r: Option<Expr>)
        ensures
            conditions@.len() == 0 ==> r is None,
            conditions@.len() > 0 ==> r == Some(and_fold(conditions@)),
    {
        let ghost orig = conditions@;
        let mut rest = conditions;
        if rest.len() == 0 {
            return None;
        }
        let mut acc = rest.remove(0);
        let total = rest.len() + 1;
        let mut i: usize = 1;
        assert(orig.subrange(0, 1) =~= seq![orig[0]]);
        while rest.len() > 0
            invariant
                orig.len() == total,
                1 <= i <= orig.len(),
                i + rest@.len() == orig.len(),
                rest@ == orig.subrange(i as int, orig.len() as int),
                acc == and_fold(orig.subrange(0, i as int)),
            decreases rest@.len(),
        {
            let next = rest.remove(0);
            acc = Expr::Binary(Box::new(acc), BinaryOp::And, Box::new(next));
            proof {
                assert(orig.subrange(0, i + 1).drop_last() =~= orig.subrange(0, i as int));
            }
            i = i + 1;
        }
        assert(orig.subrange(0, i as int) =~= orig);
        Some(acc)
    }
}

/// # Expression combinators
impl Expr {
    /// Any binary operation.
    pub fn binary<R: IntoExpr>(self, op: BinaryOp, rhs: R) -> (r: Expr)
        ensures
            binary_of(r, self, op),
            rhs.converts_to_expr(*r->Binary_2),
    {
        Expr::Binary(Box::new(self), op, Box::new(rhs.into_expr()))
    }

    /// `MAX(self)`.
    pub fn max(self) -> (r: Expr)
        ensures
            call_of(r, crate::func::Func::Max, seq![self]),
    {
        let ghost e = self;
        let c = FunctionCall::max(self);
        assert(c.args@ =~= seq![e]);
        Expr::FunctionCall(c)
    }

    /// `MIN(self)`.
    pub fn min(self) -> (r: Expr)
        ensures
            call_of(r, crate::func::Func::Min, seq![self]),
    {
        let ghost e = self;
        let c = FunctionCall::min(self);
        assert(c.args@ =~= seq![e]);
        Expr::FunctionCall(c)
    }

    /// `SUM(self)`.
    pub fn sum(self) -> (r: Expr)
        ensures
            call_of(r, crate::func::Func::Sum, seq![self]),
    {
        let ghost e = self;
        let c = FunctionCall::sum(self);
        assert(c.args@ =~= seq![e]);
        Expr::FunctionCall(c)
    }

    /// `AVG(self)`.
    pub fn avg(self) -> (r: Expr)
        ensures
            call_of(r, crate::func::Func::Avg, seq![self]),
    {
        let ghost e = self;
        let c = FunctionCall::avg(self);
        assert(c.args@ =~= seq![e]);
        Expr::FunctionCall(c)
    }

    /// `COUNT(self)`.
    pub fn count(self) -> (r: Expr)
        ensures
            call_of(r, crate::func::Func::Count, seq![self]),
    {
        let ghost e = self;
        let c = FunctionCall::count(self);
        assert(c.args@ =~= seq![e]);
        Expr::FunctionCall(c)
    }

    /// `self IS NULL`.
    pub fn is_null(self) -> (r: Expr)
        ensures
            r == Expr::Binary(Box::new(self), BinaryOp::Is, Box::new(Expr::Keyword(Keyword::Null))),
    {
        Expr::Binary(Box::new(self), BinaryOp::Is, Box::new(Expr::Keyword(Keyword::Null)))
    }

    /// `self IS NOT NULL`.
    pub fn is_not_null(self) -> (r: Expr)
        ensures
            r == Expr::Binary(
                Box::new(self),
                BinaryOp::IsNot,
                Box::new(Expr::Keyword(Keyword::Null)),
            ),
    {
        Expr::Binary(Box::new(self), BinaryOp::IsNot, Box::new(Expr::Keyword(Keyword::Null)))
    }

    /// `self BETWEEN a AND b`.
    pub fn between<A: IntoExpr, B: IntoExpr>(self, a: A, b: B) -> (r: Expr)
        ensures
            between_of(r, self, BinaryOp::Between, a, b),
    {
        let pair = Expr::Binary(Box::new(a.into_expr()), BinaryOp::And, Box::new(b.into_expr()));
        Expr::Binary(Box::new(self), BinaryOp::Between, Box::new(pair))
    }

    /// `self NOT BETWEEN a AND b`.
    pub fn not_between<A: IntoExpr, B: IntoExpr>(self, a: A, b: B) -> (r: Expr)
        ensures
            between_of(r, self, BinaryOp::NotBetween, a, b),
    {
        let pair = Expr::Binary(Box::new(a.into_expr()), BinaryOp::And, Box::new(b.into_expr()));
        Expr::Binary(Box::new(self), BinaryOp::NotBetween, Box::new(pair))
    }

    /// `self LIKE pattern`.
    pub fn like<R: IntoExpr>(self, pattern: R) -> (r: Expr)
        ensures
            binary_of(r, self, BinaryOp::Like),
            pattern.converts_to_expr(*r->Binary_2),
    {
        self.binary(BinaryOp::Like, pattern)
    }

    /// `self NOT LIKE pattern`.
    pub fn not_like<R: IntoExpr>(self, pattern: R) -> (r: Expr)
        ensures
            binary_of(r, self, BinaryOp::NotLike),
            pattern.converts_to_expr(*r->Binary_2),
    {
        self.binary(BinaryOp::NotLike, pattern)
    }

    /// `self + rhs`.
    pub fn add<R: IntoExpr>(self, rhs: R) -> (r: Expr)
        ensures
            binary_of(r, self, BinaryOp::Add),
            rhs.converts_to_expr(*r->Binary_2),
    {
        self.binary(BinaryOp::Add, rhs)
    }

    /// `self - rhs`.
    pub fn sub<R: IntoExpr>(self, rhs: R) -> (r: Expr)
        ensures
            binary_of(r, self, BinaryOp::Sub),
            rhs.converts_to_expr(*r->Binary_2),
    {
        self.binary(BinaryOp::Sub, rhs)
    }

    /// `self * rhs`.
    pub fn mul<R: IntoExpr>(self, rhs: R) -> (r: Expr)
        ensures
            binary_of(r, self, BinaryOp::Mul),
            rhs.converts_to_expr(*r->Binary_2),
    {
        self.binary(BinaryOp::Mul, rhs)
    }

    /// `self / rhs`.
    pub fn div<R: IntoExpr>(self, rhs: R) -> (r: Expr)
        ensures
            binary_of(r, self, BinaryOp::Div),
            rhs.converts_to_expr(*r->Binary_2),
    {
        self.binary(BinaryOp::Div, rhs)
    }

    /// `COALESCE(self, value)`: `value` where `self` is NULL.
    pub fn if_null<V: IntoExpr>(self, value: V) -> (r: Expr)
        ensures
            r is FunctionCall,
            r->FunctionCall_0.func == crate::func::Func::Coalesce,
            r->FunctionCall_0.args@.len() == 2,
            r->FunctionCall_0.args@[0] == self,
            value.converts_to_expr(r->FunctionCall_0.args@[1]),
    {
        Expr::FunctionCall(FunctionCall::coalesce(self, value))
    }

    /// `self > right`.
    pub fn gt<R: IntoExpr>(self, right: R) -> (r: Expr)
        ensures
            binary_of(r, self, BinaryOp::GreaterThan),
            right.converts_to_expr(*r->Binary_2),
    {
        self.binary(BinaryOp::GreaterThan, right)
    }

    /// `self >= right`.
    pub fn gte<R: IntoExpr>(self, right: R) -> (r: Expr)
        ensures
            binary_of(r, self, BinaryOp::GreaterThanOrEqual),
            right.converts_to_expr(*r->Binary_2),
    {
        self.binary(BinaryOp::GreaterThanOrEqual, right)
    }

    /// `self < right`.
    pub fn lt<R: IntoExpr>(self, right: R) -> (r: Expr)
        ensures
            binary_of(r, self, BinaryOp::LessThan),
            right.converts_to_expr(*r->Binary_2),
    {
        self.binary(BinaryOp::LessThan, right)
    }

    /// `self <= right`.
    pub fn lte<R: IntoExpr>(self, right: R) -> (r: Expr)
        ensures
            binary_of(r, self, BinaryOp::LessThanOrEqual),
            right.converts_to_expr(*r->Binary_2),
    {
        self.binary(BinaryOp::LessThanOrEqual, right)
    }

    /// `self AND right`.
    pub fn and<R: IntoExpr>(self, right: R) -> (r: Expr)
        ensures
            binary_of(r, self, BinaryOp::And),
            right.converts_to_expr(*r->Binary_2),
    {
        self.binary(BinaryOp::And, right)
    }

    /// `self OR right`.
    pub fn or<R: IntoExpr>(self, right: R) -> (r: Expr)
        ensures
            binary_of(r, self, BinaryOp::Or),
            right.converts_to_expr(*r->Binary_2),
    {
        self.binary(BinaryOp::Or, right)
    }

    /// `self = right`.
    pub fn eq<R: IntoExpr>(self, right: R) -> (r: Expr)
        ensures
            binary_of(r, self, BinaryOp::Equal),
            right.converts_to_expr(*r->Binary_2),
    {
        self.binary(BinaryOp::Equal, right)
    }

    /// `self <> right`.
    pub fn ne<R: IntoExpr>(self, right: R) -> (r: Expr)
        ensures
            binary_of(r, self, BinaryOp::NotEqual),
            right.converts_to_expr(*r->Binary_2),
    {
        self.binary(BinaryOp::NotEqual, right)
    }

    /// `self IN (v0, v1, ..)`.
    pub fn is_in<V: IntoExpr>(self, v: Vec<V>) -> (r: Expr)
        ensures
            binary_of(r, self, BinaryOp::In),
            tuple_of(*r->Binary_2, v@),
    {
        Expr::Binary(Box::new(self), BinaryOp::In, Box::new(Expr::Tuple(exprs_of(v))))
    }

    /// `self NOT IN (v0, v1, ..)`.
    pub fn is_not_in<V: IntoExpr>(self, v: Vec<V>) -> (r: Expr)
        ensures
            binary_of(r, self, BinaryOp::NotIn),
            tuple_of(*r->Binary_2, v@),
    {
        Expr::Binary(Box::new(self), BinaryOp::NotIn, Box::new(Expr::Tuple(exprs_of(v))))
    }

    /// `self IN (query)`.
    pub fn in_subquery(self, query: Select) -> (r: Expr)
        ensures
            r == Expr::Binary(
                Box::new(self),
                BinaryOp::In,
                Box::new(Expr::SubQuery(None, Box::new(query))),
            ),
    {
        Expr::Binary(Box::new(self), BinaryOp::In, Box::new(Expr::SubQuery(None, Box::new(query))))
    }

    /// Any unary operation.
    pub fn unary(self, op: UnaryOp) -> (r: Expr)
        ensures
            r == Expr::Unary(op, Box::new(self)),
    {
        Expr::Unary(op, Box::new(self))
    }

    /// `NOT self`.
    pub fn not(self) -> (r: Expr)
        ensures
            r == Expr::Unary(UnaryOp::Not, Box::new(self)),
    {
        Expr::Unary(UnaryOp::Not, Box::new(self))
    }
}

/// `t` is the tuple of what the items of `vs` convert into, in order.
pub open spec fn tuple_of<V: IntoExpr>(t: Expr, vs: Seq<V>) -> bool {
    &&& t is Tuple
    &&& t->Tuple_0@.len() == vs.len()
    &&& forall|i: int| 0 <= i < vs.len() ==> #[trigger] vs[i].converts_to_expr(t->Tuple_0@[i])
}

/// Each item converted into an expression, in order.
pub fn exprs_of<V: IntoExpr>(v: Vec<V>) -> (r: Vec<Expr>)
    ensures
        r@.len() == v@.len(),
        forall|i: int| 0 <= i < v@.len() ==> #[trigger] v@[i].converts_to_expr(r@[i]),
{
    let ghost orig = v@;
    let mut rest = v;
    let mut out: Vec<Expr> = Vec::new();
    while rest.len() > 0
        invariant
            out@.len() + rest@.len() == orig.len(),
            rest@ == orig.subrange(out@.len() as int, orig.len() as int),
            forall|i: int| 0 <= i < out@.len() ==> #[trigger] orig[i].converts_to_expr(out@[i]),
        decreases rest@.len(),
    {
        let x = rest.remove(0);
        let ghost k = out@.len() as int;
        assert(x == orig[k]);
        out.push(x.into_expr());
    }
    out
}

/// Operators, unary or binary, as the precedence rules see them.
#[derive(Debug, Clone, Copy, PartialEq, Eq, Structural)]
pub enum Operator {
    Unary(UnaryOp),
    Binary(BinaryOp),
}

impl Operator {
    pub open spec fn spec_is_logical(&self) -> bool {
        self == Operator::Unary(UnaryOp::Not) || self == Operator::Binary(BinaryOp::And)
            || self == Operator::Binary(BinaryOp::Or)
    }

    pub open spec fn spec_is_between(&self) -> bool {
        self == Operator::Binary(BinaryOp::Between) || self == Operator::Binary(
            BinaryOp::NotBetween,
        )
    }

    pub open spec fn spec_is_like(&self) -> bool {
        self == Operator::Binary(BinaryOp::Like) || self == Operator::Binary(BinaryOp::NotLike)
    }

    pub open spec fn spec_is_in(&self) -> bool {
        self == Operator::Binary(BinaryOp::In) || self == Operator::Binary(BinaryOp::NotIn)
    }

    pub open spec fn spec_is_is(&self) -> bool {
        self == Operator::Binary(BinaryOp::Is) || self == Operator::Binary(BinaryOp::IsNot)
    }

    pub open spec fn spec_is_shift(&self) -> bool {
        self == Operator::Binary(BinaryOp::LShift) || self == Operator::Binary(BinaryOp::RShift)
    }

    pub open spec fn spec_is_arithmetic(&self) -> bool {
        match self {
            Operator::Binary(b) => b == BinaryOp::Mul || b == BinaryOp::Div || b == BinaryOp::Mod
                || b == BinaryOp::Add || b == BinaryOp::Sub,
            _ => false,
        }
    }

    pub open spec fn spec_is_comparison(&self) -> bool {
        match self {
            Operator::Binary(b) => b == BinaryOp::LessThan || b == BinaryOp::LessThanOrEqual || b
                == BinaryOp::Equal || b == BinaryOp::GreaterThanOrEqual || b
                == BinaryOp::GreaterThan || b == BinaryOp::NotEqual,
            _ => false,
        }
    }

    /// `NOT`, `AND` or `OR`.
    #[verifier::when_used_as_spec(spec_is_logical)]
    pub fn is_logical(&self) -> (r: bool)
        ensures
            r == self.spec_is_logical(),
    {
        *self == Operator::Unary(UnaryOp::Not) || *self == Operator::Binary(BinaryOp::And)
            || *self == Operator::Binary(BinaryOp::Or)
    }

    /// `BETWEEN` or `NOT BETWEEN`.
    #[verifier::when_used_as_spec(spec_is_between)]
    pub fn is_between(&self) -> (r: bool)
        ensures
            r == self.spec_is_between(),
    {
        *self == Operator::Binary(BinaryOp::Between) || *self == Operator::Binary(
            BinaryOp::NotBetween,
        )
    }

    /// `LIKE` or `NOT LIKE`.
    #[verifier::when_used_as_spec(spec_is_like)]
    pub fn is_like(&self) -> (r: bool)
        ensures
            r == self.spec_is_like(),
    {
        *self == Operator::Binary(BinaryOp::Like) || *self == Operator::Binary(BinaryOp::NotLike)
    }

    /// `IN` or `NOT IN`.
    #[verifier::when_used_as_spec(spec_is_in)]
    pub fn is_in(&self) -> (r: bool)
        ensures
            r == self.spec_is_in(),
    {
        *self == Operator::Binary(BinaryOp::In) || *self == Operator::Binary(BinaryOp::NotIn)
    }

    /// `IS` or `IS NOT`.
    #[verifier::when_used_as_spec(spec_is_is)]
    pub fn is_is(&self) -> (r: bool)
        ensures
            r == self.spec_is_is(),
    {
        *self == Operator::Binary(BinaryOp::Is) || *self == Operator::Binary(BinaryOp::IsNot)
    }

    /// `<<` or `>>`.
    #[verifier::when_used_as_spec(spec_is_shift)]
    pub fn is_shift(&self) -> (r: bool)
        ensures
            r == self.spec_is_shift(),
    {
        *self == Operator::Binary(BinaryOp::LShift) || *self == Operator::Binary(BinaryOp::RShift)
    }

    /// `*`, `/`, `%`, `+` or `-`.
    #[verifier::when_used_as_spec(spec_is_arithmetic)]
    pub fn is_arithmetic(&self) -> (r: bool)
        ensures
            r == self.spec_is_arithmetic(),
    {
        match self {
            Operator::Binary(b) => *b == BinaryOp::Mul || *b == BinaryOp::Div || *b == BinaryOp::Mod
                || *b == BinaryOp::Add || *b == BinaryOp::Sub,
            _ => false,
        }
    }

    /// `<`, `<=`, `=`, `>=`, `>` or `<>`.
    #[verifier::when_used_as_spec(spec_is_comparison)]
    pub fn is_comparison(&self) -> (r: bool)
        ensures
            r == self.spec_is_comparison(),
    {
        match self {
            Operator::Binary(b) => *b == BinaryOp::LessThan || *b == BinaryOp::LessThanOrEqual
                || *b == BinaryOp::Equal || *b == BinaryOp::GreaterThanOrEqual || *b
                == BinaryOp::GreaterThan || *b == BinaryOp::NotEqual,
            _ => false,
        }
    }
}

/// Operators that associate to the left, so that `(a op b) op c` reads as `a op b op c`.
pub open spec fn spec_left_associative(op: &BinaryOp) -> bool {
    *op == BinaryOp::And || *op == BinaryOp::Or || *op == BinaryOp::Add || *op == BinaryOp::Sub
        || *op == BinaryOp::Mul || *op == BinaryOp::Div
}

/// Whether `op` associates to the left.
#[verifier::when_used_as_spec(spec_left_associative)]
pub fn well_known_left_associative(op: &BinaryOp) -> (r: bool)
    ensures
        r == spec_left_associative(op),
{
    *op == BinaryOp::And || *op == BinaryOp::Or || *op == BinaryOp::Add || *op == BinaryOp::Sub
        || *op == BinaryOp::Mul || *op == BinaryOp::Div
}

/// Expressions that never need parentheses around them.
pub open spec fn spec_no_parentheses(e: &Expr) -> bool {
    let e = *e;
    e is Column || e is Tuple || e is Value || e is Asterisk || e is Keyword || e is FunctionCall
        || e is SubQuery
}

/// Whether `e` never needs parentheses around it.
#[verifier::when_used_as_spec(spec_no_parentheses)]
pub fn well_known_no_parentheses(e: &Expr) -> (r: bool)
    ensures
        r == spec_no_parentheses(e),
{
    match e {
        Expr::Column(_) | Expr::Tuple(_) | Expr::Value(_) | Expr::Asterisk | Expr::Keyword(_)
        | Expr::FunctionCall(_) | Expr::SubQuery(_, _) => true,
        _ => false,
    }
}

/// Whether `e` is a binary operation whose operator's class is strictly
/// higher than `outer`'s. The classes, high to low: arithmetic and shifts;
/// comparison, `IN`, `LIKE`, `IS` and `BETWEEN`; the logical operators.
pub open spec fn spec_high_precedence(e: &Expr, outer: &Operator) -> bool {
    match *e {
        Expr::Binary(_, op, _) => {
            let inner = Operator::Binary(op);
            if inner.is_arithmetic() || inner.is_shift() {
                outer.is_comparison() || outer.is_between() || outer.is_in() || outer.is_like()
                    || outer.is_is() || outer.is_logical()
            } else if inner.is_comparison() || inner.is_in() || inner.is_like() || inner.is_is()
                || inner.is_between() {
                outer.is_logical()
            } else {
                false
            }
        },
        _ => false,
    }
}

/// The precedence class of an operator: 2 for arithmetic and shifts; 1 for
/// comparison, `IN`, `LIKE`, `IS` and `BETWEEN` (and their negations); 0 for
/// the logical operators.
pub open spec fn precedence_class(o: Operator) -> int {
    if o.spec_is_arithmetic() || o.spec_is_shift() {
        2
    } else if o.spec_is_logical() {
        0
    } else {
        1
    }
}

/// Every operator falls in exactly one of the three classes.
pub proof fn lemma_operator_classes(o: Operator)
    ensures
        precedence_class(o) == 1 <==> (o.spec_is_comparison() || o.spec_is_in()
            || o.spec_is_like() || o.spec_is_is() || o.spec_is_between()),
{
}

/// An operand binds strictly tighter than `outer` exactly when it is a binary
/// operation whose operator's class is strictly higher than `outer`'s.
pub proof fn lemma_high_precedence_is_class_order(e: Expr, outer: Operator)
    ensures
        spec_high_precedence(&e, &outer) <==> (e is Binary && precedence_class(
            Operator::Binary(e->Binary_1),
        ) > precedence_class(outer)),
{
    if e is Binary {
        lemma_operator_classes(Operator::Binary(e->Binary_1));
        lemma_operator_classes(outer);
    }
}

/// Whether `e` binds strictly tighter than `outer`.
#[verifier::when_used_as_spec(spec_high_precedence)]
pub fn well_known_high_precedence(e: &Expr, outer: &Operator) -> (r: bool)
    ensures
        r == spec_high_precedence(e, outer),
{
    let inner = match e {
        Expr::Binary(_, op, _) => Operator::Binary(*op),
        _ => {
            return false;
        },
    };
    if inner.is_arithmetic() || inner.is_shift() {
        return outer.is_comparison() || outer.is_between() || outer.is_in() || outer.is_like()
            || outer.is_is() || outer.is_logical();
    }
    if inner.is_comparison() || inner.is_in() || inner.is_like() || inner.is_is()
        || inner.is_between() {
        return outer.is_logical();
    }
    false
}

} // verus!
