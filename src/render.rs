//! Rendering of expressions and `SELECT` statements: what pieces each tree
//! renders to, and the writers that produce exactly those pieces.
use vstd::prelude::*;
use vstd::string::*;
use crate::expr::{
    lemma_high_precedence_is_class_order, precedence_class, and_fold, BinaryOp, Expr, Keyword, Operator, SubQueryOp, UnaryOp, spec_high_precedence,
    spec_left_associative, spec_no_parentheses, well_known_high_precedence,
    well_known_left_associative, well_known_no_parentheses,
};
use crate::func::{Func, FunctionCall};
use crate::query::order::{NullOrdering, Order, SortDirection};
use crate::query::returning::Returning;
use crate::query::with::{CommonTableExpression, CteQuery, With};
use crate::query::select::{
    JoinExpr, RowLevelLock, RowLevelLockBehavior, RowLevelLockType, SampleMethod, Select, SelectExpr,
    TableSample,
};
use crate::text::{decimal, push_decimal};
use crate::types::{
    DropBehavior, Iden, JoinType, TableRef, column_ref_text, push_column_ref, push_iden, push_table_name,
    qualified_text, quote_iden, table_name_parts,
};
use crate::value::{Value, value_literal, value_model, write_value};
use crate::writer::{Piece, SqlWriter, inline_text, parameterized_text, params_of, lemma_wrote_chain, lemma_wrote_nothing, wrote};
use crate::value::clone_value;

verus! {

/// One piece of fixed text.
pub open spec fn text(s: Seq<char>) -> Seq<Piece> {
    seq![Piece::Text(s)]
}

/// `inner`, in parentheses when `p` holds.
pub open spec fn parens(p: bool, inner: Seq<Piece>) -> Seq<Piece> {
    if p {
        text(seq!['(']) + inner + text(seq![')'])
    } else {
        inner
    }
}

/// The SQL text of a binary operator.
pub open spec fn binary_op_text(op: BinaryOp) -> Seq<char> {
    match op {
        BinaryOp::And => "AND"@,
        BinaryOp::Or => "OR"@,
        BinaryOp::Like => "LIKE"@,
        BinaryOp::NotLike => "NOT LIKE"@,
        BinaryOp::Is => "IS"@,
        BinaryOp::IsNot => "IS NOT"@,
        BinaryOp::In => "IN"@,
        BinaryOp::NotIn => "NOT IN"@,
        BinaryOp::Between => "BETWEEN"@,
        BinaryOp::NotBetween => "NOT BETWEEN"@,
        BinaryOp::Equal => "="@,
        BinaryOp::NotEqual => "<>"@,
        BinaryOp::LessThan => "<"@,
        BinaryOp::LessThanOrEqual => "<="@,
        BinaryOp::GreaterThan => ">"@,
        BinaryOp::GreaterThanOrEqual => ">="@,
        BinaryOp::Add => "+"@,
        BinaryOp::Sub => "-"@,
        BinaryOp::Mul => "*"@,
        BinaryOp::Div => "/"@,
        BinaryOp::Mod => "%"@,
        BinaryOp::LShift => "<<"@,
        BinaryOp::RShift => ">>"@,
    }
}

/// The SQL name of a function.
pub open spec fn func_name(f: Func) -> Seq<char> {
    match f {
        Func::Max => "MAX"@,
        Func::Min => "MIN"@,
        Func::Sum => "SUM"@,
        Func::Avg => "AVG"@,
        Func::Count => "COUNT"@,
        Func::Coalesce => "COALESCE"@,
    }
}

/// The SQL text of a sub-query operator.
pub open spec fn subquery_op_text(op: SubQueryOp) -> Seq<char> {
    match op {
        SubQueryOp::Exists => "EXISTS"@,
        SubQueryOp::Any => "ANY"@,
        SubQueryOp::SomeOf => "SOME"@,
        SubQueryOp::All => "ALL"@,
    }
}

/// Whether the left operand of `op` needs parentheses: it is neither atomic
/// nor of tighter precedence, and it is not the same left-associative operator.
pub open spec fn left_paren(l: Expr, op: BinaryOp) -> bool {
    &&& !spec_no_parentheses(&l)
    &&& !spec_high_precedence(&l, &Operator::Binary(op))
    &&& !(l is Binary && l->Binary_1 == op && spec_left_associative(&op))
}

/// Whether the right operand of `op` needs parentheses: it is neither atomic
/// nor of tighter precedence, and it is not the `a AND b` pair of a `BETWEEN`.
pub open spec fn right_paren(r: Expr, op: BinaryOp) -> bool {
    &&& !spec_no_parentheses(&r)
    &&& !spec_high_precedence(&r, &Operator::Binary(op))
    &&& !(Operator::Binary(op).spec_is_between() && r is Binary && r->Binary_1 == BinaryOp::And)
}

/// Whether the operand of a unary operator needs parentheses.
pub open spec fn unary_paren(x: Expr, op: UnaryOp) -> bool {
    !spec_no_parentheses(&x) && !spec_high_precedence(&x, &Operator::Unary(op))
}

/// `IN ()` or `NOT IN ()`: an empty tuple on the right of `IN` or `NOT IN`.
pub open spec fn is_empty_in(op: BinaryOp, r: Expr) -> bool {
    (op == BinaryOp::In || op == BinaryOp::NotIn) && r is Tuple && r->Tuple_0@.len() == 0
}

/// `1 = k`, what an empty `IN` (`k` = 2, false) or `NOT IN` (`k` = 1, true) becomes.
pub open spec fn tautology_pieces(k: i32) -> Seq<Piece> {
    seq![Piece::Param(value_model(Value::Int(Some(1))))] + text(seq![' ']) + text("="@) + text(
        seq![' '],
    ) + seq![Piece::Param(value_model(Value::Int(Some(k))))]
}

/// The pieces an expression renders to.
pub open spec fn expr_pieces(e: Expr) -> Seq<Piece>
    decreases e,
{
    match e {
        Expr::Column(c) => text(column_ref_text(c)),
        Expr::Asterisk => text(seq!['*']),
        Expr::Keyword(_) => text("NULL"@),
        Expr::Tuple(v) => text(seq!['(']) + list_pieces(v@) + text(seq![')']),
        Expr::Value(v) => seq![Piece::Param(value_model(v))],
        Expr::Unary(op, x) => text("NOT"@) + text(seq![' ']) + parens(
            unary_paren(*x, op),
            expr_pieces(*x),
        ),
        Expr::Binary(l, op, r) => if is_empty_in(op, *r) {
            tautology_pieces(if op == BinaryOp::In { 2 } else { 1 })
        } else {
            parens(left_paren(*l, op), expr_pieces(*l)) + text(seq![' ']) + text(
                binary_op_text(op),
            ) + text(seq![' ']) + parens(right_paren(*r, op), expr_pieces(*r))
        },
        Expr::FunctionCall(c) => text(func_name(c.func)) + text(seq!['(']) + list_pieces(c.args@)
            + text(seq![')']),
        Expr::SubQuery(op, q) => (match op {
            Some(o) => text(subquery_op_text(o)),
            None => Seq::empty(),
        }) + text(seq!['(']) + select_pieces(*q) + text(seq![')']),
        Expr::Custom(s) => text(s@),
    }
}

/// The pieces of expressions joined by `, `.
pub open spec fn list_pieces(es: Seq<Expr>) -> Seq<Piece>
    decreases es,
{
    if es.len() == 0 {
        Seq::empty()
    } else if es.len() == 1 {
        expr_pieces(es[0])
    } else {
        list_pieces(es.drop_last()) + text(", "@) + expr_pieces(es.last())
    }
}

/// The pieces of conditions joined by `AND` when more follow: the first as a
/// left operand of `AND`, the others as right operands.
pub open spec fn and_prefix(cs: Seq<Expr>) -> Seq<Piece>
    decreases cs,
{
    if cs.len() == 0 {
        Seq::empty()
    } else if cs.len() == 1 {
        parens(left_paren(cs[0], BinaryOp::And), expr_pieces(cs[0]))
    } else {
        and_prefix(cs.drop_last()) + text(seq![' ']) + text("AND"@) + text(seq![' ']) + parens(
            right_paren(cs.last(), BinaryOp::And),
            expr_pieces(cs.last()),
        )
    }
}

/// The pieces of an alias: ` AS "alias"`, or none.
pub open spec fn alias_pieces(a: Option<Iden>) -> Seq<Piece> {
    match a {
        Some(i) => text(" AS "@) + text(quote_iden(i@)),
        None => Seq::empty(),
    }
}

/// The pieces of one select-list item.
pub open spec fn select_item_pieces(x: SelectExpr) -> Seq<Piece>
    decreases x,
{
    expr_pieces(x.expr) + alias_pieces(x.alias)
}

/// The select list, joined by `, `.
pub open spec fn select_items(xs: Seq<SelectExpr>) -> Seq<Piece>
    decreases xs,
{
    if xs.len() == 0 {
        Seq::empty()
    } else if xs.len() == 1 {
        select_item_pieces(xs[0])
    } else {
        select_items(xs.drop_last()) + text(", "@) + select_item_pieces(xs.last())
    }
}

/// The pieces of a table reference.
pub open spec fn table_ref_pieces(t: TableRef) -> Seq<Piece>
    decreases t,
{
    match t {
        TableRef::Table(n, a) => text(qualified_text(table_name_parts(n))) + alias_pieces(a),
        TableRef::SubQuery(q, a) => text(seq!['(']) + select_pieces(*q) + text(seq![')']) + text(
            " AS "@,
        ) + text(quote_iden(a@)),
    }
}

/// ` FROM` and the tables, joined by `, `; nothing for no tables.
pub open spec fn from_items(ts: Seq<TableRef>) -> Seq<Piece>
    decreases ts,
{
    if ts.len() == 0 {
        Seq::empty()
    } else {
        from_items(ts.drop_last()) + text(
            if ts.len() == 1 {
                " FROM "@
            } else {
                ", "@
            },
        ) + table_ref_pieces(ts.last())
    }
}

/// The pieces of one join.
pub open spec fn join_pieces(j: JoinExpr) -> Seq<Piece>
    decreases j,
{
    text(
        match j.join_type {
            JoinType::LeftJoin => " LEFT JOIN "@,
            JoinType::InnerJoin => " INNER JOIN "@,
        },
    ) + table_ref_pieces(j.table) + match j.on {
        Some(on) => text(" ON "@) + expr_pieces(on),
        None => Seq::empty(),
    }
}

/// The joins, one after another.
pub open spec fn join_items(js: Seq<JoinExpr>) -> Seq<Piece>
    decreases js,
{
    if js.len() == 0 {
        Seq::empty()
    } else {
        join_items(js.drop_last()) + join_pieces(js.last())
    }
}

/// The pieces of one `ORDER BY` item.
pub open spec fn order_pieces(o: Order) -> Seq<Piece>
    decreases o,
{
    expr_pieces(o.expr) + text(
        match o.direction {
            SortDirection::Asc => " ASC"@,
            SortDirection::Desc => " DESC"@,
        },
    ) + match o.nulls {
        Some(NullOrdering::First) => text(" NULLS FIRST"@),
        Some(NullOrdering::Last) => text(" NULLS LAST"@),
        None => Seq::empty(),
    }
}

/// The `ORDER BY` items, joined by `, `.
pub open spec fn order_items(os: Seq<Order>) -> Seq<Piece>
    decreases os,
{
    if os.len() == 0 {
        Seq::empty()
    } else if os.len() == 1 {
        order_pieces(os[0])
    } else {
        order_items(os.drop_last()) + text(", "@) + order_pieces(os.last())
    }
}

/// The quoted identifiers, joined by `, `.
pub open spec fn iden_list(ts: Seq<Iden>) -> Seq<Piece>
    decreases ts.len(),
{
    if ts.len() == 0 {
        Seq::empty()
    } else if ts.len() == 1 {
        text(quote_iden(ts[0]@))
    } else {
        iden_list(ts.drop_last()) + text(", "@) + text(quote_iden(ts.last()@))
    }
}

/// The pieces of a row-level lock clause.
pub open spec fn lock_pieces(l: RowLevelLock) -> Seq<Piece> {
    text(
        match l.ty {
            RowLevelLockType::Update => " FOR UPDATE"@,
            RowLevelLockType::NoKeyUpdate => " FOR NO KEY UPDATE"@,
            RowLevelLockType::Share => " FOR SHARE"@,
            RowLevelLockType::KeyShare => " FOR KEY SHARE"@,
        },
    ) + (if l.tables@.len() > 0 {
        text(" OF "@) + iden_list(l.tables@)
    } else {
        Seq::empty()
    }) + match l.behavior {
        Some(RowLevelLockBehavior::Nowait) => text(" NOWAIT"@),
        Some(RowLevelLockBehavior::SkipLocked) => text(" SKIP LOCKED"@),
        None => Seq::empty(),
    }
}

/// Literal values, each as fixed text, joined by `, `.
pub open spec fn literal_list(vs: Seq<Value>) -> Seq<Piece>
    decreases vs.len(),
{
    if vs.len() == 0 {
        Seq::empty()
    } else if vs.len() == 1 {
        text(value_literal(value_model(vs[0])))
    } else {
        literal_list(vs.drop_last()) + text(", "@) + text(value_literal(value_model(vs.last())))
    }
}

/// Rows of literal values: `(v, ..), (v, ..)`.
pub open spec fn literal_rows(rows: Seq<Vec<Value>>) -> Seq<Piece>
    decreases rows.len(),
{
    if rows.len() == 0 {
        Seq::empty()
    } else {
        literal_rows(rows.drop_last()) + (if rows.len() == 1 {
            Seq::empty()
        } else {
            text(", "@)
        }) + text(seq!['(']) + literal_list(rows.last()@) + text(seq![')'])
    }
}

/// The name, columns and `AS` of a common table expression.
pub open spec fn cte_head(c: CommonTableExpression) -> Seq<Piece> {
    text(quote_iden(c.name@)) + (if c.columns@.len() == 0 {
        text(" "@)
    } else {
        text(" ("@) + iden_list(c.columns@) + text(") "@)
    }) + text(
        match c.materialized {
            Some(true) => " AS MATERIALIZED "@,
            Some(false) => " AS NOT MATERIALIZED "@,
            None => " AS "@,
        },
    )
}

/// The pieces of what a common table expression stands for.
pub open spec fn cte_query_pieces(q: CteQuery) -> Seq<Piece>
    decreases q,
{
    match q {
        CteQuery::Select(q) => text(seq!['(']) + select_pieces(*q) + text(seq![')']),
        CteQuery::Values(rows) => text("VALUES "@) + literal_rows(rows@),
    }
}

/// The pieces of one common table expression.
pub open spec fn cte_pieces(c: CommonTableExpression) -> Seq<Piece>
    decreases c,
{
    cte_head(c) + cte_query_pieces(c.query)
}

/// The common table expressions, joined by `, `.
pub open spec fn cte_list(cs: Seq<CommonTableExpression>) -> Seq<Piece>
    decreases cs,
{
    if cs.len() == 0 {
        Seq::empty()
    } else if cs.len() == 1 {
        cte_pieces(cs[0])
    } else {
        cte_list(cs.drop_last()) + text(", "@) + cte_pieces(cs.last())
    }
}

/// The pieces of a `WITH` clause.
pub open spec fn with_pieces(w: With) -> Seq<Piece>
    decreases w,
{
    text("WITH "@) + cte_list(w.ctes@)
}

/// A `WITH` clause and a space before a statement, or nothing.
pub open spec fn with_prefix(w: Option<With>) -> Seq<Piece>
    decreases w,
{
    match w {
        Some(w) => with_pieces(w) + text(seq![' ']),
        None => Seq::empty(),
    }
}

/// The pieces of an optional `TABLESAMPLE` clause.
pub open spec fn table_sample_pieces(t: Option<TableSample>) -> Seq<Piece> {
    match t {
        Some(t) => text(
            match t.method {
                SampleMethod::Bernoulli => " TABLESAMPLE BERNOULLI"@,
                SampleMethod::System => " TABLESAMPLE SYSTEM"@,
            },
        ) + text(" ("@) + text(t.percentage@) + text(")"@) + match t.repeatable {
            Some(r) => text(" REPEATABLE ("@) + text(r@) + text(")"@),
            None => Seq::empty(),
        },
        None => Seq::empty(),
    }
}

fn write_table_sample(w: &mut SqlWriter, t: &Option<TableSample>)
    requires
        old(w).wf(),
    ensures
        wrote(*old(w), *final(w), table_sample_pieces(*t)),
{
    let ghost p0 = w.pieces();
    match t {
        Some(t) => {
            match t.method {
                SampleMethod::Bernoulli => w.push_str(" TABLESAMPLE BERNOULLI"),
                SampleMethod::System => w.push_str(" TABLESAMPLE SYSTEM"),
            }
            w.push_str(" (");
            w.push_str(t.percentage.as_str());
            w.push_str(")");
            match &t.repeatable {
                Some(r) => {
                    w.push_str(" REPEATABLE (");
                    w.push_str(r.as_str());
                    w.push_str(")");
                },
                None => {},
            }
        },
        None => {},
    }
    assert(w.pieces() =~= p0 + table_sample_pieces(*t));
}

/// The pieces of an optional row-level lock clause.
pub open spec fn opt_lock_pieces(l: Option<RowLevelLock>) -> Seq<Piece> {
    match l {
        Some(l) => lock_pieces(l),
        None => Seq::empty(),
    }
}

/// The pieces of a `SELECT` statement.
pub open spec fn select_pieces(s: Select) -> Seq<Piece>
    decreases s,
{
    with_prefix(s.with) + text("SELECT "@) + select_items(s.selects@) + from_items(s.from@)
        + table_sample_pieces(s.table_sample) + join_items(s.joins@)
        + (if s.conditions@.len() == 0 {
        Seq::empty()
    } else if s.conditions@.len() == 1 {
        text(" WHERE "@) + expr_pieces(s.conditions@[0])
    } else {
        text(" WHERE "@) + and_prefix(s.conditions@)
    }) + (if s.groups@.len() > 0 {
        text(" GROUP BY "@) + list_pieces(s.groups@)
    } else {
        Seq::empty()
    }) + (if s.having@.len() == 0 {
        Seq::empty()
    } else if s.having@.len() == 1 {
        text(" HAVING "@) + expr_pieces(s.having@[0])
    } else {
        text(" HAVING "@) + and_prefix(s.having@)
    }) + (if s.orders@.len() > 0 {
        text(" ORDER BY "@) + order_items(s.orders@)
    } else {
        Seq::empty()
    }) + match s.limit {
        Some(n) => text(" LIMIT "@) + text(decimal(n as nat)),
        None => Seq::empty(),
    } + match s.offset {
        Some(n) => text(" OFFSET "@) + text(decimal(n as nat)),
        None => Seq::empty(),
    } + opt_lock_pieces(s.lock)
}


/// Whether the left operand `l` of `op` needs parentheses.
pub fn needs_left_paren(l: &Expr, op: &BinaryOp) -> (r: bool)
    ensures
        r == left_paren(*l, *op),
{
    let binop = Operator::Binary(*op);
    let mut paren = !well_known_no_parentheses(l) && !well_known_high_precedence(l, &binop);
    if paren {
        match l {
            Expr::Binary(_, inner, _) => {
                if *inner == *op && well_known_left_associative(op) {
                    paren = false;
                }
            },
            _ => {},
        }
    }
    paren
}

/// Whether the right operand `r` of `op` needs parentheses.
pub fn needs_right_paren(r: &Expr, op: &BinaryOp) -> (p: bool)
    ensures
        p == right_paren(*r, *op),
{
    let binop = Operator::Binary(*op);
    let mut paren = !well_known_no_parentheses(r) && !well_known_high_precedence(r, &binop);
    if paren && binop.is_between() {
        match r {
            Expr::Binary(_, BinaryOp::And, _) => {
                paren = false;
            },
            _ => {},
        }
    }
    paren
}

fn write_binary_op(w: &mut SqlWriter, op: &BinaryOp)
    requires
        old(w).wf(),
    ensures
        wrote(*old(w), *final(w), text(binary_op_text(*op))),
{
    match op {
        BinaryOp::And => w.push_str("AND"),
        BinaryOp::Or => w.push_str("OR"),
        BinaryOp::Like => w.push_str("LIKE"),
        BinaryOp::NotLike => w.push_str("NOT LIKE"),
        BinaryOp::Is => w.push_str("IS"),
        BinaryOp::IsNot => w.push_str("IS NOT"),
        BinaryOp::In => w.push_str("IN"),
        BinaryOp::NotIn => w.push_str("NOT IN"),
        BinaryOp::Between => w.push_str("BETWEEN"),
        BinaryOp::NotBetween => w.push_str("NOT BETWEEN"),
        BinaryOp::Equal => w.push_str("="),
        BinaryOp::NotEqual => w.push_str("<>"),
        BinaryOp::LessThan => w.push_str("<"),
        BinaryOp::LessThanOrEqual => w.push_str("<="),
        BinaryOp::GreaterThan => w.push_str(">"),
        BinaryOp::GreaterThanOrEqual => w.push_str(">="),
        BinaryOp::Add => w.push_str("+"),
        BinaryOp::Sub => w.push_str("-"),
        BinaryOp::Mul => w.push_str("*"),
        BinaryOp::Div => w.push_str("/"),
        BinaryOp::Mod => w.push_str("%"),
        BinaryOp::LShift => w.push_str("<<"),
        BinaryOp::RShift => w.push_str(">>"),
    }
    assert(final(w).pieces() =~= old(w).pieces() + text(binary_op_text(*op)));
}

fn write_func_name(w: &mut SqlWriter, f: Func)
    requires
        old(w).wf(),
    ensures
        wrote(*old(w), *final(w), text(func_name(f))),
{
    match f {
        Func::Max => w.push_str("MAX"),
        Func::Min => w.push_str("MIN"),
        Func::Sum => w.push_str("SUM"),
        Func::Avg => w.push_str("AVG"),
        Func::Count => w.push_str("COUNT"),
        Func::Coalesce => w.push_str("COALESCE"),
    }
    assert(final(w).pieces() =~= old(w).pieces() + text(func_name(f)));
}

fn write_subquery_op(w: &mut SqlWriter, op: SubQueryOp)
    requires
        old(w).wf(),
    ensures
        wrote(*old(w), *final(w), text(subquery_op_text(op))),
{
    match op {
        SubQueryOp::Exists => w.push_str("EXISTS"),
        SubQueryOp::Any => w.push_str("ANY"),
        SubQueryOp::SomeOf => w.push_str("SOME"),
        SubQueryOp::All => w.push_str("ALL"),
    }
    assert(final(w).pieces() =~= old(w).pieces() + text(subquery_op_text(op)));
}

pub fn write_alias(w: &mut SqlWriter, a: &Option<Iden>)
    requires
        old(w).wf(),
    ensures
        wrote(*old(w), *final(w), alias_pieces(*a)),
{
    match a {
        Some(i) => {
            w.push_str(" AS ");
            let mut s = String::new();
            push_iden(&mut s, i);
            w.push_str(s.as_str());
        },
        None => {},
    }
    assert(final(w).pieces() =~= old(w).pieces() + alias_pieces(*a));
}

/// Writes an expression.
#[verifier::spinoff_prover]
#[verifier::rlimit(100)]
pub fn write_expr(w: &mut SqlWriter, e: &Expr)
    requires
        old(w).wf(),
    ensures
        wrote(*old(w), *final(w), expr_pieces(*e)),
    decreases e,
{
    let ghost p0 = w.pieces();
    match e {
        Expr::Column(c) => {
            let mut s = String::new();
            push_column_ref(&mut s, c);
            w.push_str(s.as_str());
        },
        Expr::Asterisk => w.push_char('*'),
        Expr::Keyword(_) => w.push_str("NULL"),
        Expr::Tuple(v) => {
            w.push_char('(');
            write_list(w, v);
            w.push_char(')');
        },
        Expr::Value(v) => w.push_param(clone_value(v)),
        Expr::Unary(op, x) => {
            match op {
                UnaryOp::Not => w.push_str("NOT"),
            }
            w.push_char(' ');
            let paren = !well_known_no_parentheses(x) && !well_known_high_precedence(
                x,
                &Operator::Unary(*op),
            );
            let ghost p1 = w.pieces();
            if paren {
                w.push_char('(');
            }
            write_expr(w, x);
            if paren {
                w.push_char(')');
            }
            assert(w.pieces() =~= p1 + parens(paren, expr_pieces(**x)));
        },
        Expr::Binary(l, op, r) => {
            let empty_tuple = match &**r {
                Expr::Tuple(t) => t.len() == 0,
                _ => false,
            };
            if (*op == BinaryOp::In || *op == BinaryOp::NotIn) && empty_tuple {
                let k: i32 = if *op == BinaryOp::In {
                    2
                } else {
                    1
                };
                w.push_param(Value::Int(Some(1)));
                w.push_char(' ');
                w.push_str("=");
                w.push_char(' ');
                w.push_param(Value::Int(Some(k)));
                assert(w.pieces() =~= p0 + tautology_pieces(k));
            } else {
                let lp = needs_left_paren(l, op);
                if lp {
                    w.push_char('(');
                }
                write_expr(w, l);
                if lp {
                    w.push_char(')');
                }
                let ghost p1 = w.pieces();
                assert(p1 =~= p0 + parens(lp, expr_pieces(**l)));
                w.push_char(' ');
                write_binary_op(w, op);
                w.push_char(' ');
                let rp = needs_right_paren(r, op);
                let ghost p2 = w.pieces();
                if rp {
                    w.push_char('(');
                }
                write_expr(w, r);
                if rp {
                    w.push_char(')');
                }
                assert(w.pieces() =~= p2 + parens(rp, expr_pieces(**r)));
            }
        },
        Expr::FunctionCall(c) => {
            write_func_name(w, c.func);
            w.push_char('(');
            write_list(w, &c.args);
            w.push_char(')');
        },
        Expr::SubQuery(op, q) => {
            match op {
                Some(o) => write_subquery_op(w, *o),
                None => {},
            }
            w.push_char('(');
            write_select(w, q);
            w.push_char(')');
        },
        Expr::Custom(s) => w.push_str(s.as_str()),
    }
    assert(w.pieces() =~= p0 + expr_pieces(*e));
}

/// Writes expressions joined by `, `.
#[verifier::spinoff_prover]
pub fn write_list(w: &mut SqlWriter, es: &Vec<Expr>)
    requires
        old(w).wf(),
    ensures
        wrote(*old(w), *final(w), list_pieces(es@)),
    decreases es,
{
    let ghost p0 = w.pieces();
    let mut i: usize = 0;
    while i < es.len()
        invariant
            i <= es@.len(),
            wrote(*old(w), *w, list_pieces(es@.subrange(0, i as int))),
            p0 == old(w).pieces(),
        decreases es@.len() - i,
    {
        if i > 0 {
            w.push_str(", ");
        }
        proof {
            assert(decreases_to!(*es => es@));
            assert(decreases_to!(es@ => es@[i as int]));
        }
        write_expr(w, &es[i]);
        proof {
            let s1 = es@.subrange(0, i + 1);
            assert(s1.drop_last() =~= es@.subrange(0, i as int));
            if i == 0 {
                assert(es@.subrange(0, 0) =~= Seq::<Expr>::empty());
            }
            assert(w.pieces() =~= p0 + list_pieces(s1));
        }
        i = i + 1;
    }
    assert(es@.subrange(0, es@.len() as int) =~= es@);
}

/// Writes a `WHERE` or `HAVING` clause of the conditions; nothing for none.
#[verifier::spinoff_prover]
pub fn write_conditions(w: &mut SqlWriter, keyword: &str, cs: &Vec<Expr>)
    requires
        old(w).wf(),
    ensures
        wrote(*old(w), *final(w), conditions_pieces(keyword@, cs@)),
    decreases cs,
{
    let ghost p0 = w.pieces();
    if cs.len() == 1 {
        w.push_str(keyword);
        proof {
            assert(decreases_to!(*cs => cs@));
            assert(decreases_to!(cs@ => cs@[0]));
        }
        write_expr(w, &cs[0]);
        assert(w.pieces() =~= p0 + (text(keyword@) + expr_pieces(cs@[0])));
    } else if cs.len() > 1 {
        w.push_str(keyword);
        let ghost k0 = w.pieces();
        let mut i: usize = 0;
        let and_op = BinaryOp::And;
        while i < cs.len()
            invariant
                i <= cs@.len(),
                and_op == BinaryOp::And,
                w.wf(),
                w.is_parameterized() == old(w).is_parameterized(),
                w.pieces() == k0 + and_prefix(cs@.subrange(0, i as int)),
                k0 == p0 + text(keyword@),
                p0 == old(w).pieces(),
            decreases cs@.len() - i,
        {
            let paren = if i == 0 {
                needs_left_paren(&cs[i], &and_op)
            } else {
                w.push_char(' ');
                w.push_str("AND");
                w.push_char(' ');
                needs_right_paren(&cs[i], &and_op)
            };
            let ghost q = w.pieces();
            if paren {
                w.push_char('(');
            }
            proof {
                assert(decreases_to!(*cs => cs@));
                assert(decreases_to!(cs@ => cs@[i as int]));
            }
            write_expr(w, &cs[i]);
            if paren {
                w.push_char(')');
            }
            proof {
                assert(w.pieces() =~= q + parens(paren, expr_pieces(cs@[i as int])));
                let s1 = cs@.subrange(0, i + 1);
                assert(s1.drop_last() =~= cs@.subrange(0, i as int));
                if i == 0 {
                    assert(cs@.subrange(0, 0) =~= Seq::<Expr>::empty());
                }
                assert(w.pieces() =~= k0 + and_prefix(s1));
            }
            i = i + 1;
        }
        assert(cs@.subrange(0, cs@.len() as int) =~= cs@);
        assert(w.pieces() =~= p0 + (text(keyword@) + and_prefix(cs@)));
    } else {
        assert(w.pieces() =~= p0 + Seq::<Piece>::empty());
    }
}

#[verifier::spinoff_prover]
fn write_select_item(w: &mut SqlWriter, x: &SelectExpr)
    requires
        old(w).wf(),
    ensures
        wrote(*old(w), *final(w), select_item_pieces(*x)),
    decreases x,
{
    let ghost p0 = w.pieces();
    write_expr(w, &x.expr);
    write_alias(w, &x.alias);
    assert(w.pieces() =~= p0 + select_item_pieces(*x));
}

#[verifier::spinoff_prover]
pub fn write_table_ref(w: &mut SqlWriter, t: &TableRef)
    requires
        old(w).wf(),
    ensures
        wrote(*old(w), *final(w), table_ref_pieces(*t)),
    decreases t,
{
    let ghost p0 = w.pieces();
    match t {
        TableRef::Table(n, a) => {
            let mut s = String::new();
            push_table_name(&mut s, n);
            assert(s@ =~= qualified_text(table_name_parts(*n)));
            w.push_str(s.as_str());
            write_alias(w, a);
            assert(w.pieces() =~= p0 + table_ref_pieces(*t));
        },
        TableRef::SubQuery(q, a) => {
            w.push_char('(');
            let ghost v1 = w.pieces();
            write_select(w, q);
            let ghost v2 = w.pieces();
            assert(v2 == v1 + select_pieces(**q));
            w.push_char(')');
            w.push_str(" AS ");
            let mut s = String::new();
            push_iden(&mut s, a);
            assert(s@ =~= quote_iden(a@));
            w.push_str(s.as_str());
            let ghost tail = text(seq![')']) + text(" AS "@) + text(quote_iden(a@));
            assert(w.pieces() =~= v2 + tail);
            assert(table_ref_pieces(*t) =~= text(seq!['(']) + select_pieces(**q) + tail);
            assert(w.pieces() =~= p0 + table_ref_pieces(*t));
        },
    }
}

#[verifier::spinoff_prover]
#[verifier::rlimit(100)]
fn write_join(w: &mut SqlWriter, j: &JoinExpr)
    requires
        old(w).wf(),
    ensures
        wrote(*old(w), *final(w), join_pieces(*j)),
    decreases j,
{
    let ghost p0 = w.pieces();
    match j.join_type {
        JoinType::LeftJoin => w.push_str(" LEFT JOIN "),
        JoinType::InnerJoin => w.push_str(" INNER JOIN "),
    }
    write_table_ref(w, &j.table);
    match &j.on {
        Some(on) => {
            w.push_str(" ON ");
            write_expr(w, on);
        },
        None => {},
    }
    assert(w.pieces() =~= p0 + join_pieces(*j));
}

#[verifier::spinoff_prover]
fn write_order(w: &mut SqlWriter, o: &Order)
    requires
        old(w).wf(),
    ensures
        wrote(*old(w), *final(w), order_pieces(*o)),
    decreases o,
{
    let ghost p0 = w.pieces();
    write_expr(w, &o.expr);
    match o.direction {
        SortDirection::Asc => w.push_str(" ASC"),
        SortDirection::Desc => w.push_str(" DESC"),
    }
    match o.nulls {
        Some(NullOrdering::First) => w.push_str(" NULLS FIRST"),
        Some(NullOrdering::Last) => w.push_str(" NULLS LAST"),
        None => {},
    }
    assert(w.pieces() =~= p0 + order_pieces(*o));
}

pub fn write_iden_list(w: &mut SqlWriter, ts: &Vec<Iden>)
    requires
        old(w).wf(),
    ensures
        wrote(*old(w), *final(w), iden_list(ts@)),
{
    let ghost p0 = w.pieces();
    let mut i: usize = 0;
    while i < ts.len()
        invariant
            i <= ts@.len(),
            wrote(*old(w), *w, iden_list(ts@.subrange(0, i as int))),
            p0 == old(w).pieces(),
        decreases ts@.len() - i,
    {
        if i > 0 {
            w.push_str(", ");
        }
        let mut s = String::new();
        push_iden(&mut s, &ts[i]);
        w.push_str(s.as_str());
        proof {
            let s1 = ts@.subrange(0, i + 1);
            assert(s1.drop_last() =~= ts@.subrange(0, i as int));
            if i == 0 {
                assert(ts@.subrange(0, 0) =~= Seq::<Iden>::empty());
            }
            assert(w.pieces() =~= p0 + iden_list(s1));
        }
        i = i + 1;
    }
    assert(ts@.subrange(0, ts@.len() as int) =~= ts@);
}

#[verifier::spinoff_prover]
fn write_lock(w: &mut SqlWriter, l: &RowLevelLock)
    requires
        old(w).wf(),
    ensures
        wrote(*old(w), *final(w), lock_pieces(*l)),
{
    let ghost p0 = w.pieces();
    match l.ty {
        RowLevelLockType::Update => w.push_str(" FOR UPDATE"),
        RowLevelLockType::NoKeyUpdate => w.push_str(" FOR NO KEY UPDATE"),
        RowLevelLockType::Share => w.push_str(" FOR SHARE"),
        RowLevelLockType::KeyShare => w.push_str(" FOR KEY SHARE"),
    }
    if l.tables.len() > 0 {
        w.push_str(" OF ");
        write_iden_list(w, &l.tables);
    }
    match l.behavior {
        Some(RowLevelLockBehavior::Nowait) => w.push_str(" NOWAIT"),
        Some(RowLevelLockBehavior::SkipLocked) => w.push_str(" SKIP LOCKED"),
        None => {},
    }
    assert(w.pieces() =~= p0 + lock_pieces(*l));
}

fn write_number(w: &mut SqlWriter, keyword: &str, n: u64)
    requires
        old(w).wf(),
    ensures
        wrote(*old(w), *final(w), text(keyword@) + text(decimal(n as nat))),
{
    let ghost p0 = w.pieces();
    w.push_str(keyword);
    let mut s = String::new();
    push_decimal(&mut s, n);
    assert(s@ =~= decimal(n as nat));
    w.push_str(s.as_str());
    assert(w.pieces() =~= p0 + (text(keyword@) + text(decimal(n as nat))));
}

#[verifier::spinoff_prover]
fn write_select_items(w: &mut SqlWriter, xs: &Vec<SelectExpr>)
    requires
        old(w).wf(),
    ensures
        wrote(*old(w), *final(w), select_items(xs@)),
    decreases xs,
{
    let ghost p0 = w.pieces();
    let mut i: usize = 0;
    while i < xs.len()
        invariant
            i <= xs@.len(),
            wrote(*old(w), *w, select_items(xs@.subrange(0, i as int))),
            p0 == old(w).pieces(),
        decreases xs@.len() - i,
    {
        if i > 0 {
            w.push_str(", ");
        }
        proof {
            assert(decreases_to!(*xs => xs@));
            assert(decreases_to!(xs@ => xs@[i as int]));
        }
        write_select_item(w, &xs[i]);
        proof {
            let s1 = xs@.subrange(0, i + 1);
            assert(s1.drop_last() =~= xs@.subrange(0, i as int));
            if i == 0 {
                assert(xs@.subrange(0, 0) =~= Seq::<SelectExpr>::empty());
            }
            assert(w.pieces() =~= p0 + select_items(s1));
        }
        i = i + 1;
    }
    assert(xs@.subrange(0, xs@.len() as int) =~= xs@);
}

#[verifier::spinoff_prover]
fn write_from(w: &mut SqlWriter, ts: &Vec<TableRef>)
    requires
        old(w).wf(),
    ensures
        wrote(*old(w), *final(w), from_items(ts@)),
    decreases ts,
{
    let ghost p0 = w.pieces();
    let mut i: usize = 0;
    while i < ts.len()
        invariant
            i <= ts@.len(),
            wrote(*old(w), *w, from_items(ts@.subrange(0, i as int))),
            p0 == old(w).pieces(),
        decreases ts@.len() - i,
    {
        if i == 0 {
            w.push_str(" FROM ");
        } else {
            w.push_str(", ");
        }
        proof {
            assert(decreases_to!(*ts => ts@));
            assert(decreases_to!(ts@ => ts@[i as int]));
        }
        write_table_ref(w, &ts[i]);
        proof {
            let s1 = ts@.subrange(0, i + 1);
            assert(s1.drop_last() =~= ts@.subrange(0, i as int));
            assert(w.pieces() =~= p0 + from_items(s1));
        }
        i = i + 1;
    }
    assert(ts@.subrange(0, ts@.len() as int) =~= ts@);
}

#[verifier::spinoff_prover]
fn write_joins(w: &mut SqlWriter, js: &Vec<JoinExpr>)
    requires
        old(w).wf(),
    ensures
        wrote(*old(w), *final(w), join_items(js@)),
    decreases js,
{
    let ghost p0 = w.pieces();
    let mut i: usize = 0;
    while i < js.len()
        invariant
            i <= js@.len(),
            wrote(*old(w), *w, join_items(js@.subrange(0, i as int))),
            p0 == old(w).pieces(),
        decreases js@.len() - i,
    {
        proof {
            assert(decreases_to!(*js => js@));
            assert(decreases_to!(js@ => js@[i as int]));
        }
        write_join(w, &js[i]);
        proof {
            let s1 = js@.subrange(0, i + 1);
            assert(s1.drop_last() =~= js@.subrange(0, i as int));
            assert(w.pieces() =~= p0 + join_items(s1));
        }
        i = i + 1;
    }
    assert(js@.subrange(0, js@.len() as int) =~= js@);
}

#[verifier::spinoff_prover]
fn write_orders(w: &mut SqlWriter, os: &Vec<Order>)
    requires
        old(w).wf(),
    ensures
        wrote(*old(w), *final(w), order_items(os@)),
    decreases os,
{
    let ghost p0 = w.pieces();
    let mut i: usize = 0;
    while i < os.len()
        invariant
            i <= os@.len(),
            wrote(*old(w), *w, order_items(os@.subrange(0, i as int))),
            p0 == old(w).pieces(),
        decreases os@.len() - i,
    {
        if i > 0 {
            w.push_str(", ");
        }
        proof {
            assert(decreases_to!(*os => os@));
            assert(decreases_to!(os@ => os@[i as int]));
        }
        write_order(w, &os[i]);
        proof {
            let s1 = os@.subrange(0, i + 1);
            assert(s1.drop_last() =~= os@.subrange(0, i as int));
            if i == 0 {
                assert(os@.subrange(0, 0) =~= Seq::<Order>::empty());
            }
            assert(w.pieces() =~= p0 + order_items(s1));
        }
        i = i + 1;
    }
    assert(os@.subrange(0, os@.len() as int) =~= os@);
}

fn write_literal(w: &mut SqlWriter, v: &Value)
    requires
        old(w).wf(),
    ensures
        wrote(*old(w), *final(w), text(value_literal(value_model(*v)))),
{
    let mut s = String::new();
    write_value(&mut s, v);
    assert(s@ =~= value_literal(value_model(*v)));
    w.push_str(s.as_str());
}

#[verifier::spinoff_prover]
fn write_literal_rows(w: &mut SqlWriter, rows: &Vec<Vec<Value>>)
    requires
        old(w).wf(),
    ensures
        wrote(*old(w), *final(w), literal_rows(rows@)),
{
    let ghost p0 = w.pieces();
    let mut j: usize = 0;
    while j < rows.len()
        invariant
            j <= rows@.len(),
            wrote(*old(w), *w, literal_rows(rows@.subrange(0, j as int))),
            p0 == old(w).pieces(),
        decreases rows@.len() - j,
    {
        if j > 0 {
            w.push_str(", ");
        }
        w.push_char('(');
        let row = &rows[j];
        let ghost q1 = w.pieces();
        let mut k: usize = 0;
        while k < row.len()
            invariant
                k <= row@.len(),
                w.wf(),
                w.is_parameterized() == old(w).is_parameterized(),
                w.pieces() == q1 + literal_list(row@.subrange(0, k as int)),
            decreases row@.len() - k,
        {
            if k > 0 {
                w.push_str(", ");
            }
            write_literal(w, &row[k]);
            proof {
                let s1 = row@.subrange(0, k + 1);
                assert(s1.drop_last() =~= row@.subrange(0, k as int));
                if k == 0 {
                    assert(row@.subrange(0, 0) =~= Seq::<Value>::empty());
                }
                assert(w.pieces() =~= q1 + literal_list(s1));
            }
            k = k + 1;
        }
        assert(row@.subrange(0, row@.len() as int) =~= row@);
        w.push_char(')');
        proof {
            let s1 = rows@.subrange(0, j + 1);
            assert(s1.drop_last() =~= rows@.subrange(0, j as int));
            if j == 0 {
                assert(rows@.subrange(0, 0) =~= Seq::<Vec<Value>>::empty());
            }
            assert(w.pieces() =~= p0 + literal_rows(s1));
        }
        j = j + 1;
    }
    assert(rows@.subrange(0, rows@.len() as int) =~= rows@);
}

fn write_cte_head(w: &mut SqlWriter, c: &CommonTableExpression)
    requires
        old(w).wf(),
    ensures
        wrote(*old(w), *final(w), cte_head(*c)),
{
    let ghost p0 = w.pieces();
    let mut s = String::new();
    push_iden(&mut s, &c.name);
    assert(s@ =~= quote_iden(c.name@));
    w.push_str(s.as_str());
    if c.columns.len() == 0 {
        w.push_str(" ");
    } else {
        w.push_str(" (");
        write_iden_list(w, &c.columns);
        w.push_str(") ");
    }
    match c.materialized {
        Some(true) => w.push_str(" AS MATERIALIZED "),
        Some(false) => w.push_str(" AS NOT MATERIALIZED "),
        None => w.push_str(" AS "),
    }
    assert(w.pieces() =~= p0 + cte_head(*c));
}

#[verifier::spinoff_prover]
fn write_cte_query(w: &mut SqlWriter, q: &CteQuery)
    requires
        old(w).wf(),
    ensures
        wrote(*old(w), *final(w), cte_query_pieces(*q)),
    decreases q,
{
    let ghost p0 = w.pieces();
    match q {
        CteQuery::Select(s) => {
            w.push_char('(');
            let ghost v1 = w.pieces();
            write_select(w, s);
            assert(w.pieces() == v1 + select_pieces(**s));
            w.push_char(')');
            assert(w.pieces() =~= p0 + (text(seq!['(']) + select_pieces(**s) + text(seq![')'])));
        },
        CteQuery::Values(rows) => {
            w.push_str("VALUES ");
            write_literal_rows(w, rows);
            assert(w.pieces() =~= p0 + (text("VALUES "@) + literal_rows(rows@)));
        },
    }
}

fn write_cte(w: &mut SqlWriter, c: &CommonTableExpression)
    requires
        old(w).wf(),
    ensures
        wrote(*old(w), *final(w), cte_pieces(*c)),
    decreases c,
{
    let ghost w0 = *w;
    write_cte_head(w, c);
    let ghost w1 = *w;
    write_cte_query(w, &c.query);
    proof {
        lemma_wrote_chain(w0, w1, *w, cte_head(*c), cte_query_pieces(c.query));
    }
}

/// Writes a `WITH` clause.
#[verifier::spinoff_prover]
pub fn write_with(w: &mut SqlWriter, with: &With)
    requires
        old(w).wf(),
    ensures
        wrote(*old(w), *final(w), with_pieces(*with)),
    decreases with,
{
    let ghost p0 = w.pieces();
    w.push_str("WITH ");
    let ghost p1 = w.pieces();
    let mut i: usize = 0;
    while i < with.ctes.len()
        invariant
            i <= with.ctes@.len(),
            w.wf(),
            w.is_parameterized() == old(w).is_parameterized(),
            w.pieces() == p1 + cte_list(with.ctes@.subrange(0, i as int)),
            p1 == p0 + text("WITH "@),
            p0 == old(w).pieces(),
        decreases with.ctes@.len() - i,
    {
        if i > 0 {
            w.push_str(", ");
        }
        proof {
            assert(decreases_to!(*with => with.ctes));
            assert(decreases_to!(with.ctes => with.ctes@));
            assert(decreases_to!(with.ctes@ => with.ctes@[i as int]));
        }
        write_cte(w, &with.ctes[i]);
        proof {
            let s1 = with.ctes@.subrange(0, i + 1);
            assert(s1.drop_last() =~= with.ctes@.subrange(0, i as int));
            if i == 0 {
                assert(with.ctes@.subrange(0, 0) =~= Seq::<CommonTableExpression>::empty());
            }
            assert(w.pieces() =~= p1 + cte_list(s1));
        }
        i = i + 1;
    }
    assert(with.ctes@.subrange(0, with.ctes@.len() as int) =~= with.ctes@);
    assert(w.pieces() =~= p0 + with_pieces(*with));
}

/// Writes a `SELECT` statement.
#[verifier::spinoff_prover]
pub fn write_select(w: &mut SqlWriter, s: &Select)
    requires
        old(w).wf(),
    ensures
        wrote(*old(w), *final(w), select_pieces(*s)),
    decreases s,
{
    let ghost w0 = *w;
    let ghost a = with_prefix(s.with) + text("SELECT "@) + select_items(s.selects@) + from_items(s.from@)
        + table_sample_pieces(s.table_sample) + join_items(s.joins@);
    let ghost b = conditions_pieces(" WHERE "@, s.conditions@);
    let ghost c = if s.groups@.len() > 0 {
        text(" GROUP BY "@) + list_pieces(s.groups@)
    } else {
        Seq::empty()
    };
    let ghost d = conditions_pieces(" HAVING "@, s.having@);
    let ghost e = if s.orders@.len() > 0 {
        text(" ORDER BY "@) + order_items(s.orders@)
    } else {
        Seq::empty()
    };
    let ghost f = match s.limit {
        Some(n) => text(" LIMIT "@) + text(decimal(n as nat)),
        None => Seq::empty(),
    };
    let ghost g = match s.offset {
        Some(n) => text(" OFFSET "@) + text(decimal(n as nat)),
        None => Seq::empty(),
    };
    let ghost h = opt_lock_pieces(s.lock);
    assert(select_pieces(*s) == a + b + c + d + e + f + g + h);
    match &s.with {
        Some(with) => {
            write_with(w, with);
            w.push_char(' ');
        },
        None => {},
    }
    let ghost wp = *w;
    assert(w.pieces() =~= w0.pieces() + with_prefix(s.with));
    w.push_str("SELECT ");
    let ghost w1 = *w;
    proof {
        lemma_wrote_chain(w0, wp, w1, with_prefix(s.with), text("SELECT "@));
    }
    write_select_items(w, &s.selects);
    let ghost w2 = *w;
    proof {
        lemma_wrote_chain(w0, w1, w2, with_prefix(s.with) + text("SELECT "@), select_items(s.selects@));
    }
    write_from(w, &s.from);
    let ghost w3 = *w;
    proof {
        lemma_wrote_chain(
            w0,
            w2,
            w3,
            with_prefix(s.with) + text("SELECT "@) + select_items(s.selects@),
            from_items(s.from@),
        );
    }
    write_table_sample(w, &s.table_sample);
    let ghost w3s = *w;
    proof {
        lemma_wrote_chain(
            w0,
            w3,
            w3s,
            with_prefix(s.with) + text("SELECT "@) + select_items(s.selects@) + from_items(s.from@),
            table_sample_pieces(s.table_sample),
        );
    }
    write_joins(w, &s.joins);
    let ghost w4 = *w;
    proof {
        lemma_wrote_chain(
            w0,
            w3s,
            w4,
            with_prefix(s.with) + text("SELECT "@) + select_items(s.selects@) + from_items(s.from@)
                + table_sample_pieces(s.table_sample),
            join_items(s.joins@),
        );
    }
    write_conditions(w, " WHERE ", &s.conditions);
    let ghost w5 = *w;
    proof {
        lemma_wrote_chain(w0, w4, w5, a, b);
    }
    if s.groups.len() > 0 {
        w.push_str(" GROUP BY ");
        let ghost v = *w;
        write_list(w, &s.groups);
        proof {
            lemma_wrote_chain(w5, v, *w, text(" GROUP BY "@), list_pieces(s.groups@));
        }
    } else {
        proof {
            lemma_wrote_nothing(*w);
        }
    }
    let ghost w6 = *w;
    proof {
        lemma_wrote_chain(w0, w5, w6, a + b, c);
    }
    write_conditions(w, " HAVING ", &s.having);
    let ghost w7 = *w;
    proof {
        lemma_wrote_chain(w0, w6, w7, a + b + c, d);
    }
    if s.orders.len() > 0 {
        w.push_str(" ORDER BY ");
        let ghost v = *w;
        write_orders(w, &s.orders);
        proof {
            lemma_wrote_chain(w7, v, *w, text(" ORDER BY "@), order_items(s.orders@));
        }
    } else {
        proof {
            lemma_wrote_nothing(*w);
        }
    }
    let ghost w8 = *w;
    proof {
        lemma_wrote_chain(w0, w7, w8, a + b + c + d, e);
    }
    match s.limit {
        Some(n) => write_number(w, " LIMIT ", n),
        None => {
            proof {
                lemma_wrote_nothing(*w);
            }
        },
    }
    let ghost w9 = *w;
    proof {
        lemma_wrote_chain(w0, w8, w9, a + b + c + d + e, f);
    }
    match s.offset {
        Some(n) => write_number(w, " OFFSET ", n),
        None => {
            proof {
                lemma_wrote_nothing(*w);
            }
        },
    }
    let ghost w10 = *w;
    proof {
        lemma_wrote_chain(w0, w9, w10, a + b + c + d + e + f, g);
    }
    match &s.lock {
        Some(l) => write_lock(w, l),
        None => {
            proof {
                lemma_wrote_nothing(*w);
            }
        },
    }
    proof {
        lemma_wrote_chain(w0, w10, *w, a + b + c + d + e + f + g, h);
    }
}

/// A list of conditions renders as their left-associated `AND`
/// ([`Expr::from_conditions`]) does: one condition as itself, several as
/// [`and_prefix`], so that `WHERE` and `HAVING` clauses are the rendering of
/// that single expression.
pub proof fn lemma_and_fold_pieces(cs: Seq<Expr>)
    requires
        cs.len() >= 1,
    ensures
        cs.len() == 1 ==> expr_pieces(and_fold(cs)) == expr_pieces(cs[0]),
        cs.len() >= 2 ==> expr_pieces(and_fold(cs)) == and_prefix(cs),
    decreases cs.len(),
{
    if cs.len() >= 2 {
        let init = cs.drop_last();
        let f = and_fold(init);
        lemma_and_fold_pieces(init);
        assert(and_fold(cs) == Expr::Binary(Box::new(f), BinaryOp::And, Box::new(cs.last())));
        assert(!is_empty_in(BinaryOp::And, cs.last()));
        if cs.len() == 2 {
            assert(f == cs[0]);
            assert(init.len() == 1);
            assert(and_prefix(init) == parens(left_paren(cs[0], BinaryOp::And), expr_pieces(cs[0])));
        } else {
            assert(f is Binary && f->Binary_1 == BinaryOp::And);
            assert(!left_paren(f, BinaryOp::And));
        }
    }
}

/// Rendering is deterministic: equal statements render to the same text, in
/// either mode, with the same values.
pub proof fn lemma_select_rendering_deterministic(a: Select, b: Select)
    requires
        a == b,
    ensures
        inline_text(select_pieces(a)) == inline_text(select_pieces(b)),
        parameterized_text(select_pieces(a)) == parameterized_text(select_pieces(b)),
        params_of(select_pieces(a)) == params_of(select_pieces(b)),
{
}

/// A `WHERE`-like clause of conditions joined by `AND`; nothing for none.
pub open spec fn conditions_pieces(keyword: Seq<char>, cs: Seq<Expr>) -> Seq<Piece> {
    if cs.len() == 0 {
        Seq::empty()
    } else if cs.len() == 1 {
        text(keyword) + expr_pieces(cs[0])
    } else {
        text(keyword) + and_prefix(cs)
    }
}

/// The pieces of a `RETURNING` clause.
pub open spec fn returning_pieces(r: Returning) -> Seq<Piece> {
    text(" RETURNING "@) + match r {
        Returning::All => text(seq!['*']),
        Returning::Exprs(es) => list_pieces(es@),
    }
}

/// An optional clause: its pieces, or nothing.
pub open spec fn opt_returning_pieces(r: Option<Returning>) -> Seq<Piece> {
    match r {
        Some(r) => returning_pieces(r),
        None => Seq::empty(),
    }
}

/// Writes an optional `RETURNING` clause.
pub fn write_returning(w: &mut SqlWriter, r: &Option<Returning>)
    requires
        old(w).wf(),
    ensures
        wrote(*old(w), *final(w), opt_returning_pieces(*r)),
{
    let ghost p0 = w.pieces();
    match r {
        Some(ret) => {
            w.push_str(" RETURNING ");
            match ret {
                Returning::All => w.push_char('*'),
                Returning::Exprs(es) => write_list(w, es),
            }
        },
        None => {},
    }
    assert(w.pieces() =~= p0 + opt_returning_pieces(*r));
}

/// Fixed text when `on` holds, else nothing.
pub open spec fn text_if(on: bool, s: Seq<char>) -> Seq<Piece> {
    if on {
        text(s)
    } else {
        Seq::empty()
    }
}

/// Writes `s` when `on` holds.
pub fn write_text_if(w: &mut SqlWriter, on: bool, s: &str)
    requires
        old(w).wf(),
    ensures
        wrote(*old(w), *final(w), text_if(on, s@)),
{
    let ghost p0 = w.pieces();
    if on {
        w.push_str(s);
    }
    assert(w.pieces() =~= p0 + text_if(on, s@));
}

/// Rendering an expression is deterministic: equal trees render to the same
/// text, in either mode, with the same values.
pub proof fn lemma_expr_rendering_deterministic(a: Expr, b: Expr)
    requires
        a == b,
    ensures
        inline_text(expr_pieces(a)) == inline_text(expr_pieces(b)),
        parameterized_text(expr_pieces(a)) == parameterized_text(expr_pieces(b)),
        params_of(expr_pieces(a)) == params_of(expr_pieces(b)),
{
}

/// `x IN ()` renders as `1 = 2` and `x NOT IN ()` as `1 = 1`, whatever `x` is.
pub proof fn lemma_empty_in_rewrite(x: Expr, v: Vec<Expr>)
    requires
        v@.len() == 0,
    ensures
        expr_pieces(Expr::Binary(Box::new(x), BinaryOp::In, Box::new(Expr::Tuple(v))))
            == tautology_pieces(2),
        expr_pieces(Expr::Binary(Box::new(x), BinaryOp::NotIn, Box::new(Expr::Tuple(v))))
            == tautology_pieces(1),
{
}

/// A left-associative operator applied again on the left needs no
/// parentheses: `(a op b) op c` renders as `a op b op c`.
pub proof fn lemma_left_associative_elision(a: Expr, op: BinaryOp, b: Expr, c: Expr)
    requires
        spec_left_associative(&op),
    ensures
        ({
            let l = Expr::Binary(Box::new(a), op, Box::new(b));
            expr_pieces(Expr::Binary(Box::new(l), op, Box::new(c))) == expr_pieces(l) + text(
                seq![' '],
            ) + text(binary_op_text(op)) + text(seq![' ']) + parens(
                right_paren(c, op),
                expr_pieces(c),
            )
        }),
{
    let l = Expr::Binary(Box::new(a), op, Box::new(b));
    assert(!left_paren(l, op));
    assert(!is_empty_in(op, c));
}

/// Arithmetic binds tighter than comparison, so an arithmetic operand of a
/// comparison is never put in parentheses; `AND` and `OR` share a class, so
/// an `AND` operand of `OR` always is.
pub proof fn lemma_precedence_grouping(arith: BinaryOp, cmp: BinaryOp, y: Expr, z: Expr)
    requires
        Operator::Binary(arith).spec_is_arithmetic(),
        Operator::Binary(cmp).spec_is_comparison(),
    ensures
        !left_paren(Expr::Binary(Box::new(y), arith, Box::new(z)), cmp),
        !right_paren(Expr::Binary(Box::new(y), arith, Box::new(z)), cmp),
        left_paren(Expr::Binary(Box::new(y), BinaryOp::And, Box::new(z)), BinaryOp::Or),
        right_paren(Expr::Binary(Box::new(y), BinaryOp::And, Box::new(z)), BinaryOp::Or),
{
}

/// A child whose operator's class is strictly higher than its parent's is
/// never put in parentheses, on either side of a binary operator or under `NOT`.
pub proof fn lemma_higher_class_never_wrapped(child: Expr, op: BinaryOp)
    requires
        child is Binary,
        precedence_class(Operator::Binary(child->Binary_1)) > precedence_class(
            Operator::Binary(op),
        ),
    ensures
        !left_paren(child, op),
        !right_paren(child, op),
        precedence_class(Operator::Binary(child->Binary_1)) > 0 ==> !unary_paren(
            child,
            UnaryOp::Not,
        ),
{
    lemma_high_precedence_is_class_order(child, Operator::Binary(op));
    lemma_high_precedence_is_class_order(child, Operator::Unary(UnaryOp::Not));
}

/// The bounds of `BETWEEN` are never put in parentheses as a pair:
/// `x BETWEEN a AND b` renders as `x`, ` BETWEEN `, then `a AND b`.
pub proof fn lemma_between_shape(x: Expr, a: Expr, b: Expr, op: BinaryOp)
    requires
        op == BinaryOp::Between || op == BinaryOp::NotBetween,
    ensures
        ({
            let pair = Expr::Binary(Box::new(a), BinaryOp::And, Box::new(b));
            expr_pieces(Expr::Binary(Box::new(x), op, Box::new(pair))) == parens(
                left_paren(x, op),
                expr_pieces(x),
            ) + text(seq![' ']) + text(binary_op_text(op)) + text(seq![' ']) + expr_pieces(pair)
        }),
{
    let pair = Expr::Binary(Box::new(a), BinaryOp::And, Box::new(b));
    assert(!right_paren(pair, op));
    assert(!is_empty_in(op, pair));
}

/// Fixed texts joined by `, `.
pub open spec fn joined_texts(ts: Seq<Seq<char>>) -> Seq<Piece>
    decreases ts.len(),
{
    if ts.len() == 0 {
        Seq::empty()
    } else if ts.len() == 1 {
        text(ts[0])
    } else {
        joined_texts(ts.drop_last()) + text(", "@) + text(ts.last())
    }
}

/// The texts of strings.
pub open spec fn strings_view(ss: Seq<String>) -> Seq<Seq<char>> {
    ss.map_values(|s: String| s@)
}

/// ` CASCADE` or ` RESTRICT`, or nothing.
pub open spec fn behavior_pieces(b: Option<DropBehavior>) -> Seq<Piece> {
    match b {
        Some(DropBehavior::Cascade) => text(seq![' ']) + text("CASCADE"@),
        Some(DropBehavior::Restrict) => text(seq![' ']) + text("RESTRICT"@),
        None => Seq::empty(),
    }
}

/// Writes the dropped names, joined by `, `, and the drop behavior.
pub fn write_drop_tail(w: &mut SqlWriter, names: &Vec<String>, behavior: Option<DropBehavior>)
    requires
        old(w).wf(),
    ensures
        wrote(*old(w), *final(w), joined_texts(strings_view(names@)) + behavior_pieces(behavior)),
{
    let ghost p0 = w.pieces();
    let mut i: usize = 0;
    while i < names.len()
        invariant
            i <= names@.len(),
            wrote(*old(w), *w, joined_texts(strings_view(names@.subrange(0, i as int)))),
            p0 == old(w).pieces(),
        decreases names@.len() - i,
    {
        if i > 0 {
            w.push_str(", ");
        }
        w.push_str(names[i].as_str());
        proof {
            let s1 = names@.subrange(0, i + 1);
            assert(strings_view(s1).drop_last() =~= strings_view(names@.subrange(0, i as int)));
            if i == 0 {
                assert(strings_view(names@.subrange(0, 0)) =~= Seq::<Seq<char>>::empty());
            }
            assert(w.pieces() =~= p0 + joined_texts(strings_view(s1)));
        }
        i = i + 1;
    }
    assert(names@.subrange(0, names@.len() as int) =~= names@);
    let ghost p1 = w.pieces();
    match behavior {
        Some(DropBehavior::Cascade) => {
            w.push_char(' ');
            w.push_str("CASCADE");
        },
        Some(DropBehavior::Restrict) => {
            w.push_char(' ');
            w.push_str("RESTRICT");
        },
        None => {},
    }
    assert(w.pieces() =~= p1 + behavior_pieces(behavior));
    assert(w.pieces() =~= p0 + (joined_texts(strings_view(names@)) + behavior_pieces(behavior)));
}

} // verus!
