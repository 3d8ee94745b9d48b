//! `ON CONFLICT` clauses of `INSERT`.
use vstd::prelude::*;
use crate::expr::{Expr, IntoExpr, exprs_of};
use crate::render::{conditions_pieces, expr_pieces, list_pieces, text, write_conditions, write_expr, write_list};
use crate::types::{Iden, IntoIden, column_ref_parts, push_iden, quote_iden};
use crate::writer::{Piece, SqlWriter, lemma_wrote_chain, wrote};

verus! {

/// What a conflict is detected on.
#[derive(Debug, PartialEq)]
pub enum OnConflictTarget {
    /// Index columns or expressions.
    Exprs(Vec<Expr>),
    /// A named constraint.
    Constraint(String),
}

/// One assignment of `DO UPDATE SET`.
#[derive(Debug, PartialEq)]
pub enum OnConflictUpdate {
    /// `"col" = "excluded"."col"`: the value that was proposed for insertion.
    Column(Iden),
    /// `"col" = expr`.
    Expr(Iden, Expr),
}

/// What happens on a conflict.
#[derive(Debug, PartialEq)]
pub enum OnConflictAction {
    DoNothing,
    Update(Vec<OnConflictUpdate>),
}

/// An `ON CONFLICT` clause.
#[derive(Debug, PartialEq)]
pub struct OnConflict {
    pub targets: OnConflictTarget,
    pub target_conditions: Vec<Expr>,
    pub action: Option<OnConflictAction>,
    pub action_conditions: Vec<Expr>,
}

/// The pieces of a conflict target.
pub open spec fn target_pieces(t: OnConflictTarget) -> Seq<Piece> {
    match t {
        OnConflictTarget::Exprs(es) => text("("@) + list_pieces(es@) + text(")"@),
        OnConflictTarget::Constraint(c) => text("ON CONSTRAINT "@) + text(seq!['"']) + text(c@)
            + text(seq!['"']),
    }
}

/// The pieces of one assignment.
pub open spec fn conflict_update_pieces(u: OnConflictUpdate) -> Seq<Piece> {
    match u {
        OnConflictUpdate::Column(c) => text(quote_iden(c@)) + text(" = \"excluded\"."@) + text(
            quote_iden(c@),
        ),
        OnConflictUpdate::Expr(c, e) => text(quote_iden(c@)) + text(" = "@) + expr_pieces(e),
    }
}

/// The assignments, joined by `, `.
pub open spec fn conflict_updates(us: Seq<OnConflictUpdate>) -> Seq<Piece>
    decreases us.len(),
{
    if us.len() == 0 {
        Seq::empty()
    } else if us.len() == 1 {
        conflict_update_pieces(us[0])
    } else {
        conflict_updates(us.drop_last()) + text(", "@) + conflict_update_pieces(us.last())
    }
}

/// The pieces of the action.
pub open spec fn action_pieces(a: Option<OnConflictAction>) -> Seq<Piece> {
    match a {
        Some(OnConflictAction::DoNothing) => text(" DO NOTHING"@),
        Some(OnConflictAction::Update(us)) => text(" DO UPDATE SET "@) + conflict_updates(us@),
        None => Seq::empty(),
    }
}

/// The pieces of an `ON CONFLICT` clause.
pub open spec fn on_conflict_pieces(o: OnConflict) -> Seq<Piece> {
    text(" ON CONFLICT "@) + target_pieces(o.targets) + conditions_pieces(
        " WHERE "@,
        o.target_conditions@,
    ) + action_pieces(o.action) + conditions_pieces(" WHERE "@, o.action_conditions@)
}

fn write_iden_piece(w: &mut SqlWriter, i: &Iden)
    requires
        old(w).wf(),
    ensures
        wrote(*old(w), *final(w), text(quote_iden(i@))),
{
    let ghost p0 = w.pieces();
    let mut s = String::new();
    push_iden(&mut s, i);
    assert(s@ =~= quote_iden(i@));
    w.push_str(s.as_str());
    assert(w.pieces() =~= p0 + text(quote_iden(i@)));
}

fn write_target(w: &mut SqlWriter, t: &OnConflictTarget)
    requires
        old(w).wf(),
    ensures
        wrote(*old(w), *final(w), target_pieces(*t)),
{
    let ghost p0 = w.pieces();
    match t {
        OnConflictTarget::Exprs(es) => {
            w.push_str("(");
            write_list(w, es);
            w.push_str(")");
        },
        OnConflictTarget::Constraint(c) => {
            w.push_str("ON CONSTRAINT ");
            w.push_char('"');
            w.push_str(c.as_str());
            w.push_char('"');
        },
    }
    assert(w.pieces() =~= p0 + target_pieces(*t));
}

#[verifier::spinoff_prover]
fn write_conflict_updates(w: &mut SqlWriter, us: &Vec<OnConflictUpdate>)
    requires
        old(w).wf(),
    ensures
        wrote(*old(w), *final(w), conflict_updates(us@)),
{
    let ghost p0 = w.pieces();
    let mut i: usize = 0;
    while i < us.len()
        invariant
            i <= us@.len(),
            wrote(*old(w), *w, conflict_updates(us@.subrange(0, i as int))),
            p0 == old(w).pieces(),
        decreases us@.len() - i,
    {
        if i > 0 {
            w.push_str(", ");
        }
        let ghost q = w.pieces();
        match &us[i] {
            OnConflictUpdate::Column(c) => {
                write_iden_piece(w, c);
                w.push_str(" = \"excluded\".");
                write_iden_piece(w, c);
            },
            OnConflictUpdate::Expr(c, e) => {
                write_iden_piece(w, c);
                w.push_str(" = ");
                write_expr(w, e);
            },
        }
        proof {
            assert(w.pieces() =~= q + conflict_update_pieces(us@[i as int]));
            let s1 = us@.subrange(0, i + 1);
            assert(s1.drop_last() =~= us@.subrange(0, i as int));
            if i == 0 {
                assert(us@.subrange(0, 0) =~= Seq::<OnConflictUpdate>::empty());
            }
            assert(w.pieces() =~= p0 + conflict_updates(s1));
        }
        i = i + 1;
    }
    assert(us@.subrange(0, us@.len() as int) =~= us@);
}

fn write_action(w: &mut SqlWriter, a: &Option<OnConflictAction>)
    requires
        old(w).wf(),
    ensures
        wrote(*old(w), *final(w), action_pieces(*a)),
{
    let ghost p0 = w.pieces();
    match a {
        Some(OnConflictAction::DoNothing) => w.push_str(" DO NOTHING"),
        Some(OnConflictAction::Update(us)) => {
            w.push_str(" DO UPDATE SET ");
            write_conflict_updates(w, us);
        },
        None => {},
    }
    assert(w.pieces() =~= p0 + action_pieces(*a));
}

/// Writes an `ON CONFLICT` clause.
#[verifier::spinoff_prover]
pub fn write_on_conflict(w: &mut SqlWriter, o: &OnConflict)
    requires
        old(w).wf(),
    ensures
        wrote(*old(w), *final(w), on_conflict_pieces(*o)),
{
    let ghost w0 = *w;
    w.push_str(" ON CONFLICT ");
    let ghost w1 = *w;
    write_target(w, &o.targets);
    let ghost w2 = *w;
    write_conditions(w, " WHERE ", &o.target_conditions);
    let ghost w3 = *w;
    write_action(w, &o.action);
    let ghost w4 = *w;
    write_conditions(w, " WHERE ", &o.action_conditions);
    proof {
        let a = text(" ON CONFLICT "@);
        let b = target_pieces(o.targets);
        let c = conditions_pieces(" WHERE "@, o.target_conditions@);
        let d = action_pieces(o.action);
        let e = conditions_pieces(" WHERE "@, o.action_conditions@);
        lemma_wrote_chain(w0, w1, w2, a, b);
        lemma_wrote_chain(w0, w2, w3, a + b, c);
        lemma_wrote_chain(w0, w3, w4, a + b + c, d);
        lemma_wrote_chain(w0, w4, *w, a + b + c + d, e);
    }
}

/// `updates` added after those of an update action, or replacing any other action.
pub open spec fn with_updates(a: Option<OnConflictAction>, updates: Seq<OnConflictUpdate>) -> Seq<
    OnConflictUpdate,
> {
    match a {
        Some(OnConflictAction::Update(v)) => v@ + updates,
        _ => updates,
    }
}

impl OnConflict {
    fn of_targets(targets: OnConflictTarget) -> (r: OnConflict)
        ensures
            r.targets == targets,
            r.target_conditions@.len() == 0,
            r.action is None,
            r.action_conditions@.len() == 0,
    {
        OnConflict {
            targets,
            target_conditions: Vec::new(),
            action: None,
            action_conditions: Vec::new(),
        }
    }

    /// A clause with no targets and no action yet.
    pub fn new() -> (r: OnConflict)
        ensures
            r.targets is Exprs,
            r.targets->Exprs_0@.len() == 0,
            r.target_conditions@.len() == 0,
            r.action is None,
            r.action_conditions@.len() == 0,
    {
        OnConflict::of_targets(OnConflictTarget::Exprs(Vec::new()))
    }

    /// Conflicts on one column.
    pub fn column<C: IntoIden>(column: C) -> (r: OnConflict)
        ensures
            r.targets is Exprs,
            r.targets->Exprs_0@.len() == 1,
            r.targets->Exprs_0@[0] is Column,
            column_ref_parts(r.targets->Exprs_0@[0]->Column_0) == (seq![column.iden_name()], false),
            r.target_conditions@.len() == 0,
            r.action is None,
            r.action_conditions@.len() == 0,
    {
        OnConflict::of_targets(OnConflictTarget::Exprs(vec![Expr::column(column.into_iden())]))
    }

    /// Conflicts on columns, in order.
    pub fn columns<C: IntoIden>(columns: Vec<C>) -> (r: OnConflict)
        ensures
            r.targets is Exprs,
            r.targets->Exprs_0@.len() == columns@.len(),
            forall|i: int|
                0 <= i < columns@.len() ==> {
                    let e = #[trigger] r.targets->Exprs_0@[i];
                    e is Column && column_ref_parts(e->Column_0) == (
                        seq![columns@[i].iden_name()],
                        false,
                    )
                },
            r.target_conditions@.len() == 0,
            r.action is None,
            r.action_conditions@.len() == 0,
    {
        let ghost orig = columns@;
        let mut rest = columns;
        let mut out: Vec<Expr> = Vec::new();
        while rest.len() > 0
            invariant
                out@.len() + rest@.len() == orig.len(),
                rest@ == orig.subrange(out@.len() as int, orig.len() as int),
                forall|i: int|
                    0 <= i < out@.len() ==> {
                        let e = #[trigger] out@[i];
                        e is Column && column_ref_parts(e->Column_0) == (
                            seq![orig[i].iden_name()],
                            false,
                        )
                    },
            decreases rest@.len(),
        {
            let c = rest.remove(0);
            assert(c == orig[out@.len() as int]);
            out.push(Expr::column(c.into_iden()));
        }
        OnConflict::of_targets(OnConflictTarget::Exprs(out))
    }

    /// Conflicts on a named constraint.
    pub fn constraint(constraint: &str) -> (r: OnConflict)
        ensures
            r.targets is Constraint,
            r.targets->Constraint_0@ == constraint@,
            r.target_conditions@.len() == 0,
            r.action is None,
            r.action_conditions@.len() == 0,
    {
        OnConflict::of_targets(OnConflictTarget::Constraint(constraint.to_owned()))
    }

    /// Conflicts on one expression.
    pub fn expr<T: IntoExpr>(expr: T) -> (r: OnConflict)
        ensures
            r.targets is Exprs,
            r.targets->Exprs_0@.len() == 1,
            expr.converts_to_expr(r.targets->Exprs_0@[0]),
            r.target_conditions@.len() == 0,
            r.action is None,
            r.action_conditions@.len() == 0,
    {
        OnConflict::of_targets(OnConflictTarget::Exprs(vec![expr.into_expr()]))
    }

    /// Conflicts on expressions, in order.
    pub fn exprs<T: IntoExpr>(exprs: Vec<T>) -> (r: OnConflict)
        ensures
            r.targets is Exprs,
            r.targets->Exprs_0@.len() == exprs@.len(),
            forall|i: int| 0 <= i < exprs@.len() ==> #[trigger] exprs@[i].converts_to_expr(r.targets->Exprs_0@[i]),
            r.target_conditions@.len() == 0,
            r.action is None,
            r.action_conditions@.len() == 0,
    {
        OnConflict::of_targets(OnConflictTarget::Exprs(exprs_of(exprs)))
    }

    /// `DO NOTHING`.
    pub fn do_nothing(self) -> (r: OnConflict)
        ensures
            r == (OnConflict { action: Some(OnConflictAction::DoNothing), ..self }),
    {
        OnConflict { action: Some(OnConflictAction::DoNothing), ..self }
    }

    /// Adds assignments to `DO UPDATE SET`, after any given before.
    pub fn updates(self, updates: Vec<OnConflictUpdate>) -> (r: OnConflict)
        ensures
            r.targets == self.targets,
            r.target_conditions == self.target_conditions,
            r.action_conditions == self.action_conditions,
            r.action is Some,
            r.action->0 is Update,
            r.action->0->Update_0@ == with_updates(self.action, updates@),
    {
        let mut more = updates;
        let action = match self.action {
            Some(OnConflictAction::Update(v)) => {
                let mut v = v;
                v.append(&mut more);
                OnConflictAction::Update(v)
            },
            _ => OnConflictAction::Update(more),
        };
        OnConflict { action: Some(action), ..self }
    }

    /// Sets a column to the value proposed for insertion.
    pub fn update_column<C: IntoIden>(self, column: C) -> (r: OnConflict)
        ensures
            r.targets == self.targets,
            r.target_conditions == self.target_conditions,
            r.action_conditions == self.action_conditions,
            r.action is Some,
            r.action->0 is Update,
            ({
                let us = r.action->0->Update_0@;
                &&& us.len() == with_updates(self.action, Seq::empty()).len() + 1
                &&& us.drop_last() == with_updates(self.action, Seq::empty())
                &&& us.last() is Column
                &&& us.last()->Column_0@ == column.iden_name()
            }),
    {
        let u = OnConflictUpdate::Column(column.into_iden());
        let ghost u0 = u;
        let r = self.updates(vec![u]);
        proof {
            let base = with_updates(self.action, Seq::empty());
            assert(with_updates(self.action, seq![u0]) =~= base.push(u0));
            assert(base.push(u0).drop_last() =~= base);
        }
        r
    }

    /// Sets columns to the values proposed for insertion, in order.
    pub fn update_columns<C: IntoIden>(self, columns: Vec<C>) -> (r: OnConflict)
        ensures
            r.targets == self.targets,
            r.target_conditions == self.target_conditions,
            r.action_conditions == self.action_conditions,
            r.action is Some,
            r.action->0 is Update,
            ({
                let us = r.action->0->Update_0@;
                let base = with_updates(self.action, Seq::empty());
                &&& us.len() == base.len() + columns@.len()
                &&& us.take(base.len() as int) == base
                &&& forall|i: int|
                    0 <= i < columns@.len() ==> {
                        let u = #[trigger] us[base.len() + i];
                        u is Column && u->Column_0@ == columns@[i].iden_name()
                    }
            }),
    {
        let ghost orig = columns@;
        let mut rest = columns;
        let mut out: Vec<OnConflictUpdate> = Vec::new();
        while rest.len() > 0
            invariant
                out@.len() + rest@.len() == orig.len(),
                rest@ == orig.subrange(out@.len() as int, orig.len() as int),
                forall|i: int|
                    0 <= i < out@.len() ==> {
                        let u = #[trigger] out@[i];
                        u is Column && u->Column_0@ == orig[i].iden_name()
                    },
            decreases rest@.len(),
        {
            let c = rest.remove(0);
            assert(c == orig[out@.len() as int]);
            out.push(OnConflictUpdate::Column(c.into_iden()));
        }
        let ghost added = out@;
        let r = self.updates(out);
        proof {
            let base = with_updates(self.action, Seq::empty());
            assert(with_updates(self.action, added) =~= base + added);
            assert((base + added).take(base.len() as int) =~= base);
        }
        r
    }

    /// Sets a column to an expression.
    pub fn value<C: IntoIden, T: IntoExpr>(self, col: C, value: T) -> (r: OnConflict)
        ensures
            r.targets == self.targets,
            r.target_conditions == self.target_conditions,
            r.action_conditions == self.action_conditions,
            r.action is Some,
            r.action->0 is Update,
            ({
                let us = r.action->0->Update_0@;
                &&& us.len() == with_updates(self.action, Seq::empty()).len() + 1
                &&& us.drop_last() == with_updates(self.action, Seq::empty())
                &&& us.last() is Expr
                &&& us.last()->Expr_0@ == col.iden_name()
                &&& value.converts_to_expr(us.last()->Expr_1)
            }),
    {
        let u = OnConflictUpdate::Expr(col.into_iden(), value.into_expr());
        let ghost u0 = u;
        let r = self.updates(vec![u]);
        proof {
            let base = with_updates(self.action, Seq::empty());
            assert(with_updates(self.action, seq![u0]) =~= base.push(u0));
            assert(base.push(u0).drop_last() =~= base);
        }
        r
    }

    /// Sets columns to expressions, in order.
    pub fn values<C: IntoIden>(self, values: Vec<(C, Expr)>) -> (r: OnConflict)
        ensures
            r.targets == self.targets,
            r.target_conditions == self.target_conditions,
            r.action_conditions == self.action_conditions,
            r.action is Some,
            r.action->0 is Update,
            ({
                let us = r.action->0->Update_0@;
                let base = with_updates(self.action, Seq::empty());
                &&& us.len() == base.len() + values@.len()
                &&& us.take(base.len() as int) == base
                &&& forall|i: int|
                    0 <= i < values@.len() ==> {
                        let u = #[trigger] us[base.len() + i];
                        u is Expr && u->Expr_0@ == values@[i].0.iden_name() && u->Expr_1
                            == values@[i].1
                    }
            }),
    {
        let ghost orig = values@;
        let mut rest = values;
        let mut out: Vec<OnConflictUpdate> = Vec::new();
        while rest.len() > 0
            invariant
                out@.len() + rest@.len() == orig.len(),
                rest@ == orig.subrange(out@.len() as int, orig.len() as int),
                forall|i: int|
                    0 <= i < out@.len() ==> {
                        let u = #[trigger] out@[i];
                        u is Expr && u->Expr_0@ == orig[i].0.iden_name() && u->Expr_1 == orig[i].1
                    },
            decreases rest@.len(),
        {
            let (c, e) = rest.remove(0);
            assert(c == orig[out@.len() as int].0 && e == orig[out@.len() as int].1);
            out.push(OnConflictUpdate::Expr(c.into_iden(), e));
        }
        let ghost added = out@;
        let r = self.updates(out);
        proof {
            let base = with_updates(self.action, Seq::empty());
            assert(with_updates(self.action, added) =~= base + added);
            assert((base + added).take(base.len() as int) =~= base);
        }
        r
    }

    /// Adds a condition on the conflict target (`ON CONFLICT (..) WHERE ..`).
    pub fn target_and_where<T: IntoExpr>(self, expr: T) -> (r: OnConflict)
        ensures
            r == (OnConflict { target_conditions: r.target_conditions, ..self }),
            r.target_conditions@.len() == self.target_conditions@.len() + 1,
            r.target_conditions@.drop_last() == self.target_conditions@,
            expr.converts_to_expr(r.target_conditions@.last()),
    {
        let mut o = self;
        let ghost start = o.target_conditions@;
        o.target_conditions.push(expr.into_expr());
        assert(o.target_conditions@.drop_last() =~= start);
        o
    }

    /// Adds a condition on the update (`DO UPDATE SET .. WHERE ..`).
    pub fn action_and_where<T: IntoExpr>(self, expr: T) -> (r: OnConflict)
        ensures
            r == (OnConflict { action_conditions: r.action_conditions, ..self }),
            r.action_conditions@.len() == self.action_conditions@.len() + 1,
            r.action_conditions@.drop_last() == self.action_conditions@,
            expr.converts_to_expr(r.action_conditions@.last()),
    {
        let mut o = self;
        let ghost start = o.action_conditions@;
        o.action_conditions.push(expr.into_expr());
        assert(o.action_conditions@.drop_last() =~= start);
        o
    }
}

} // verus!
