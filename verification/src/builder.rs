//! The constraint builder: the place where a table states its constraints
//! and its interactions.

use crate::expr::{Expr, RowWindow, Var, Window};
use crate::field::{canonical, fmul, fsub, lemma_field_ops_canonical, lemma_fsub_zero};
use crate::prime::{lemma_boolean_values, lemma_no_zero_divisors};
use crate::interaction::{
    instantiate_all, AirInteraction, BusMessage, Interaction, InteractionScope, Message,
};
use vstd::prelude::*;

verus! {

/// Whether every expression of `constraints` evaluates to zero on `w`.
pub open spec fn all_zero(constraints: Seq<Expr>, w: Window) -> bool {
    forall|i: int| 0 <= i < constraints.len() ==> (#[trigger] constraints[i]).value(w) == 0
}

/// `cond * x == 0`: the constraint that `x` vanishes wherever `cond` does not.
pub open spec fn zero_when(cond: int, x: int) -> bool {
    fmul(cond, x) == 0
}

/// `cond * (a - b) == 0`.
pub open spec fn eq_when(cond: int, a: int, b: int) -> bool {
    fmul(cond, fsub(a, b)) == 0
}

/// `x * (x - 1) == 0`: the constraint that `x` is zero or one.
pub open spec fn boolean(x: int) -> bool {
    fmul(x, fsub(x, 1)) == 0
}

/// `cond * (x * (x - 1)) == 0`.
pub open spec fn boolean_when(cond: int, x: int) -> bool {
    fmul(cond, fmul(x, fsub(x, 1))) == 0
}

/// `zero_when` says that the condition is zero or `x` is.
pub proof fn lemma_zero_when(cond: int, x: int)
    requires
        canonical(cond),
        canonical(x),
    ensures
        zero_when(cond, x) == (cond == 0 || x == 0),
{
    lemma_no_zero_divisors(cond, x);
}

/// `eq_when` says that the condition is zero or `a` equals `b`.
pub proof fn lemma_eq_when(cond: int, a: int, b: int)
    requires
        canonical(cond),
        canonical(a),
        canonical(b),
    ensures
        eq_when(cond, a, b) == (cond == 0 || a == b),
{
    lemma_field_ops_canonical(a, b);
    lemma_no_zero_divisors(cond, fsub(a, b));
    lemma_fsub_zero(a, b);
}

/// `boolean` says that `x` is zero or one.
pub proof fn lemma_boolean(x: int)
    requires
        canonical(x),
    ensures
        boolean(x) == (x == 0 || x == 1),
{
    lemma_boolean_values(x);
}

/// `boolean_when` says that the condition is zero or `x` is zero or one.
pub proof fn lemma_boolean_when(cond: int, x: int)
    requires
        canonical(cond),
        canonical(x),
    ensures
        boolean_when(cond, x) == (cond == 0 || x == 0 || x == 1),
{
    lemma_field_ops_canonical(x, 1);
    lemma_field_ops_canonical(x, fsub(x, 1));
    lemma_no_zero_divisors(cond, fmul(x, fsub(x, 1)));
    lemma_boolean_values(x);
}

/// Collects the constraints and interactions of a table.
///
/// A constraint is an expression that must be zero on every window of the
/// trace. An interaction is a tuple that the table sends or receives on
/// every row, with the multiplicity that the row gives it.
#[derive(Debug)]
pub struct ConstraintBuilder {
    pub constraints: Vec<Expr>,
    pub interactions: Vec<Interaction>,
}

impl ConstraintBuilder {
    /// Whether the window `w` satisfies every constraint stated so far.
    #[verifier::inline]
    pub open spec fn holds(&self, w: Window) -> bool {
        all_zero(self.constraints@, w)
    }

    /// The messages that the interactions stated so far put on the bus for
    /// the row of `w`, in the order in which they were stated.
    #[verifier::inline]
    pub open spec fn messages(&self, w: Window) -> Seq<Message> {
        instantiate_all(self.interactions@, w)
    }

    /// A builder with no constraint and no interaction.
    pub fn new() -> (r: Self)
        ensures
            r.constraints@.len() == 0,
            r.interactions@.len() == 0,
            forall|w: Window| #[trigger] r.holds(w),
            forall|w: Window| #[trigger] r.messages(w) == Seq::<Message>::empty(),
    {
        let r = ConstraintBuilder { constraints: Vec::new(), interactions: Vec::new() };
        assert forall|w: Window| #[trigger] r.messages(w) == Seq::<Message>::empty() by {
            assert(r.messages(w) =~= Seq::<Message>::empty());
        }
        r
    }

    /// The selector of the first row.
    pub fn is_first_row(&self) -> (r: Expr)
        ensures
            r == Expr::Var(Var::IsFirstRow),
            forall|w: Window| #[trigger] r.value(w) == w.var(Var::IsFirstRow),
    {
        Expr::Var(Var::IsFirstRow)
    }

    /// The selector of the last row.
    pub fn is_last_row(&self) -> (r: Expr)
        ensures
            r == Expr::Var(Var::IsLastRow),
            forall|w: Window| #[trigger] r.value(w) == w.var(Var::IsLastRow),
    {
        Expr::Var(Var::IsLastRow)
    }

    /// The selector of the rows that have a successor.
    pub fn is_transition(&self) -> (r: Expr)
        ensures
            r == Expr::Var(Var::IsTransition),
            forall|w: Window| #[trigger] r.value(w) == w.var(Var::IsTransition),
    {
        Expr::Var(Var::IsTransition)
    }

    /// States that `x` is zero.
    pub fn assert_zero(&mut self, x: Expr)
        ensures
            final(self).constraints@ == old(self).constraints@.push(x),
            final(self).interactions@ == old(self).interactions@,
            forall|w: Window| #[trigger]
                final(self).holds(w) == (old(self).holds(w) && x.value(w) == 0),
    {
        self.constraints.push(x);
        assert forall|w: Window| #[trigger]
            self.holds(w) == (old(self).holds(w) && x.value(w) == 0) by {
            let before = old(self).constraints@;
            let after = self.constraints@;
            if self.holds(w) {
                assert(after[before.len() as int].value(w) == 0);
                assert forall|i: int| 0 <= i < before.len() implies (#[trigger] before[i]).value(w)
                    == 0 by {
                    assert(after[i].value(w) == 0);
                }
            }
            if old(self).holds(w) && x.value(w) == 0 {
                assert forall|i: int| 0 <= i < after.len() implies (#[trigger] after[i]).value(w)
                    == 0 by {
                    if i < before.len() {
                        assert(before[i].value(w) == 0);
                    }
                }
            }
        }
    }

    /// States that `x` is zero wherever `cond` is not.
    pub fn assert_zero_when(&mut self, cond: Expr, x: Expr)
        ensures
            final(self).constraints@.len() == old(self).constraints@.len() + 1,
            final(self).interactions@ == old(self).interactions@,
            forall|w: Window| #[trigger]
                final(self).holds(w) == (old(self).holds(w) && zero_when(
                    cond.value(w),
                    x.value(w),
                )),
    {
        self.assert_zero(cond.times(x));
    }

    /// States that `a` equals `b`.
    pub fn assert_eq(&mut self, a: Expr, b: Expr)
        ensures
            final(self).constraints@.len() == old(self).constraints@.len() + 1,
            final(self).interactions@ == old(self).interactions@,
            forall|w: Window| #[trigger]
                final(self).holds(w) == (old(self).holds(w) && fsub(a.value(w), b.value(w)) == 0),
    {
        self.assert_zero(a.minus(b));
    }

    /// States that `a` equals `b` wherever `cond` is not zero.
    pub fn assert_eq_when(&mut self, cond: Expr, a: Expr, b: Expr)
        ensures
            final(self).constraints@.len() == old(self).constraints@.len() + 1,
            final(self).interactions@ == old(self).interactions@,
            forall|w: Window| #[trigger]
                final(self).holds(w) == (old(self).holds(w) && eq_when(
                    cond.value(w),
                    a.value(w),
                    b.value(w),
                )),
    {
        self.assert_zero(cond.times(a.minus(b)));
    }

    /// States that `x` is one.
    pub fn assert_one(&mut self, x: Expr)
        ensures
            final(self).constraints@.len() == old(self).constraints@.len() + 1,
            final(self).interactions@ == old(self).interactions@,
            forall|w: Window| #[trigger]
                final(self).holds(w) == (old(self).holds(w) && fsub(x.value(w), 1) == 0),
    {
        self.assert_zero(x.minus(Expr::one()));
    }

    /// States that `x` is one wherever `cond` is not zero.
    pub fn assert_one_when(&mut self, cond: Expr, x: Expr)
        ensures
            final(self).constraints@.len() == old(self).constraints@.len() + 1,
            final(self).interactions@ == old(self).interactions@,
            forall|w: Window| #[trigger]
                final(self).holds(w) == (old(self).holds(w) && eq_when(
                    cond.value(w),
                    x.value(w),
                    1,
                )),
    {
        self.assert_zero(cond.times(x.minus(Expr::one())));
    }

    /// States that `x` is zero or one.
    pub fn assert_bool(&mut self, x: Expr)
        ensures
            final(self).constraints@.len() == old(self).constraints@.len() + 1,
            final(self).interactions@ == old(self).interactions@,
            forall|w: Window| #[trigger]
                final(self).holds(w) == (old(self).holds(w) && boolean(x.value(w))),
    {
        let y = x.clone();
        self.assert_zero(x.times(y.minus(Expr::one())));
    }

    /// States that `x` is zero or one wherever `cond` is not zero.
    pub fn assert_bool_when(&mut self, cond: Expr, x: Expr)
        ensures
            final(self).constraints@.len() == old(self).constraints@.len() + 1,
            final(self).interactions@ == old(self).interactions@,
            forall|w: Window| #[trigger]
                final(self).holds(w) == (old(self).holds(w) && boolean_when(
                    cond.value(w),
                    x.value(w),
                )),
    {
        let y = x.clone();
        self.assert_zero(cond.times(x.times(y.minus(Expr::one()))));
    }

    /// States an interaction.
    pub fn interact(&mut self, tuple: AirInteraction, scope: InteractionScope, is_send: bool)
        ensures
            final(self).constraints@ == old(self).constraints@,
            final(self).interactions@ == old(self).interactions@.push(
                Interaction { tuple, scope, is_send },
            ),
            forall|w: Window| #[trigger]
                final(self).messages(w) == old(self).messages(w).push(
                    Interaction { tuple, scope, is_send }.instantiate(w),
                ),
    {
        self.interactions.push(Interaction { tuple, scope, is_send });
        assert forall|w: Window| #[trigger]
            self.messages(w) == old(self).messages(w).push(
                Interaction { tuple, scope, is_send }.instantiate(w),
            ) by {
            assert(self.messages(w) =~= old(self).messages(w).push(
                Interaction { tuple, scope, is_send }.instantiate(w),
            ));
        }
    }

    /// States that the table sends `tuple` in `scope`.
    pub fn send(&mut self, tuple: AirInteraction, scope: InteractionScope)
        ensures
            final(self).constraints@ == old(self).constraints@,
            final(self).interactions@ == old(self).interactions@.push(
                Interaction { tuple, scope, is_send: true },
            ),
            forall|w: Window| #[trigger]
                final(self).messages(w) == old(self).messages(w).push(
                    Interaction { tuple, scope, is_send: true }.instantiate(w),
                ),
    {
        self.interact(tuple, scope, true);
    }

    /// States that the table receives `tuple` in `scope`.
    pub fn receive(&mut self, tuple: AirInteraction, scope: InteractionScope)
        ensures
            final(self).constraints@ == old(self).constraints@,
            final(self).interactions@ == old(self).interactions@.push(
                Interaction { tuple, scope, is_send: false },
            ),
            forall|w: Window| #[trigger]
                final(self).messages(w) == old(self).messages(w).push(
                    Interaction { tuple, scope, is_send: false }.instantiate(w),
                ),
    {
        self.interact(tuple, scope, false);
    }

    /// Decides whether the window satisfies every constraint.
    pub fn check(&self, w: &RowWindow) -> (r: bool)
        requires
            w@.wf(),
        ensures
            r == self.holds(w@),
    {
        let mut i: usize = 0;
        while i < self.constraints.len()
            invariant
                i <= self.constraints.len(),
                w@.wf(),
                forall|j: int| 0 <= j < i ==> (#[trigger] self.constraints@[j]).value(w@) == 0,
            decreases self.constraints.len() - i,
        {
            if self.constraints[i].evaluate(w) != 0 {
                return false;
            }
            i += 1;
        }
        true
    }

    /// The messages that the row of `w` puts on the bus.
    pub fn emit(&self, w: &RowWindow) -> (r: Vec<BusMessage>)
        requires
            w@.wf(),
        ensures
            r@.len() == self.interactions@.len(),
            forall|i: int| 0 <= i < r@.len() ==> (#[trigger] r@[i])@ == self.messages(w@)[i],
            forall|i: int| 0 <= i < r@.len() ==> (#[trigger] r@[i]).wf(),
    {
        let mut out: Vec<BusMessage> = Vec::new();
        let mut i: usize = 0;
        while i < self.interactions.len()
            invariant
                i <= self.interactions.len(),
                w@.wf(),
                out@.len() == i,
                forall|j: int| 0 <= j < i ==> (#[trigger] out@[j])@ == self.interactions@[j].instantiate(w@),
                forall|j: int| 0 <= j < i ==> (#[trigger] out@[j]).wf(),
            decreases self.interactions.len() - i,
        {
            out.push(self.interactions[i].emit(w));
            i += 1;
        }
        out
    }
}

} // verus!
