//! Machine words as four byte limbs.

use crate::builder::{eq_when, zero_when, ConstraintBuilder};
use crate::expr::{Expr, Var, Window};
use crate::field::{fadd, fmul};
use vstd::prelude::*;

verus! {

/// A 32-bit word as four limbs, least significant first. In a trace every
/// limb is a byte.
#[derive(Clone, Copy, Debug, PartialEq, Eq)]
pub struct Word<T>(pub [T; 4]);

/// The limbs of the word `x`, least significant first.
pub open spec fn word_limbs(x: u32) -> Seq<u32> {
    seq![
        (x % 256) as u32,
        ((x / 256) % 256) as u32,
        ((x / 65536) % 256) as u32,
        (x / 16777216) as u32,
    ]
}

/// The field element `b0 + b1 * 2^8 + b2 * 2^16 + b3 * 2^24`.
pub open spec fn reduce_limbs(b0: int, b1: int, b2: int, b3: int) -> int {
    fadd(fadd(fadd(b0, fmul(b1, 256)), fmul(b2, 65536)), fmul(b3, 16777216))
}

impl Word<u32> {
    /// The little-endian byte limbs of `x`.
    pub fn from_u32(x: u32) -> (r: Self)
        ensures
            r.0@ == word_limbs(x),
    {
        let r = Word([x % 256, (x / 256) % 256, (x / 65536) % 256, x / 16777216]);
        assert(r.0@ =~= word_limbs(x));
        r
    }

    /// The word whose limbs are the bytes of `self`. Defined for byte limbs.
    pub fn to_u32(&self) -> (r: u32)
        requires
            forall|i: int| 0 <= i < 4 ==> self.0[i] < 256,
        ensures
            r == self.0[0] + self.0[1] * 256 + self.0[2] * 65536 + self.0[3] * 16777216,
    {
        self.0[0] + self.0[1] * 256 + self.0[2] * 65536 + self.0[3] * 16777216
    }
}

impl Word<Var> {
    /// The four columns `base .. base + 4` of the current or of the next row.
    pub open spec fn spec_at(next: bool, base: int) -> Word<Var> {
        Word([cell(next, base), cell(next, base + 1), cell(next, base + 2), cell(next, base + 3)])
    }

    /// The value of limb `i` on a window.
    pub open spec fn limb(self, w: Window, i: int) -> int {
        w.var(self.0[i])
    }

    /// The values of the four limbs on a window.
    pub open spec fn limbs(self, w: Window) -> Seq<int> {
        seq![self.limb(w, 0), self.limb(w, 1), self.limb(w, 2), self.limb(w, 3)]
    }

    /// The field element that the limbs stand for on a window.
    pub open spec fn reduced(self, w: Window) -> int {
        reduce_limbs(self.limb(w, 0), self.limb(w, 1), self.limb(w, 2), self.limb(w, 3))
    }

    /// Whether the limbs of `self` and of `other` agree on a window wherever
    /// `cond` is not zero.
    pub open spec fn eq_when(self, cond: int, other: Word<Var>, w: Window) -> bool {
        forall|i: int| 0 <= i < 4 ==> eq_when(cond, #[trigger] self.limb(w, i), other.limb(w, i))
    }

    /// Whether every limb is zero on a window wherever `cond` is not zero.
    pub open spec fn zero_when(self, cond: int, w: Window) -> bool {
        forall|i: int| 0 <= i < 4 ==> zero_when(cond, #[trigger] self.limb(w, i))
    }

    /// The four columns `base .. base + 4` of the current or of the next row.
    pub fn at(next: bool, base: usize) -> (r: Self)
        requires
            base + 4 <= usize::MAX,
        ensures
            r == Self::spec_at(next, base as int),
    {
        Word([at_cell(next, base), at_cell(next, base + 1), at_cell(next, base + 2), at_cell(next, base + 3)])
    }

    /// The expression `b0 + b1 * 2^8 + b2 * 2^16 + b3 * 2^24`.
    pub fn reduce(&self) -> (r: Expr)
        ensures
            forall|w: Window| #[trigger] r.value(w) == self.reduced(w),
    {
        let b0 = Expr::var(self.0[0]);
        let b1 = Expr::var(self.0[1]).times(Expr::constant(256));
        let b2 = Expr::var(self.0[2]).times(Expr::constant(65536));
        let b3 = Expr::var(self.0[3]).times(Expr::constant(16777216));
        b0.plus(b1).plus(b2).plus(b3)
    }

    /// Appends the four limbs to a list of expressions.
    pub fn push_to(&self, values: &mut Vec<Expr>)
        ensures
            final(values)@ == old(values)@ + seq![
                Expr::Var(self.0[0]),
                Expr::Var(self.0[1]),
                Expr::Var(self.0[2]),
                Expr::Var(self.0[3]),
            ],
    {
        values.push(Expr::var(self.0[0]));
        values.push(Expr::var(self.0[1]));
        values.push(Expr::var(self.0[2]));
        values.push(Expr::var(self.0[3]));
        assert(values@ =~= old(values)@ + seq![
            Expr::Var(self.0[0]),
            Expr::Var(self.0[1]),
            Expr::Var(self.0[2]),
            Expr::Var(self.0[3]),
        ]);
    }
}

impl Word<Var> {
    /// The limbs as expressions.
    pub fn exprs(&self) -> (r: Word<Expr>)
        ensures
            r == self.spec_exprs(),
            forall|w: Window| #[trigger] r.values(w) == self.limbs(w),
    {
        let r = Word([Expr::var(self.0[0]), Expr::var(self.0[1]), Expr::var(self.0[2]), Expr::var(self.0[3])]);
        assert forall|w: Window| #[trigger] r.values(w) == self.limbs(w) by {
            assert(r.values(w) =~= self.limbs(w));
        }
        r
    }

    /// The limbs as expressions.
    pub open spec fn spec_exprs(self) -> Word<Expr> {
        Word([Expr::Var(self.0[0]), Expr::Var(self.0[1]), Expr::Var(self.0[2]), Expr::Var(self.0[3])])
    }
}

impl Word<Expr> {
    /// The values of the four limbs on a window.
    pub open spec fn values(self, w: Window) -> Seq<int> {
        seq![self.0[0].value(w), self.0[1].value(w), self.0[2].value(w), self.0[3].value(w)]
    }

    /// The word whose least significant limb is `x` and whose other limbs
    /// are zero.
    pub fn extend(x: Expr) -> (r: Self)
        ensures
            forall|w: Window| #[trigger] r.values(w) == seq![x.value(w), 0, 0, 0],
    {
        let r = Word([x, Expr::zero(), Expr::zero(), Expr::zero()]);
        assert forall|w: Window| #[trigger] r.values(w) == seq![x.value(w), 0, 0, 0] by {
            assert(r.values(w) =~= seq![x.value(w), 0, 0, 0]);
        }
        r
    }

    /// Appends the four limbs to a list of expressions.
    pub fn push_to(&self, values: &mut Vec<Expr>)
        ensures
            final(values)@ == old(values)@ + seq![self.0[0], self.0[1], self.0[2], self.0[3]],
    {
        values.push(self.0[0].clone());
        values.push(self.0[1].clone());
        values.push(self.0[2].clone());
        values.push(self.0[3].clone());
        assert(values@ =~= old(values)@ + seq![self.0[0], self.0[1], self.0[2], self.0[3]]);
    }
}

/// Column `index` of the current row, or of the next row if `next` is set.
pub open spec fn cell(next: bool, index: int) -> Var {
    if next {
        Var::Next(index as usize)
    } else {
        Var::Local(index as usize)
    }
}

/// Column `index` of the current row, or of the next row if `next` is set.
pub fn at_cell(next: bool, index: usize) -> (r: Var)
    ensures
        r == cell(next, index as int),
{
    if next {
        Var::Next(index)
    } else {
        Var::Local(index)
    }
}

impl ConstraintBuilder {
    /// States that `a` and `b` agree limb by limb wherever `cond` is not zero.
    pub fn assert_word_eq_when(&mut self, cond: &Expr, a: &Word<Var>, b: &Word<Var>)
        ensures
            final(self).constraints@.len() == old(self).constraints@.len() + 4,
            final(self).interactions@ == old(self).interactions@,
            forall|w: Window| #[trigger]
                final(self).holds(w) == (old(self).holds(w) && a.eq_when(cond.value(w), *b, w)),
    {
        self.assert_eq_when(cond.clone(), Expr::var(a.0[0]), Expr::var(b.0[0]));
        self.assert_eq_when(cond.clone(), Expr::var(a.0[1]), Expr::var(b.0[1]));
        self.assert_eq_when(cond.clone(), Expr::var(a.0[2]), Expr::var(b.0[2]));
        self.assert_eq_when(cond.clone(), Expr::var(a.0[3]), Expr::var(b.0[3]));
        assert forall|w: Window| #[trigger]
            self.holds(w) == (old(self).holds(w) && a.eq_when(cond.value(w), *b, w)) by {
            let c = cond.value(w);
            assert(a.eq_when(c, *b, w) == (eq_when(c, a.limb(w, 0), b.limb(w, 0)) && eq_when(
                c,
                a.limb(w, 1),
                b.limb(w, 1),
            ) && eq_when(c, a.limb(w, 2), b.limb(w, 2)) && eq_when(c, a.limb(w, 3), b.limb(w, 3))));
        }
    }

    /// States that every limb of `a` is zero wherever `cond` is not zero.
    pub fn assert_word_zero_when(&mut self, cond: &Expr, a: &Word<Var>)
        ensures
            final(self).constraints@.len() == old(self).constraints@.len() + 4,
            final(self).interactions@ == old(self).interactions@,
            forall|w: Window| #[trigger]
                final(self).holds(w) == (old(self).holds(w) && a.zero_when(cond.value(w), w)),
    {
        self.assert_zero_when(cond.clone(), Expr::var(a.0[0]));
        self.assert_zero_when(cond.clone(), Expr::var(a.0[1]));
        self.assert_zero_when(cond.clone(), Expr::var(a.0[2]));
        self.assert_zero_when(cond.clone(), Expr::var(a.0[3]));
        assert forall|w: Window| #[trigger]
            self.holds(w) == (old(self).holds(w) && a.zero_when(cond.value(w), w)) by {
            let c = cond.value(w);
            assert(a.zero_when(c, w) == (zero_when(c, a.limb(w, 0)) && zero_when(c, a.limb(w, 1))
                && zero_when(c, a.limb(w, 2)) && zero_when(c, a.limb(w, 3))));
        }
    }
}

} // verus!
