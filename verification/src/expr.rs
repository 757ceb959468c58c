//! Polynomial expressions over the columns of a two-row window.
//!
//! A constraint of a table is an expression that has to evaluate to zero on
//! every pair of consecutive rows. Expressions are built from constants,
//! columns of the current and of the next row, public values and the three
//! row selectors, with the field operations.

use crate::field::{
    canonical, fadd, fbool, felt_add, felt_mul, felt_sub, fmul, fsub, lemma_field_ops_canonical,
    modulus, MODULUS,
};
use vstd::prelude::*;

verus! {

/// A variable of a constraint: one cell of the window that a constraint sees.
#[derive(Clone, Copy, Debug, PartialEq, Eq, Structural)]
pub enum Var {
    /// A column of the current row.
    Local(usize),
    /// A column of the next row.
    Next(usize),
    /// An entry of the public values.
    Public(usize),
    /// One on the first row of the table, zero elsewhere.
    IsFirstRow,
    /// One on the last row of the table, zero elsewhere.
    IsLastRow,
    /// One on every row but the last, zero on the last.
    IsTransition,
}

/// The values that the constraints of one row are evaluated on: the row, its
/// successor, the public values and the position of the row in the table.
pub struct Window {
    pub local: Seq<u32>,
    pub next: Seq<u32>,
    pub public_values: Seq<u32>,
    pub is_first_row: bool,
    pub is_last_row: bool,
    pub is_transition: bool,
}

impl Window {
    /// The value of a variable. A column that the window does not have reads
    /// as zero.
    pub open spec fn var(self, v: Var) -> int {
        match v {
            Var::Local(i) => if i < self.local.len() { self.local[i as int] as int } else { 0 },
            Var::Next(i) => if i < self.next.len() { self.next[i as int] as int } else { 0 },
            Var::Public(i) => if i < self.public_values.len() {
                self.public_values[i as int] as int
            } else {
                0
            },
            Var::IsFirstRow => fbool(self.is_first_row),
            Var::IsLastRow => fbool(self.is_last_row),
            Var::IsTransition => fbool(self.is_transition),
        }
    }

    /// Every cell holds a canonical field element.
    pub open spec fn wf(self) -> bool {
        &&& all_canonical(self.local)
        &&& all_canonical(self.next)
        &&& all_canonical(self.public_values)
    }
}

/// The executable form of a [`Window`].
#[derive(Clone, Debug)]
pub struct RowWindow {
    pub local: Vec<u32>,
    pub next: Vec<u32>,
    pub public_values: Vec<u32>,
    pub is_first_row: bool,
    pub is_last_row: bool,
    pub is_transition: bool,
}

impl View for RowWindow {
    type V = Window;

    open spec fn view(&self) -> Window {
        Window {
            local: self.local@,
            next: self.next@,
            public_values: self.public_values@,
            is_first_row: self.is_first_row,
            is_last_row: self.is_last_row,
            is_transition: self.is_transition,
        }
    }
}

/// Whether every element of `values` is a canonical field element.
pub open spec fn all_canonical(values: Seq<u32>) -> bool {
    forall|i: int| 0 <= i < values.len() ==> canonical(#[trigger] values[i] as int)
}

/// Decides [`all_canonical`].
pub fn check_all_canonical(values: &Vec<u32>) -> (r: bool)
    ensures
        r == all_canonical(values@),
{
    let mut i: usize = 0;
    while i < values.len()
        invariant
            i <= values.len(),
            forall|j: int| 0 <= j < i ==> canonical(#[trigger] values@[j] as int),
        decreases values.len() - i,
    {
        if values[i] >= MODULUS {
            return false;
        }
        i += 1;
    }
    true
}

impl RowWindow {
    /// Decides whether every cell of the window is a canonical field element.
    pub fn is_well_formed(&self) -> (r: bool)
        ensures
            r == self@.wf(),
    {
        check_all_canonical(&self.local) && check_all_canonical(&self.next) && check_all_canonical(
            &self.public_values,
        )
    }

    /// Reads a variable.
    pub fn var(&self, v: Var) -> (r: u32)
        ensures
            r as int == self@.var(v),
    {
        match v {
            Var::Local(i) => if i < self.local.len() { self.local[i] } else { 0 },
            Var::Next(i) => if i < self.next.len() { self.next[i] } else { 0 },
            Var::Public(i) => if i < self.public_values.len() { self.public_values[i] } else { 0 },
            Var::IsFirstRow => if self.is_first_row { 1 } else { 0 },
            Var::IsLastRow => if self.is_last_row { 1 } else { 0 },
            Var::IsTransition => if self.is_transition { 1 } else { 0 },
        }
    }
}

/// A polynomial over the variables of a window.
#[derive(Debug, PartialEq, Eq)]
pub enum Expr {
    /// A constant. A value that is not canonical stands for its residue.
    Const(u32),
    Var(Var),
    Add(Box<Expr>, Box<Expr>),
    Sub(Box<Expr>, Box<Expr>),
    Mul(Box<Expr>, Box<Expr>),
}

impl Expr {
    /// The field element that the expression evaluates to on a window.
    pub open spec fn value(self, w: Window) -> int
        decreases self,
    {
        match self {
            Expr::Const(c) => (c as int) % modulus(),
            Expr::Var(v) => w.var(v),
            Expr::Add(a, b) => fadd(a.value(w), b.value(w)),
            Expr::Sub(a, b) => fsub(a.value(w), b.value(w)),
            Expr::Mul(a, b) => fmul(a.value(w), b.value(w)),
        }
    }

    /// On a well-formed window every expression evaluates to a canonical
    /// field element.
    pub proof fn lemma_value_canonical(self, w: Window)
        requires
            w.wf(),
        ensures
            canonical(self.value(w)),
        decreases self,
    {
        match self {
            Expr::Const(_) => {},
            Expr::Var(v) => {},
            Expr::Add(a, b) => {
                lemma_field_ops_canonical(a.value(w), b.value(w));
            },
            Expr::Sub(a, b) => {
                lemma_field_ops_canonical(a.value(w), b.value(w));
            },
            Expr::Mul(a, b) => {
                lemma_field_ops_canonical(a.value(w), b.value(w));
            },
        }
    }

    /// Evaluates the expression on a window.
    pub fn evaluate(&self, w: &RowWindow) -> (r: u32)
        requires
            w@.wf(),
        ensures
            r as int == self.value(w@),
            canonical(r as int),
        decreases self,
    {
        match self {
            Expr::Const(c) => *c % MODULUS,
            Expr::Var(v) => w.var(*v),
            Expr::Add(a, b) => {
                proof {
                    lemma_field_ops_canonical(a.value(w@), b.value(w@));
                }
                felt_add(a.evaluate(w), b.evaluate(w))
            },
            Expr::Sub(a, b) => {
                proof {
                    lemma_field_ops_canonical(a.value(w@), b.value(w@));
                }
                felt_sub(a.evaluate(w), b.evaluate(w))
            },
            Expr::Mul(a, b) => {
                proof {
                    lemma_field_ops_canonical(a.value(w@), b.value(w@));
                }
                felt_mul(a.evaluate(w), b.evaluate(w))
            },
        }
    }

    /// The constant `c`.
    pub fn constant(c: u32) -> (r: Expr)
        ensures
            r == Expr::Const(c),
            forall|w: Window| #[trigger] r.value(w) == (c as int) % modulus(),
    {
        Expr::Const(c)
    }

    /// The constant zero.
    pub fn zero() -> (r: Expr)
        ensures
            r == Expr::Const(0),
            forall|w: Window| #[trigger] r.value(w) == 0,
    {
        Expr::Const(0)
    }

    /// The constant one.
    pub fn one() -> (r: Expr)
        ensures
            r == Expr::Const(1),
            forall|w: Window| #[trigger] r.value(w) == 1,
    {
        Expr::Const(1)
    }

    /// The variable `v`.
    pub fn var(v: Var) -> (r: Expr)
        ensures
            r == Expr::Var(v),
            forall|w: Window| #[trigger] r.value(w) == w.var(v),
    {
        Expr::Var(v)
    }

    /// `self + rhs`.
    pub fn plus(self, rhs: Expr) -> (r: Expr)
        ensures
            r == Expr::Add(Box::new(self), Box::new(rhs)),
            forall|w: Window| #[trigger] r.value(w) == fadd(self.value(w), rhs.value(w)),
    {
        Expr::Add(Box::new(self), Box::new(rhs))
    }

    /// `self - rhs`.
    pub fn minus(self, rhs: Expr) -> (r: Expr)
        ensures
            r == Expr::Sub(Box::new(self), Box::new(rhs)),
            forall|w: Window| #[trigger] r.value(w) == fsub(self.value(w), rhs.value(w)),
    {
        Expr::Sub(Box::new(self), Box::new(rhs))
    }

    /// `self * rhs`.
    pub fn times(self, rhs: Expr) -> (r: Expr)
        ensures
            r == Expr::Mul(Box::new(self), Box::new(rhs)),
            forall|w: Window| #[trigger] r.value(w) == fmul(self.value(w), rhs.value(w)),
    {
        Expr::Mul(Box::new(self), Box::new(rhs))
    }
}

impl Clone for Expr {
    fn clone(&self) -> (r: Self)
        ensures
            r == *self,
        decreases self,
    {
        match self {
            Expr::Const(c) => Expr::Const(*c),
            Expr::Var(v) => Expr::Var(*v),
            Expr::Add(a, b) => Expr::Add(Box::new((**a).clone()), Box::new((**b).clone())),
            Expr::Sub(a, b) => Expr::Sub(Box::new((**a).clone()), Box::new((**b).clone())),
            Expr::Mul(a, b) => Expr::Mul(Box::new((**a).clone()), Box::new((**b).clone())),
        }
    }
}

} // verus!
