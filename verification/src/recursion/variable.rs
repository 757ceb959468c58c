//! Variables and expressions of a program under construction.

use vstd::prelude::*;

verus! {

/// A program under construction.
pub trait BaseBuilder {

}

/// A value that a program holds in a place of its own.
pub trait Variable<B: BaseBuilder>: Copy {
    /// A fresh variable without a value.
    fn uninit(builder: &mut B) -> Self;
}

/// A variable that can be given a constant.
pub trait FromConstant<B: BaseBuilder>: Variable<B> {
    type Constant: Sized;

    /// Adds to the program the instruction that sets the variable to
    /// `constant`.
    fn imm(&self, constant: Self::Constant, builder: &mut B);
}

/// Something that a program can compute into a variable.
pub trait Expression<B: BaseBuilder> {
    type Value: Variable<B>;

    /// Adds to the program the instructions that compute the expression
    /// into `dst`.
    fn assign(&self, dst: Self::Value, builder: &mut B);
}

/// A variable that takes a known number of memory cells.
pub trait SizedVariable<B: BaseBuilder>: Variable<B> {
    /// The number of memory cells that the variable takes.
    fn size_of() -> usize;
}

} // verus!
