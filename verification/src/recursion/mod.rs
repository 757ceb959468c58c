//! The interface between the recursion compiler and the values that its
//! programs work on.

pub mod variable;

pub use variable::{BaseBuilder, Expression, FromConstant, SizedVariable, Variable};
