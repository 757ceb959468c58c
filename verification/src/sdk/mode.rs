//! The kinds of work that a prover can be asked for.

use vstd::prelude::*;

verus! {

/// What a prover is asked to produce.
#[derive(Debug, Clone, Copy, PartialEq, Eq, Structural)]
pub enum Mode {
    /// Run the program, prove nothing.
    Execute,
    /// One proof per shard.
    Core,
    /// One proof of constant size.
    Compressed,
    /// A PLONK proof over BN254.
    Plonk,
    /// A Groth16 proof over BN254.
    Groth16,
}

impl Default for Mode {
    fn default() -> (r: Self)
        ensures
            r == Mode::Groth16,
    {
        Self::Groth16
    }
}

} // verus!
