//! The memory tables.

pub mod laws;
pub mod local;

use vstd::prelude::*;

verus! {

/// The two roles of a memory table: to state what every touched cell held
/// before the shard, or what it holds after it.
#[derive(Clone, Copy, Debug, PartialEq, Eq, Structural)]
pub enum MemoryChipType {
    Initialize,
    Finalize,
}

/// The state of a memory cell: the time of its last access, and its value.
#[derive(Clone, Copy, Debug, PartialEq, Eq, Structural)]
pub struct MemoryRecord {
    /// The shard of the last access.
    pub shard: u32,
    /// The clock of the last access.
    pub clk: u32,
    /// The value that the last access left.
    pub value: u32,
}

} // verus!
