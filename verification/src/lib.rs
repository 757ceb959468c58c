//! Arithmetization core of a RISC-V zero-knowledge virtual machine.
//!
//! The crate states the row-level constraints of the CPU table, of the
//! opcode-specific table and of the local memory tables as data: polynomial
//! expressions over the columns of a two-row window, and tagged interaction
//! tuples that the tables exchange. Every table comes with a contract that
//! says which windows satisfy its constraints and which messages it puts on
//! the bus, and with proofs of what the constraints enforce.
//!
//! - [`field`] and [`prime`]: the Baby Bear field, and the proof that its
//!   order is prime.
//! - [`expr`], [`builder`], [`interaction`]: expressions, the constraint
//!   builder, and interactions.
//! - [`bus`]: the balance of the interaction bus.
//! - [`cpu`]: the CPU table and the opcode-specific table.
//! - [`memory`]: the local memory tables.
//! - [`program`]: the program table.
//! - [`trace`]: traces as matrices, and the check of a whole trace.
//! - [`sdk`], [`recursion`]: the choices of a client of the prover, and the
//!   interface of the recursion compiler.

pub mod air_builder;
pub mod builder;
pub mod bus;
pub mod cpu;
pub mod expr;
pub mod field;
pub mod interaction;
pub mod memory;
pub mod opcode;
pub mod operations;
pub mod prime;
pub mod prime_powers;
pub mod program;
pub mod public_values;
pub mod recursion;
pub mod sdk;
pub mod trace;
pub mod word;

pub use builder::ConstraintBuilder;
pub use cpu::{CpuChip, CpuOpcodeSpecificChip};
pub use expr::{Expr, RowWindow, Var, Window};
pub use interaction::{AirInteraction, BusMessage, InteractionKind, InteractionScope};
pub use memory::local::{MemoryLocalChip, MemoryLocalEvent, MemoryLocalInitCols};
pub use memory::{MemoryChipType, MemoryRecord};
pub use sdk::{LocalProverBuilder, Mode};
