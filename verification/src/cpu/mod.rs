//! The CPU table and the opcode-specific table that it hands rows to.

pub mod air;
pub mod channel;
pub mod channel_laws;
pub mod columns;
pub mod laws;
pub mod opcode_air;
pub mod opcode_cols;
pub mod trace_laws;

pub use air::CpuChip;
pub use opcode_air::CpuOpcodeSpecificChip;
