//! The opcodes that interaction tuples carry.

use vstd::prelude::*;

verus! {

/// The operations of the machine. The arithmetic and logic operations are
/// also what the ALU tables check.
#[derive(Clone, Copy, Debug, PartialEq, Eq, Structural, Hash)]
pub enum Opcode {
    ADD,
    SUB,
    XOR,
    OR,
    AND,
    SLL,
    SRL,
    SRA,
    SLT,
    SLTU,
    LB,
    LH,
    LW,
    LBU,
    LHU,
    SB,
    SH,
    SW,
    BEQ,
    BNE,
    BLT,
    BGE,
    BLTU,
    BGEU,
    JAL,
    JALR,
    AUIPC,
    ECALL,
    EBREAK,
    MUL,
    MULH,
    MULHU,
    MULHSU,
    DIV,
    DIVU,
    REM,
    REMU,
    UNIMP,
}

impl Opcode {
    /// The field element that stands for the opcode in a tuple.
    pub open spec fn spec_code(self) -> int {
        match self {
            Opcode::ADD => 0,
            Opcode::SUB => 1,
            Opcode::XOR => 2,
            Opcode::OR => 3,
            Opcode::AND => 4,
            Opcode::SLL => 5,
            Opcode::SRL => 6,
            Opcode::SRA => 7,
            Opcode::SLT => 8,
            Opcode::SLTU => 9,
            Opcode::LB => 10,
            Opcode::LH => 11,
            Opcode::LW => 12,
            Opcode::LBU => 13,
            Opcode::LHU => 14,
            Opcode::SB => 15,
            Opcode::SH => 16,
            Opcode::SW => 17,
            Opcode::BEQ => 18,
            Opcode::BNE => 19,
            Opcode::BLT => 20,
            Opcode::BGE => 21,
            Opcode::BLTU => 22,
            Opcode::BGEU => 23,
            Opcode::JAL => 24,
            Opcode::JALR => 25,
            Opcode::AUIPC => 27,
            Opcode::ECALL => 28,
            Opcode::EBREAK => 29,
            Opcode::MUL => 30,
            Opcode::MULH => 31,
            Opcode::MULHU => 32,
            Opcode::MULHSU => 33,
            Opcode::DIV => 34,
            Opcode::DIVU => 35,
            Opcode::REM => 36,
            Opcode::REMU => 37,
            Opcode::UNIMP => 39,
        }
    }

    /// The field element that stands for the opcode in a tuple.
    pub fn code(&self) -> (r: u32)
        ensures
            r as int == self.spec_code(),
    {
        match self {
            Opcode::ADD => 0,
            Opcode::SUB => 1,
            Opcode::XOR => 2,
            Opcode::OR => 3,
            Opcode::AND => 4,
            Opcode::SLL => 5,
            Opcode::SRL => 6,
            Opcode::SRA => 7,
            Opcode::SLT => 8,
            Opcode::SLTU => 9,
            Opcode::LB => 10,
            Opcode::LH => 11,
            Opcode::LW => 12,
            Opcode::LBU => 13,
            Opcode::LHU => 14,
            Opcode::SB => 15,
            Opcode::SH => 16,
            Opcode::SW => 17,
            Opcode::BEQ => 18,
            Opcode::BNE => 19,
            Opcode::BLT => 20,
            Opcode::BGE => 21,
            Opcode::BLTU => 22,
            Opcode::BGEU => 23,
            Opcode::JAL => 24,
            Opcode::JALR => 25,
            Opcode::AUIPC => 27,
            Opcode::ECALL => 28,
            Opcode::EBREAK => 29,
            Opcode::MUL => 30,
            Opcode::MULH => 31,
            Opcode::MULHU => 32,
            Opcode::MULHSU => 33,
            Opcode::DIV => 34,
            Opcode::DIVU => 35,
            Opcode::REM => 36,
            Opcode::REMU => 37,
            Opcode::UNIMP => 39,
        }
    }

    /// Whether an ALU table checks the operation.
    pub open spec fn spec_is_alu(self) -> bool {
        match self {
            Opcode::ADD
            | Opcode::SUB
            | Opcode::XOR
            | Opcode::OR
            | Opcode::AND
            | Opcode::SLL
            | Opcode::SRL
            | Opcode::SRA
            | Opcode::SLT
            | Opcode::SLTU
            | Opcode::MUL
            | Opcode::MULH
            | Opcode::MULHU
            | Opcode::MULHSU
            | Opcode::DIV
            | Opcode::DIVU
            | Opcode::REM
            | Opcode::REMU => true,
            _ => false,
        }
    }

    /// Whether an ALU table checks the operation.
    pub fn is_alu(&self) -> (r: bool)
        ensures
            r == self.spec_is_alu(),
    {
        match self {
            Opcode::ADD
            | Opcode::SUB
            | Opcode::XOR
            | Opcode::OR
            | Opcode::AND
            | Opcode::SLL
            | Opcode::SRL
            | Opcode::SRA
            | Opcode::SLT
            | Opcode::SLTU
            | Opcode::MUL
            | Opcode::MULH
            | Opcode::MULHU
            | Opcode::MULHSU
            | Opcode::DIV
            | Opcode::DIVU
            | Opcode::REM
            | Opcode::REMU => true,
            _ => false,
        }
    }
}

/// The operations that the byte table checks.
#[derive(Clone, Copy, Debug, PartialEq, Eq, Structural, Hash)]
pub enum ByteOpcode {
    AND,
    OR,
    XOR,
    SLL,
    ShrCarry,
    LTU,
    MSB,
    /// The operand is below `2^8`.
    U8Range,
    /// The operand is below `2^16`.
    U16Range,
}

impl ByteOpcode {
    /// The field element that stands for the opcode in a tuple.
    pub open spec fn spec_code(self) -> int {
        match self {
            ByteOpcode::AND => 0,
            ByteOpcode::OR => 1,
            ByteOpcode::XOR => 2,
            ByteOpcode::SLL => 3,
            ByteOpcode::ShrCarry => 4,
            ByteOpcode::LTU => 5,
            ByteOpcode::MSB => 6,
            ByteOpcode::U8Range => 7,
            ByteOpcode::U16Range => 8,
        }
    }

    /// The field element that stands for the opcode in a tuple.
    pub fn code(&self) -> (r: u32)
        ensures
            r as int == self.spec_code(),
    {
        match self {
            ByteOpcode::AND => 0,
            ByteOpcode::OR => 1,
            ByteOpcode::XOR => 2,
            ByteOpcode::SLL => 3,
            ByteOpcode::ShrCarry => 4,
            ByteOpcode::LTU => 5,
            ByteOpcode::MSB => 6,
            ByteOpcode::U8Range => 7,
            ByteOpcode::U16Range => 8,
        }
    }
}

/// The system calls that the CPU treats itself.
#[derive(Clone, Copy, Debug, PartialEq, Eq, Structural, Hash)]
pub enum SyscallCode {
    /// Ends the program with the exit code in the second operand.
    Halt,
    /// Commits one word of the public values digest.
    Commit,
    /// Commits one word of the deferred proofs digest.
    CommitDeferredProofs,
}

impl SyscallCode {
    /// The identifier of the system call: the least significant byte of the
    /// code that the program passes.
    pub open spec fn spec_syscall_id(self) -> int {
        match self {
            SyscallCode::Halt => 0,
            SyscallCode::Commit => 16,
            SyscallCode::CommitDeferredProofs => 26,
        }
    }

    /// The identifier of the system call.
    pub fn syscall_id(&self) -> (r: u32)
        ensures
            r as int == self.spec_syscall_id(),
    {
        match self {
            SyscallCode::Halt => 0,
            SyscallCode::Commit => 16,
            SyscallCode::CommitDeferredProofs => 26,
        }
    }
}

} // verus!
