//! The columns of the CPU table.

use crate::expr::{Expr, Var, Window};
use crate::field::fadd;
use crate::word::{at_cell, cell, Word};
use vstd::prelude::*;

verus! {

/// The number of channels that the interactions of consecutive rows are
/// spread over.
pub const NUM_CHANNELS: usize = 16;

/// The number of columns of the CPU table.
pub const NUM_CPU_COLS: usize = 90;

/// The number of selectors in the selector block.
pub const NUM_OPCODE_SELECTORS: usize = 22;

/// The instruction that a row executes, as the program table holds it.
#[derive(Clone, Copy, Debug, PartialEq, Eq)]
pub struct InstructionCols<T> {
    /// The opcode.
    pub opcode: T,
    /// The first operand: the destination register, or for stores and
    /// branches a source register.
    pub op_a: T,
    /// The second operand: a register, or an immediate if `imm_b` is set.
    pub op_b: Word<T>,
    /// The third operand: a register, or an immediate if `imm_c` is set.
    pub op_c: Word<T>,
    /// Whether the first operand is register zero, whose value is never
    /// used and never changes.
    pub op_a_0: T,
}

/// The selector block: one flag per instruction class, and the two flags
/// that say whether the second and third operands are immediates.
///
/// On a real row exactly one of the class flags is set. On a padding row the
/// class flags are zero and the two immediate flags are one.
#[derive(Clone, Copy, Debug, PartialEq, Eq)]
pub struct OpcodeSelectorCols<T> {
    pub imm_b: T,
    pub imm_c: T,
    pub is_alu: T,
    pub is_ecall: T,
    pub is_lb: T,
    pub is_lbu: T,
    pub is_lh: T,
    pub is_lhu: T,
    pub is_lw: T,
    pub is_sb: T,
    pub is_sh: T,
    pub is_sw: T,
    pub is_beq: T,
    pub is_bne: T,
    pub is_blt: T,
    pub is_bge: T,
    pub is_bltu: T,
    pub is_bgeu: T,
    pub is_jalr: T,
    pub is_jal: T,
    pub is_auipc: T,
    pub is_unimpl: T,
}

/// One access to a register or memory cell: the value after the access, the
/// time of the previous access, and the witnesses that the previous access
/// is earlier than this one.
#[derive(Clone, Copy, Debug, PartialEq, Eq)]
pub struct MemoryAccessCols<T> {
    /// The value of the cell after the access.
    pub value: Word<T>,
    /// The shard of the previous access.
    pub prev_shard: T,
    /// The clock of the previous access.
    pub prev_clk: T,
    /// Whether the previous access is in the same shard, so that clocks are
    /// compared; otherwise shards are.
    pub compare_clk: T,
    /// The low 16 bits of the distance to the previous access, minus one.
    pub diff_16bit_limb: T,
    /// The high 8 bits of the distance to the previous access, minus one.
    pub diff_8bit_limb: T,
}

/// A read: the value is the one that the previous access left.
#[derive(Clone, Copy, Debug, PartialEq, Eq)]
pub struct MemoryReadCols<T> {
    pub access: MemoryAccessCols<T>,
}

/// A read followed by a write: the value before and the access that leaves
/// the new value.
#[derive(Clone, Copy, Debug, PartialEq, Eq)]
pub struct MemoryReadWriteCols<T> {
    pub prev_value: Word<T>,
    pub access: MemoryAccessCols<T>,
}

/// One flag per channel; the flag of the row's channel is set.
#[derive(Clone, Copy, Debug, PartialEq, Eq)]
pub struct ChannelSelectorCols<T> {
    pub channel_selectors: [T; 16],
}

/// One row of the CPU table: one executed cycle.
#[derive(Clone, Copy, Debug, PartialEq, Eq)]
pub struct CpuCols<T> {
    /// The shard that the row belongs to.
    pub shard: T,
    /// The channel that the row's interactions go through.
    pub channel: T,
    /// Distinguishes the row's ALU interaction from all others.
    pub nonce: T,
    /// The clock at the start of the cycle.
    pub clk: T,
    /// The low 16 bits of the clock.
    pub clk_16bit_limb: T,
    /// The high 8 bits of the clock.
    pub clk_8bit_limb: T,
    /// The program counter.
    pub pc: T,
    /// The program counter after the cycle.
    pub next_pc: T,
    /// The instruction at `pc`.
    pub instruction: InstructionCols<T>,
    /// The channel as one flag per channel.
    pub channel_selectors: ChannelSelectorCols<T>,
    /// The class of the instruction.
    pub selectors: OpcodeSelectorCols<T>,
    /// The access to the first operand.
    pub op_a_access: MemoryReadWriteCols<T>,
    /// The access to the second operand.
    pub op_b_access: MemoryReadCols<T>,
    /// The access to the third operand.
    pub op_c_access: MemoryReadCols<T>,
    /// Whether the row halts the program.
    pub is_halt: T,
    /// Whether the row is an executed cycle, rather than padding.
    pub is_real: T,
}

impl InstructionCols<Var> {
    /// The instruction columns that start at column `base` of the current or of the next row.
    pub open spec fn spec_at(next: bool, base: int) -> InstructionCols<Var> {
        InstructionCols {
            opcode: cell(next, base),
            op_a: cell(next, base + 1),
            op_b: Word::<Var>::spec_at(next, base + 2),
            op_c: Word::<Var>::spec_at(next, base + 6),
            op_a_0: cell(next, base + 10),
        }
    }

    /// The instruction columns that start at column `base` of the current or of the next row.
    pub fn at(next: bool, base: usize) -> (r: Self)
        requires
            base + 11 <= usize::MAX,
        ensures
            r == Self::spec_at(next, base as int),
    {
        InstructionCols {
            opcode: at_cell(next, base),
            op_a: at_cell(next, base + 1),
            op_b: Word::<Var>::at(next, base + 2),
            op_c: Word::<Var>::at(next, base + 6),
            op_a_0: at_cell(next, base + 10),
        }
    }
}

impl OpcodeSelectorCols<Var> {
    /// The selector block that starts at column `base` of the current or of the next row.
    pub open spec fn spec_at(next: bool, base: int) -> OpcodeSelectorCols<Var> {
        OpcodeSelectorCols {
            imm_b: cell(next, base),
            imm_c: cell(next, base + 1),
            is_alu: cell(next, base + 2),
            is_ecall: cell(next, base + 3),
            is_lb: cell(next, base + 4),
            is_lbu: cell(next, base + 5),
            is_lh: cell(next, base + 6),
            is_lhu: cell(next, base + 7),
            is_lw: cell(next, base + 8),
            is_sb: cell(next, base + 9),
            is_sh: cell(next, base + 10),
            is_sw: cell(next, base + 11),
            is_beq: cell(next, base + 12),
            is_bne: cell(next, base + 13),
            is_blt: cell(next, base + 14),
            is_bge: cell(next, base + 15),
            is_bltu: cell(next, base + 16),
            is_bgeu: cell(next, base + 17),
            is_jalr: cell(next, base + 18),
            is_jal: cell(next, base + 19),
            is_auipc: cell(next, base + 20),
            is_unimpl: cell(next, base + 21),
        }
    }

    /// The selector block that starts at column `base` of the current or of the next row.
    pub fn at(next: bool, base: usize) -> (r: Self)
        requires
            base + 22 <= usize::MAX,
        ensures
            r == Self::spec_at(next, base as int),
    {
        OpcodeSelectorCols {
            imm_b: at_cell(next, base),
            imm_c: at_cell(next, base + 1),
            is_alu: at_cell(next, base + 2),
            is_ecall: at_cell(next, base + 3),
            is_lb: at_cell(next, base + 4),
            is_lbu: at_cell(next, base + 5),
            is_lh: at_cell(next, base + 6),
            is_lhu: at_cell(next, base + 7),
            is_lw: at_cell(next, base + 8),
            is_sb: at_cell(next, base + 9),
            is_sh: at_cell(next, base + 10),
            is_sw: at_cell(next, base + 11),
            is_beq: at_cell(next, base + 12),
            is_bne: at_cell(next, base + 13),
            is_blt: at_cell(next, base + 14),
            is_bge: at_cell(next, base + 15),
            is_bltu: at_cell(next, base + 16),
            is_bgeu: at_cell(next, base + 17),
            is_jalr: at_cell(next, base + 18),
            is_jal: at_cell(next, base + 19),
            is_auipc: at_cell(next, base + 20),
            is_unimpl: at_cell(next, base + 21),
        }
    }
}

impl MemoryAccessCols<Var> {
    /// The access columns that start at column `base` of the current or of the next row.
    pub open spec fn spec_at(next: bool, base: int) -> MemoryAccessCols<Var> {
        MemoryAccessCols {
            value: Word::<Var>::spec_at(next, base),
            prev_shard: cell(next, base + 4),
            prev_clk: cell(next, base + 5),
            compare_clk: cell(next, base + 6),
            diff_16bit_limb: cell(next, base + 7),
            diff_8bit_limb: cell(next, base + 8),
        }
    }

    /// The access columns that start at column `base` of the current or of the next row.
    pub fn at(next: bool, base: usize) -> (r: Self)
        requires
            base + 9 <= usize::MAX,
        ensures
            r == Self::spec_at(next, base as int),
    {
        MemoryAccessCols {
            value: Word::<Var>::at(next, base),
            prev_shard: at_cell(next, base + 4),
            prev_clk: at_cell(next, base + 5),
            compare_clk: at_cell(next, base + 6),
            diff_16bit_limb: at_cell(next, base + 7),
            diff_8bit_limb: at_cell(next, base + 8),
        }
    }
}

impl MemoryReadCols<Var> {
    /// The read columns that start at column `base` of the current or of the next row.
    pub open spec fn spec_at(next: bool, base: int) -> MemoryReadCols<Var> {
        MemoryReadCols {
            access: MemoryAccessCols::<Var>::spec_at(next, base),
        }
    }

    /// The read columns that start at column `base` of the current or of the next row.
    pub fn at(next: bool, base: usize) -> (r: Self)
        requires
            base + 9 <= usize::MAX,
        ensures
            r == Self::spec_at(next, base as int),
    {
        MemoryReadCols {
            access: MemoryAccessCols::<Var>::at(next, base),
        }
    }
}

impl MemoryReadWriteCols<Var> {
    /// The read-write columns that start at column `base` of the current or of the next row.
    pub open spec fn spec_at(next: bool, base: int) -> MemoryReadWriteCols<Var> {
        MemoryReadWriteCols {
            prev_value: Word::<Var>::spec_at(next, base),
            access: MemoryAccessCols::<Var>::spec_at(next, base + 4),
        }
    }

    /// The read-write columns that start at column `base` of the current or of the next row.
    pub fn at(next: bool, base: usize) -> (r: Self)
        requires
            base + 13 <= usize::MAX,
        ensures
            r == Self::spec_at(next, base as int),
    {
        MemoryReadWriteCols {
            prev_value: Word::<Var>::at(next, base),
            access: MemoryAccessCols::<Var>::at(next, base + 4),
        }
    }
}

impl ChannelSelectorCols<Var> {
    /// The channel selectors that start at column `base` of the current or of the next row.
    pub open spec fn spec_at(next: bool, base: int) -> ChannelSelectorCols<Var> {
        ChannelSelectorCols {
            channel_selectors: [
                cell(next, base),
                cell(next, base + 1),
                cell(next, base + 2),
                cell(next, base + 3),
                cell(next, base + 4),
                cell(next, base + 5),
                cell(next, base + 6),
                cell(next, base + 7),
                cell(next, base + 8),
                cell(next, base + 9),
                cell(next, base + 10),
                cell(next, base + 11),
                cell(next, base + 12),
                cell(next, base + 13),
                cell(next, base + 14),
                cell(next, base + 15),
            ],
        }
    }

    /// The channel selectors that start at column `base` of the current or of the next row.
    pub fn at(next: bool, base: usize) -> (r: Self)
        requires
            base + 16 <= usize::MAX,
        ensures
            r == Self::spec_at(next, base as int),
    {
        ChannelSelectorCols {
            channel_selectors: [
                at_cell(next, base),
                at_cell(next, base + 1),
                at_cell(next, base + 2),
                at_cell(next, base + 3),
                at_cell(next, base + 4),
                at_cell(next, base + 5),
                at_cell(next, base + 6),
                at_cell(next, base + 7),
                at_cell(next, base + 8),
                at_cell(next, base + 9),
                at_cell(next, base + 10),
                at_cell(next, base + 11),
                at_cell(next, base + 12),
                at_cell(next, base + 13),
                at_cell(next, base + 14),
                at_cell(next, base + 15),
            ],
        }
    }
}

impl CpuCols<Var> {
    /// The columns of the current or of the next row of the CPU table, the first of them at column `base`.
    pub open spec fn spec_at(next: bool, base: int) -> CpuCols<Var> {
        CpuCols {
            shard: cell(next, base),
            channel: cell(next, base + 1),
            nonce: cell(next, base + 2),
            clk: cell(next, base + 3),
            clk_16bit_limb: cell(next, base + 4),
            clk_8bit_limb: cell(next, base + 5),
            pc: cell(next, base + 6),
            next_pc: cell(next, base + 7),
            instruction: InstructionCols::<Var>::spec_at(next, base + 8),
            channel_selectors: ChannelSelectorCols::<Var>::spec_at(next, base + 19),
            selectors: OpcodeSelectorCols::<Var>::spec_at(next, base + 35),
            op_a_access: MemoryReadWriteCols::<Var>::spec_at(next, base + 57),
            op_b_access: MemoryReadCols::<Var>::spec_at(next, base + 70),
            op_c_access: MemoryReadCols::<Var>::spec_at(next, base + 79),
            is_halt: cell(next, base + 88),
            is_real: cell(next, base + 89),
        }
    }

    /// The columns of the current or of the next row of the CPU table, the first of them at column `base`.
    pub fn at(next: bool, base: usize) -> (r: Self)
        requires
            base + 90 <= usize::MAX,
        ensures
            r == Self::spec_at(next, base as int),
    {
        CpuCols {
            shard: at_cell(next, base),
            channel: at_cell(next, base + 1),
            nonce: at_cell(next, base + 2),
            clk: at_cell(next, base + 3),
            clk_16bit_limb: at_cell(next, base + 4),
            clk_8bit_limb: at_cell(next, base + 5),
            pc: at_cell(next, base + 6),
            next_pc: at_cell(next, base + 7),
            instruction: InstructionCols::<Var>::at(next, base + 8),
            channel_selectors: ChannelSelectorCols::<Var>::at(next, base + 19),
            selectors: OpcodeSelectorCols::<Var>::at(next, base + 35),
            op_a_access: MemoryReadWriteCols::<Var>::at(next, base + 57),
            op_b_access: MemoryReadCols::<Var>::at(next, base + 70),
            op_c_access: MemoryReadCols::<Var>::at(next, base + 79),
            is_halt: at_cell(next, base + 88),
            is_real: at_cell(next, base + 89),
        }
    }
}

impl<T: Copy> OpcodeSelectorCols<T> {
    /// The selectors in column order.
    pub open spec fn spec_to_array(self) -> [T; 22] {
        [
            self.imm_b,
            self.imm_c,
            self.is_alu,
            self.is_ecall,
            self.is_lb,
            self.is_lbu,
            self.is_lh,
            self.is_lhu,
            self.is_lw,
            self.is_sb,
            self.is_sh,
            self.is_sw,
            self.is_beq,
            self.is_bne,
            self.is_blt,
            self.is_bge,
            self.is_bltu,
            self.is_bgeu,
            self.is_jalr,
            self.is_jal,
            self.is_auipc,
            self.is_unimpl,
        ]
    }

    /// The selectors in column order.
    pub fn to_array(&self) -> (r: [T; 22])
        ensures
            r == self.spec_to_array(),
    {
        [
            self.imm_b,
            self.imm_c,
            self.is_alu,
            self.is_ecall,
            self.is_lb,
            self.is_lbu,
            self.is_lh,
            self.is_lhu,
            self.is_lw,
            self.is_sb,
            self.is_sh,
            self.is_sw,
            self.is_beq,
            self.is_bne,
            self.is_blt,
            self.is_bge,
            self.is_bltu,
            self.is_bgeu,
            self.is_jalr,
            self.is_jal,
            self.is_auipc,
            self.is_unimpl,
        ]
    }
}

impl OpcodeSelectorCols<Var> {
    /// The sum of the load selectors on a window.
    pub open spec fn load(self, w: Window) -> int {
        fadd(
            fadd(fadd(fadd(w.var(self.is_lb), w.var(self.is_lbu)), w.var(self.is_lh)), w.var(self.is_lhu)),
            w.var(self.is_lw),
        )
    }

    /// The sum of the store selectors on a window.
    pub open spec fn store(self, w: Window) -> int {
        fadd(fadd(w.var(self.is_sb), w.var(self.is_sh)), w.var(self.is_sw))
    }

    /// The sum of the load and store selectors on a window.
    pub open spec fn memory(self, w: Window) -> int {
        fadd(self.load(w), self.store(w))
    }

    /// The sum of the branch selectors on a window.
    pub open spec fn branch(self, w: Window) -> int {
        fadd(
            fadd(
                fadd(fadd(fadd(w.var(self.is_beq), w.var(self.is_bne)), w.var(self.is_blt)), w.var(self.is_bge)),
                w.var(self.is_bltu),
            ),
            w.var(self.is_bgeu),
        )
    }

    /// The sum of the two jump selectors on a window.
    pub open spec fn jump(self, w: Window) -> int {
        fadd(w.var(self.is_jal), w.var(self.is_jalr))
    }

    /// One on a load, zero on every other instruction.
    pub fn is_load_instruction(&self) -> (r: Expr)
        ensures
            forall|w: Window| #[trigger] r.value(w) == self.load(w),
    {
        Expr::var(self.is_lb).plus(Expr::var(self.is_lbu)).plus(Expr::var(self.is_lh)).plus(
            Expr::var(self.is_lhu),
        ).plus(Expr::var(self.is_lw))
    }

    /// One on a store, zero on every other instruction.
    pub fn is_store_instruction(&self) -> (r: Expr)
        ensures
            forall|w: Window| #[trigger] r.value(w) == self.store(w),
    {
        Expr::var(self.is_sb).plus(Expr::var(self.is_sh)).plus(Expr::var(self.is_sw))
    }

    /// One on a load or store, zero on every other instruction.
    pub fn is_memory_instruction(&self) -> (r: Expr)
        ensures
            forall|w: Window| #[trigger] r.value(w) == self.memory(w),
    {
        self.is_load_instruction().plus(self.is_store_instruction())
    }

    /// One on a branch, zero on every other instruction.
    pub fn is_branch_instruction(&self) -> (r: Expr)
        ensures
            forall|w: Window| #[trigger] r.value(w) == self.branch(w),
    {
        Expr::var(self.is_beq).plus(Expr::var(self.is_bne)).plus(Expr::var(self.is_blt)).plus(
            Expr::var(self.is_bge),
        ).plus(Expr::var(self.is_bltu)).plus(Expr::var(self.is_bgeu))
    }

    /// One on an instruction that an ALU table checks, zero on every other.
    pub fn is_alu_instruction(&self) -> (r: Expr)
        ensures
            forall|w: Window| #[trigger] r.value(w) == w.var(self.is_alu),
    {
        Expr::var(self.is_alu)
    }

    /// One on a system call, zero on every other instruction.
    pub fn is_ecall_instruction(&self) -> (r: Expr)
        ensures
            forall|w: Window| #[trigger] r.value(w) == w.var(self.is_ecall),
    {
        Expr::var(self.is_ecall)
    }

    /// One on a jump, zero on every other instruction.
    pub fn is_jump_instruction(&self) -> (r: Expr)
        ensures
            forall|w: Window| #[trigger] r.value(w) == self.jump(w),
    {
        Expr::var(self.is_jal).plus(Expr::var(self.is_jalr))
    }
}

impl<T: Copy> MemoryReadWriteCols<T> {
    /// The value before the access.
    pub fn prev_value(&self) -> (r: Word<T>)
        ensures
            r == self.prev_value,
    {
        self.prev_value
    }

    /// The value after the access.
    pub fn value(&self) -> (r: Word<T>)
        ensures
            r == self.access.value,
    {
        self.access.value
    }
}

impl<T: Copy> MemoryReadCols<T> {
    /// The value read.
    pub fn value(&self) -> (r: Word<T>)
        ensures
            r == self.access.value,
    {
        self.access.value
    }
}

impl<T: Copy> CpuCols<T> {
    /// The value of the first operand after the cycle.
    pub fn op_a_val(&self) -> (r: Word<T>)
        ensures
            r == self.op_a_access.access.value,
    {
        self.op_a_access.access.value
    }

    /// The value of the first operand before the cycle.
    pub fn op_a_prev_val(&self) -> (r: Word<T>)
        ensures
            r == self.op_a_access.prev_value,
    {
        self.op_a_access.prev_value
    }

    /// The value of the second operand.
    pub fn op_b_val(&self) -> (r: Word<T>)
        ensures
            r == self.op_b_access.access.value,
    {
        self.op_b_access.access.value
    }

    /// The value of the third operand.
    pub fn op_c_val(&self) -> (r: Word<T>)
        ensures
            r == self.op_c_access.access.value,
    {
        self.op_c_access.access.value
    }
}

} // verus!
