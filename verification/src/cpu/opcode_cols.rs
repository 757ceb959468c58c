//! The columns of the opcode-specific table.
//!
//! A row of this table holds what the CPU table hands over for one
//! instruction, and the witnesses that only the class of that instruction
//! needs. Witnesses of different classes share one block of columns: a row
//! has one class, so it uses the block in one way.

use crate::cpu::columns::{MemoryAccessCols, MemoryReadWriteCols, OpcodeSelectorCols};
use crate::expr::Var;
use crate::operations::{BabyBearWordRangeChecker, IsZeroOperation};
use crate::word::{at_cell, cell, Word};
use vstd::prelude::*;

verus! {

/// The number of columns in the block that the classes share.
pub const NUM_OPCODE_SPECIFIC_COLS: usize = 48;

/// The number of columns of the opcode-specific table.
pub const NUM_CPU_OPCODE_SPECIFIC_COLS: usize = 105;

/// The witnesses of AUIPC.
#[derive(Clone, Copy, Debug, PartialEq, Eq)]
pub struct AuipcCols<T> {
    /// The program counter as a word.
    pub pc: Word<T>,
    /// The witness that `pc` is below the order of the field.
    pub pc_range_checker: BabyBearWordRangeChecker<T>,
    /// Distinguishes the addition from all others.
    pub auipc_nonce: T,
}

/// The witnesses of a branch.
#[derive(Clone, Copy, Debug, PartialEq, Eq)]
pub struct BranchCols<T> {
    /// The program counter as a word.
    pub pc: Word<T>,
    pub pc_range_checker: BabyBearWordRangeChecker<T>,
    /// The program counter after the branch, if it is taken, as a word.
    pub next_pc: Word<T>,
    pub next_pc_range_checker: BabyBearWordRangeChecker<T>,
    /// Whether the two operands are equal.
    pub a_eq_b: T,
    /// Whether the first operand is greater than the second.
    pub a_gt_b: T,
    /// Whether the first operand is less than the second.
    pub a_lt_b: T,
    pub a_lt_b_nonce: T,
    pub a_gt_b_nonce: T,
    pub next_pc_nonce: T,
}

/// The witnesses of a jump.
#[derive(Clone, Copy, Debug, PartialEq, Eq)]
pub struct JumpCols<T> {
    /// The program counter as a word.
    pub pc: Word<T>,
    pub pc_range_checker: BabyBearWordRangeChecker<T>,
    /// The target of the jump as a word.
    pub next_pc: Word<T>,
    pub next_pc_range_checker: BabyBearWordRangeChecker<T>,
    /// The witness that the link value is below the order of the field.
    pub op_a_range_checker: BabyBearWordRangeChecker<T>,
    pub jal_nonce: T,
    pub jalr_nonce: T,
}

/// The witnesses of a load or store.
#[derive(Clone, Copy, Debug, PartialEq, Eq)]
pub struct MemoryColumns<T> {
    /// The address: the sum of the second and third operands.
    pub addr_word: Word<T>,
    pub addr_word_range_checker: BabyBearWordRangeChecker<T>,
    /// The address of the word that holds the addressed byte.
    pub addr_aligned: T,
    /// Bits 2 to 7 of the least significant byte of the aligned address.
    pub aa_least_sig_byte_decomp: [T; 6],
    /// The place of the addressed byte in its word.
    pub addr_offset: T,
    /// The access to the word at the aligned address.
    pub memory_access: MemoryReadWriteCols<T>,
    pub offset_is_one: T,
    pub offset_is_two: T,
    pub offset_is_three: T,
    /// The bits of the most significant byte of a loaded byte or half word.
    pub most_sig_byte_decomp: [T; 8],
    pub addr_word_nonce: T,
}

/// The witnesses of a system call.
#[derive(Clone, Copy, Debug, PartialEq, Eq)]
pub struct EcallCols<T> {
    /// Whether the system call halts the program.
    pub is_halt: IsZeroOperation<T>,
    /// Whether the system call commits a word of the public values digest.
    pub is_commit: IsZeroOperation<T>,
    /// Whether the system call commits a word of the deferred proofs digest.
    pub is_commit_deferred_proofs: IsZeroOperation<T>,
    /// One flag per digest word; the flag of the committed word is set.
    pub index_bitmap: [T; 8],
    pub syscall_nonce: T,
    /// The witness that `operand_to_check` is below the order of the field.
    pub operand_range_check_cols: BabyBearWordRangeChecker<T>,
    /// The operand that has to be a field element: the exit code of a halt,
    /// the digest element of a deferred proof.
    pub operand_to_check: Word<T>,
}

/// The block of columns that the classes share.
#[derive(Clone, Copy, Debug, PartialEq, Eq)]
pub struct OpcodeSpecificCols<T> {
    pub cells: [T; 48],
}

/// One row of the opcode-specific table.
#[derive(Clone, Copy, Debug, PartialEq, Eq)]
pub struct CpuOpcodeSpecificCols<T> {
    /// The clock at the start of the cycle.
    pub clk: T,
    pub shard: T,
    pub channel: T,
    pub pc: T,
    /// The program counter after the cycle, as this table computes it.
    pub next_pc: T,
    pub selectors: OpcodeSelectorCols<T>,
    /// The value of the first operand before the cycle.
    pub op_a_prev_val: Word<T>,
    /// The value of the first operand after the cycle.
    pub op_a_val: Word<T>,
    pub op_b_val: Word<T>,
    pub op_c_val: Word<T>,
    /// Whether the first operand is register zero.
    pub op_a_0: T,
    /// Whether the row halts the program.
    pub is_halt: T,
    /// Whether the row stands for a row of the CPU table.
    pub is_real: T,
    /// The witnesses of the row's class.
    pub opcode_specific_columns: OpcodeSpecificCols<T>,
    /// Whether the row is a branch that is taken.
    pub branching: T,
    /// Whether the row is a branch that is not taken.
    pub not_branching: T,
    /// Whether the row loads a negative value into a register other than
    /// register zero.
    pub mem_value_is_neg_not_x0: T,
    /// Whether the row loads a value that is not negative into a register
    /// other than register zero.
    pub mem_value_is_pos_not_x0: T,
    /// The loaded value before sign extension.
    pub unsigned_mem_val: Word<T>,
    pub unsigned_mem_val_nonce: T,
    /// The multiplicity with which a system call is handed to a precompile
    /// table.
    pub ecall_mul_send_to_table: T,
    /// Whether the system call has an operand that has to be a field element.
    pub ecall_range_check_operand: T,
}

impl<T: Copy> IsZeroOperation<T> {
    /// The zero test that starts at cell `base`.
    pub open spec fn spec_from(cells: [T; 48], base: int) -> IsZeroOperation<T> {
        IsZeroOperation {
            inverse: cells[base],
            result: cells[base + 1],
        }
    }

    /// The zero test that starts at cell `base`.
    pub fn from(cells: &[T; 48], base: usize) -> (r: Self)
        requires
            base + 2 <= 48,
        ensures
            r == Self::spec_from(*cells, base as int),
    {
        IsZeroOperation {
            inverse: cells[base],
            result: cells[base + 1],
        }
    }
}

impl<T: Copy> BabyBearWordRangeChecker<T> {
    /// The range checker that starts at cell `base`.
    pub open spec fn spec_from(cells: [T; 48], base: int) -> BabyBearWordRangeChecker<T> {
        BabyBearWordRangeChecker {
            most_sig_byte_decomp: [
                cells[base],
                cells[base + 1],
                cells[base + 2],
                cells[base + 3],
                cells[base + 4],
                cells[base + 5],
                cells[base + 6],
                cells[base + 7],
            ],
            and_most_sig_byte_decomp_3_to_5: cells[base + 8],
            and_most_sig_byte_decomp_3_to_6: cells[base + 9],
            and_most_sig_byte_decomp_3_to_7: cells[base + 10],
        }
    }

    /// The range checker that starts at cell `base`.
    pub fn from(cells: &[T; 48], base: usize) -> (r: Self)
        requires
            base + 11 <= 48,
        ensures
            r == Self::spec_from(*cells, base as int),
    {
        BabyBearWordRangeChecker {
            most_sig_byte_decomp: [
                cells[base],
                cells[base + 1],
                cells[base + 2],
                cells[base + 3],
                cells[base + 4],
                cells[base + 5],
                cells[base + 6],
                cells[base + 7],
            ],
            and_most_sig_byte_decomp_3_to_5: cells[base + 8],
            and_most_sig_byte_decomp_3_to_6: cells[base + 9],
            and_most_sig_byte_decomp_3_to_7: cells[base + 10],
        }
    }
}

impl<T: Copy> MemoryAccessCols<T> {
    /// The access columns that start at cell `base`.
    pub open spec fn spec_from(cells: [T; 48], base: int) -> MemoryAccessCols<T> {
        MemoryAccessCols {
            value: Word([cells[base], cells[base + 1], cells[base + 2], cells[base + 3]]),
            prev_shard: cells[base + 4],
            prev_clk: cells[base + 5],
            compare_clk: cells[base + 6],
            diff_16bit_limb: cells[base + 7],
            diff_8bit_limb: cells[base + 8],
        }
    }

    /// The access columns that start at cell `base`.
    pub fn from(cells: &[T; 48], base: usize) -> (r: Self)
        requires
            base + 9 <= 48,
        ensures
            r == Self::spec_from(*cells, base as int),
    {
        MemoryAccessCols {
            value: Word([cells[base], cells[base + 1], cells[base + 2], cells[base + 3]]),
            prev_shard: cells[base + 4],
            prev_clk: cells[base + 5],
            compare_clk: cells[base + 6],
            diff_16bit_limb: cells[base + 7],
            diff_8bit_limb: cells[base + 8],
        }
    }
}

impl<T: Copy> MemoryReadWriteCols<T> {
    /// The read-write columns that start at cell `base`.
    pub open spec fn spec_from(cells: [T; 48], base: int) -> MemoryReadWriteCols<T> {
        MemoryReadWriteCols {
            prev_value: Word([cells[base], cells[base + 1], cells[base + 2], cells[base + 3]]),
            access: MemoryAccessCols::<T>::spec_from(cells, base + 4),
        }
    }

    /// The read-write columns that start at cell `base`.
    pub fn from(cells: &[T; 48], base: usize) -> (r: Self)
        requires
            base + 13 <= 48,
        ensures
            r == Self::spec_from(*cells, base as int),
    {
        MemoryReadWriteCols {
            prev_value: Word([cells[base], cells[base + 1], cells[base + 2], cells[base + 3]]),
            access: MemoryAccessCols::<T>::from(cells, base + 4),
        }
    }
}

impl<T: Copy> AuipcCols<T> {
    /// The AUIPC columns that start at cell `base`.
    pub open spec fn spec_from(cells: [T; 48], base: int) -> AuipcCols<T> {
        AuipcCols {
            pc: Word([cells[base], cells[base + 1], cells[base + 2], cells[base + 3]]),
            pc_range_checker: BabyBearWordRangeChecker::<T>::spec_from(cells, base + 4),
            auipc_nonce: cells[base + 15],
        }
    }

    /// The AUIPC columns that start at cell `base`.
    pub fn from(cells: &[T; 48], base: usize) -> (r: Self)
        requires
            base + 16 <= 48,
        ensures
            r == Self::spec_from(*cells, base as int),
    {
        AuipcCols {
            pc: Word([cells[base], cells[base + 1], cells[base + 2], cells[base + 3]]),
            pc_range_checker: BabyBearWordRangeChecker::<T>::from(cells, base + 4),
            auipc_nonce: cells[base + 15],
        }
    }
}

impl<T: Copy> BranchCols<T> {
    /// The branch columns that start at cell `base`.
    pub open spec fn spec_from(cells: [T; 48], base: int) -> BranchCols<T> {
        BranchCols {
            pc: Word([cells[base], cells[base + 1], cells[base + 2], cells[base + 3]]),
            pc_range_checker: BabyBearWordRangeChecker::<T>::spec_from(cells, base + 4),
            next_pc: Word([cells[base + 15], cells[base + 16], cells[base + 17], cells[base + 18]]),
            next_pc_range_checker: BabyBearWordRangeChecker::<T>::spec_from(cells, base + 19),
            a_eq_b: cells[base + 30],
            a_gt_b: cells[base + 31],
            a_lt_b: cells[base + 32],
            a_lt_b_nonce: cells[base + 33],
            a_gt_b_nonce: cells[base + 34],
            next_pc_nonce: cells[base + 35],
        }
    }

    /// The branch columns that start at cell `base`.
    pub fn from(cells: &[T; 48], base: usize) -> (r: Self)
        requires
            base + 36 <= 48,
        ensures
            r == Self::spec_from(*cells, base as int),
    {
        BranchCols {
            pc: Word([cells[base], cells[base + 1], cells[base + 2], cells[base + 3]]),
            pc_range_checker: BabyBearWordRangeChecker::<T>::from(cells, base + 4),
            next_pc: Word([cells[base + 15], cells[base + 16], cells[base + 17], cells[base + 18]]),
            next_pc_range_checker: BabyBearWordRangeChecker::<T>::from(cells, base + 19),
            a_eq_b: cells[base + 30],
            a_gt_b: cells[base + 31],
            a_lt_b: cells[base + 32],
            a_lt_b_nonce: cells[base + 33],
            a_gt_b_nonce: cells[base + 34],
            next_pc_nonce: cells[base + 35],
        }
    }
}

impl<T: Copy> JumpCols<T> {
    /// The jump columns that start at cell `base`.
    pub open spec fn spec_from(cells: [T; 48], base: int) -> JumpCols<T> {
        JumpCols {
            pc: Word([cells[base], cells[base + 1], cells[base + 2], cells[base + 3]]),
            pc_range_checker: BabyBearWordRangeChecker::<T>::spec_from(cells, base + 4),
            next_pc: Word([cells[base + 15], cells[base + 16], cells[base + 17], cells[base + 18]]),
            next_pc_range_checker: BabyBearWordRangeChecker::<T>::spec_from(cells, base + 19),
            op_a_range_checker: BabyBearWordRangeChecker::<T>::spec_from(cells, base + 30),
            jal_nonce: cells[base + 41],
            jalr_nonce: cells[base + 42],
        }
    }

    /// The jump columns that start at cell `base`.
    pub fn from(cells: &[T; 48], base: usize) -> (r: Self)
        requires
            base + 43 <= 48,
        ensures
            r == Self::spec_from(*cells, base as int),
    {
        JumpCols {
            pc: Word([cells[base], cells[base + 1], cells[base + 2], cells[base + 3]]),
            pc_range_checker: BabyBearWordRangeChecker::<T>::from(cells, base + 4),
            next_pc: Word([cells[base + 15], cells[base + 16], cells[base + 17], cells[base + 18]]),
            next_pc_range_checker: BabyBearWordRangeChecker::<T>::from(cells, base + 19),
            op_a_range_checker: BabyBearWordRangeChecker::<T>::from(cells, base + 30),
            jal_nonce: cells[base + 41],
            jalr_nonce: cells[base + 42],
        }
    }
}

impl<T: Copy> MemoryColumns<T> {
    /// The load and store columns that start at cell `base`.
    pub open spec fn spec_from(cells: [T; 48], base: int) -> MemoryColumns<T> {
        MemoryColumns {
            addr_word: Word([cells[base], cells[base + 1], cells[base + 2], cells[base + 3]]),
            addr_word_range_checker: BabyBearWordRangeChecker::<T>::spec_from(cells, base + 4),
            addr_aligned: cells[base + 15],
            aa_least_sig_byte_decomp: [
                cells[base + 16],
                cells[base + 17],
                cells[base + 18],
                cells[base + 19],
                cells[base + 20],
                cells[base + 21],
            ],
            addr_offset: cells[base + 22],
            memory_access: MemoryReadWriteCols::<T>::spec_from(cells, base + 23),
            offset_is_one: cells[base + 36],
            offset_is_two: cells[base + 37],
            offset_is_three: cells[base + 38],
            most_sig_byte_decomp: [
                cells[base + 39],
                cells[base + 40],
                cells[base + 41],
                cells[base + 42],
                cells[base + 43],
                cells[base + 44],
                cells[base + 45],
                cells[base + 46],
            ],
            addr_word_nonce: cells[base + 47],
        }
    }

    /// The load and store columns that start at cell `base`.
    pub fn from(cells: &[T; 48], base: usize) -> (r: Self)
        requires
            base + 48 <= 48,
        ensures
            r == Self::spec_from(*cells, base as int),
    {
        MemoryColumns {
            addr_word: Word([cells[base], cells[base + 1], cells[base + 2], cells[base + 3]]),
            addr_word_range_checker: BabyBearWordRangeChecker::<T>::from(cells, base + 4),
            addr_aligned: cells[base + 15],
            aa_least_sig_byte_decomp: [
                cells[base + 16],
                cells[base + 17],
                cells[base + 18],
                cells[base + 19],
                cells[base + 20],
                cells[base + 21],
            ],
            addr_offset: cells[base + 22],
            memory_access: MemoryReadWriteCols::<T>::from(cells, base + 23),
            offset_is_one: cells[base + 36],
            offset_is_two: cells[base + 37],
            offset_is_three: cells[base + 38],
            most_sig_byte_decomp: [
                cells[base + 39],
                cells[base + 40],
                cells[base + 41],
                cells[base + 42],
                cells[base + 43],
                cells[base + 44],
                cells[base + 45],
                cells[base + 46],
            ],
            addr_word_nonce: cells[base + 47],
        }
    }
}

impl<T: Copy> EcallCols<T> {
    /// The system call columns that start at cell `base`.
    pub open spec fn spec_from(cells: [T; 48], base: int) -> EcallCols<T> {
        EcallCols {
            is_halt: IsZeroOperation::<T>::spec_from(cells, base),
            is_commit: IsZeroOperation::<T>::spec_from(cells, base + 2),
            is_commit_deferred_proofs: IsZeroOperation::<T>::spec_from(cells, base + 4),
            index_bitmap: [
                cells[base + 6],
                cells[base + 7],
                cells[base + 8],
                cells[base + 9],
                cells[base + 10],
                cells[base + 11],
                cells[base + 12],
                cells[base + 13],
            ],
            syscall_nonce: cells[base + 14],
            operand_range_check_cols: BabyBearWordRangeChecker::<T>::spec_from(cells, base + 15),
            operand_to_check: Word([cells[base + 26], cells[base + 27], cells[base + 28], cells[base + 29]]),
        }
    }

    /// The system call columns that start at cell `base`.
    pub fn from(cells: &[T; 48], base: usize) -> (r: Self)
        requires
            base + 30 <= 48,
        ensures
            r == Self::spec_from(*cells, base as int),
    {
        EcallCols {
            is_halt: IsZeroOperation::<T>::from(cells, base),
            is_commit: IsZeroOperation::<T>::from(cells, base + 2),
            is_commit_deferred_proofs: IsZeroOperation::<T>::from(cells, base + 4),
            index_bitmap: [
                cells[base + 6],
                cells[base + 7],
                cells[base + 8],
                cells[base + 9],
                cells[base + 10],
                cells[base + 11],
                cells[base + 12],
                cells[base + 13],
            ],
            syscall_nonce: cells[base + 14],
            operand_range_check_cols: BabyBearWordRangeChecker::<T>::from(cells, base + 15),
            operand_to_check: Word([cells[base + 26], cells[base + 27], cells[base + 28], cells[base + 29]]),
        }
    }
}

impl OpcodeSpecificCols<Var> {
    /// The shared block of columns that starts at column `base` of the current or of the next row.
    pub open spec fn spec_at(next: bool, base: int) -> OpcodeSpecificCols<Var> {
        OpcodeSpecificCols {
            cells: [
                cell(next, base),
                cell(next, base + 1),
                cell(next, base + 2),
                cell(next, base + 3),
                cell(next, base + 4),
                cell(next, base + 5),
                cell(next, base + 6),
                cell(next, base + 7),
                cell(next, base + 8),
                cell(next, base + 9),
                cell(next, base + 10),
                cell(next, base + 11),
                cell(next, base + 12),
                cell(next, base + 13),
                cell(next, base + 14),
                cell(next, base + 15),
                cell(next, base + 16),
                cell(next, base + 17),
                cell(next, base + 18),
                cell(next, base + 19),
                cell(next, base + 20),
                cell(next, base + 21),
                cell(next, base + 22),
                cell(next, base + 23),
                cell(next, base + 24),
                cell(next, base + 25),
                cell(next, base + 26),
                cell(next, base + 27),
                cell(next, base + 28),
                cell(next, base + 29),
                cell(next, base + 30),
                cell(next, base + 31),
                cell(next, base + 32),
                cell(next, base + 33),
                cell(next, base + 34),
                cell(next, base + 35),
                cell(next, base + 36),
                cell(next, base + 37),
                cell(next, base + 38),
                cell(next, base + 39),
                cell(next, base + 40),
                cell(next, base + 41),
                cell(next, base + 42),
                cell(next, base + 43),
                cell(next, base + 44),
                cell(next, base + 45),
                cell(next, base + 46),
                cell(next, base + 47),
            ],
        }
    }

    /// The shared block of columns that starts at column `base` of the current or of the next row.
    pub fn at(next: bool, base: usize) -> (r: Self)
        requires
            base + 48 <= usize::MAX,
        ensures
            r == Self::spec_at(next, base as int),
    {
        OpcodeSpecificCols {
            cells: [
                at_cell(next, base),
                at_cell(next, base + 1),
                at_cell(next, base + 2),
                at_cell(next, base + 3),
                at_cell(next, base + 4),
                at_cell(next, base + 5),
                at_cell(next, base + 6),
                at_cell(next, base + 7),
                at_cell(next, base + 8),
                at_cell(next, base + 9),
                at_cell(next, base + 10),
                at_cell(next, base + 11),
                at_cell(next, base + 12),
                at_cell(next, base + 13),
                at_cell(next, base + 14),
                at_cell(next, base + 15),
                at_cell(next, base + 16),
                at_cell(next, base + 17),
                at_cell(next, base + 18),
                at_cell(next, base + 19),
                at_cell(next, base + 20),
                at_cell(next, base + 21),
                at_cell(next, base + 22),
                at_cell(next, base + 23),
                at_cell(next, base + 24),
                at_cell(next, base + 25),
                at_cell(next, base + 26),
                at_cell(next, base + 27),
                at_cell(next, base + 28),
                at_cell(next, base + 29),
                at_cell(next, base + 30),
                at_cell(next, base + 31),
                at_cell(next, base + 32),
                at_cell(next, base + 33),
                at_cell(next, base + 34),
                at_cell(next, base + 35),
                at_cell(next, base + 36),
                at_cell(next, base + 37),
                at_cell(next, base + 38),
                at_cell(next, base + 39),
                at_cell(next, base + 40),
                at_cell(next, base + 41),
                at_cell(next, base + 42),
                at_cell(next, base + 43),
                at_cell(next, base + 44),
                at_cell(next, base + 45),
                at_cell(next, base + 46),
                at_cell(next, base + 47),
            ],
        }
    }
}

impl CpuOpcodeSpecificCols<Var> {
    /// The columns of the current or of the next row of the opcode-specific table, the first of them at column `base`.
    pub open spec fn spec_at(next: bool, base: int) -> CpuOpcodeSpecificCols<Var> {
        CpuOpcodeSpecificCols {
            clk: cell(next, base),
            shard: cell(next, base + 1),
            channel: cell(next, base + 2),
            pc: cell(next, base + 3),
            next_pc: cell(next, base + 4),
            selectors: OpcodeSelectorCols::<Var>::spec_at(next, base + 5),
            op_a_prev_val: Word::<Var>::spec_at(next, base + 27),
            op_a_val: Word::<Var>::spec_at(next, base + 31),
            op_b_val: Word::<Var>::spec_at(next, base + 35),
            op_c_val: Word::<Var>::spec_at(next, base + 39),
            op_a_0: cell(next, base + 43),
            is_halt: cell(next, base + 44),
            is_real: cell(next, base + 45),
            opcode_specific_columns: OpcodeSpecificCols::<Var>::spec_at(next, base + 46),
            branching: cell(next, base + 94),
            not_branching: cell(next, base + 95),
            mem_value_is_neg_not_x0: cell(next, base + 96),
            mem_value_is_pos_not_x0: cell(next, base + 97),
            unsigned_mem_val: Word::<Var>::spec_at(next, base + 98),
            unsigned_mem_val_nonce: cell(next, base + 102),
            ecall_mul_send_to_table: cell(next, base + 103),
            ecall_range_check_operand: cell(next, base + 104),
        }
    }

    /// The columns of the current or of the next row of the opcode-specific table, the first of them at column `base`.
    pub fn at(next: bool, base: usize) -> (r: Self)
        requires
            base + 105 <= usize::MAX,
        ensures
            r == Self::spec_at(next, base as int),
    {
        CpuOpcodeSpecificCols {
            clk: at_cell(next, base),
            shard: at_cell(next, base + 1),
            channel: at_cell(next, base + 2),
            pc: at_cell(next, base + 3),
            next_pc: at_cell(next, base + 4),
            selectors: OpcodeSelectorCols::<Var>::at(next, base + 5),
            op_a_prev_val: Word::<Var>::at(next, base + 27),
            op_a_val: Word::<Var>::at(next, base + 31),
            op_b_val: Word::<Var>::at(next, base + 35),
            op_c_val: Word::<Var>::at(next, base + 39),
            op_a_0: at_cell(next, base + 43),
            is_halt: at_cell(next, base + 44),
            is_real: at_cell(next, base + 45),
            opcode_specific_columns: OpcodeSpecificCols::<Var>::at(next, base + 46),
            branching: at_cell(next, base + 94),
            not_branching: at_cell(next, base + 95),
            mem_value_is_neg_not_x0: at_cell(next, base + 96),
            mem_value_is_pos_not_x0: at_cell(next, base + 97),
            unsigned_mem_val: Word::<Var>::at(next, base + 98),
            unsigned_mem_val_nonce: at_cell(next, base + 102),
            ecall_mul_send_to_table: at_cell(next, base + 103),
            ecall_range_check_operand: at_cell(next, base + 104),
        }
    }
}

impl<T: Copy> OpcodeSpecificCols<T> {
    /// The block as the witnesses of AUIPC.
    pub open spec fn spec_auipc(self) -> AuipcCols<T> {
        AuipcCols::<T>::spec_from(self.cells, 0)
    }

    /// The block as the witnesses of AUIPC.
    pub fn auipc(&self) -> (r: AuipcCols<T>)
        ensures
            r == self.spec_auipc(),
    {
        AuipcCols::<T>::from(&self.cells, 0)
    }

    /// The block as the witnesses of a branch.
    pub open spec fn spec_branch(self) -> BranchCols<T> {
        BranchCols::<T>::spec_from(self.cells, 0)
    }

    /// The block as the witnesses of a branch.
    pub fn branch(&self) -> (r: BranchCols<T>)
        ensures
            r == self.spec_branch(),
    {
        BranchCols::<T>::from(&self.cells, 0)
    }

    /// The block as the witnesses of a jump.
    pub open spec fn spec_jump(self) -> JumpCols<T> {
        JumpCols::<T>::spec_from(self.cells, 0)
    }

    /// The block as the witnesses of a jump.
    pub fn jump(&self) -> (r: JumpCols<T>)
        ensures
            r == self.spec_jump(),
    {
        JumpCols::<T>::from(&self.cells, 0)
    }

    /// The block as the witnesses of a load or store.
    pub open spec fn spec_memory(self) -> MemoryColumns<T> {
        MemoryColumns::<T>::spec_from(self.cells, 0)
    }

    /// The block as the witnesses of a load or store.
    pub fn memory(&self) -> (r: MemoryColumns<T>)
        ensures
            r == self.spec_memory(),
    {
        MemoryColumns::<T>::from(&self.cells, 0)
    }

    /// The block as the witnesses of a system call.
    pub open spec fn spec_ecall(self) -> EcallCols<T> {
        EcallCols::<T>::spec_from(self.cells, 0)
    }

    /// The block as the witnesses of a system call.
    pub fn ecall(&self) -> (r: EcallCols<T>)
        ensures
            r == self.spec_ecall(),
    {
        EcallCols::<T>::from(&self.cells, 0)
    }
}

} // verus!
