//! The program table.
//!
//! The table holds the program: one row per instruction with its address,
//! its operands and its class. A row of the CPU table fetches its
//! instruction by sending a tuple that the program table receives; the
//! tuple has a match in the table if and only if the row executes what the
//! program says.

use crate::cpu::columns::{InstructionCols, OpcodeSelectorCols};
use crate::field::{canonical, MODULUS};
use crate::opcode::Opcode;
use crate::word::{word_limbs, Word};
use vstd::prelude::*;

verus! {

/// The number of values that the program table holds for an instruction:
/// the address, the instruction and the selector block.
pub const NUM_PROGRAM_VALUES: usize = 34;

/// One instruction of a program.
#[derive(Clone, Copy, Debug, PartialEq, Eq, Structural)]
pub struct Instruction {
    pub opcode: Opcode,
    /// The first operand: a register.
    pub op_a: u32,
    /// The second operand: a register, or an immediate if `imm_b` is set.
    pub op_b: u32,
    /// The third operand: a register, or an immediate if `imm_c` is set.
    pub op_c: u32,
    pub imm_b: bool,
    pub imm_c: bool,
}

/// One if `b` holds, zero if not.
pub open spec fn flag(b: bool) -> u32 {
    if b {
        1
    } else {
        0
    }
}

fn to_flag(b: bool) -> (r: u32)
    ensures
        r == flag(b),
{
    if b {
        1
    } else {
        0
    }
}

impl InstructionCols<u32> {
    /// The instruction columns of an instruction.
    pub open spec fn spec_populate(instruction: Instruction) -> InstructionCols<u32> {
        InstructionCols {
            opcode: instruction.opcode.spec_code() as u32,
            op_a: instruction.op_a,
            op_b: Word(
                [
                    word_limbs(instruction.op_b)[0],
                    word_limbs(instruction.op_b)[1],
                    word_limbs(instruction.op_b)[2],
                    word_limbs(instruction.op_b)[3],
                ],
            ),
            op_c: Word(
                [
                    word_limbs(instruction.op_c)[0],
                    word_limbs(instruction.op_c)[1],
                    word_limbs(instruction.op_c)[2],
                    word_limbs(instruction.op_c)[3],
                ],
            ),
            op_a_0: flag(instruction.op_a == 0),
        }
    }

    /// The instruction columns of an instruction.
    pub fn populate(instruction: &Instruction) -> (r: Self)
        ensures
            r == Self::spec_populate(*instruction),
    {
        let op_b = Word::<u32>::from_u32(instruction.op_b);
        let op_c = Word::<u32>::from_u32(instruction.op_c);
        assert(op_b.0@ == word_limbs(instruction.op_b));
        assert(op_c.0@ == word_limbs(instruction.op_c));
        let r = InstructionCols {
            opcode: instruction.opcode.code(),
            op_a: instruction.op_a,
            op_b: Word([op_b.0[0], op_b.0[1], op_b.0[2], op_b.0[3]]),
            op_c: Word([op_c.0[0], op_c.0[1], op_c.0[2], op_c.0[3]]),
            op_a_0: to_flag(instruction.op_a == 0),
        };
        assert(r.op_b.0[0] == op_b.0@[0] && r.op_b.0[1] == op_b.0@[1] && r.op_b.0[2] == op_b.0@[2]
            && r.op_b.0[3] == op_b.0@[3]);
        assert(r.op_c.0[0] == op_c.0@[0] && r.op_c.0[1] == op_c.0@[1] && r.op_c.0[2] == op_c.0@[2]
            && r.op_c.0[3] == op_c.0@[3]);
        assert(r.op_b.0@ =~= Self::spec_populate(*instruction).op_b.0@);
        assert(r.op_c.0@ =~= Self::spec_populate(*instruction).op_c.0@);
        r
    }

    /// The columns in column order.
    pub open spec fn spec_values(self) -> Seq<u32> {
        seq![
            self.opcode,
            self.op_a,
            self.op_b.0[0],
            self.op_b.0[1],
            self.op_b.0[2],
            self.op_b.0[3],
            self.op_c.0[0],
            self.op_c.0[1],
            self.op_c.0[2],
            self.op_c.0[3],
            self.op_a_0,
        ]
    }
}

impl OpcodeSelectorCols<u32> {
    /// The selector block of an instruction: the two immediate flags as the
    /// instruction has them, and the one class flag of its opcode.
    pub open spec fn spec_populate(instruction: Instruction) -> OpcodeSelectorCols<u32> {
        let opcode = instruction.opcode;
        OpcodeSelectorCols {
            imm_b: flag(instruction.imm_b),
            imm_c: flag(instruction.imm_c),
            is_alu: flag(opcode.spec_is_alu()),
            is_ecall: flag(opcode == Opcode::ECALL),
            is_lb: flag(opcode == Opcode::LB),
            is_lbu: flag(opcode == Opcode::LBU),
            is_lh: flag(opcode == Opcode::LH),
            is_lhu: flag(opcode == Opcode::LHU),
            is_lw: flag(opcode == Opcode::LW),
            is_sb: flag(opcode == Opcode::SB),
            is_sh: flag(opcode == Opcode::SH),
            is_sw: flag(opcode == Opcode::SW),
            is_beq: flag(opcode == Opcode::BEQ),
            is_bne: flag(opcode == Opcode::BNE),
            is_blt: flag(opcode == Opcode::BLT),
            is_bge: flag(opcode == Opcode::BGE),
            is_bltu: flag(opcode == Opcode::BLTU),
            is_bgeu: flag(opcode == Opcode::BGEU),
            is_jalr: flag(opcode == Opcode::JALR),
            is_jal: flag(opcode == Opcode::JAL),
            is_auipc: flag(opcode == Opcode::AUIPC),
            is_unimpl: flag(opcode == Opcode::UNIMP || opcode == Opcode::EBREAK),
        }
    }

    /// The selector block of an instruction.
    pub fn populate(instruction: &Instruction) -> (r: Self)
        ensures
            r == Self::spec_populate(*instruction),
    {
        let opcode = instruction.opcode;
        OpcodeSelectorCols {
            imm_b: to_flag(instruction.imm_b),
            imm_c: to_flag(instruction.imm_c),
            is_alu: to_flag(opcode.is_alu()),
            is_ecall: to_flag(opcode == Opcode::ECALL),
            is_lb: to_flag(opcode == Opcode::LB),
            is_lbu: to_flag(opcode == Opcode::LBU),
            is_lh: to_flag(opcode == Opcode::LH),
            is_lhu: to_flag(opcode == Opcode::LHU),
            is_lw: to_flag(opcode == Opcode::LW),
            is_sb: to_flag(opcode == Opcode::SB),
            is_sh: to_flag(opcode == Opcode::SH),
            is_sw: to_flag(opcode == Opcode::SW),
            is_beq: to_flag(opcode == Opcode::BEQ),
            is_bne: to_flag(opcode == Opcode::BNE),
            is_blt: to_flag(opcode == Opcode::BLT),
            is_bge: to_flag(opcode == Opcode::BGE),
            is_bltu: to_flag(opcode == Opcode::BLTU),
            is_bgeu: to_flag(opcode == Opcode::BGEU),
            is_jalr: to_flag(opcode == Opcode::JALR),
            is_jal: to_flag(opcode == Opcode::JAL),
            is_auipc: to_flag(opcode == Opcode::AUIPC),
            is_unimpl: to_flag(opcode == Opcode::UNIMP || opcode == Opcode::EBREAK),
        }
    }

    /// The number of class flags that are set: the sum of all selectors but
    /// the two immediate flags.
    pub open spec fn class_count(self) -> int {
        self.is_alu + self.is_ecall + self.is_lb + self.is_lbu + self.is_lh + self.is_lhu
            + self.is_lw + self.is_sb + self.is_sh + self.is_sw + self.is_beq + self.is_bne
            + self.is_blt + self.is_bge + self.is_bltu + self.is_bgeu + self.is_jalr + self.is_jal
            + self.is_auipc + self.is_unimpl
    }

    /// Whether every selector is zero or one.
    pub open spec fn all_flags(self) -> bool {
        forall|i: int| 0 <= i < 22 ==> #[trigger] self.spec_to_array()[i] <= 1
    }

    /// Whether the block classifies an instruction: every selector is zero
    /// or one, and exactly one class flag is set.
    pub open spec fn one_hot(self) -> bool {
        self.all_flags() && self.class_count() == 1
    }
}

/// The selector block of an instruction classifies it: every selector is a
/// flag, and exactly one class flag is set.
pub proof fn lemma_populated_selectors_one_hot(instruction: Instruction)
    ensures
        OpcodeSelectorCols::<u32>::spec_populate(instruction).one_hot(),
{
}

/// A program: its instructions, and the address of the first.
#[derive(Clone, Debug)]
pub struct Program {
    pub instructions: Vec<Instruction>,
    /// The address at which execution starts.
    pub pc_start: u32,
    /// The address of the first instruction. Instruction `i` is at address
    /// `pc_base + 4 * i`.
    pub pc_base: u32,
}

impl Program {
    /// Whether every value of the program table is a field element: the
    /// addresses of the instructions and their first operands are below the
    /// order of the field.
    pub open spec fn wf(&self) -> bool {
        &&& self.pc_base + 4 * self.instructions@.len() <= MODULUS
        &&& forall|i: int|
            0 <= i < self.instructions@.len() ==> canonical(
                (#[trigger] self.instructions@[i]).op_a as int,
            )
    }

    /// Decides [`Self::wf`].
    pub fn is_well_formed(&self) -> (r: bool)
        ensures
            r == self.wf(),
    {
        let n = self.instructions.len();
        if n > (MODULUS as usize) / 4 {
            return false;
        }
        if self.pc_base as usize > MODULUS as usize - 4 * n {
            return false;
        }
        let mut i: usize = 0;
        while i < n
            invariant
                i <= n,
                n == self.instructions@.len(),
                forall|j: int| 0 <= j < i ==> canonical((#[trigger] self.instructions@[j]).op_a as int),
            decreases n - i,
        {
            if self.instructions[i].op_a >= MODULUS {
                return false;
            }
            i += 1;
        }
        true
    }

    /// The address of instruction `i`.
    pub open spec fn spec_pc(&self, i: int) -> int {
        self.pc_base + 4 * i
    }

    /// The row of instruction `i` in the program table: its address, its
    /// instruction columns and its selector block.
    pub open spec fn spec_row(&self, i: int) -> Seq<u32> {
        seq![self.spec_pc(i) as u32] + InstructionCols::<u32>::spec_populate(
            self.instructions@[i],
        ).spec_values() + OpcodeSelectorCols::<u32>::spec_populate(
            self.instructions@[i],
        ).spec_to_array()@
    }

    /// The row of instruction `i` in the program table.
    pub fn row(&self, i: usize) -> (r: Vec<u32>)
        requires
            self.wf(),
            i < self.instructions@.len(),
        ensures
            r@ == self.spec_row(i as int),
            r@.len() == NUM_PROGRAM_VALUES,
    {
        let instruction = &self.instructions[i];
        let columns = InstructionCols::<u32>::populate(instruction);
        let selectors = OpcodeSelectorCols::<u32>::populate(instruction).to_array();
        let mut r: Vec<u32> = Vec::new();
        r.push(self.pc_base + 4 * (i as u32));
        r.push(columns.opcode);
        r.push(columns.op_a);
        r.push(columns.op_b.0[0]);
        r.push(columns.op_b.0[1]);
        r.push(columns.op_b.0[2]);
        r.push(columns.op_b.0[3]);
        r.push(columns.op_c.0[0]);
        r.push(columns.op_c.0[1]);
        r.push(columns.op_c.0[2]);
        r.push(columns.op_c.0[3]);
        r.push(columns.op_a_0);
        let ghost head = r@;
        let mut k: usize = 0;
        while k < 22
            invariant
                k <= 22,
                r@.len() == 12 + k,
                forall|j: int| 0 <= j < 12 ==> r@[j] == head[j],
                forall|j: int| 0 <= j < k ==> #[trigger] r@[12 + j] == selectors@[j],
            decreases 22 - k,
        {
            r.push(selectors[k]);
            k += 1;
        }
        proof {
            let want = self.spec_row(i as int);
            assert(r@.len() == want.len());
            assert forall|j: int| 0 <= j < r@.len() implies r@[j] == want[j] by {
                if j < 12 {
                    assert(r@[j] == head[j]);
                } else {
                    assert(r@[12 + (j - 12)] == selectors@[j - 12]);
                }
            }
            assert(r@ =~= want);
        }
        r
    }

    /// Whether the program table has a match for a fetch tuple: the tuple
    /// is the row of some instruction followed by one more value, the shard.
    pub open spec fn spec_fetch(&self, tuple: Seq<u32>) -> bool {
        &&& tuple.len() == NUM_PROGRAM_VALUES + 1
        &&& exists|i: int|
            0 <= i < self.instructions@.len() && #[trigger] self.spec_row(i) == tuple.subrange(
                0,
                NUM_PROGRAM_VALUES as int,
            )
    }

    /// Looks a fetch tuple up in the program table.
    pub fn fetch(&self, tuple: &Vec<u32>) -> (r: bool)
        requires
            self.wf(),
        ensures
            r == self.spec_fetch(tuple@),
    {
        if tuple.len() != NUM_PROGRAM_VALUES + 1 {
            return false;
        }
        let ghost prefix = tuple@.subrange(0, NUM_PROGRAM_VALUES as int);
        let mut i: usize = 0;
        while i < self.instructions.len()
            invariant
                i <= self.instructions@.len(),
                self.wf(),
                tuple@.len() == NUM_PROGRAM_VALUES + 1,
                prefix == tuple@.subrange(0, NUM_PROGRAM_VALUES as int),
                forall|j: int| 0 <= j < i ==> #[trigger] self.spec_row(j) != prefix,
            decreases self.instructions@.len() - i,
        {
            let row = self.row(i);
            let mut same = true;
            let mut k: usize = 0;
            while k < NUM_PROGRAM_VALUES
                invariant
                    k <= NUM_PROGRAM_VALUES,
                    row@.len() == NUM_PROGRAM_VALUES,
                    tuple@.len() == NUM_PROGRAM_VALUES + 1,
                    same == (forall|j: int| 0 <= j < k ==> row@[j] == tuple@[j]),
                decreases NUM_PROGRAM_VALUES - k,
            {
                if row[k] != tuple[k] {
                    same = false;
                }
                k += 1;
            }
            if same {
                assert(row@ =~= prefix);
                return true;
            }
            assert(self.spec_row(i as int) != prefix) by {
                if self.spec_row(i as int) == prefix {
                    assert forall|j: int| 0 <= j < NUM_PROGRAM_VALUES implies row@[j] == tuple@[j] by {
                        assert(prefix[j] == tuple@[j]);
                    }
                }
            }
            i += 1;
        }
        false
    }
}

/// A fetch of what the program says succeeds: for every instruction of a
/// program and every shard, the program table has a match for the row of
/// the instruction followed by the shard.
pub proof fn lemma_fetch_round_trip(program: Program, i: int, shard: u32)
    requires
        program.wf(),
        0 <= i < program.instructions@.len(),
    ensures
        program.spec_fetch(program.spec_row(i).push(shard)),
{
    let tuple = program.spec_row(i).push(shard);
    assert(tuple.subrange(0, NUM_PROGRAM_VALUES as int) =~= program.spec_row(i));
}

/// A fetch of anything else at the address of an instruction fails: if a
/// tuple has the address of an instruction of the program but differs from
/// the row of that instruction in any value of the instruction or of its
/// class, the program table has no match for it.
pub proof fn lemma_tampered_fetch_fails(program: Program, i: int, tuple: Seq<u32>, k: int)
    requires
        program.wf(),
        0 <= i < program.instructions@.len(),
        tuple.len() == NUM_PROGRAM_VALUES + 1,
        tuple[0] == program.spec_row(i)[0],
        1 <= k < NUM_PROGRAM_VALUES,
        tuple[k] != program.spec_row(i)[k],
    ensures
        !program.spec_fetch(tuple),
{
    let prefix = tuple.subrange(0, NUM_PROGRAM_VALUES as int);
    assert forall|j: int| 0 <= j < program.instructions@.len() implies #[trigger] program.spec_row(
        j,
    ) != prefix by {
        if program.spec_row(j) == prefix {
            assert(program.spec_row(j)[0] == prefix[0]);
            assert(program.spec_row(j)[0] == program.spec_pc(j) as u32);
            assert(program.spec_row(i)[0] == program.spec_pc(i) as u32);
            assert(j == i);
            assert(prefix[k] == tuple[k]);
        }
    }
}

/// A row that fetches successfully has one class: in every tuple that the
/// program table has a match for, the selectors are flags and exactly one
/// class flag is set.
pub proof fn lemma_fetched_selectors_one_hot(program: Program, tuple: Seq<u32>)
    requires
        program.wf(),
        program.spec_fetch(tuple),
    ensures
        exists|instruction: Instruction|
            {
                let selectors = #[trigger] OpcodeSelectorCols::<u32>::spec_populate(instruction);
                &&& selectors.one_hot()
                &&& tuple.subrange(12, 34) == selectors.spec_to_array()@
            },
{
    let i = choose|i: int|
        0 <= i < program.instructions@.len() && #[trigger] program.spec_row(i) == tuple.subrange(
            0,
            NUM_PROGRAM_VALUES as int,
        );
    let instruction = program.instructions@[i];
    let selectors = OpcodeSelectorCols::<u32>::spec_populate(instruction);
    lemma_populated_selectors_one_hot(instruction);
    assert(tuple.subrange(12, 34) =~= selectors.spec_to_array()@) by {
        assert forall|j: int| 0 <= j < 22 implies tuple.subrange(12, 34)[j]
            == selectors.spec_to_array()@[j] by {
            assert(tuple.subrange(0, 34)[12 + j] == program.spec_row(i)[12 + j]);
        }
    }
}

} // verus!
