//! The constraints of the CPU table.
//!
//! One row of the table is one executed cycle. The row fetches its
//! instruction from the program table, reads and writes its operands through
//! the memory bus, hands ALU instructions to the ALU tables and every other
//! instruction to the opcode-specific table, and is chained to the next row
//! by the program counter, the clock and the shard.

use crate::air_builder::{
    alu_values, byte_values, dispatch_values_of, instruction_values, local_message,
    memory_access_constraints, memory_access_messages, program_values, range_check_24bits,
    range_check_24bits_messages, selector_values, word_range_check_messages, DispatchVars,
};
use crate::builder::{all_zero, boolean, eq_when, zero_when, ConstraintBuilder};
use crate::cpu::channel::{channel_constraints, eval_channel_selectors};
use crate::cpu::columns::{CpuCols, OpcodeSelectorCols, NUM_CPU_COLS, NUM_OPCODE_SELECTORS};
use crate::expr::{Expr, Var, Window};
use crate::field::{fadd, fmul, fsub};
use crate::interaction::{InteractionKind, Message};
use crate::opcode::ByteOpcode;
use crate::public_values::PublicValues;
use crate::word::Word;
use vstd::prelude::*;

verus! {

/// The CPU table.
#[derive(Clone, Copy, Debug, Default)]
pub struct CpuChip;

/// The extra cycles that a row takes: on a system call the third byte of the
/// system call code, which is the value of the first operand before the
/// cycle; on every other row zero.
pub open spec fn num_extra_ecall_cycles(local: CpuCols<Var>, w: Window) -> int {
    fmul(w.var(local.op_a_access.prev_value.0[2]), w.var(local.selectors.is_ecall))
}

/// The clock that the row after `local` must have.
pub open spec fn expected_next_clk(local: CpuCols<Var>, w: Window) -> int {
    fadd(fadd(w.var(local.clk), 4), num_extra_ecall_cycles(local, w))
}

/// The constraints on shard and clock.
///
/// The shard does not change from a row to a real successor. The clock is
/// zero on the first row and grows by four plus the row's extra cycles on
/// the way to a real successor. On a real row the clock is the sum of its
/// 16-bit and 8-bit limbs.
pub open spec fn shard_clk_constraints(local: CpuCols<Var>, next: CpuCols<Var>, w: Window) -> bool {
    let to_real_row = fmul(w.var(Var::IsTransition), w.var(next.is_real));
    &&& eq_when(to_real_row, w.var(local.shard), w.var(next.shard))
    &&& zero_when(w.var(Var::IsFirstRow), w.var(local.clk))
    &&& eq_when(to_real_row, expected_next_clk(local, w), w.var(next.clk))
    &&& range_check_24bits(
        w.var(local.clk),
        w.var(local.clk_16bit_limb),
        w.var(local.clk_8bit_limb),
        w.var(local.is_real),
    )
}

/// The byte-table messages that bound shard and clock: the shard of a real
/// row is below `2^16`, the limbs of its clock below `2^16` and `2^8`.
pub open spec fn shard_clk_messages(local: CpuCols<Var>, w: Window) -> Seq<Message> {
    seq![
        local_message(
            InteractionKind::Byte,
            true,
            byte_values(
                ByteOpcode::U16Range.spec_code(),
                w.var(local.shard),
                0,
                0,
                w.var(local.shard),
                w.var(local.channel),
            ),
            w.var(local.is_real),
        ),
    ] + range_check_24bits_messages(
        w.var(local.clk_16bit_limb),
        w.var(local.clk_8bit_limb),
        w.var(local.shard),
        w.var(local.channel),
        w.var(local.is_real),
    )
}

/// The constraints that bind the rows to the public values.
///
/// Every real row is in the public execution shard. The first row starts at
/// the public start pc. The last real row, be it followed by a padding row
/// or be it the last row of the table, ends at the public next pc.
pub open spec fn public_values_constraints(
    local: CpuCols<Var>,
    next: CpuCols<Var>,
    public_values: PublicValues<Word<Var>, Var>,
    w: Window,
) -> bool {
    &&& eq_when(w.var(local.is_real), w.var(public_values.execution_shard), w.var(local.shard))
    &&& eq_when(w.var(Var::IsFirstRow), w.var(public_values.start_pc), w.var(local.pc))
    &&& eq_when(
        fmul(w.var(Var::IsTransition), fsub(w.var(local.is_real), w.var(next.is_real))),
        w.var(public_values.next_pc),
        w.var(local.next_pc),
    )
    &&& eq_when(
        fmul(w.var(Var::IsLastRow), w.var(local.is_real)),
        w.var(public_values.next_pc),
        w.var(local.next_pc),
    )
}

/// The constraints on the `is_real` column: it is zero or one, one on the
/// first row, and zero after a row on which it is zero.
pub open spec fn is_real_constraints(local: CpuCols<Var>, next: CpuCols<Var>, w: Window) -> bool {
    &&& boolean(w.var(local.is_real))
    &&& eq_when(w.var(Var::IsFirstRow), w.var(local.is_real), 1)
    &&& zero_when(
        fmul(w.var(Var::IsTransition), fsub(1, w.var(local.is_real))),
        w.var(next.is_real),
    )
}

/// The constraints on the operands of a row.
///
/// An immediate operand has the value that the instruction gives. A register
/// operand is read at its place in the cycle: the third operand first, then
/// the second, then the first, which is also written. Register zero only
/// ever holds zero. A branch or a store leaves the first operand as it was.
pub open spec fn register_constraints(local: CpuCols<Var>, is_branch: int, w: Window) -> bool {
    let imm_b = w.var(local.selectors.imm_b);
    let imm_c = w.var(local.selectors.imm_c);
    let shard = w.var(local.shard);
    let clk = w.var(local.clk);
    &&& local.op_b_access.access.value.eq_when(imm_b, local.instruction.op_b, w)
    &&& local.op_c_access.access.value.eq_when(imm_c, local.instruction.op_c, w)
    &&& memory_access_constraints(local.op_b_access.access, fsub(1, imm_b), shard, fadd(clk, 2), w)
    &&& memory_access_constraints(local.op_c_access.access, fsub(1, imm_c), shard, fadd(clk, 1), w)
    &&& local.op_a_access.access.value.zero_when(w.var(local.instruction.op_a_0), w)
    &&& memory_access_constraints(
        local.op_a_access.access,
        w.var(local.is_real),
        shard,
        fadd(clk, 3),
        w,
    )
    &&& local.op_a_access.access.value.eq_when(
        fadd(is_branch, local.selectors.store(w)),
        local.op_a_access.prev_value,
        w,
    )
}

/// The messages of the operands of a row: the three register accesses, and
/// the check that the new value of the first operand is made of bytes.
pub open spec fn register_messages(local: CpuCols<Var>, w: Window) -> Seq<Message> {
    let clk = w.var(local.clk);
    memory_access_messages(
        local.op_b_access.access,
        local.op_b_access.access.value,
        fsub(1, w.var(local.selectors.imm_b)),
        local.shard,
        local.channel,
        fadd(clk, 2),
        w.var(local.instruction.op_b.0[0]),
        w,
    ) + memory_access_messages(
        local.op_c_access.access,
        local.op_c_access.access.value,
        fsub(1, w.var(local.selectors.imm_c)),
        local.shard,
        local.channel,
        fadd(clk, 1),
        w.var(local.instruction.op_c.0[0]),
        w,
    ) + memory_access_messages(
        local.op_a_access.access,
        local.op_a_access.prev_value,
        w.var(local.is_real),
        local.shard,
        local.channel,
        fadd(clk, 3),
        w.var(local.instruction.op_a),
        w,
    ) + word_range_check_messages(
        local.op_a_access.access.value,
        local.shard,
        local.channel,
        w.var(local.is_real),
        w,
    )
}

/// Whether the first `n` selectors have their padding value wherever
/// `padding` is not zero: one for the two immediate flags, which come first,
/// and zero for every other selector.
pub open spec fn selectors_padded(s: OpcodeSelectorCols<Var>, padding: int, w: Window, n: nat) -> bool
    decreases n,
{
    if n == 0 {
        true
    } else {
        let selector = w.var(s.spec_to_array()[n - 1]);
        selectors_padded(s, padding, w, (n - 1) as nat) && if n <= 2 {
            eq_when(padding, selector, 1)
        } else {
            zero_when(padding, selector)
        }
    }
}

/// The multiplicity with which a row is handed to the opcode-specific
/// table: one on a branch, jump, load, store, AUIPC or system call.
pub open spec fn dispatch_multiplicity(local: CpuCols<Var>, w: Window) -> int {
    fadd(
        fadd(
            fadd(fadd(local.selectors.branch(w), local.selectors.jump(w)), local.selectors.memory(w)),
            w.var(local.selectors.is_auipc),
        ),
        w.var(local.selectors.is_ecall),
    )
}

/// The scalar columns of the tuple that hands a row to the opcode-specific
/// table.
pub open spec fn dispatch_vars(local: CpuCols<Var>) -> DispatchVars {
    DispatchVars {
        clk: local.clk,
        shard: local.shard,
        channel: local.channel,
        pc: local.pc,
        next_pc: local.next_pc,
        op_a_0: local.instruction.op_a_0,
        is_halt: local.is_halt,
    }
}

/// The constraints that chain a row to the next and end the trace.
///
/// A real successor starts at the pc that the row computed. A row that halts
/// or is not implemented has no real successor. A row that halts has the
/// public exit code in its second operand.
pub open spec fn control_constraints(
    local: CpuCols<Var>,
    next: CpuCols<Var>,
    public_values: PublicValues<Word<Var>, Var>,
    w: Window,
) -> bool {
    let transition = w.var(Var::IsTransition);
    &&& eq_when(fmul(transition, w.var(next.is_real)), w.var(local.next_pc), w.var(next.pc))
    &&& zero_when(
        fmul(transition, fadd(w.var(local.is_halt), w.var(local.selectors.is_unimpl))),
        w.var(next.is_real),
    )
    &&& eq_when(
        w.var(local.is_halt),
        local.op_b_access.access.value.reduced(w),
        w.var(public_values.exit_code),
    )
}

/// All constraints of the CPU table: those on the operands, on the channel,
/// on the chaining of rows, on shard and clock, on the public values and on
/// `is_real`, and that on a padding row the selectors have their padding
/// values.
pub open spec fn cpu_constraints(
    local: CpuCols<Var>,
    next: CpuCols<Var>,
    public_values: PublicValues<Word<Var>, Var>,
    w: Window,
) -> bool {
    &&& register_constraints(local, local.selectors.branch(w), w)
    &&& channel_constraints(
        local.channel_selectors,
        next.channel_selectors,
        w.var(local.channel),
        w.var(local.is_real),
        w.var(next.is_real),
        w,
    )
    &&& control_constraints(local, next, public_values, w)
    &&& shard_clk_constraints(local, next, w)
    &&& public_values_constraints(local, next, public_values, w)
    &&& is_real_constraints(local, next, w)
    &&& selectors_padded(local.selectors, fsub(1, w.var(local.is_real)), w, 22)
}

/// The message that fetches the instruction of a row.
pub open spec fn program_message(local: CpuCols<Var>, w: Window) -> Message {
    local_message(
        InteractionKind::Program,
        true,
        program_values(
            w.var(local.pc),
            instruction_values(local.instruction, w),
            selector_values(local.selectors, w),
            w.var(local.shard),
        ),
        w.var(local.is_real),
    )
}

/// The message that hands the operation of a row to an ALU table.
pub open spec fn alu_message(local: CpuCols<Var>, w: Window) -> Message {
    local_message(
        InteractionKind::Alu,
        true,
        alu_values(
            w.var(local.instruction.opcode),
            local.op_a_access.access.value.limbs(w),
            local.op_b_access.access.value.limbs(w),
            local.op_c_access.access.value.limbs(w),
            w.var(local.shard),
            w.var(local.channel),
            w.var(local.nonce),
        ),
        w.var(local.selectors.is_alu),
    )
}

/// The message that hands a row to the opcode-specific table.
pub open spec fn dispatch_message(local: CpuCols<Var>, w: Window) -> Message {
    local_message(
        InteractionKind::Instruction,
        true,
        dispatch_values_of(
            dispatch_vars(local),
            local.selectors,
            local.op_a_access.prev_value,
            local.op_a_access.access.value,
            local.op_b_access.access.value,
            local.op_c_access.access.value,
            w,
        ),
        dispatch_multiplicity(local, w),
    )
}

/// All messages of a row of the CPU table, in the order in which the table
/// states them.
pub open spec fn cpu_messages(local: CpuCols<Var>, w: Window) -> Seq<Message> {
    seq![program_message(local, w)] + register_messages(local, w) + seq![
        alu_message(local, w),
        dispatch_message(local, w),
    ] + shard_clk_messages(local, w)
}

impl CpuChip {
    /// The number of columns of the table.
    pub fn width(&self) -> (r: usize)
        ensures
            r == NUM_CPU_COLS,
    {
        NUM_CPU_COLS
    }

    /// States the constraints on shard and clock.
    pub fn eval_shard_clk(
        &self,
        builder: &mut ConstraintBuilder,
        local: &CpuCols<Var>,
        next: &CpuCols<Var>,
    )
        ensures
            final(builder).constraints@.len() == old(builder).constraints@.len() + 4,
            final(builder).interactions@.len() == old(builder).interactions@.len() + 3,
            forall|w: Window| #[trigger]
                final(builder).holds(w) == (old(builder).holds(w) && shard_clk_constraints(
                    *local,
                    *next,
                    w,
                )),
            forall|w: Window| #[trigger]
                final(builder).messages(w) == old(builder).messages(w) + shard_clk_messages(
                    *local,
                    w,
                ),
    {
        // All rows of a shard have the same shard.
        builder.assert_eq_when(
            builder.is_transition().times(Expr::var(next.is_real)),
            Expr::var(local.shard),
            Expr::var(next.shard),
        );

        // The shard is within 16 bits.
        builder.send_byte(
            ByteOpcode::U16Range,
            Expr::var(local.shard),
            Expr::zero(),
            Expr::zero(),
            local.shard,
            local.channel,
            Expr::var(local.is_real),
        );

        // The first row has clock zero.
        builder.assert_zero_when(builder.is_first_row(), Expr::var(local.clk));

        // The clock grows by four, and by more on some system calls.
        let num_extra_cycles = self.get_num_extra_ecall_cycles(local);
        let expected_next_clk = Expr::var(local.clk).plus(Expr::constant(4)).plus(num_extra_cycles);
        builder.assert_eq_when(
            builder.is_transition().times(Expr::var(next.is_real)),
            expected_next_clk,
            Expr::var(next.clk),
        );

        // The clock is within 24 bits.
        builder.eval_range_check_24bits(
            Expr::var(local.clk),
            local.clk_16bit_limb,
            local.clk_8bit_limb,
            local.shard,
            local.channel,
            Expr::var(local.is_real),
        );
        assert forall|w: Window| #[trigger]
            builder.messages(w) == old(builder).messages(w) + shard_clk_messages(*local, w) by {
            assert(builder.messages(w) =~= old(builder).messages(w) + shard_clk_messages(*local, w));
        }
    }

    /// States the constraints that bind the rows to the public values.
    pub fn eval_public_values(
        &self,
        builder: &mut ConstraintBuilder,
        local: &CpuCols<Var>,
        next: &CpuCols<Var>,
        public_values: &PublicValues<Word<Var>, Var>,
    )
        ensures
            final(builder).constraints@.len() == old(builder).constraints@.len() + 4,
            final(builder).interactions@ == old(builder).interactions@,
            forall|w: Window| #[trigger]
                final(builder).holds(w) == (old(builder).holds(w) && public_values_constraints(
                    *local,
                    *next,
                    *public_values,
                    w,
                )),
    {
        // The shard.
        builder.assert_eq_when(
            Expr::var(local.is_real),
            Expr::var(public_values.execution_shard),
            Expr::var(local.shard),
        );

        // The start pc.
        builder.assert_eq_when(
            builder.is_first_row(),
            Expr::var(public_values.start_pc),
            Expr::var(local.pc),
        );

        // The next pc, where the last real row is followed by a padding row.
        builder.assert_eq_when(
            builder.is_transition().times(Expr::var(local.is_real).minus(Expr::var(next.is_real))),
            Expr::var(public_values.next_pc),
            Expr::var(local.next_pc),
        );

        // The next pc, where the last real row is the last row.
        builder.assert_eq_when(
            builder.is_last_row().times(Expr::var(local.is_real)),
            Expr::var(public_values.next_pc),
            Expr::var(local.next_pc),
        );
    }

    /// States the constraints on the `is_real` column.
    pub fn eval_is_real(
        &self,
        builder: &mut ConstraintBuilder,
        local: &CpuCols<Var>,
        next: &CpuCols<Var>,
    )
        ensures
            final(builder).constraints@.len() == old(builder).constraints@.len() + 3,
            final(builder).interactions@ == old(builder).interactions@,
            forall|w: Window| #[trigger]
                final(builder).holds(w) == (old(builder).holds(w) && is_real_constraints(
                    *local,
                    *next,
                    w,
                )),
    {
        builder.assert_bool(Expr::var(local.is_real));
        builder.assert_one_when(builder.is_first_row(), Expr::var(local.is_real));
        builder.assert_zero_when(
            builder.is_transition().times(Expr::one().minus(Expr::var(local.is_real))),
            Expr::var(next.is_real),
        );
    }

    /// States the constraints and interactions of the operands of a row.
    #[verifier::rlimit(40)]
    pub fn eval_registers(
        &self,
        builder: &mut ConstraintBuilder,
        local: &CpuCols<Var>,
        is_branch_instruction: Expr,
    )
        ensures
            final(builder).interactions@.len() == old(builder).interactions@.len() + 14,
            forall|w: Window| #[trigger]
                final(builder).holds(w) == (old(builder).holds(w) && register_constraints(
                    *local,
                    is_branch_instruction.value(w),
                    w,
                )),
            forall|w: Window| #[trigger]
                final(builder).messages(w) == old(builder).messages(w) + register_messages(
                    *local,
                    w,
                ),
    {
        // An immediate operand has the value that the instruction gives.
        builder.assert_word_eq_when(
            &Expr::var(local.selectors.imm_b),
            &local.op_b_val(),
            &local.instruction.op_b,
        );
        builder.assert_word_eq_when(
            &Expr::var(local.selectors.imm_c),
            &local.op_c_val(),
            &local.instruction.op_c,
        );

        // An operand that is no immediate is read from its register.
        builder.eval_memory_access(
            local.shard,
            local.channel,
            Expr::var(local.clk).plus(Expr::constant(2)),
            Expr::var(local.instruction.op_b.0[0]),
            &local.op_b_access.value(),
            &local.op_b_access.access,
            Expr::one().minus(Expr::var(local.selectors.imm_b)),
        );
        builder.eval_memory_access(
            local.shard,
            local.channel,
            Expr::var(local.clk).plus(Expr::constant(1)),
            Expr::var(local.instruction.op_c.0[0]),
            &local.op_c_access.value(),
            &local.op_c_access.access,
            Expr::one().minus(Expr::var(local.selectors.imm_c)),
        );

        // What is written to register zero is zero.
        builder.assert_word_zero_when(&Expr::var(local.instruction.op_a_0), &local.op_a_val());

        // The first operand is read and written.
        builder.eval_memory_access(
            local.shard,
            local.channel,
            Expr::var(local.clk).plus(Expr::constant(3)),
            Expr::var(local.instruction.op_a),
            &local.op_a_access.prev_value(),
            &local.op_a_access.access,
            Expr::var(local.is_real),
        );

        // The new value of the first operand is made of bytes, whatever the
        // instruction was.
        builder.word_range_check_u8(
            &local.op_a_val(),
            local.shard,
            local.channel,
            Expr::var(local.is_real),
        );

        // A branch or a store leaves the first operand as it was.
        builder.assert_word_eq_when(
            &is_branch_instruction.plus(local.selectors.is_store_instruction()),
            &local.op_a_val(),
            &local.op_a_prev_val(),
        );
        assert forall|w: Window| #[trigger]
            builder.messages(w) == old(builder).messages(w) + register_messages(*local, w) by {
            assert(builder.messages(w) =~= old(builder).messages(w) + register_messages(*local, w));
        }
    }

    /// States that on a padding row every selector has its padding value.
    fn eval_padding(&self, builder: &mut ConstraintBuilder, local: &CpuCols<Var>)
        ensures
            final(builder).interactions@ == old(builder).interactions@,
            forall|w: Window| #[trigger]
                final(builder).holds(w) == (old(builder).holds(w) && selectors_padded(
                    local.selectors,
                    fsub(1, w.var(local.is_real)),
                    w,
                    22,
                )),
    {
        let selectors = local.selectors.to_array();
        let mut i: usize = 0;
        while i < NUM_OPCODE_SELECTORS
            invariant
                i <= 22,
                selectors == local.selectors.spec_to_array(),
                builder.interactions@ == old(builder).interactions@,
                forall|w: Window| #[trigger]
                    all_zero(builder.constraints@, w) == (all_zero(old(builder).constraints@, w)
                        && selectors_padded(
                        local.selectors,
                        fsub(1, w.var(local.is_real)),
                        w,
                        i as nat,
                    )),
            decreases 22 - i,
        {
            let padding = Expr::one().minus(Expr::var(local.is_real));
            if i < 2 {
                builder.assert_one_when(padding, Expr::var(selectors[i]));
            } else {
                builder.assert_zero_when(padding, Expr::var(selectors[i]));
            }
            i += 1;
        }
    }

    /// Hands an ALU instruction to the table that checks it.
    fn eval_alu(&self, builder: &mut ConstraintBuilder, local: &CpuCols<Var>)
        ensures
            final(builder).constraints@ == old(builder).constraints@,
            final(builder).interactions@.len() == old(builder).interactions@.len() + 1,
            forall|w: Window| #[trigger]
                final(builder).messages(w) == old(builder).messages(w).push(alu_message(*local, w)),
    {
        let is_alu_instruction = local.selectors.is_alu_instruction();
        builder.send_alu(
            Expr::var(local.instruction.opcode),
            &local.op_a_val().exprs(),
            &local.op_b_val().exprs(),
            &local.op_c_val().exprs(),
            local.shard,
            local.channel,
            local.nonce,
            is_alu_instruction,
        );
    }

    /// One on the rows that the opcode-specific table checks: branches,
    /// jumps, loads, stores, AUIPC and system calls.
    fn is_dispatched(&self, local: &CpuCols<Var>) -> (r: Expr)
        ensures
            forall|w: Window| #[trigger] r.value(w) == dispatch_multiplicity(*local, w),
    {
        let is_memory_instruction = local.selectors.is_memory_instruction();
        let is_branch_instruction = local.selectors.is_branch_instruction();
        let is_jump_instruction = local.selectors.is_jump_instruction();
        is_branch_instruction.plus(is_jump_instruction).plus(is_memory_instruction).plus(
            Expr::var(local.selectors.is_auipc),
        ).plus(Expr::var(local.selectors.is_ecall))
    }

    /// Hands the row to the opcode-specific table, which checks branches,
    /// jumps, loads, stores, AUIPC and system calls, and says what
    /// `next_pc` is.
    fn eval_instruction(&self, builder: &mut ConstraintBuilder, local: &CpuCols<Var>)
        ensures
            final(builder).constraints@ == old(builder).constraints@,
            final(builder).interactions@.len() == old(builder).interactions@.len() + 1,
            forall|w: Window| #[trigger]
                final(builder).messages(w) == old(builder).messages(w).push(
                    dispatch_message(*local, w),
                ),
    {
        let scalars = DispatchVars {
            clk: local.clk,
            shard: local.shard,
            channel: local.channel,
            pc: local.pc,
            next_pc: local.next_pc,
            op_a_0: local.instruction.op_a_0,
            is_halt: local.is_halt,
        };
        builder.send_instruction(
            &scalars,
            &local.selectors,
            &local.op_a_prev_val(),
            &local.op_a_val(),
            &local.op_b_val(),
            &local.op_c_val(),
            self.is_dispatched(local),
        );
    }

    /// Hands the row to the table that checks its instruction: to an ALU
    /// table, or to the opcode-specific table.
    fn eval_dispatch(&self, builder: &mut ConstraintBuilder, local: &CpuCols<Var>)
        ensures
            final(builder).constraints@ == old(builder).constraints@,
            final(builder).interactions@.len() == old(builder).interactions@.len() + 2,
            forall|w: Window| #[trigger]
                final(builder).messages(w) == old(builder).messages(w) + seq![
                    alu_message(*local, w),
                    dispatch_message(*local, w),
                ],
    {
        self.eval_alu(builder, local);
        self.eval_instruction(builder, local);
        assert forall|w: Window| #[trigger]
            builder.messages(w) == old(builder).messages(w) + seq![
                alu_message(*local, w),
                dispatch_message(*local, w),
            ] by {
            let before = old(builder).messages(w);
            assert(before.push(alu_message(*local, w)).push(dispatch_message(*local, w))
                =~= before + seq![alu_message(*local, w), dispatch_message(*local, w)]);
        }
    }

    /// States how a row is chained to the next, and what a halt requires.
    fn eval_control(
        &self,
        builder: &mut ConstraintBuilder,
        local: &CpuCols<Var>,
        next: &CpuCols<Var>,
        public_values: &PublicValues<Word<Var>, Var>,
    )
        ensures
            final(builder).interactions@ == old(builder).interactions@,
            forall|w: Window| #[trigger]
                final(builder).holds(w) == (old(builder).holds(w) && control_constraints(
                    *local,
                    *next,
                    *public_values,
                    w,
                )),
    {
        // A real successor starts where this row ends.
        builder.assert_eq_when(
            builder.is_transition().times(Expr::var(next.is_real)),
            Expr::var(local.next_pc),
            Expr::var(next.pc),
        );

        // After a halt, or an instruction that is not implemented, no real
        // row follows.
        builder.assert_zero_when(
            builder.is_transition().times(
                Expr::var(local.is_halt).plus(Expr::var(local.selectors.is_unimpl)),
            ),
            Expr::var(next.is_real),
        );

        // A halt exits with the public exit code.
        builder.assert_eq_when(
            Expr::var(local.is_halt),
            local.op_b_val().reduce(),
            Expr::var(public_values.exit_code),
        );
    }

    /// States every constraint and every interaction of the CPU table.
    ///
    /// The columns of the current row are the first `NUM_CPU_COLS` columns of
    /// the window, those of the next row likewise.
    #[verifier::rlimit(40)]
    pub fn eval(&self, builder: &mut ConstraintBuilder)
        ensures
            final(builder).interactions@.len() == old(builder).interactions@.len() + 20,
            forall|w: Window| #[trigger]
                final(builder).holds(w) == (old(builder).holds(w) && cpu_constraints(
                    CpuCols::<Var>::spec_at(false, 0),
                    CpuCols::<Var>::spec_at(true, 0),
                    PublicValues::<Word<Var>, Var>::spec_vars(),
                    w,
                )),
            forall|w: Window| #[trigger]
                final(builder).messages(w) == old(builder).messages(w) + cpu_messages(
                    CpuCols::<Var>::spec_at(false, 0),
                    w,
                ),
    {
        let local = CpuCols::<Var>::at(false, 0);
        let next = CpuCols::<Var>::at(true, 0);
        let public_values = PublicValues::<Word<Var>, Var>::vars();

        // The instruction is the one that the program has at `pc`.
        builder.send_program(
            local.pc,
            &local.instruction,
            &local.selectors,
            local.shard,
            Expr::var(local.is_real),
        );

        // The operands.
        self.eval_registers(builder, &local, local.selectors.is_branch_instruction());

        // The channel.
        eval_channel_selectors(
            builder,
            &local.channel_selectors,
            &next.channel_selectors,
            local.channel,
            local.is_real,
            next.is_real,
        );

        // ALU instructions go to the ALU tables, the others to the
        // opcode-specific table.

        // ALU instructions go to the ALU tables, the others to the
        // opcode-specific table.
        self.eval_dispatch(builder, &local);

        // The chaining of rows, and halting.
        self.eval_control(builder, &local, &next, &public_values);

        // Shard and clock.
        self.eval_shard_clk(builder, &local, &next);

        // Public values.
        self.eval_public_values(builder, &local, &next, &public_values);

        // The `is_real` column.
        self.eval_is_real(builder, &local, &next);

        // A padding row takes part in no interaction.
        self.eval_padding(builder, &local);

        assert forall|w: Window| #[trigger]
            builder.messages(w) == old(builder).messages(w) + cpu_messages(local, w) by {
            assert(builder.messages(w) =~= old(builder).messages(w) + cpu_messages(local, w));
        }
    }

    /// The number of extra cycles of a row, as an expression.
    pub fn get_num_extra_ecall_cycles(&self, local: &CpuCols<Var>) -> (r: Expr)
        ensures
            forall|w: Window| #[trigger] r.value(w) == num_extra_ecall_cycles(*local, w),
    {
        let is_ecall_instruction = local.selectors.is_ecall_instruction();

        // The system call code is the value of the first operand at the
        // start of the cycle.
        let syscall_code = local.op_a_access.prev_value();

        let num_extra_cycles = Expr::var(syscall_code.0[2]);

        num_extra_cycles.times(is_ecall_instruction)
    }
}

} // verus!
