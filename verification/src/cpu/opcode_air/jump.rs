//! Jumps: the first operand receives the address of the next instruction,
//! and the program counter moves to the target.

use crate::air_builder::{alu_values, local_message};
use crate::builder::{eq_when, ConstraintBuilder};
use crate::cpu::opcode_air::CpuOpcodeSpecificChip;
use crate::cpu::opcode_cols::CpuOpcodeSpecificCols;
use crate::expr::{Expr, Var, Window};
use crate::field::{fadd, fmul, fsub};
use crate::interaction::{InteractionKind, Message};
use crate::opcode::Opcode;
use crate::operations::{word_range_constraints, BabyBearWordRangeChecker};
use vstd::prelude::*;

verus! {

/// The constraints on the link of a jump: unless the first operand is
/// register zero it is `pc + 4`, and it is below the order of the field.
pub open spec fn jump_link_constraints(local: CpuOpcodeSpecificCols<Var>, w: Window) -> bool {
    let jump = local.opcode_specific_columns.spec_jump();
    let is_jump = local.selectors.jump(w);
    &&& eq_when(
        fmul(is_jump, fsub(1, w.var(local.op_a_0))),
        local.op_a_val.reduced(w),
        fadd(w.var(local.pc), 4),
    )
    &&& word_range_constraints(local.op_a_val, jump.op_a_range_checker, is_jump, w)
}

/// The constraints on the program counter of a jump: the word forms of the
/// program counter and of the target are below the order of the field; on
/// JAL the first stands for the program counter; on a real row the second
/// stands for `next_pc`.
pub open spec fn jump_pc_constraints(local: CpuOpcodeSpecificCols<Var>, w: Window) -> bool {
    let jump = local.opcode_specific_columns.spec_jump();
    let is_jump = local.selectors.jump(w);
    &&& word_range_constraints(jump.pc, jump.pc_range_checker, is_jump, w)
    &&& word_range_constraints(jump.next_pc, jump.next_pc_range_checker, is_jump, w)
    &&& eq_when(w.var(local.selectors.is_jal), jump.pc.reduced(w), w.var(local.pc))
    &&& eq_when(fmul(w.var(local.is_real), is_jump), jump.next_pc.reduced(w), w.var(local.next_pc))
}

/// All constraints of a jump.
pub open spec fn jump_constraints(local: CpuOpcodeSpecificCols<Var>, w: Window) -> bool {
    &&& jump_link_constraints(local, w)
    &&& jump_pc_constraints(local, w)
}

/// The messages of a jump, sent to the ALU table: on JAL the addition
/// `next_pc = pc + op_b`, on JALR the addition `next_pc = op_b + op_c`.
pub open spec fn jump_messages(local: CpuOpcodeSpecificCols<Var>, w: Window) -> Seq<Message> {
    let jump = local.opcode_specific_columns.spec_jump();
    seq![
        local_message(
            InteractionKind::Alu,
            true,
            alu_values(
                Opcode::ADD.spec_code(),
                jump.next_pc.limbs(w),
                jump.pc.limbs(w),
                local.op_b_val.limbs(w),
                w.var(local.shard),
                w.var(local.channel),
                w.var(jump.jal_nonce),
            ),
            w.var(local.selectors.is_jal),
        ),
        local_message(
            InteractionKind::Alu,
            true,
            alu_values(
                Opcode::ADD.spec_code(),
                jump.next_pc.limbs(w),
                local.op_b_val.limbs(w),
                local.op_c_val.limbs(w),
                w.var(local.shard),
                w.var(local.channel),
                w.var(jump.jalr_nonce),
            ),
            w.var(local.selectors.is_jalr),
        ),
    ]
}

impl CpuOpcodeSpecificChip {
    /// States the constraints on the link of a jump.
    fn eval_jump_link(&self, builder: &mut ConstraintBuilder, local: &CpuOpcodeSpecificCols<Var>)
        ensures
            final(builder).interactions@ == old(builder).interactions@,
            forall|w: Window| #[trigger]
                final(builder).holds(w) == (old(builder).holds(w) && jump_link_constraints(
                    *local,
                    w,
                )),
    {
        let jump_columns = local.opcode_specific_columns.jump();
        let is_jump_instruction = local.selectors.is_jump_instruction();

        // The address of the next instruction is saved in op_a. A jump whose
        // op_a is register zero saves nothing.
        builder.assert_eq_when(
            is_jump_instruction.clone().times(Expr::one().minus(Expr::var(local.op_a_0))),
            local.op_a_val.reduce(),
            Expr::var(local.pc).plus(Expr::constant(4)),
        );

        // The link is below the order of the field.
        BabyBearWordRangeChecker::<Var>::range_check(
            builder,
            &local.op_a_val,
            &jump_columns.op_a_range_checker,
            is_jump_instruction,
        );
    }

    /// States the constraints on the program counter of a jump.
    fn eval_jump_pc(&self, builder: &mut ConstraintBuilder, local: &CpuOpcodeSpecificCols<Var>)
        ensures
            final(builder).interactions@ == old(builder).interactions@,
            forall|w: Window| #[trigger]
                final(builder).holds(w) == (old(builder).holds(w) && jump_pc_constraints(*local, w)),
    {
        let jump_columns = local.opcode_specific_columns.jump();
        let is_jump_instruction = local.selectors.is_jump_instruction();

        // Both word forms are below the order of the field.
        BabyBearWordRangeChecker::<Var>::range_check(
            builder,
            &jump_columns.pc,
            &jump_columns.pc_range_checker,
            is_jump_instruction.clone(),
        );
        BabyBearWordRangeChecker::<Var>::range_check(
            builder,
            &jump_columns.next_pc,
            &jump_columns.next_pc_range_checker,
            is_jump_instruction.clone(),
        );

        // On JAL the word form of the pc stands for the pc.
        builder.assert_eq_when(
            Expr::var(local.selectors.is_jal),
            jump_columns.pc.reduce(),
            Expr::var(local.pc),
        );

        // On a real jump the word form of the target stands for the next pc.
        builder.assert_eq_when(
            Expr::var(local.is_real).times(is_jump_instruction),
            jump_columns.next_pc.reduce(),
            Expr::var(local.next_pc),
        );
    }

    /// States the constraints and interactions of the jumps.
    pub fn eval_jump_ops(&self, builder: &mut ConstraintBuilder, local: &CpuOpcodeSpecificCols<Var>)
        ensures
            final(builder).interactions@.len() == old(builder).interactions@.len() + 2,
            forall|w: Window| #[trigger]
                final(builder).holds(w) == (old(builder).holds(w) && jump_constraints(*local, w)),
            forall|w: Window| #[trigger]
                final(builder).messages(w) == old(builder).messages(w) + jump_messages(*local, w),
    {
        let jump_columns = local.opcode_specific_columns.jump();
        self.eval_jump_link(builder, local);
        self.eval_jump_pc(builder, local);

        // The target of JAL is pc + op_b.
        builder.send_alu(
            Expr::constant(Opcode::ADD.code()),
            &jump_columns.next_pc.exprs(),
            &jump_columns.pc.exprs(),
            &local.op_b_val.exprs(),
            local.shard,
            local.channel,
            jump_columns.jal_nonce,
            Expr::var(local.selectors.is_jal),
        );

        // The target of JALR is op_b + op_c.
        builder.send_alu(
            Expr::constant(Opcode::ADD.code()),
            &jump_columns.next_pc.exprs(),
            &local.op_b_val.exprs(),
            &local.op_c_val.exprs(),
            local.shard,
            local.channel,
            jump_columns.jalr_nonce,
            Expr::var(local.selectors.is_jalr),
        );
        assert forall|w: Window| #[trigger]
            builder.messages(w) == old(builder).messages(w) + jump_messages(*local, w) by {
            assert(builder.messages(w) =~= old(builder).messages(w) + jump_messages(*local, w));
        }
    }
}

} // verus!
