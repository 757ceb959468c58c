//! AUIPC: the first operand becomes the sum of the program counter and the
//! second operand.

use crate::air_builder::{alu_values, local_message};
use crate::builder::{eq_when, ConstraintBuilder};
use crate::cpu::opcode_air::CpuOpcodeSpecificChip;
use crate::cpu::opcode_cols::CpuOpcodeSpecificCols;
use crate::expr::{Expr, Var, Window};
use crate::interaction::{InteractionKind, Message};
use crate::opcode::Opcode;
use crate::operations::{word_range_constraints, BabyBearWordRangeChecker};
use vstd::prelude::*;

verus! {

/// The constraints of AUIPC: on an AUIPC row the word form of the program
/// counter stands for the program counter, and is below the order of the
/// field.
pub open spec fn auipc_constraints(local: CpuOpcodeSpecificCols<Var>, w: Window) -> bool {
    let auipc = local.opcode_specific_columns.spec_auipc();
    let is_auipc = w.var(local.selectors.is_auipc);
    &&& eq_when(is_auipc, auipc.pc.reduced(w), w.var(local.pc))
    &&& word_range_constraints(auipc.pc, auipc.pc_range_checker, is_auipc, w)
}

/// The message of AUIPC: the addition `op_a = pc + op_b`, sent to the ALU
/// table on an AUIPC row.
pub open spec fn auipc_message(local: CpuOpcodeSpecificCols<Var>, w: Window) -> Message {
    let auipc = local.opcode_specific_columns.spec_auipc();
    local_message(
        InteractionKind::Alu,
        true,
        alu_values(
            Opcode::ADD.spec_code(),
            local.op_a_val.limbs(w),
            auipc.pc.limbs(w),
            local.op_b_val.limbs(w),
            w.var(local.shard),
            w.var(local.channel),
            w.var(auipc.auipc_nonce),
        ),
        w.var(local.selectors.is_auipc),
    )
}

impl CpuOpcodeSpecificChip {
    /// States the constraints and the interaction of AUIPC.
    pub fn eval_auipc(&self, builder: &mut ConstraintBuilder, local: &CpuOpcodeSpecificCols<Var>)
        ensures
            final(builder).interactions@.len() == old(builder).interactions@.len() + 1,
            forall|w: Window| #[trigger]
                final(builder).holds(w) == (old(builder).holds(w) && auipc_constraints(*local, w)),
            forall|w: Window| #[trigger]
                final(builder).messages(w) == old(builder).messages(w).push(
                    auipc_message(*local, w),
                ),
    {
        // The AUIPC columns.
        let auipc_columns = local.opcode_specific_columns.auipc();

        // The word form of the pc stands for the pc.
        builder.assert_eq_when(
            Expr::var(local.selectors.is_auipc),
            auipc_columns.pc.reduce(),
            Expr::var(local.pc),
        );

        // The word form of the pc is below the order of the field.
        BabyBearWordRangeChecker::<Var>::range_check(
            builder,
            &auipc_columns.pc,
            &auipc_columns.pc_range_checker,
            Expr::var(local.selectors.is_auipc),
        );

        // op_a == pc + op_b.
        builder.send_alu(
            Expr::constant(Opcode::ADD.code()),
            &local.op_a_val.exprs(),
            &auipc_columns.pc.exprs(),
            &local.op_b_val.exprs(),
            local.shard,
            local.channel,
            auipc_columns.auipc_nonce,
            Expr::var(local.selectors.is_auipc),
        );
    }
}

} // verus!
