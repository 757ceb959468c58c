//! Branches: a comparison of the first two operands decides whether the
//! program counter moves by the third operand or by four.

use crate::air_builder::{alu_values, local_message};
use crate::builder::{boolean_when, eq_when, ConstraintBuilder};
use crate::cpu::opcode_air::CpuOpcodeSpecificChip;
use crate::cpu::opcode_cols::CpuOpcodeSpecificCols;
use crate::expr::{Expr, Var, Window};
use crate::field::{fadd, fmul, fsub};
use crate::interaction::{InteractionKind, Message};
use crate::opcode::Opcode;
use crate::operations::{word_range_constraints, BabyBearWordRangeChecker};
use crate::word::Word;
use vstd::prelude::*;

verus! {

/// The constraints on the program counter of a branch.
///
/// On a branch the word form of the program counter stands for the program
/// counter, and it and the word form of the target are below the order of
/// the field. On a real row that takes the branch, `next_pc` is the target;
/// on a real row that does not, `next_pc` is `pc + 4`.
pub open spec fn branch_pc_constraints(local: CpuOpcodeSpecificCols<Var>, is_branch: int, w: Window) -> bool {
    let branch = local.opcode_specific_columns.spec_branch();
    let is_real = w.var(local.is_real);
    &&& eq_when(is_branch, branch.pc.reduced(w), w.var(local.pc))
    &&& eq_when(fmul(is_real, w.var(local.branching)), branch.next_pc.reduced(w), w.var(local.next_pc))
    &&& word_range_constraints(branch.pc, branch.pc_range_checker, is_branch, w)
    &&& word_range_constraints(branch.next_pc, branch.next_pc_range_checker, is_branch, w)
    &&& eq_when(
        fmul(is_real, w.var(local.not_branching)),
        fadd(w.var(local.pc), 4),
        w.var(local.next_pc),
    )
}

/// The constraints on the two outcome flags of a branch: a row that does not
/// take a branch is real, and on a branch the flags are booleans of which
/// exactly one is set.
pub open spec fn branch_flag_constraints(local: CpuOpcodeSpecificCols<Var>, is_branch: int, w: Window) -> bool {
    let branching = w.var(local.branching);
    let not_branching = w.var(local.not_branching);
    &&& eq_when(not_branching, w.var(local.is_real), 1)
    &&& eq_when(is_branch, fadd(branching, not_branching), 1)
    &&& boolean_when(is_branch, branching)
    &&& boolean_when(is_branch, not_branching)
}

/// The constraints that tie the outcome of BEQ and BNE to the comparison of
/// the operands.
pub open spec fn branch_equality_constraints(local: CpuOpcodeSpecificCols<Var>, w: Window) -> bool {
    let branch = local.opcode_specific_columns.spec_branch();
    let branching = w.var(local.branching);
    let not_taken = fsub(1, branching);
    let is_beq = w.var(local.selectors.is_beq);
    let is_bne = w.var(local.selectors.is_bne);
    let unequal = fadd(w.var(branch.a_gt_b), w.var(branch.a_lt_b));
    &&& eq_when(fmul(is_beq, branching), w.var(branch.a_eq_b), 1)
    &&& eq_when(fmul(is_beq, not_taken), unequal, 1)
    &&& eq_when(fmul(is_bne, branching), unequal, 1)
    &&& eq_when(fmul(is_bne, not_taken), w.var(branch.a_eq_b), 1)
}

/// The constraints that tie the outcome of BLT, BLTU, BGE and BGEU to the
/// comparison of the operands.
pub open spec fn branch_order_constraints(local: CpuOpcodeSpecificCols<Var>, w: Window) -> bool {
    let branch = local.opcode_specific_columns.spec_branch();
    let branching = w.var(local.branching);
    let not_taken = fsub(1, branching);
    let is_less = fadd(w.var(local.selectors.is_blt), w.var(local.selectors.is_bltu));
    let is_not_less = fadd(w.var(local.selectors.is_bge), w.var(local.selectors.is_bgeu));
    let not_less = fadd(w.var(branch.a_eq_b), w.var(branch.a_gt_b));
    &&& eq_when(fmul(is_less, branching), w.var(branch.a_lt_b), 1)
    &&& eq_when(fmul(is_less, not_taken), not_less, 1)
    &&& eq_when(fmul(is_not_less, branching), not_less, 1)
    &&& eq_when(fmul(is_not_less, not_taken), w.var(branch.a_lt_b), 1)
}

/// All constraints of a branch.
pub open spec fn branch_constraints(local: CpuOpcodeSpecificCols<Var>, is_branch: int, w: Window) -> bool {
    let branch = local.opcode_specific_columns.spec_branch();
    &&& branch_pc_constraints(local, is_branch, w)
    &&& branch_flag_constraints(local, is_branch, w)
    &&& branch_equality_constraints(local, w)
    &&& branch_order_constraints(local, w)
    &&& local.op_a_val.eq_when(fmul(is_branch, w.var(branch.a_eq_b)), local.op_b_val, w)
}

/// The opcode of the comparison of a branch: SLT for the signed branches,
/// SLTU for the others.
pub open spec fn comparison_opcode(local: CpuOpcodeSpecificCols<Var>, w: Window) -> int {
    let signed = fadd(w.var(local.selectors.is_blt), w.var(local.selectors.is_bge));
    fadd(fmul(signed, Opcode::SLT.spec_code()), fmul(fsub(1, signed), Opcode::SLTU.spec_code()))
}

/// The messages of a branch: the addition `next_pc = pc + op_c` on a branch
/// that is taken, and on every branch the two comparisons `a < b` and
/// `b < a`, all sent to the ALU tables.
pub open spec fn branch_messages(local: CpuOpcodeSpecificCols<Var>, is_branch: int, w: Window) -> Seq<Message> {
    let branch = local.opcode_specific_columns.spec_branch();
    seq![
        local_message(
            InteractionKind::Alu,
            true,
            alu_values(
                Opcode::ADD.spec_code(),
                branch.next_pc.limbs(w),
                branch.pc.limbs(w),
                local.op_c_val.limbs(w),
                w.var(local.shard),
                w.var(local.channel),
                w.var(branch.next_pc_nonce),
            ),
            w.var(local.branching),
        ),
        local_message(
            InteractionKind::Alu,
            true,
            alu_values(
                comparison_opcode(local, w),
                seq![w.var(branch.a_lt_b), 0, 0, 0],
                local.op_a_val.limbs(w),
                local.op_b_val.limbs(w),
                w.var(local.shard),
                w.var(local.channel),
                w.var(branch.a_lt_b_nonce),
            ),
            is_branch,
        ),
        local_message(
            InteractionKind::Alu,
            true,
            alu_values(
                comparison_opcode(local, w),
                seq![w.var(branch.a_gt_b), 0, 0, 0],
                local.op_b_val.limbs(w),
                local.op_a_val.limbs(w),
                w.var(local.shard),
                w.var(local.channel),
                w.var(branch.a_gt_b_nonce),
            ),
            is_branch,
        ),
    ]
}

impl CpuOpcodeSpecificChip {
    /// States the constraints on the program counter of a branch.
    fn eval_branch_pc(
        &self,
        builder: &mut ConstraintBuilder,
        is_branch_instruction: &Expr,
        local: &CpuOpcodeSpecificCols<Var>,
    )
        ensures
            final(builder).interactions@ == old(builder).interactions@,
            forall|w: Window| #[trigger]
                final(builder).holds(w) == (old(builder).holds(w) && branch_pc_constraints(
                    *local,
                    is_branch_instruction.value(w),
                    w,
                )),
    {
        let branch_cols = local.opcode_specific_columns.branch();

        // The word form of the pc stands for the pc.
        builder.assert_eq_when(
            is_branch_instruction.clone(),
            branch_cols.pc.reduce(),
            Expr::var(local.pc),
        );

        // On a real row that takes the branch, the next pc is the target.
        builder.assert_eq_when(
            Expr::var(local.is_real).times(Expr::var(local.branching)),
            branch_cols.next_pc.reduce(),
            Expr::var(local.next_pc),
        );

        // Both word forms are below the order of the field.
        BabyBearWordRangeChecker::<Var>::range_check(
            builder,
            &branch_cols.pc,
            &branch_cols.pc_range_checker,
            is_branch_instruction.clone(),
        );
        BabyBearWordRangeChecker::<Var>::range_check(
            builder,
            &branch_cols.next_pc,
            &branch_cols.next_pc_range_checker,
            is_branch_instruction.clone(),
        );

        // On a real row that does not take the branch, the next pc is pc + 4.
        builder.assert_eq_when(
            Expr::var(local.is_real).times(Expr::var(local.not_branching)),
            Expr::var(local.pc).plus(Expr::constant(4)),
            Expr::var(local.next_pc),
        );
    }

    /// States the constraints on the two outcome flags of a branch.
    fn eval_branch_flags(
        &self,
        builder: &mut ConstraintBuilder,
        is_branch_instruction: &Expr,
        local: &CpuOpcodeSpecificCols<Var>,
    )
        ensures
            final(builder).interactions@ == old(builder).interactions@,
            forall|w: Window| #[trigger]
                final(builder).holds(w) == (old(builder).holds(w) && branch_flag_constraints(
                    *local,
                    is_branch_instruction.value(w),
                    w,
                )),
    {
        // A row that does not take a branch is real.
        builder.assert_one_when(Expr::var(local.not_branching), Expr::var(local.is_real));

        // A branch is taken or not taken.
        builder.assert_one_when(
            is_branch_instruction.clone(),
            Expr::var(local.branching).plus(Expr::var(local.not_branching)),
        );
        builder.assert_bool_when(is_branch_instruction.clone(), Expr::var(local.branching));
        builder.assert_bool_when(is_branch_instruction.clone(), Expr::var(local.not_branching));
    }

    /// States how the outcome of BEQ and BNE follows from the comparison.
    fn eval_branch_equality(&self, builder: &mut ConstraintBuilder, local: &CpuOpcodeSpecificCols<Var>)
        ensures
            final(builder).interactions@ == old(builder).interactions@,
            forall|w: Window| #[trigger]
                final(builder).holds(w) == (old(builder).holds(w) && branch_equality_constraints(
                    *local,
                    w,
                )),
    {
        let branch_cols = local.opcode_specific_columns.branch();
        let not_taken = Expr::one().minus(Expr::var(local.branching));

        // BEQ is taken if the operands are equal.
        builder.assert_one_when(
            Expr::var(local.selectors.is_beq).times(Expr::var(local.branching)),
            Expr::var(branch_cols.a_eq_b),
        );

        // BEQ is not taken if one operand is greater than the other.
        builder.assert_one_when(
            Expr::var(local.selectors.is_beq).times(not_taken.clone()),
            Expr::var(branch_cols.a_gt_b).plus(Expr::var(branch_cols.a_lt_b)),
        );

        // BNE is taken if one operand is greater than the other.
        builder.assert_one_when(
            Expr::var(local.selectors.is_bne).times(Expr::var(local.branching)),
            Expr::var(branch_cols.a_gt_b).plus(Expr::var(branch_cols.a_lt_b)),
        );

        // BNE is not taken if the operands are equal.
        builder.assert_one_when(
            Expr::var(local.selectors.is_bne).times(not_taken),
            Expr::var(branch_cols.a_eq_b),
        );
    }

    /// States how the outcome of BLT, BLTU, BGE and BGEU follows from the
    /// comparison.
    fn eval_branch_order(&self, builder: &mut ConstraintBuilder, local: &CpuOpcodeSpecificCols<Var>)
        ensures
            final(builder).interactions@ == old(builder).interactions@,
            forall|w: Window| #[trigger]
                final(builder).holds(w) == (old(builder).holds(w) && branch_order_constraints(
                    *local,
                    w,
                )),
    {
        let branch_cols = local.opcode_specific_columns.branch();
        let not_taken = Expr::one().minus(Expr::var(local.branching));
        let is_less = Expr::var(local.selectors.is_blt).plus(Expr::var(local.selectors.is_bltu));
        let is_not_less = Expr::var(local.selectors.is_bge).plus(Expr::var(local.selectors.is_bgeu));

        // BLT and BLTU are taken if a < b.
        builder.assert_one_when(
            is_less.clone().times(Expr::var(local.branching)),
            Expr::var(branch_cols.a_lt_b),
        );

        // BLT and BLTU are not taken if a >= b.
        builder.assert_one_when(
            is_less.times(not_taken.clone()),
            Expr::var(branch_cols.a_eq_b).plus(Expr::var(branch_cols.a_gt_b)),
        );

        // BGE and BGEU are taken if a >= b.
        builder.assert_one_when(
            is_not_less.clone().times(Expr::var(local.branching)),
            Expr::var(branch_cols.a_eq_b).plus(Expr::var(branch_cols.a_gt_b)),
        );

        // BGE and BGEU are not taken if a < b.
        builder.assert_one_when(is_not_less.times(not_taken), Expr::var(branch_cols.a_lt_b));
    }

    /// The opcode of the comparison of a branch, as an expression.
    fn branch_comparison_opcode(&self, local: &CpuOpcodeSpecificCols<Var>) -> (r: Expr)
        ensures
            forall|w: Window| #[trigger] r.value(w) == comparison_opcode(*local, w),
    {
        let use_signed_comparison = Expr::var(local.selectors.is_blt).plus(
            Expr::var(local.selectors.is_bge),
        );
        use_signed_comparison.clone().times(Expr::constant(Opcode::SLT.code())).plus(
            Expr::one().minus(use_signed_comparison).times(Expr::constant(Opcode::SLTU.code())),
        )
    }

    /// Sends the addition and the two comparisons of a branch to the ALU
    /// tables.
    #[verifier::rlimit(40)]
    fn eval_branch_sends(
        &self,
        builder: &mut ConstraintBuilder,
        is_branch_instruction: &Expr,
        local: &CpuOpcodeSpecificCols<Var>,
    )
        ensures
            final(builder).constraints@ == old(builder).constraints@,
            final(builder).interactions@.len() == old(builder).interactions@.len() + 3,
            forall|w: Window| #[trigger]
                final(builder).messages(w) == old(builder).messages(w) + branch_messages(
                    *local,
                    is_branch_instruction.value(w),
                    w,
                ),
    {
        let branch_cols = local.opcode_specific_columns.branch();

        // next_pc == pc + op_c on a branch that is taken.
        builder.send_alu(
            Expr::constant(Opcode::ADD.code()),
            &branch_cols.next_pc.exprs(),
            &branch_cols.pc.exprs(),
            &local.op_c_val.exprs(),
            local.shard,
            local.channel,
            branch_cols.next_pc_nonce,
            Expr::var(local.branching),
        );

        // a_lt_b == (a < b), signed or unsigned as the branch is.
        builder.send_alu(
            self.branch_comparison_opcode(local),
            &Word::<Expr>::extend(Expr::var(branch_cols.a_lt_b)),
            &local.op_a_val.exprs(),
            &local.op_b_val.exprs(),
            local.shard,
            local.channel,
            branch_cols.a_lt_b_nonce,
            is_branch_instruction.clone(),
        );

        // a_gt_b == (b < a).
        builder.send_alu(
            self.branch_comparison_opcode(local),
            &Word::<Expr>::extend(Expr::var(branch_cols.a_gt_b)),
            &local.op_b_val.exprs(),
            &local.op_a_val.exprs(),
            local.shard,
            local.channel,
            branch_cols.a_gt_b_nonce,
            is_branch_instruction.clone(),
        );
        assert forall|w: Window| #[trigger]
            builder.messages(w) == old(builder).messages(w) + branch_messages(
                *local,
                is_branch_instruction.value(w),
                w,
            ) by {
            assert(builder.messages(w) =~= old(builder).messages(w) + branch_messages(
                *local,
                is_branch_instruction.value(w),
                w,
            ));
        }
    }

    /// States the constraints and interactions of the branches.
    #[verifier::rlimit(40)]
    pub fn eval_branch_ops(
        &self,
        builder: &mut ConstraintBuilder,
        is_branch_instruction: Expr,
        local: &CpuOpcodeSpecificCols<Var>,
    )
        ensures
            final(builder).interactions@.len() == old(builder).interactions@.len() + 3,
            forall|w: Window| #[trigger]
                final(builder).holds(w) == (old(builder).holds(w) && branch_constraints(
                    *local,
                    is_branch_instruction.value(w),
                    w,
                )),
            forall|w: Window| #[trigger]
                final(builder).messages(w) == old(builder).messages(w) + branch_messages(
                    *local,
                    is_branch_instruction.value(w),
                    w,
                ),
    {
        let branch_cols = local.opcode_specific_columns.branch();
        self.eval_branch_pc(builder, &is_branch_instruction, local);
        self.eval_branch_flags(builder, &is_branch_instruction, local);
        self.eval_branch_equality(builder, local);
        self.eval_branch_order(builder, local);

        // Where the operands are said to be equal, they are.
        builder.assert_word_eq_when(
            &is_branch_instruction.clone().times(Expr::var(branch_cols.a_eq_b)),
            &local.op_a_val,
            &local.op_b_val,
        );
        self.eval_branch_sends(builder, &is_branch_instruction, local);
    }
}

} // verus!
