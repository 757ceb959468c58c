//! What the constraints of the opcode-specific table enforce.
//!
//! Every statement is about a window of canonical field elements that
//! satisfies the constraints named in its hypotheses. Where a statement
//! speaks of what an ALU table guarantees, it takes that as a hypothesis:
//! the ALU tables receive what this table sends and check it.

use crate::air_builder::{dispatch_values_of, selector_values};
use crate::builder::{lemma_boolean_when, lemma_eq_when, lemma_zero_when};
use crate::cpu::air::{dispatch_message, dispatch_vars};
use crate::cpu::columns::{CpuCols, OpcodeSelectorCols};
use crate::cpu::laws::lemma_reduced_canonical;
use crate::cpu::opcode_air::auipc::{auipc_constraints, auipc_message};
use crate::cpu::opcode_air::branch::{
    branch_constraints, branch_flag_constraints, branch_messages, branch_pc_constraints,
};
use crate::cpu::opcode_air::ecall::{halt_constraints, halt_syscall, syscall_difference};
use crate::cpu::opcode_air::jump::{jump_constraints, jump_messages};
use crate::cpu::opcode_air::{receive_message, received_vars, sequence_constraints};
use crate::cpu::opcode_cols::CpuOpcodeSpecificCols;
use crate::expr::{Var, Window};
use crate::field::{
    canonical, fadd, fbool, fmul, fsub, lemma_fadd_value, lemma_field_ops_canonical, lemma_fmul_one, lemma_fmul_zero,
    lemma_fsub_value, lemma_fsub_zero, modulus,
};
use crate::opcode::SyscallCode;
use crate::operations::{lemma_is_zero, lemma_word_below_modulus, limbs_are_bytes, word_value};
use crate::word::Word;
use vstd::prelude::*;

verus! {

/// Where no branch selector is set, the sum of the branch selectors is zero.
pub proof fn lemma_no_branch(s: OpcodeSelectorCols<Var>, w: Window)
    requires
        w.var(s.is_beq) == 0,
        w.var(s.is_bne) == 0,
        w.var(s.is_blt) == 0,
        w.var(s.is_bge) == 0,
        w.var(s.is_bltu) == 0,
        w.var(s.is_bgeu) == 0,
    ensures
        s.branch(w) == 0,
{
    lemma_fadd_value(0, 0);
}

/// Where exactly one branch selector is set, and to one, the sum of the
/// branch selectors is one.
pub proof fn lemma_one_branch(s: OpcodeSelectorCols<Var>, w: Window)
    requires
        forall|i: int| 12 <= i < 18 ==> w.var(#[trigger] s.spec_to_array()[i]) == 0 || w.var(
            s.spec_to_array()[i],
        ) == 1,
        w.var(s.is_beq) + w.var(s.is_bne) + w.var(s.is_blt) + w.var(s.is_bge) + w.var(s.is_bltu)
            + w.var(s.is_bgeu) == 1,
    ensures
        s.branch(w) == 1,
{
    assert(w.var(s.spec_to_array()[12]) == w.var(s.is_beq));
    assert(w.var(s.spec_to_array()[13]) == w.var(s.is_bne));
    assert(w.var(s.spec_to_array()[14]) == w.var(s.is_blt));
    assert(w.var(s.spec_to_array()[15]) == w.var(s.is_bge));
    assert(w.var(s.spec_to_array()[16]) == w.var(s.is_bltu));
    assert(w.var(s.spec_to_array()[17]) == w.var(s.is_bgeu));
    lemma_fadd_value(w.var(s.is_beq), w.var(s.is_bne));
    lemma_fadd_value(fadd(w.var(s.is_beq), w.var(s.is_bne)), w.var(s.is_blt));
    lemma_fadd_value(
        fadd(fadd(w.var(s.is_beq), w.var(s.is_bne)), w.var(s.is_blt)),
        w.var(s.is_bge),
    );
    lemma_fadd_value(
        fadd(fadd(fadd(w.var(s.is_beq), w.var(s.is_bne)), w.var(s.is_blt)), w.var(s.is_bge)),
        w.var(s.is_bltu),
    );
    lemma_fadd_value(
        fadd(
            fadd(fadd(fadd(w.var(s.is_beq), w.var(s.is_bne)), w.var(s.is_blt)), w.var(s.is_bge)),
            w.var(s.is_bltu),
        ),
        w.var(s.is_bgeu),
    );
}

/// A real row that is neither a branch, nor a jump, nor a halt ends at
/// `pc + 4`.
pub proof fn lemma_sequential_next_pc(local: CpuOpcodeSpecificCols<Var>, w: Window)
    requires
        w.wf(),
        sequence_constraints(local, w),
        w.var(local.is_real) == 1,
        w.var(local.selectors.is_beq) == 0,
        w.var(local.selectors.is_bne) == 0,
        w.var(local.selectors.is_blt) == 0,
        w.var(local.selectors.is_bge) == 0,
        w.var(local.selectors.is_bltu) == 0,
        w.var(local.selectors.is_bgeu) == 0,
        w.var(local.selectors.is_jal) == 0,
        w.var(local.selectors.is_jalr) == 0,
        w.var(local.is_halt) == 0,
    ensures
        w.var(local.next_pc) == fadd(w.var(local.pc), 4),
        w.var(local.pc) + 4 < modulus() ==> w.var(local.next_pc) == w.var(local.pc) + 4,
{
    lemma_no_branch(local.selectors, w);
    lemma_fadd_value(0, 0);
    lemma_fsub_value(1, 0);
    lemma_fmul_one(1);
    lemma_field_ops_canonical(w.var(local.pc), 4);
    lemma_eq_when(1, fadd(w.var(local.pc), 4), w.var(local.next_pc));
    lemma_fadd_value(w.var(local.pc), 4);
}

/// A row halts if and only if it is a system call whose identifier is that
/// of HALT.
pub proof fn lemma_halt_flag(local: CpuOpcodeSpecificCols<Var>, w: Window)
    requires
        w.wf(),
        sequence_constraints(local, w),
        w.var(local.selectors.is_ecall) == 0 || w.var(local.selectors.is_ecall) == 1,
    ensures
        w.var(local.is_halt) == if w.var(local.selectors.is_ecall) == 1 && local.op_a_prev_val.limb(
            w,
            0,
        ) == SyscallCode::Halt.spec_syscall_id() {
            1int
        } else {
            0int
        },
{
    let ecall = local.opcode_specific_columns.spec_ecall();
    let is_ecall = w.var(local.selectors.is_ecall);
    let id = local.op_a_prev_val.limb(w, 0);
    let difference = syscall_difference(local, SyscallCode::Halt, w);
    let result = w.var(ecall.is_halt.result);
    lemma_field_ops_canonical(id, 0);
    lemma_fsub_zero(id, 0);
    lemma_field_ops_canonical(result, is_ecall);
    lemma_fsub_zero(halt_syscall(local, w), w.var(local.is_halt));
    lemma_fmul_one(result);
    lemma_fmul_zero(result);
    if is_ecall == 1 {
        lemma_is_zero(difference, ecall.is_halt, is_ecall, w);
    }
}

/// On a halt the next pc is zero.
pub proof fn lemma_halt_next_pc(local: CpuOpcodeSpecificCols<Var>, w: Window)
    requires
        w.wf(),
        halt_constraints(local, w),
        w.var(local.is_halt) != 0,
    ensures
        w.var(local.next_pc) == 0,
{
    lemma_zero_when(w.var(local.is_halt), w.var(local.next_pc));
}

/// On a branch exactly one of the two outcome flags is set.
pub proof fn lemma_branch_outcome(local: CpuOpcodeSpecificCols<Var>, is_branch: int, w: Window)
    requires
        w.wf(),
        canonical(is_branch),
        is_branch != 0,
        branch_flag_constraints(local, is_branch, w),
    ensures
        (w.var(local.branching) == 1 && w.var(local.not_branching) == 0) || (w.var(local.branching)
            == 0 && w.var(local.not_branching) == 1),
{
    let branching = w.var(local.branching);
    let not_branching = w.var(local.not_branching);
    lemma_boolean_when(is_branch, branching);
    lemma_boolean_when(is_branch, not_branching);
    lemma_field_ops_canonical(branching, not_branching);
    lemma_eq_when(is_branch, fadd(branching, not_branching), 1);
    lemma_fadd_value(branching, not_branching);
}

/// The next pc of a real branch: where the branch is taken, the field
/// element that the word form of the target stands for; where it is not
/// taken, `pc + 4`.
pub proof fn lemma_branch_next_pc(local: CpuOpcodeSpecificCols<Var>, is_branch: int, w: Window)
    requires
        w.wf(),
        canonical(is_branch),
        branch_pc_constraints(local, is_branch, w),
        w.var(local.is_real) == 1,
    ensures
        w.var(local.branching) == 1 ==> w.var(local.next_pc)
            == local.opcode_specific_columns.spec_branch().next_pc.reduced(w),
        w.var(local.not_branching) == 1 ==> w.var(local.next_pc) == fadd(w.var(local.pc), 4),
        is_branch != 0 ==> w.var(local.pc) == local.opcode_specific_columns.spec_branch().pc.reduced(
            w,
        ),
{
    let branch = local.opcode_specific_columns.spec_branch();
    lemma_fmul_one(1);
    lemma_reduced_canonical(branch.next_pc, w);
    lemma_reduced_canonical(branch.pc, w);
    lemma_field_ops_canonical(w.var(local.pc), 4);
    lemma_eq_when(1, branch.next_pc.reduced(w), w.var(local.next_pc));
    lemma_eq_when(1, fadd(w.var(local.pc), 4), w.var(local.next_pc));
    lemma_eq_when(is_branch, branch.pc.reduced(w), w.var(local.pc));
}

/// What an ALU table guarantees of an addition that it receives: the first
/// word is the sum of the other two, modulo `2^32`.
pub open spec fn alu_add_holds(a: Word<Var>, b: Word<Var>, c: Word<Var>, w: Window) -> bool {
    word_value(a, w) == (word_value(b, w) + word_value(c, w)) % 0x1_0000_0000
}

/// A real branch that is taken ends at `pc + offset`, the offset being the
/// third operand: the row sends the addition `target = pc + op_c` to the
/// ALU table with multiplicity one, the word forms are below the order of
/// the field, and they stand for `pc` and `next_pc`.
pub proof fn lemma_taken_branch_target(local: CpuOpcodeSpecificCols<Var>, w: Window)
    requires
        w.wf(),
        branch_constraints(local, local.selectors.branch(w), w),
        local.selectors.branch(w) == 1,
        w.var(local.is_real) == 1,
        w.var(local.branching) == 1,
        limbs_are_bytes(local.opcode_specific_columns.spec_branch().pc, w),
        limbs_are_bytes(local.opcode_specific_columns.spec_branch().next_pc, w),
        alu_add_holds(
            local.opcode_specific_columns.spec_branch().next_pc,
            local.opcode_specific_columns.spec_branch().pc,
            local.op_c_val,
            w,
        ),
    ensures
        branch_messages(local, 1, w)[0].multiplicity == 1,
        w.var(local.next_pc) == (w.var(local.pc) + word_value(local.op_c_val, w)) % 0x1_0000_0000,
{
    let branch = local.opcode_specific_columns.spec_branch();
    lemma_branch_next_pc(local, 1, w);
    lemma_word_below_modulus(branch.pc, branch.pc_range_checker, 1, w);
    lemma_word_below_modulus(branch.next_pc, branch.next_pc_range_checker, 1, w);
}

/// Whether two words have the same limbs.
pub open spec fn words_equal(a: Word<Var>, b: Word<Var>, w: Window) -> bool {
    forall|i: int| 0 <= i < 4 ==> #[trigger] a.limb(w, i) == b.limb(w, i)
}

/// A branch is taken if and only if its predicate holds of the first two
/// operands: BEQ if they are equal, BNE if they are not, BLT and BLTU if the
/// first is less than the second, BGE and BGEU if it is not.
///
/// `less` and `greater` say whether the first operand is less or greater
/// than the second, in the order of the branch: signed for BLT and BGE,
/// unsigned for the others. Of two words exactly one of three holds: they
/// are equal, the first is less, or the first is greater. That the two
/// comparison flags of the row are `less` and `greater` is what the ALU
/// tables guarantee of the two comparisons that the row sends them.
pub proof fn lemma_branch_decision(
    local: CpuOpcodeSpecificCols<Var>,
    w: Window,
    less: bool,
    greater: bool,
)
    requires
        w.wf(),
        local.selectors.branch(w) == 1,
        branch_constraints(local, 1, w),
        w.var(local.opcode_specific_columns.spec_branch().a_lt_b) == fbool(less),
        w.var(local.opcode_specific_columns.spec_branch().a_gt_b) == fbool(greater),
        words_equal(local.op_a_val, local.op_b_val, w) == (!less && !greater),
        !(less && greater),
    ensures
        w.var(local.branching) == 0 || w.var(local.branching) == 1,
        w.var(local.selectors.is_beq) == 1 ==> (w.var(local.branching) == 1) == words_equal(
            local.op_a_val,
            local.op_b_val,
            w,
        ),
        w.var(local.selectors.is_bne) == 1 ==> (w.var(local.branching) == 1) == !words_equal(
            local.op_a_val,
            local.op_b_val,
            w,
        ),
        fadd(w.var(local.selectors.is_blt), w.var(local.selectors.is_bltu)) == 1 ==> (w.var(
            local.branching,
        ) == 1) == less,
        fadd(w.var(local.selectors.is_bge), w.var(local.selectors.is_bgeu)) == 1 ==> (w.var(
            local.branching,
        ) == 1) == !less,
{
    let branch = local.opcode_specific_columns.spec_branch();
    let branching = w.var(local.branching);
    let a_eq_b = w.var(branch.a_eq_b);
    let a_lt_b = w.var(branch.a_lt_b);
    let a_gt_b = w.var(branch.a_gt_b);
    let is_less = fadd(w.var(local.selectors.is_blt), w.var(local.selectors.is_bltu));
    let is_not_less = fadd(w.var(local.selectors.is_bge), w.var(local.selectors.is_bgeu));
    lemma_branch_outcome(local, 1, w);
    lemma_fsub_value(1, branching);
    lemma_fmul_one(1);
    lemma_fmul_zero(1);
    lemma_fmul_one(a_eq_b);
    lemma_fadd_value(a_gt_b, a_lt_b);
    lemma_fadd_value(a_eq_b, a_gt_b);
    lemma_field_ops_canonical(a_gt_b, a_lt_b);
    lemma_field_ops_canonical(a_eq_b, a_gt_b);
    lemma_field_ops_canonical(w.var(local.selectors.is_beq), branching);
    lemma_field_ops_canonical(w.var(local.selectors.is_beq), fsub(1, branching));
    lemma_field_ops_canonical(w.var(local.selectors.is_bne), branching);
    lemma_field_ops_canonical(w.var(local.selectors.is_bne), fsub(1, branching));
    lemma_field_ops_canonical(is_less, branching);
    lemma_field_ops_canonical(is_less, fsub(1, branching));
    lemma_field_ops_canonical(is_not_less, branching);
    lemma_field_ops_canonical(is_not_less, fsub(1, branching));
    // What the outcome says of the comparison.
    lemma_eq_when(fmul(w.var(local.selectors.is_beq), branching), a_eq_b, 1);
    lemma_eq_when(fmul(w.var(local.selectors.is_beq), fsub(1, branching)), fadd(a_gt_b, a_lt_b), 1);
    lemma_eq_when(fmul(w.var(local.selectors.is_bne), branching), fadd(a_gt_b, a_lt_b), 1);
    lemma_eq_when(fmul(w.var(local.selectors.is_bne), fsub(1, branching)), a_eq_b, 1);
    lemma_eq_when(fmul(is_less, branching), a_lt_b, 1);
    lemma_eq_when(fmul(is_less, fsub(1, branching)), fadd(a_eq_b, a_gt_b), 1);
    lemma_eq_when(fmul(is_not_less, branching), fadd(a_eq_b, a_gt_b), 1);
    lemma_eq_when(fmul(is_not_less, fsub(1, branching)), a_lt_b, 1);
    // Operands that are said to be equal are.
    if a_eq_b == 1 {
        assert forall|i: int| 0 <= i < 4 implies #[trigger] local.op_a_val.limb(w, i)
            == local.op_b_val.limb(w, i) by {
            lemma_eq_when(1, local.op_a_val.limb(w, i), local.op_b_val.limb(w, i));
        }
    }
}

/// AUIPC writes `pc + op_b` to its first operand: the row sends the
/// addition `op_a = pc + op_b` to the ALU table with multiplicity one, and
/// the word form of the pc is below the order of the field and stands for
/// the pc.
pub proof fn lemma_auipc(local: CpuOpcodeSpecificCols<Var>, w: Window)
    requires
        w.wf(),
        auipc_constraints(local, w),
        w.var(local.selectors.is_auipc) == 1,
        limbs_are_bytes(local.opcode_specific_columns.spec_auipc().pc, w),
        alu_add_holds(
            local.op_a_val,
            local.opcode_specific_columns.spec_auipc().pc,
            local.op_b_val,
            w,
        ),
    ensures
        auipc_message(local, w).multiplicity == 1,
        word_value(local.op_a_val, w) == (w.var(local.pc) + word_value(local.op_b_val, w))
            % 0x1_0000_0000,
{
    let auipc = local.opcode_specific_columns.spec_auipc();
    lemma_word_below_modulus(auipc.pc, auipc.pc_range_checker, 1, w);
    lemma_reduced_canonical(auipc.pc, w);
    lemma_eq_when(1, auipc.pc.reduced(w), w.var(local.pc));
}

/// A real jump links and lands: unless its first operand is register zero,
/// the field element that the first operand stands for is `pc + 4`; and the
/// next pc is the field element that the word form of the target stands
/// for.
pub proof fn lemma_jump_link_and_target(local: CpuOpcodeSpecificCols<Var>, w: Window)
    requires
        w.wf(),
        jump_constraints(local, w),
        w.var(local.is_real) == 1,
        local.selectors.jump(w) == 1,
    ensures
        w.var(local.op_a_0) == 0 ==> local.op_a_val.reduced(w) == fadd(w.var(local.pc), 4),
        w.var(local.next_pc) == local.opcode_specific_columns.spec_jump().next_pc.reduced(w),
        w.var(local.selectors.is_jal) == 1 ==> w.var(local.pc)
            == local.opcode_specific_columns.spec_jump().pc.reduced(w),
{
    let jump = local.opcode_specific_columns.spec_jump();
    lemma_fmul_one(1);
    lemma_fsub_value(1, 0);
    lemma_reduced_canonical(local.op_a_val, w);
    lemma_reduced_canonical(jump.next_pc, w);
    lemma_reduced_canonical(jump.pc, w);
    lemma_field_ops_canonical(w.var(local.pc), 4);
    lemma_eq_when(1, local.op_a_val.reduced(w), fadd(w.var(local.pc), 4));
    lemma_eq_when(1, jump.next_pc.reduced(w), w.var(local.next_pc));
    lemma_eq_when(1, jump.pc.reduced(w), w.var(local.pc));
}

/// A real JAL whose first operand is not register zero writes `pc + 4` to
/// it and ends at `pc + op_b`: the row sends the addition
/// `target = pc + op_b` to the ALU table with multiplicity one.
pub proof fn lemma_jal(local: CpuOpcodeSpecificCols<Var>, w: Window)
    requires
        w.wf(),
        jump_constraints(local, w),
        w.var(local.is_real) == 1,
        w.var(local.selectors.is_jal) == 1,
        w.var(local.selectors.is_jalr) == 0,
        w.var(local.op_a_0) == 0,
        w.var(local.pc) + 4 < modulus(),
        limbs_are_bytes(local.op_a_val, w),
        limbs_are_bytes(local.opcode_specific_columns.spec_jump().pc, w),
        limbs_are_bytes(local.opcode_specific_columns.spec_jump().next_pc, w),
        alu_add_holds(
            local.opcode_specific_columns.spec_jump().next_pc,
            local.opcode_specific_columns.spec_jump().pc,
            local.op_b_val,
            w,
        ),
    ensures
        jump_messages(local, w)[0].multiplicity == 1,
        word_value(local.op_a_val, w) == w.var(local.pc) + 4,
        w.var(local.next_pc) == (w.var(local.pc) + word_value(local.op_b_val, w)) % 0x1_0000_0000,
{
    let jump = local.opcode_specific_columns.spec_jump();
    lemma_fadd_value(1, 0);
    lemma_jump_link_and_target(local, w);
    lemma_word_below_modulus(local.op_a_val, jump.op_a_range_checker, 1, w);
    lemma_word_below_modulus(jump.pc, jump.pc_range_checker, 1, w);
    lemma_word_below_modulus(jump.next_pc, jump.next_pc_range_checker, 1, w);
    lemma_fadd_value(w.var(local.pc), 4);
}

/// A real JALR whose first operand is not register zero writes `pc + 4` to
/// it and ends at `op_b + op_c`: the row sends the addition
/// `target = op_b + op_c` to the ALU table with multiplicity one.
pub proof fn lemma_jalr(local: CpuOpcodeSpecificCols<Var>, w: Window)
    requires
        w.wf(),
        jump_constraints(local, w),
        w.var(local.is_real) == 1,
        w.var(local.selectors.is_jal) == 0,
        w.var(local.selectors.is_jalr) == 1,
        w.var(local.op_a_0) == 0,
        w.var(local.pc) + 4 < modulus(),
        limbs_are_bytes(local.op_a_val, w),
        limbs_are_bytes(local.opcode_specific_columns.spec_jump().next_pc, w),
        alu_add_holds(
            local.opcode_specific_columns.spec_jump().next_pc,
            local.op_b_val,
            local.op_c_val,
            w,
        ),
    ensures
        jump_messages(local, w)[1].multiplicity == 1,
        word_value(local.op_a_val, w) == w.var(local.pc) + 4,
        w.var(local.next_pc) == (word_value(local.op_b_val, w) + word_value(local.op_c_val, w))
            % 0x1_0000_0000,
{
    let jump = local.opcode_specific_columns.spec_jump();
    lemma_fadd_value(0, 1);
    lemma_jump_link_and_target(local, w);
    lemma_word_below_modulus(local.op_a_val, jump.op_a_range_checker, 1, w);
    lemma_word_below_modulus(jump.next_pc, jump.next_pc_range_checker, 1, w);
    lemma_fadd_value(w.var(local.pc), 4);
}

/// A row of the opcode-specific table receives exactly what a row of the
/// CPU table sent: where the two messages are matched, the two rows agree on
/// clock, shard, channel, pc, next pc, the selectors, the operands and the
/// halt flag.
pub proof fn lemma_matched_dispatch_agrees(
    cpu: CpuCols<Var>,
    sent: Window,
    local: CpuOpcodeSpecificCols<Var>,
    received: Window,
)
    requires
        dispatch_message(cpu, sent).key() == receive_message(local, received).key(),
    ensures
        sent.var(cpu.clk) == received.var(local.clk),
        sent.var(cpu.shard) == received.var(local.shard),
        sent.var(cpu.channel) == received.var(local.channel),
        sent.var(cpu.pc) == received.var(local.pc),
        sent.var(cpu.next_pc) == received.var(local.next_pc),
        selector_values(cpu.selectors, sent) == selector_values(local.selectors, received),
        cpu.op_a_access.prev_value.limbs(sent) == local.op_a_prev_val.limbs(received),
        cpu.op_a_access.access.value.limbs(sent) == local.op_a_val.limbs(received),
        cpu.op_b_access.access.value.limbs(sent) == local.op_b_val.limbs(received),
        cpu.op_c_access.access.value.limbs(sent) == local.op_c_val.limbs(received),
        sent.var(cpu.instruction.op_a_0) == received.var(local.op_a_0),
        sent.var(cpu.is_halt) == received.var(local.is_halt),
{
    let a = dispatch_values_of(
        dispatch_vars(cpu),
        cpu.selectors,
        cpu.op_a_access.prev_value,
        cpu.op_a_access.access.value,
        cpu.op_b_access.access.value,
        cpu.op_c_access.access.value,
        sent,
    );
    let b = dispatch_values_of(
        received_vars(local),
        local.selectors,
        local.op_a_prev_val,
        local.op_a_val,
        local.op_b_val,
        local.op_c_val,
        received,
    );
    assert(a == b);
    assert(a[0] == b[0] && a[1] == b[1] && a[2] == b[2] && a[3] == b[3] && a[4] == b[4]);
    assert(a[43] == b[43] && a[44] == b[44]);
    assert(selector_values(cpu.selectors, sent) =~= selector_values(local.selectors, received)) by {
        assert forall|i: int| 0 <= i < 22 implies selector_values(cpu.selectors, sent)[i]
            == selector_values(local.selectors, received)[i] by {
            assert(a[5 + i] == b[5 + i]);
        }
    }
    assert(cpu.op_a_access.prev_value.limbs(sent) =~= local.op_a_prev_val.limbs(received)) by {
        assert(a[27] == b[27] && a[28] == b[28] && a[29] == b[29] && a[30] == b[30]);
    }
    assert(cpu.op_a_access.access.value.limbs(sent) =~= local.op_a_val.limbs(received)) by {
        assert(a[31] == b[31] && a[32] == b[32] && a[33] == b[33] && a[34] == b[34]);
    }
    assert(cpu.op_b_access.access.value.limbs(sent) =~= local.op_b_val.limbs(received)) by {
        assert(a[35] == b[35] && a[36] == b[36] && a[37] == b[37] && a[38] == b[38]);
    }
    assert(cpu.op_c_access.access.value.limbs(sent) =~= local.op_c_val.limbs(received)) by {
        assert(a[39] == b[39] && a[40] == b[40] && a[41] == b[41] && a[42] == b[42]);
    }
}

} // verus!
