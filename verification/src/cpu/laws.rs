//! What the constraints of the CPU table enforce.
//!
//! Every statement is about a window of canonical field elements that
//! satisfies the constraints named in its hypotheses. A real row is a row
//! whose `is_real` is one, a padding row one whose `is_real` is zero; the
//! constraints leave no third kind.

use crate::air_builder::{range_check_24bits, selector_values};
use crate::builder::{lemma_boolean, lemma_eq_when, lemma_zero_when};
use crate::cpu::air::{
    control_constraints, expected_next_clk, is_real_constraints, num_extra_ecall_cycles,
    program_message, public_values_constraints, register_constraints, selectors_padded,
    shard_clk_constraints,
};
use crate::program::{Instruction, Program, NUM_PROGRAM_VALUES};
use crate::cpu::columns::{CpuCols, OpcodeSelectorCols};
use crate::expr::{Var, Window};
use crate::field::{
    canonical, fadd, fmul, fsub, lemma_fadd_value, lemma_field_ops_canonical, lemma_fmul_one,
    lemma_fmul_small, lemma_fmul_zero, lemma_fsub_value,
};
use crate::public_values::PublicValues;
use crate::word::Word;
use vstd::prelude::*;

verus! {

/// The field element that a word stands for is canonical.
pub proof fn lemma_reduced_canonical(word: Word<Var>, w: Window)
    ensures
        canonical(word.reduced(w)),
{
    lemma_field_ops_canonical(
        fadd(fadd(word.limb(w, 0), fmul(word.limb(w, 1), 256)), fmul(word.limb(w, 2), 65536)),
        fmul(word.limb(w, 3), 16777216),
    );
}

/// Every row is real or padding, the first row is real, and a padding row
/// has no real successor: the real rows of a trace come first.
pub proof fn lemma_real_rows_come_first(local: CpuCols<Var>, next: CpuCols<Var>, w: Window)
    requires
        w.wf(),
        is_real_constraints(local, next, w),
    ensures
        w.var(local.is_real) == 0 || w.var(local.is_real) == 1,
        w.is_first_row ==> w.var(local.is_real) == 1,
        w.is_transition && w.var(local.is_real) == 0 ==> w.var(next.is_real) == 0,
{
    let is_real = w.var(local.is_real);
    lemma_boolean(is_real);
    lemma_eq_when(w.var(Var::IsFirstRow), is_real, 1);
    lemma_fsub_value(1, is_real);
    lemma_fmul_one(fsub(1, is_real));
    lemma_fmul_zero(fsub(1, is_real));
    lemma_zero_when(fmul(w.var(Var::IsTransition), fsub(1, is_real)), w.var(next.is_real));
}

/// On the first row of a shard the clock is zero.
pub proof fn lemma_first_clock_is_zero(local: CpuCols<Var>, next: CpuCols<Var>, w: Window)
    requires
        w.wf(),
        shard_clk_constraints(local, next, w),
        w.is_first_row,
    ensures
        w.var(local.clk) == 0,
{
    lemma_zero_when(1, w.var(local.clk));
}

/// What the range check of 24 bits enforces: a value that passes the check
/// with limbs that the byte table accepts is below `2^24`.
pub proof fn lemma_range_check_24bits(value: int, limb_16: int, limb_8: int, do_check: int)
    requires
        canonical(value),
        canonical(do_check),
        do_check != 0,
        0 <= limb_16 < 0x10000,
        0 <= limb_8 < 0x100,
        range_check_24bits(value, limb_16, limb_8, do_check),
    ensures
        value == limb_16 + limb_8 * 0x10000,
        value < 0x1000000,
{
    assert(limb_8 * 65536 < 0x1000000) by (nonlinear_arith)
        requires
            0 <= limb_8 < 0x100,
    ;
    lemma_fmul_small(limb_8, 65536);
    lemma_fadd_value(limb_16, fmul(limb_8, 65536));
    lemma_eq_when(do_check, value, fadd(limb_16, fmul(limb_8, 65536)));
}

/// The clock of a real row is below `2^24`, where the byte table accepts its
/// two limbs.
pub proof fn lemma_clock_is_in_range(local: CpuCols<Var>, next: CpuCols<Var>, w: Window)
    requires
        w.wf(),
        shard_clk_constraints(local, next, w),
        w.var(local.is_real) == 1,
        w.var(local.clk_16bit_limb) < 0x10000,
        w.var(local.clk_8bit_limb) < 0x100,
    ensures
        w.var(local.clk) < 0x1000000,
{
    lemma_range_check_24bits(
        w.var(local.clk),
        w.var(local.clk_16bit_limb),
        w.var(local.clk_8bit_limb),
        1,
    );
}

/// A system call is the only row with extra cycles: on every other row the
/// number of extra cycles is zero, and on a system call it is the third byte
/// of the code of the call.
pub proof fn lemma_extra_cycles(local: CpuCols<Var>, w: Window)
    requires
        w.wf(),
    ensures
        w.var(local.selectors.is_ecall) == 0 ==> num_extra_ecall_cycles(local, w) == 0,
        w.var(local.selectors.is_ecall) == 1 ==> num_extra_ecall_cycles(local, w) == w.var(
            local.op_a_access.prev_value.0[2],
        ),
        num_extra_ecall_cycles(local, w) != 0 ==> w.var(local.selectors.is_ecall) != 0,
{
    lemma_fmul_zero(w.var(local.op_a_access.prev_value.0[2]));
    lemma_fmul_one(w.var(local.op_a_access.prev_value.0[2]));
}

/// From a row to a real successor the clock grows by four plus the extra
/// cycles of the row, in the field, and the shard stays the same.
pub proof fn lemma_clock_advances(local: CpuCols<Var>, next: CpuCols<Var>, w: Window)
    requires
        w.wf(),
        shard_clk_constraints(local, next, w),
        w.is_transition,
        w.var(next.is_real) == 1,
    ensures
        w.var(next.clk) == fadd(fadd(w.var(local.clk), 4), num_extra_ecall_cycles(local, w)),
        w.var(next.shard) == w.var(local.shard),
{
    lemma_fmul_one(1);
    lemma_field_ops_canonical(fadd(w.var(local.clk), 4), num_extra_ecall_cycles(local, w));
    lemma_eq_when(1, expected_next_clk(local, w), w.var(next.clk));
    lemma_eq_when(1, w.var(local.shard), w.var(next.shard));
}

/// From a row whose clock is below `2^24` to a real successor the clock
/// grows by four plus the extra cycles of the row, as an integer: nothing
/// wraps around the order of the field.
pub proof fn lemma_clock_advances_without_wrap(local: CpuCols<Var>, next: CpuCols<Var>, w: Window)
    requires
        w.wf(),
        shard_clk_constraints(local, next, w),
        w.is_transition,
        w.var(next.is_real) == 1,
        w.var(local.clk) < 0x1000000,
        w.var(local.op_a_access.prev_value.0[2]) < 256,
        w.var(local.selectors.is_ecall) == 0 || w.var(local.selectors.is_ecall) == 1,
    ensures
        w.var(next.clk) == w.var(local.clk) + 4 + if w.var(local.selectors.is_ecall) == 1 {
            w.var(local.op_a_access.prev_value.0[2])
        } else {
            0
        },
{
    lemma_clock_advances(local, next, w);
    lemma_extra_cycles(local, w);
    lemma_fadd_value(w.var(local.clk), 4);
    lemma_fadd_value(fadd(w.var(local.clk), 4), num_extra_ecall_cycles(local, w));
}

/// A real successor starts at the pc at which the row ends.
pub proof fn lemma_pc_is_chained(
    local: CpuCols<Var>,
    next: CpuCols<Var>,
    public_values: PublicValues<Word<Var>, Var>,
    w: Window,
)
    requires
        w.wf(),
        control_constraints(local, next, public_values, w),
        w.is_transition,
        w.var(next.is_real) == 1,
    ensures
        w.var(next.pc) == w.var(local.next_pc),
{
    lemma_fmul_one(1);
    lemma_eq_when(1, w.var(local.next_pc), w.var(next.pc));
}

/// A row that halts, or whose instruction is not implemented, has no real
/// successor.
pub proof fn lemma_halt_ends_the_trace(
    local: CpuCols<Var>,
    next: CpuCols<Var>,
    public_values: PublicValues<Word<Var>, Var>,
    w: Window,
)
    requires
        w.wf(),
        control_constraints(local, next, public_values, w),
        w.is_transition,
        fadd(w.var(local.is_halt), w.var(local.selectors.is_unimpl)) != 0,
    ensures
        w.var(next.is_real) == 0,
{
    let stop = fadd(w.var(local.is_halt), w.var(local.selectors.is_unimpl));
    lemma_field_ops_canonical(w.var(local.is_halt), w.var(local.selectors.is_unimpl));
    lemma_fmul_one(stop);
    lemma_zero_when(fmul(1, stop), w.var(next.is_real));
}

/// Where `is_halt` and the selector of the instructions that are not
/// implemented are flags, their sum is not zero as soon as one is set.
pub proof fn lemma_halt_flags(is_halt: int, is_unimpl: int)
    requires
        is_halt == 0 || is_halt == 1,
        is_unimpl == 0 || is_unimpl == 1,
    ensures
        (fadd(is_halt, is_unimpl) != 0) == (is_halt == 1 || is_unimpl == 1),
{
    lemma_fadd_value(is_halt, is_unimpl);
}

/// The field element that the second operand of a halting row stands for is
/// the public exit code.
pub proof fn lemma_halt_exit_code(
    local: CpuCols<Var>,
    next: CpuCols<Var>,
    public_values: PublicValues<Word<Var>, Var>,
    w: Window,
)
    requires
        w.wf(),
        control_constraints(local, next, public_values, w),
        w.var(local.is_halt) != 0,
    ensures
        w.var(public_values.exit_code) == local.op_b_access.access.value.reduced(w),
{
    let b = local.op_b_access.access.value;
    lemma_reduced_canonical(b, w);
    lemma_eq_when(w.var(local.is_halt), b.reduced(w), w.var(public_values.exit_code));
}

/// On a padding row selector `i` has its padding value, for every `i` below
/// `n`: the two immediate flags, which come first, are one, and every other
/// selector is zero.
pub proof fn lemma_padded_selector(s: OpcodeSelectorCols<Var>, w: Window, n: nat, i: int)
    requires
        w.wf(),
        selectors_padded(s, 1, w, n),
        0 <= i < n <= 22,
    ensures
        w.var(s.spec_to_array()[i]) == if i < 2 {
            1int
        } else {
            0int
        },
    decreases n,
{
    if i == n - 1 {
        let selector = w.var(s.spec_to_array()[i]);
        lemma_eq_when(1, selector, 1);
        lemma_zero_when(1, selector);
    } else {
        lemma_padded_selector(s, w, (n - 1) as nat, i);
    }
}

/// On a padding row every selector is zero but the two immediate flags,
/// which are one.
pub proof fn lemma_padding_row_selectors(local: CpuCols<Var>, w: Window)
    requires
        w.wf(),
        selectors_padded(local.selectors, fsub(1, w.var(local.is_real)), w, 22),
        w.var(local.is_real) == 0,
    ensures
        forall|i: int|
            0 <= i < 22 ==> w.var(#[trigger] local.selectors.spec_to_array()[i]) == if i < 2 {
                1int
            } else {
                0int
            },
{
    lemma_fsub_value(1, 0);
    assert forall|i: int| 0 <= i < 22 implies w.var(#[trigger] local.selectors.spec_to_array()[i])
        == if i < 2 {
        1int
    } else {
        0int
    } by {
        lemma_padded_selector(local.selectors, w, 22, i);
    }
}

/// The rows are bound to the public values: a real row is in the public
/// execution shard, the first row starts at the public start pc, and the
/// last real row ends at the public next pc, be it followed by a padding
/// row or be it the last row of the table.
pub proof fn lemma_rows_match_public_values(
    local: CpuCols<Var>,
    next: CpuCols<Var>,
    public_values: PublicValues<Word<Var>, Var>,
    w: Window,
)
    requires
        w.wf(),
        public_values_constraints(local, next, public_values, w),
    ensures
        w.var(local.is_real) == 1 ==> w.var(local.shard) == w.var(public_values.execution_shard),
        w.is_first_row ==> w.var(local.pc) == w.var(public_values.start_pc),
        w.is_transition && w.var(local.is_real) == 1 && w.var(next.is_real) == 0 ==> w.var(
            local.next_pc,
        ) == w.var(public_values.next_pc),
        w.is_last_row && w.var(local.is_real) == 1 ==> w.var(local.next_pc) == w.var(
            public_values.next_pc,
        ),
{
    lemma_eq_when(1, w.var(public_values.execution_shard), w.var(local.shard));
    lemma_eq_when(1, w.var(public_values.start_pc), w.var(local.pc));
    lemma_eq_when(1, w.var(public_values.next_pc), w.var(local.next_pc));
    lemma_fsub_value(1, 0);
    lemma_fmul_one(1);
}

/// What the constraints on the operands enforce of their values: an
/// immediate operand has the value that the instruction gives; what is
/// written to register zero is zero; and a branch or a store leaves its
/// first operand as it was.
pub proof fn lemma_operand_values(local: CpuCols<Var>, is_branch: int, w: Window, i: int)
    requires
        w.wf(),
        canonical(is_branch),
        register_constraints(local, is_branch, w),
        0 <= i < 4,
    ensures
        w.var(local.selectors.imm_b) != 0 ==> local.op_b_access.access.value.limb(w, i)
            == local.instruction.op_b.limb(w, i),
        w.var(local.selectors.imm_c) != 0 ==> local.op_c_access.access.value.limb(w, i)
            == local.instruction.op_c.limb(w, i),
        w.var(local.instruction.op_a_0) != 0 ==> local.op_a_access.access.value.limb(w, i) == 0,
        fadd(is_branch, local.selectors.store(w)) != 0 ==> local.op_a_access.access.value.limb(w, i)
            == local.op_a_access.prev_value.limb(w, i),
{
    lemma_eq_when(
        w.var(local.selectors.imm_b),
        local.op_b_access.access.value.limb(w, i),
        local.instruction.op_b.limb(w, i),
    );
    lemma_eq_when(
        w.var(local.selectors.imm_c),
        local.op_c_access.access.value.limb(w, i),
        local.instruction.op_c.limb(w, i),
    );
    lemma_zero_when(w.var(local.instruction.op_a_0), local.op_a_access.access.value.limb(w, i));
    lemma_field_ops_canonical(is_branch, local.selectors.store(w));
    lemma_eq_when(
        fadd(is_branch, local.selectors.store(w)),
        local.op_a_access.access.value.limb(w, i),
        local.op_a_access.prev_value.limb(w, i),
    );
}

/// A row whose fetch succeeds has one class: if the program table has a
/// match for the tuple with which a row fetches its instruction, then every
/// selector of the row is zero or one, and exactly one of the class flags
/// is set.
pub proof fn lemma_fetched_row_has_one_class(
    program: Program,
    tuple: Seq<u32>,
    local: CpuCols<Var>,
    w: Window,
)
    requires
        program.wf(),
        program.spec_fetch(tuple),
        tuple.len() == program_message(local, w).values.len(),
        forall|k: int| 0 <= k < tuple.len() ==> tuple[k] as int == program_message(local, w).values[k],
    ensures
        exists|instruction: Instruction|
            {
                let selectors = #[trigger] OpcodeSelectorCols::<u32>::spec_populate(instruction);
                &&& selectors.one_hot()
                &&& forall|i: int|
                    0 <= i < 22 ==> w.var(#[trigger] local.selectors.spec_to_array()[i])
                        == selectors.spec_to_array()[i]
            },
{
    let i = choose|i: int|
        0 <= i < program.instructions@.len() && #[trigger] program.spec_row(i) == tuple.subrange(
            0,
            NUM_PROGRAM_VALUES as int,
        );
    let instruction = program.instructions@[i];
    let selectors = OpcodeSelectorCols::<u32>::spec_populate(instruction);
    crate::program::lemma_populated_selectors_one_hot(instruction);
    let sent = program_message(local, w).values;
    assert forall|k: int| 0 <= k < 22 implies w.var(#[trigger] local.selectors.spec_to_array()[k])
        == selectors.spec_to_array()[k] by {
        assert(sent[12 + k] == selector_values(local.selectors, w)[k]);
        assert(tuple[12 + k] as int == sent[12 + k]);
        assert(tuple.subrange(0, 34)[12 + k] == program.spec_row(i)[12 + k]);
        assert(program.spec_row(i)[12 + k] == selectors.spec_to_array()@[k]);
    }
}

} // verus!
