//! System calls.
//!
//! The code of a system call is the value of the first operand before the
//! cycle: its first byte names the call, its second says whether a
//! precompile table takes the call, its third how many extra cycles the call
//! takes. The CPU treats three calls itself: HALT, and the two calls that
//! commit a word of a public digest.

use crate::air_builder::local_message;
use crate::builder::{all_zero, eq_when, zero_when, ConstraintBuilder};
use crate::cpu::opcode_air::CpuOpcodeSpecificChip;
use crate::cpu::opcode_cols::CpuOpcodeSpecificCols;
use crate::expr::{Expr, Var, Window};
use crate::field::{fadd, fmul, fsub};
use crate::interaction::{values_of, AirInteraction, InteractionKind, InteractionScope, Message};
use crate::opcode::SyscallCode;
use crate::operations::{
    bits_boolean, is_zero_constraints, word_range_constraints, BabyBearWordRangeChecker,
    IsZeroOperation,
};
use crate::word::Word;
use vstd::prelude::*;

verus! {

/// The tuple that hands a system call to a precompile table.
pub open spec fn syscall_values(
    shard: int,
    channel: int,
    clk: int,
    nonce: int,
    syscall_id: int,
    arg1: int,
    arg2: int,
) -> Seq<int> {
    seq![shard, channel, clk, nonce, syscall_id, arg1, arg2]
}

/// The message of a system call: the call with its two arguments, sent with
/// the multiplicity that the code of the call asks for.
pub open spec fn syscall_message(local: CpuOpcodeSpecificCols<Var>, w: Window) -> Message {
    let ecall = local.opcode_specific_columns.spec_ecall();
    local_message(
        InteractionKind::Syscall,
        true,
        syscall_values(
            w.var(local.shard),
            w.var(local.channel),
            w.var(local.clk),
            w.var(ecall.syscall_nonce),
            local.op_a_prev_val.limb(w, 0),
            local.op_b_val.reduced(w),
            local.op_c_val.reduced(w),
        ),
        w.var(local.ecall_mul_send_to_table),
    )
}

/// The difference between the identifier of the system call of a row and
/// that of `code`: zero if and only if the row makes that call.
pub open spec fn syscall_difference(local: CpuOpcodeSpecificCols<Var>, code: SyscallCode, w: Window) -> int {
    fsub(local.op_a_prev_val.limb(w, 0), code.spec_syscall_id())
}

/// The sum of the three flags that say that the system call is one that the
/// CPU treats itself.
pub open spec fn treated_syscall(local: CpuOpcodeSpecificCols<Var>, w: Window) -> int {
    let ecall = local.opcode_specific_columns.spec_ecall();
    fadd(
        fadd(w.var(ecall.is_halt.result), w.var(ecall.is_commit.result)),
        w.var(ecall.is_commit_deferred_proofs.result),
    )
}

/// The one or two flags that say that the system call has an operand that
/// has to be a field element.
pub open spec fn checked_operand_syscall(local: CpuOpcodeSpecificCols<Var>, w: Window) -> int {
    let ecall = local.opcode_specific_columns.spec_ecall();
    fadd(w.var(ecall.is_halt.result), w.var(ecall.is_commit_deferred_proofs.result))
}

/// The constraints of a system call.
///
/// The multiplicity of the message is the second byte of the code on a
/// system call and zero elsewhere. A call that the CPU treats itself leaves
/// the first operand as it was. The operand to check is checked on HALT and
/// on the commit of a deferred proof, and then it is below the order of the
/// field.
pub open spec fn ecall_constraints(local: CpuOpcodeSpecificCols<Var>, w: Window) -> bool {
    let ecall = local.opcode_specific_columns.spec_ecall();
    let is_ecall = w.var(local.selectors.is_ecall);
    &&& fsub(
        w.var(local.ecall_mul_send_to_table),
        fmul(local.op_a_prev_val.limb(w, 1), is_ecall),
    ) == 0
    &&& local.op_a_val.eq_when(fmul(is_ecall, treated_syscall(local, w)), local.op_a_prev_val, w)
    &&& fsub(
        w.var(local.ecall_range_check_operand),
        fmul(is_ecall, checked_operand_syscall(local, w)),
    ) == 0
    &&& word_range_constraints(
        ecall.operand_to_check,
        ecall.operand_range_check_cols,
        w.var(local.ecall_range_check_operand),
        w,
    )
}

/// The constraints that say whether a system call is HALT: the zero test of
/// the difference between its identifier and that of HALT.
pub open spec fn halt_syscall_constraints(local: CpuOpcodeSpecificCols<Var>, w: Window) -> bool {
    let ecall = local.opcode_specific_columns.spec_ecall();
    is_zero_constraints(
        syscall_difference(local, SyscallCode::Halt, w),
        ecall.is_halt,
        w.var(local.selectors.is_ecall),
        w,
    )
}

/// One on a system call that is HALT, zero on every other row.
pub open spec fn halt_syscall(local: CpuOpcodeSpecificCols<Var>, w: Window) -> int {
    let ecall = local.opcode_specific_columns.spec_ecall();
    fmul(w.var(ecall.is_halt.result), w.var(local.selectors.is_ecall))
}

/// The constraints of a halt: the next pc is zero, and the exit code, which
/// is the second operand, is the operand that is checked to be a field
/// element.
pub open spec fn halt_constraints(local: CpuOpcodeSpecificCols<Var>, w: Window) -> bool {
    let ecall = local.opcode_specific_columns.spec_ecall();
    &&& zero_when(w.var(local.is_halt), w.var(local.next_pc))
    &&& local.op_b_val.eq_when(w.var(local.is_halt), ecall.operand_to_check, w)
}

/// The constraints that say whether a system call commits a word of one of
/// the two public digests: two zero tests.
pub open spec fn commit_syscall_constraints(local: CpuOpcodeSpecificCols<Var>, w: Window) -> bool {
    let ecall = local.opcode_specific_columns.spec_ecall();
    let is_ecall = w.var(local.selectors.is_ecall);
    &&& is_zero_constraints(
        syscall_difference(local, SyscallCode::Commit, w),
        ecall.is_commit,
        is_ecall,
        w,
    )
    &&& is_zero_constraints(
        syscall_difference(local, SyscallCode::CommitDeferredProofs, w),
        ecall.is_commit_deferred_proofs,
        is_ecall,
        w,
    )
}

/// The sum of the first `n` flags of the index bitmap.
pub open spec fn bitmap_sum(bits: [Var; 8], w: Window, n: nat) -> int
    decreases n,
{
    if n == 0 {
        0
    } else {
        fadd(bitmap_sum(bits, w, (n - 1) as nat), w.var(bits[n - 1]))
    }
}

/// Whether `index` is `i` wherever flag `i` and `cond` are not zero, for
/// each of the first `n` flags.
pub open spec fn bitmap_names_index(bits: [Var; 8], cond: int, index: int, w: Window, n: nat) -> bool
    decreases n,
{
    if n == 0 {
        true
    } else {
        bitmap_names_index(bits, cond, index, w, (n - 1) as nat) && eq_when(
            fmul(w.var(bits[n - 1]), cond),
            index,
            (n - 1) % crate::field::modulus(),
        )
    }
}

/// Limb `j` of the digest word that the bitmap selects among the first `n`:
/// the sum of the limbs of the words whose flag is set.
pub open spec fn selected_limb(bits: [Var; 8], digest: [Word<Var>; 8], j: int, w: Window, n: nat) -> int
    decreases n,
{
    if n == 0 {
        0
    } else {
        fadd(
            selected_limb(bits, digest, j, w, (n - 1) as nat),
            fmul(w.var(bits[n - 1]), digest[n - 1].limb(w, j)),
        )
    }
}

/// The digest element that the bitmap selects among the first `n`.
pub open spec fn selected_element(bits: [Var; 8], digest: [Var; 8], w: Window, n: nat) -> int
    decreases n,
{
    if n == 0 {
        0
    } else {
        fadd(
            selected_element(bits, digest, w, (n - 1) as nat),
            fmul(w.var(bits[n - 1]), w.var(digest[n - 1])),
        )
    }
}

/// The constraints on the index of a committed word.
///
/// On a system call the flags of the bitmap are booleans. On a commit
/// exactly one is set, on another system call none. The second operand, the
/// index of the committed word, is the place of the flag that is set, and
/// its three high bytes are zero.
pub open spec fn commit_index_constraints(local: CpuOpcodeSpecificCols<Var>, w: Window) -> bool {
    let ecall = local.opcode_specific_columns.spec_ecall();
    let is_ecall = w.var(local.selectors.is_ecall);
    let commits = fadd(w.var(ecall.is_commit.result), w.var(ecall.is_commit_deferred_proofs.result));
    &&& bits_boolean(ecall.index_bitmap, is_ecall, w, 8)
    &&& eq_when(fmul(is_ecall, commits), bitmap_sum(ecall.index_bitmap, w, 8), 1)
    &&& zero_when(fmul(is_ecall, fsub(1, commits)), bitmap_sum(ecall.index_bitmap, w, 8))
    &&& bitmap_names_index(ecall.index_bitmap, is_ecall, local.op_b_val.limb(w, 0), w, 8)
    &&& eq_when(fmul(is_ecall, commits), local.op_b_val.limb(w, 1), 0)
    &&& eq_when(fmul(is_ecall, commits), local.op_b_val.limb(w, 2), 0)
    &&& eq_when(fmul(is_ecall, commits), local.op_b_val.limb(w, 3), 0)
}

/// The constraints on the committed word.
///
/// On a commit of a word of the public values digest, the third operand is
/// the word of the public digest that the bitmap selects. On a commit of a
/// word of the deferred proofs digest, the third operand is the operand
/// that is checked to be a field element, and it stands for the element of
/// the public digest that the bitmap selects.
pub open spec fn commit_digest_constraints(
    local: CpuOpcodeSpecificCols<Var>,
    commit_digest: [Word<Var>; 8],
    deferred_proofs_digest: [Var; 8],
    w: Window,
) -> bool {
    let ecall = local.opcode_specific_columns.spec_ecall();
    let is_ecall = w.var(local.selectors.is_ecall);
    let commit = fmul(is_ecall, w.var(ecall.is_commit.result));
    let deferred = fmul(is_ecall, w.var(ecall.is_commit_deferred_proofs.result));
    &&& forall|j: int|
        0 <= j < 4 ==> eq_when(
            commit,
            #[trigger] selected_limb(ecall.index_bitmap, commit_digest, j, w, 8),
            local.op_c_val.limb(w, j),
        )
    &&& local.op_c_val.eq_when(deferred, ecall.operand_to_check, w)
    &&& eq_when(
        deferred,
        selected_element(ecall.index_bitmap, deferred_proofs_digest, w, 8),
        local.op_c_val.reduced(w),
    )
}

/// All constraints of the two commit system calls.
pub open spec fn commit_constraints(
    local: CpuOpcodeSpecificCols<Var>,
    commit_digest: [Word<Var>; 8],
    deferred_proofs_digest: [Var; 8],
    w: Window,
) -> bool {
    &&& commit_syscall_constraints(local, w)
    &&& commit_index_constraints(local, w)
    &&& commit_digest_constraints(local, commit_digest, deferred_proofs_digest, w)
}

impl ConstraintBuilder {
    /// Sends a system call to the precompile table that takes it.
    pub fn send_syscall(
        &mut self,
        shard: Var,
        channel: Var,
        clk: Var,
        nonce: Var,
        syscall_id: Expr,
        arg1: Expr,
        arg2: Expr,
        multiplicity: Expr,
    )
        ensures
            final(self).constraints@ == old(self).constraints@,
            final(self).interactions@.len() == old(self).interactions@.len() + 1,
            forall|w: Window| #[trigger]
                final(self).messages(w) == old(self).messages(w).push(
                    local_message(
                        InteractionKind::Syscall,
                        true,
                        syscall_values(
                            w.var(shard),
                            w.var(channel),
                            w.var(clk),
                            w.var(nonce),
                            syscall_id.value(w),
                            arg1.value(w),
                            arg2.value(w),
                        ),
                        multiplicity.value(w),
                    ),
                ),
    {
        let mut values: Vec<Expr> = Vec::new();
        values.push(Expr::var(shard));
        values.push(Expr::var(channel));
        values.push(Expr::var(clk));
        values.push(Expr::var(nonce));
        values.push(syscall_id);
        values.push(arg1);
        values.push(arg2);
        let ghost vs = values@;
        self.send(
            AirInteraction::new(values, multiplicity, InteractionKind::Syscall),
            InteractionScope::Local,
        );
        assert forall|w: Window| #[trigger]
            self.messages(w) == old(self).messages(w).push(
                local_message(
                    InteractionKind::Syscall,
                    true,
                    syscall_values(
                        w.var(shard),
                        w.var(channel),
                        w.var(clk),
                        w.var(nonce),
                        syscall_id.value(w),
                        arg1.value(w),
                        arg2.value(w),
                    ),
                    multiplicity.value(w),
                ),
            ) by {
            assert(values_of(vs, w) =~= syscall_values(
                w.var(shard),
                w.var(channel),
                w.var(clk),
                w.var(nonce),
                syscall_id.value(w),
                arg1.value(w),
                arg2.value(w),
            ));
        }
    }
}

impl CpuOpcodeSpecificChip {
    /// The sum of the flags of the system calls that the CPU treats itself.
    fn is_treated_syscall(&self, local: &CpuOpcodeSpecificCols<Var>) -> (r: Expr)
        ensures
            forall|w: Window| #[trigger] r.value(w) == treated_syscall(*local, w),
    {
        let ecall_cols = local.opcode_specific_columns.ecall();
        Expr::var(ecall_cols.is_halt.result).plus(Expr::var(ecall_cols.is_commit.result)).plus(
            Expr::var(ecall_cols.is_commit_deferred_proofs.result),
        )
    }

    /// States the constraints on the operand that has to be a field element.
    fn eval_ecall_operand(&self, builder: &mut ConstraintBuilder, local: &CpuOpcodeSpecificCols<Var>)
        ensures
            final(builder).interactions@ == old(builder).interactions@,
            forall|w: Window| #[trigger]
                final(builder).holds(w) == (old(builder).holds(w) && {
                    let ecall = local.opcode_specific_columns.spec_ecall();
                    &&& fsub(
                        w.var(local.ecall_range_check_operand),
                        fmul(w.var(local.selectors.is_ecall), checked_operand_syscall(*local, w)),
                    ) == 0
                    &&& word_range_constraints(
                        ecall.operand_to_check,
                        ecall.operand_range_check_cols,
                        w.var(local.ecall_range_check_operand),
                        w,
                    )
                }),
    {
        let ecall_cols = local.opcode_specific_columns.ecall();

        // The operand is checked on HALT and on the commit of a deferred
        // proof.
        builder.assert_eq(
            Expr::var(local.ecall_range_check_operand),
            Expr::var(local.selectors.is_ecall).times(
                Expr::var(ecall_cols.is_halt.result).plus(
                    Expr::var(ecall_cols.is_commit_deferred_proofs.result),
                ),
            ),
        );

        // Where it is checked, it is below the order of the field.
        BabyBearWordRangeChecker::<Var>::range_check(
            builder,
            &ecall_cols.operand_to_check,
            &ecall_cols.operand_range_check_cols,
            Expr::var(local.ecall_range_check_operand),
        );
    }

    /// States the constraints and the interaction of the system calls.
    pub fn eval_ecall(&self, builder: &mut ConstraintBuilder, local: &CpuOpcodeSpecificCols<Var>)
        ensures
            final(builder).interactions@.len() == old(builder).interactions@.len() + 1,
            forall|w: Window| #[trigger]
                final(builder).holds(w) == (old(builder).holds(w) && ecall_constraints(*local, w)),
            forall|w: Window| #[trigger]
                final(builder).messages(w) == old(builder).messages(w).push(
                    syscall_message(*local, w),
                ),
    {
        let ecall_cols = local.opcode_specific_columns.ecall();
        let is_ecall_instruction = local.selectors.is_ecall_instruction();

        // The code of the system call is the value of op_a at the start of
        // the cycle. Its bytes carry different information.
        let syscall_code = local.op_a_prev_val;
        let syscall_id = Expr::var(syscall_code.0[0]);
        let send_to_table = Expr::var(syscall_code.0[1]);

        // The multiplicity is `send_to_table` on a system call, else zero.
        builder.assert_eq(
            Expr::var(local.ecall_mul_send_to_table),
            send_to_table.times(is_ecall_instruction.clone()),
        );

        builder.send_syscall(
            local.shard,
            local.channel,
            local.clk,
            ecall_cols.syscall_nonce,
            syscall_id,
            local.op_b_val.reduce(),
            local.op_c_val.reduce(),
            Expr::var(local.ecall_mul_send_to_table),
        );

        // A system call that the CPU treats itself does not change op_a.
        builder.assert_word_eq_when(
            &is_ecall_instruction.times(self.is_treated_syscall(local)),
            &local.op_a_val,
            &local.op_a_prev_val,
        );

        self.eval_ecall_operand(builder, local);
    }

    /// States the constraints that say whether a system call is HALT, and
    /// returns the expression that is one on a HALT and zero elsewhere.
    pub fn is_halt_syscall(
        &self,
        builder: &mut ConstraintBuilder,
        local: &CpuOpcodeSpecificCols<Var>,
    ) -> (r: Expr)
        ensures
            final(builder).interactions@ == old(builder).interactions@,
            forall|w: Window| #[trigger]
                final(builder).holds(w) == (old(builder).holds(w) && halt_syscall_constraints(
                    *local,
                    w,
                )),
            forall|w: Window| #[trigger] r.value(w) == halt_syscall(*local, w),
    {
        let ecall_cols = local.opcode_specific_columns.ecall();
        let is_ecall_instruction = local.selectors.is_ecall_instruction();

        // The identifier of the system call.
        let syscall_id = Expr::var(local.op_a_prev_val.0[0]);

        // Whether it is the identifier of HALT.
        IsZeroOperation::<Var>::eval(
            builder,
            syscall_id.minus(Expr::constant(SyscallCode::Halt.syscall_id())),
            &ecall_cols.is_halt,
            is_ecall_instruction.clone(),
        );
        Expr::var(ecall_cols.is_halt.result).times(is_ecall_instruction)
    }

    /// States the constraints of a halt.
    pub fn eval_halt(&self, builder: &mut ConstraintBuilder, local: &CpuOpcodeSpecificCols<Var>)
        ensures
            final(builder).interactions@ == old(builder).interactions@,
            forall|w: Window| #[trigger]
                final(builder).holds(w) == (old(builder).holds(w) && halt_constraints(*local, w)),
    {
        let ecall_columns = local.opcode_specific_columns.ecall();

        // A halt sets the next pc to zero.
        builder.assert_zero_when(Expr::var(local.is_halt), Expr::var(local.next_pc));

        // The operand that is checked to be a field element is the exit code.
        builder.assert_word_eq_when(
            &Expr::var(local.is_halt),
            &local.op_b_val,
            &ecall_columns.operand_to_check,
        );
    }

    /// States the constraints that say whether a system call commits a word
    /// of the public values digest or of the deferred proofs digest, and
    /// returns the two flags.
    pub fn get_is_commit_related_syscall(
        &self,
        builder: &mut ConstraintBuilder,
        local: &CpuOpcodeSpecificCols<Var>,
    ) -> (r: (Expr, Expr))
        ensures
            final(builder).interactions@ == old(builder).interactions@,
            forall|w: Window| #[trigger]
                final(builder).holds(w) == (old(builder).holds(w) && commit_syscall_constraints(
                    *local,
                    w,
                )),
            r.0 == Expr::Var(local.opcode_specific_columns.spec_ecall().is_commit.result),
            r.1 == Expr::Var(
                local.opcode_specific_columns.spec_ecall().is_commit_deferred_proofs.result,
            ),
    {
        let ecall_cols = local.opcode_specific_columns.ecall();
        let is_ecall_instruction = local.selectors.is_ecall_instruction();
        let syscall_id = Expr::var(local.op_a_prev_val.0[0]);
        IsZeroOperation::<Var>::eval(
            builder,
            syscall_id.clone().minus(Expr::constant(SyscallCode::Commit.syscall_id())),
            &ecall_cols.is_commit,
            is_ecall_instruction.clone(),
        );
        IsZeroOperation::<Var>::eval(
            builder,
            syscall_id.minus(Expr::constant(SyscallCode::CommitDeferredProofs.syscall_id())),
            &ecall_cols.is_commit_deferred_proofs,
            is_ecall_instruction,
        );
        (
            Expr::var(ecall_cols.is_commit.result),
            Expr::var(ecall_cols.is_commit_deferred_proofs.result),
        )
    }
    /// States that the flags of the index bitmap are booleans on a system
    /// call, and returns their sum.
    fn eval_bitmap_bits(&self, builder: &mut ConstraintBuilder, local: &CpuOpcodeSpecificCols<Var>) -> (r: Expr)
        ensures
            final(builder).interactions@ == old(builder).interactions@,
            forall|w: Window| #[trigger]
                final(builder).holds(w) == (old(builder).holds(w) && bits_boolean(
                    local.opcode_specific_columns.spec_ecall().index_bitmap,
                    w.var(local.selectors.is_ecall),
                    w,
                    8,
                )),
            forall|w: Window| #[trigger]
                r.value(w) == bitmap_sum(
                    local.opcode_specific_columns.spec_ecall().index_bitmap,
                    w,
                    8,
                ),
    {
        let ecall_columns = local.opcode_specific_columns.ecall();
        let mut bitmap_sum = Expr::zero();
        let mut i: usize = 0;
        while i < 8
            invariant
                i <= 8,
                ecall_columns == local.opcode_specific_columns.spec_ecall(),
                builder.interactions@ == old(builder).interactions@,
                forall|w: Window| #[trigger]
                    all_zero(builder.constraints@, w) == (all_zero(old(builder).constraints@, w)
                        && bits_boolean(
                        ecall_columns.index_bitmap,
                        w.var(local.selectors.is_ecall),
                        w,
                        i as nat,
                    )),
                forall|w: Window| #[trigger]
                    bitmap_sum.value(w) == self::bitmap_sum(ecall_columns.index_bitmap, w, i as nat),
            decreases 8 - i,
        {
            let bit = ecall_columns.index_bitmap[i];
            builder.assert_bool_when(Expr::var(local.selectors.is_ecall), Expr::var(bit));
            bitmap_sum = bitmap_sum.plus(Expr::var(bit));
            i += 1;
        }
        bitmap_sum
    }

    /// States that the index of the committed word is the place of the flag
    /// that is set.
    fn eval_bitmap_index(&self, builder: &mut ConstraintBuilder, local: &CpuOpcodeSpecificCols<Var>)
        ensures
            final(builder).interactions@ == old(builder).interactions@,
            forall|w: Window| #[trigger]
                final(builder).holds(w) == (old(builder).holds(w) && bitmap_names_index(
                    local.opcode_specific_columns.spec_ecall().index_bitmap,
                    w.var(local.selectors.is_ecall),
                    local.op_b_val.limb(w, 0),
                    w,
                    8,
                )),
    {
        let ecall_columns = local.opcode_specific_columns.ecall();
        let mut i: usize = 0;
        while i < 8
            invariant
                i <= 8,
                ecall_columns == local.opcode_specific_columns.spec_ecall(),
                builder.interactions@ == old(builder).interactions@,
                forall|w: Window| #[trigger]
                    all_zero(builder.constraints@, w) == (all_zero(old(builder).constraints@, w)
                        && bitmap_names_index(
                        ecall_columns.index_bitmap,
                        w.var(local.selectors.is_ecall),
                        local.op_b_val.limb(w, 0),
                        w,
                        i as nat,
                    )),
            decreases 8 - i,
        {
            let bit = ecall_columns.index_bitmap[i];
            let index: u32 = i as u32;
            builder.assert_eq_when(
                Expr::var(bit).times(Expr::var(local.selectors.is_ecall)),
                Expr::var(local.op_b_val.0[0]),
                Expr::constant(index),
            );
            i += 1;
        }
    }

    /// States that on a commit exactly one flag of the bitmap is set, and on
    /// another system call none.
    fn eval_bitmap_sum(&self, builder: &mut ConstraintBuilder, local: &CpuOpcodeSpecificCols<Var>)
        ensures
            final(builder).interactions@ == old(builder).interactions@,
            forall|w: Window| #[trigger]
                final(builder).holds(w) == (old(builder).holds(w) && {
                    let ecall = local.opcode_specific_columns.spec_ecall();
                    let is_ecall = w.var(local.selectors.is_ecall);
                    let commits = fadd(
                        w.var(ecall.is_commit.result),
                        w.var(ecall.is_commit_deferred_proofs.result),
                    );
                    &&& bits_boolean(ecall.index_bitmap, is_ecall, w, 8)
                    &&& eq_when(fmul(is_ecall, commits), bitmap_sum(ecall.index_bitmap, w, 8), 1)
                    &&& zero_when(
                        fmul(is_ecall, fsub(1, commits)),
                        bitmap_sum(ecall.index_bitmap, w, 8),
                    )
                }),
    {
        let ecall_columns = local.opcode_specific_columns.ecall();
        let commits = Expr::var(ecall_columns.is_commit.result).plus(
            Expr::var(ecall_columns.is_commit_deferred_proofs.result),
        );
        let bitmap_sum = self.eval_bitmap_bits(builder, local);
        builder.assert_one_when(
            Expr::var(local.selectors.is_ecall).times(commits.clone()),
            bitmap_sum.clone(),
        );
        builder.assert_zero_when(
            Expr::var(local.selectors.is_ecall).times(Expr::one().minus(commits)),
            bitmap_sum,
        );
    }

    /// States the constraints on the index of a committed word.
    fn eval_commit_index(&self, builder: &mut ConstraintBuilder, local: &CpuOpcodeSpecificCols<Var>)
        ensures
            final(builder).interactions@ == old(builder).interactions@,
            forall|w: Window| #[trigger]
                final(builder).holds(w) == (old(builder).holds(w) && commit_index_constraints(
                    *local,
                    w,
                )),
    {
        let ecall_columns = local.opcode_specific_columns.ecall();
        self.eval_bitmap_sum(builder, local);
        self.eval_bitmap_index(builder, local);

        // The three high bytes of the index are zero.
        let commits = Expr::var(ecall_columns.is_commit.result).plus(
            Expr::var(ecall_columns.is_commit_deferred_proofs.result),
        );
        let on_commit = Expr::var(local.selectors.is_ecall).times(commits);
        builder.assert_eq_when(on_commit.clone(), Expr::var(local.op_b_val.0[1]), Expr::zero());
        builder.assert_eq_when(on_commit.clone(), Expr::var(local.op_b_val.0[2]), Expr::zero());
        builder.assert_eq_when(on_commit, Expr::var(local.op_b_val.0[3]), Expr::zero());
    }

    /// Limb `j` of the word of `digest` that the bitmap selects.
    fn index_word_limb(bits: &[Var; 8], digest: &[Word<Var>; 8], j: usize) -> (r: Expr)
        requires
            j < 4,
        ensures
            forall|w: Window| #[trigger] r.value(w) == selected_limb(*bits, *digest, j as int, w, 8),
    {
        let mut result = Expr::zero();
        let mut i: usize = 0;
        while i < 8
            invariant
                i <= 8,
                j < 4,
                forall|w: Window| #[trigger]
                    result.value(w) == selected_limb(*bits, *digest, j as int, w, i as nat),
            decreases 8 - i,
        {
            result = result.plus(Expr::var(bits[i]).times(Expr::var(digest[i].0[j])));
            i += 1;
        }
        result
    }

    /// The element of `digest` that the bitmap selects.
    fn index_array(bits: &[Var; 8], digest: &[Var; 8]) -> (r: Expr)
        ensures
            forall|w: Window| #[trigger] r.value(w) == selected_element(*bits, *digest, w, 8),
    {
        let mut result = Expr::zero();
        let mut i: usize = 0;
        while i < 8
            invariant
                i <= 8,
                forall|w: Window| #[trigger]
                    result.value(w) == selected_element(*bits, *digest, w, i as nat),
            decreases 8 - i,
        {
            result = result.plus(Expr::var(bits[i]).times(Expr::var(digest[i])));
            i += 1;
        }
        result
    }

    /// States that on a commit of a word of the public values digest the
    /// third operand is the word that the bitmap selects.
    fn eval_commit_word(
        &self,
        builder: &mut ConstraintBuilder,
        local: &CpuOpcodeSpecificCols<Var>,
        commit_digest: &[Word<Var>; 8],
    )
        ensures
            final(builder).interactions@ == old(builder).interactions@,
            forall|w: Window| #[trigger]
                final(builder).holds(w) == (old(builder).holds(w) && {
                    let ecall = local.opcode_specific_columns.spec_ecall();
                    let commit = fmul(w.var(local.selectors.is_ecall), w.var(ecall.is_commit.result));
                    forall|j: int|
                        0 <= j < 4 ==> eq_when(
                            commit,
                            #[trigger] selected_limb(ecall.index_bitmap, *commit_digest, j, w, 8),
                            local.op_c_val.limb(w, j),
                        )
                }),
    {
        let ecall_columns = local.opcode_specific_columns.ecall();
        let on_commit = Expr::var(local.selectors.is_ecall).times(
            Expr::var(ecall_columns.is_commit.result),
        );
        let digest_word = local.op_c_val;
        builder.assert_eq_when(
            on_commit.clone(),
            Self::index_word_limb(&ecall_columns.index_bitmap, commit_digest, 0),
            Expr::var(digest_word.0[0]),
        );
        builder.assert_eq_when(
            on_commit.clone(),
            Self::index_word_limb(&ecall_columns.index_bitmap, commit_digest, 1),
            Expr::var(digest_word.0[1]),
        );
        builder.assert_eq_when(
            on_commit.clone(),
            Self::index_word_limb(&ecall_columns.index_bitmap, commit_digest, 2),
            Expr::var(digest_word.0[2]),
        );
        builder.assert_eq_when(
            on_commit,
            Self::index_word_limb(&ecall_columns.index_bitmap, commit_digest, 3),
            Expr::var(digest_word.0[3]),
        );
        assert forall|w: Window| #[trigger]
            builder.holds(w) == (old(builder).holds(w) && {
                let ecall = local.opcode_specific_columns.spec_ecall();
                let commit = fmul(w.var(local.selectors.is_ecall), w.var(ecall.is_commit.result));
                forall|j: int|
                    0 <= j < 4 ==> eq_when(
                        commit,
                        #[trigger] selected_limb(ecall.index_bitmap, *commit_digest, j, w, 8),
                        local.op_c_val.limb(w, j),
                    )
            }) by {
            let ecall = local.opcode_specific_columns.spec_ecall();
            let commit = fmul(w.var(local.selectors.is_ecall), w.var(ecall.is_commit.result));
            let limb = |j: int| selected_limb(ecall.index_bitmap, *commit_digest, j, w, 8);
            assert((forall|j: int|
                0 <= j < 4 ==> eq_when(
                    commit,
                    #[trigger] selected_limb(ecall.index_bitmap, *commit_digest, j, w, 8),
                    local.op_c_val.limb(w, j),
                )) == (eq_when(commit, limb(0), local.op_c_val.limb(w, 0)) && eq_when(
                commit,
                limb(1),
                local.op_c_val.limb(w, 1),
            ) && eq_when(commit, limb(2), local.op_c_val.limb(w, 2)) && eq_when(
                commit,
                limb(3),
                local.op_c_val.limb(w, 3),
            )));
        }
    }

    /// States the constraints on the committed word.
    fn eval_commit_digest(
        &self,
        builder: &mut ConstraintBuilder,
        local: &CpuOpcodeSpecificCols<Var>,
        commit_digest: &[Word<Var>; 8],
        deferred_proofs_digest: &[Var; 8],
    )
        ensures
            final(builder).interactions@ == old(builder).interactions@,
            forall|w: Window| #[trigger]
                final(builder).holds(w) == (old(builder).holds(w) && commit_digest_constraints(
                    *local,
                    *commit_digest,
                    *deferred_proofs_digest,
                    w,
                )),
    {
        let ecall_columns = local.opcode_specific_columns.ecall();
        let on_deferred = Expr::var(local.selectors.is_ecall).times(
            Expr::var(ecall_columns.is_commit_deferred_proofs.result),
        );
        let digest_word = local.op_c_val;

        // The committed word of the public values digest.
        self.eval_commit_word(builder, local, commit_digest);

        // The committed element of the deferred proofs digest is the operand
        // that was checked to be a field element.
        builder.assert_word_eq_when(&on_deferred, &digest_word, &ecall_columns.operand_to_check);
        builder.assert_eq_when(
            on_deferred,
            Self::index_array(&ecall_columns.index_bitmap, deferred_proofs_digest),
            digest_word.reduce(),
        );
    }

    /// States the constraints of the two commit system calls: the word that
    /// the program commits is the word of the public digest at the index
    /// that the program gives.
    pub fn eval_commit(
        &self,
        builder: &mut ConstraintBuilder,
        local: &CpuOpcodeSpecificCols<Var>,
        commit_digest: &[Word<Var>; 8],
        deferred_proofs_digest: &[Var; 8],
    )
        ensures
            final(builder).interactions@ == old(builder).interactions@,
            forall|w: Window| #[trigger]
                final(builder).holds(w) == (old(builder).holds(w) && commit_constraints(
                    *local,
                    *commit_digest,
                    *deferred_proofs_digest,
                    w,
                )),
    {
        let _ = self.get_is_commit_related_syscall(builder, local);
        self.eval_commit_index(builder, local);
        self.eval_commit_digest(builder, local, commit_digest, deferred_proofs_digest);
    }
}

} // verus!
