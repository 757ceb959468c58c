//! What the constraints of the system calls enforce.

use crate::builder::lemma_eq_when;
use crate::cpu::laws::lemma_reduced_canonical;
use crate::cpu::opcode_air::ecall::{
    bitmap_names_index, bitmap_sum, commit_digest_constraints, commit_index_constraints,
    commit_syscall_constraints, ecall_constraints, selected_element, selected_limb,
    syscall_difference, syscall_message,
};
use crate::cpu::opcode_cols::CpuOpcodeSpecificCols;
use crate::expr::{Var, Window};
use crate::field::{
    canonical, fadd, fmul, lemma_fadd_value, lemma_field_ops_canonical, lemma_fmul_one,
    lemma_fmul_zero, lemma_fsub_zero,
};
use crate::opcode::SyscallCode;
use crate::operations::{lemma_bit_is_boolean, lemma_is_zero};
use crate::word::Word;
use vstd::prelude::*;

verus! {

/// A system call is handed to a precompile table as often as the second
/// byte of its code says; a row that is no system call hands nothing over.
pub proof fn lemma_syscall_multiplicity(local: CpuOpcodeSpecificCols<Var>, w: Window)
    requires
        w.wf(),
        ecall_constraints(local, w),
        w.var(local.selectors.is_ecall) == 0 || w.var(local.selectors.is_ecall) == 1,
    ensures
        syscall_message(local, w).multiplicity == if w.var(local.selectors.is_ecall) == 1 {
            local.op_a_prev_val.limb(w, 1)
        } else {
            0
        },
{
    let send_to_table = local.op_a_prev_val.limb(w, 1);
    let is_ecall = w.var(local.selectors.is_ecall);
    lemma_field_ops_canonical(send_to_table, is_ecall);
    lemma_fmul_one(send_to_table);
    lemma_fmul_zero(send_to_table);
    lemma_fsub_zero(w.var(local.ecall_mul_send_to_table), fmul(send_to_table, is_ecall));
}

/// On a system call the two commit flags say what the call is: the first
/// is set if and only if the call commits a word of the public values
/// digest, the second if and only if it commits a word of the deferred
/// proofs digest.
pub proof fn lemma_commit_flags(local: CpuOpcodeSpecificCols<Var>, w: Window)
    requires
        w.wf(),
        commit_syscall_constraints(local, w),
        w.var(local.selectors.is_ecall) == 1,
    ensures
        ({
            let ecall = local.opcode_specific_columns.spec_ecall();
            let id = local.op_a_prev_val.limb(w, 0);
            &&& w.var(ecall.is_commit.result) == if id == SyscallCode::Commit.spec_syscall_id() {
                1int
            } else {
                0int
            }
            &&& w.var(ecall.is_commit_deferred_proofs.result) == if id
                == SyscallCode::CommitDeferredProofs.spec_syscall_id() {
                1int
            } else {
                0int
            }
        }),
{
    let ecall = local.opcode_specific_columns.spec_ecall();
    let id = local.op_a_prev_val.limb(w, 0);
    lemma_field_ops_canonical(id, 16);
    lemma_field_ops_canonical(id, 26);
    lemma_fsub_zero(id, 16);
    lemma_fsub_zero(id, 26);
    lemma_is_zero(syscall_difference(local, SyscallCode::Commit, w), ecall.is_commit, 1, w);
    lemma_is_zero(
        syscall_difference(local, SyscallCode::CommitDeferredProofs, w),
        ecall.is_commit_deferred_proofs,
        1,
        w,
    );
}

/// Where no flag of the bitmap is set among the first `n`, their sum is
/// zero.
pub proof fn lemma_empty_bitmap(bits: [Var; 8], w: Window, n: nat)
    requires
        n <= 8,
        forall|k: int| 0 <= k < n ==> w.var(#[trigger] bits[k]) == 0,
    ensures
        bitmap_sum(bits, w, n) == 0,
    decreases n,
{
    if n > 0 {
        lemma_empty_bitmap(bits, w, (n - 1) as nat);
        assert(w.var(bits[n - 1]) == 0);
        lemma_fadd_value(0, 0);
    }
}

/// Where exactly flag `index` of the bitmap is set, the selected limb is
/// that of word `index`, and the selected element is element `index`.
pub proof fn lemma_selected(
    bits: [Var; 8],
    words: [Word<Var>; 8],
    elements: [Var; 8],
    j: int,
    w: Window,
    n: nat,
    index: int,
)
    requires
        w.wf(),
        n <= 8,
        0 <= index < 8,
        forall|k: int| 0 <= k < 8 ==> w.var(#[trigger] bits[k]) == if k == index {
            1int
        } else {
            0int
        },
    ensures
        selected_limb(bits, words, j, w, n) == if index < n {
            words[index].limb(w, j)
        } else {
            0
        },
        selected_element(bits, elements, w, n) == if index < n {
            w.var(elements[index])
        } else {
            0
        },
        canonical(selected_limb(bits, words, j, w, n)),
    decreases n,
{
    if n > 0 {
        lemma_selected(bits, words, elements, j, w, (n - 1) as nat, index);
        let limb = words[n - 1].limb(w, j);
        let element = w.var(elements[n - 1]);
        assert(w.var(bits[n - 1]) == if n - 1 == index {
            1int
        } else {
            0int
        });
        lemma_fmul_one(limb);
        lemma_fmul_zero(limb);
        lemma_fmul_one(element);
        lemma_fmul_zero(element);
        lemma_fadd_value(0, 0);
        lemma_fadd_value(0, limb);
        lemma_fadd_value(limb, 0);
        lemma_fadd_value(0, element);
        lemma_fadd_value(element, 0);
        if index < n - 1 {
            lemma_fadd_value(words[index].limb(w, j), 0);
            lemma_fadd_value(w.var(elements[index]), 0);
        }
    }
}

/// If flag `k` of the bitmap is set on a system call, the index that the
/// program gives is `k`.
proof fn lemma_named_index(bits: [Var; 8], index: int, w: Window, n: nat, k: int)
    requires
        w.wf(),
        canonical(index),
        bitmap_names_index(bits, 1, index, w, n),
        0 <= k < n <= 8,
        w.var(bits[k]) == 1,
    ensures
        index == k,
    decreases n,
{
    if k == n - 1 {
        lemma_fmul_one(1);
        lemma_eq_when(1, index, k);
    } else {
        lemma_named_index(bits, index, w, (n - 1) as nat, k);
    }
}

/// The sum of the flags of a bitmap whose flags are zero or one is zero
/// only if no flag is set, and at most `n`.
proof fn lemma_bitmap_sum(bits: [Var; 8], w: Window, n: nat)
    requires
        n <= 8,
        forall|k: int| 0 <= k < 8 ==> w.var(#[trigger] bits[k]) == 0 || w.var(bits[k]) == 1,
    ensures
        0 <= bitmap_sum(bits, w, n) <= n,
        bitmap_sum(bits, w, n) == 0 ==> forall|k: int| 0 <= k < n ==> w.var(#[trigger] bits[k]) == 0,
    decreases n,
{
    if n > 0 {
        lemma_bitmap_sum(bits, w, (n - 1) as nat);
        assert(w.var(bits[n - 1]) == 0 || w.var(bits[n - 1]) == 1);
        lemma_fadd_value(bitmap_sum(bits, w, (n - 1) as nat), w.var(bits[n - 1]));
    }
}

/// On a commit the bitmap names the index: the index that the program gives
/// is below eight, its flag is the only flag that is set, and the three
/// high bytes of the second operand are zero.
pub proof fn lemma_commit_index(local: CpuOpcodeSpecificCols<Var>, w: Window)
    requires
        w.wf(),
        commit_index_constraints(local, w),
        w.var(local.selectors.is_ecall) == 1,
        fadd(
            w.var(local.opcode_specific_columns.spec_ecall().is_commit.result),
            w.var(local.opcode_specific_columns.spec_ecall().is_commit_deferred_proofs.result),
        ) == 1,
    ensures
        ({
            let ecall = local.opcode_specific_columns.spec_ecall();
            let index = local.op_b_val.limb(w, 0);
            &&& 0 <= index < 8
            &&& forall|k: int|
                0 <= k < 8 ==> w.var(#[trigger] ecall.index_bitmap[k]) == if k == index {
                    1int
                } else {
                    0int
                }
            &&& local.op_b_val.limb(w, 1) == 0
            &&& local.op_b_val.limb(w, 2) == 0
            &&& local.op_b_val.limb(w, 3) == 0
        }),
{
    let ecall = local.opcode_specific_columns.spec_ecall();
    let bits = ecall.index_bitmap;
    let index = local.op_b_val.limb(w, 0);
    lemma_fmul_one(1);
    assert forall|k: int| 0 <= k < 8 implies w.var(#[trigger] bits[k]) == 0 || w.var(bits[k])
        == 1 by {
        lemma_bit_is_boolean(bits, 1, w, 8, k);
    }
    lemma_bitmap_sum(bits, w, 8);
    lemma_eq_when(1, bitmap_sum(bits, w, 8), 1);
    // Some flag is set, for else the sum would be zero.
    if forall|k: int| 0 <= k < 8 ==> w.var(#[trigger] bits[k]) == 0 {
        lemma_empty_bitmap(bits, w, 8);
    }
    let set = choose|k: int| 0 <= k < 8 && w.var(#[trigger] bits[k]) != 0;
    assert(w.var(bits[set]) == 1);
    lemma_named_index(bits, index, w, 8, set);
    assert forall|k: int| 0 <= k < 8 implies w.var(#[trigger] bits[k]) == if k == index {
        1int
    } else {
        0int
    } by {
        if w.var(bits[k]) == 1 {
            lemma_named_index(bits, index, w, 8, k);
        }
    }
    lemma_eq_when(1, local.op_b_val.limb(w, 1), 0);
    lemma_eq_when(1, local.op_b_val.limb(w, 2), 0);
    lemma_eq_when(1, local.op_b_val.limb(w, 3), 0);
}

/// A commit of a word of the public values digest binds the word: the third
/// operand of the call is the word of the public digest at the index that
/// the second operand gives.
pub proof fn lemma_commit_word(
    local: CpuOpcodeSpecificCols<Var>,
    commit_digest: [Word<Var>; 8],
    deferred_proofs_digest: [Var; 8],
    w: Window,
    j: int,
)
    requires
        w.wf(),
        commit_syscall_constraints(local, w),
        commit_index_constraints(local, w),
        commit_digest_constraints(local, commit_digest, deferred_proofs_digest, w),
        w.var(local.selectors.is_ecall) == 1,
        local.op_a_prev_val.limb(w, 0) == SyscallCode::Commit.spec_syscall_id(),
        0 <= j < 4,
    ensures
        0 <= local.op_b_val.limb(w, 0) < 8,
        local.op_c_val.limb(w, j) == commit_digest[local.op_b_val.limb(w, 0)].limb(w, j),
{
    let ecall = local.opcode_specific_columns.spec_ecall();
    lemma_commit_flags(local, w);
    lemma_fadd_value(1, 0);
    lemma_commit_index(local, w);
    let index = local.op_b_val.limb(w, 0);
    lemma_selected(ecall.index_bitmap, commit_digest, deferred_proofs_digest, j, w, 8, index);
    lemma_fmul_one(1);
    let selected = selected_limb(ecall.index_bitmap, commit_digest, j, w, 8);
    lemma_eq_when(1, selected, local.op_c_val.limb(w, j));
}

/// A commit of a word of the deferred proofs digest binds the element: the
/// field element that the third operand of the call stands for is the
/// element of the public digest at the index that the second operand
/// gives.
pub proof fn lemma_commit_deferred_proof(
    local: CpuOpcodeSpecificCols<Var>,
    commit_digest: [Word<Var>; 8],
    deferred_proofs_digest: [Var; 8],
    w: Window,
)
    requires
        w.wf(),
        commit_syscall_constraints(local, w),
        commit_index_constraints(local, w),
        commit_digest_constraints(local, commit_digest, deferred_proofs_digest, w),
        w.var(local.selectors.is_ecall) == 1,
        local.op_a_prev_val.limb(w, 0) == SyscallCode::CommitDeferredProofs.spec_syscall_id(),
    ensures
        0 <= local.op_b_val.limb(w, 0) < 8,
        local.op_c_val.reduced(w) == w.var(deferred_proofs_digest[local.op_b_val.limb(w, 0)]),
{
    let ecall = local.opcode_specific_columns.spec_ecall();
    lemma_commit_flags(local, w);
    lemma_fadd_value(0, 1);
    lemma_commit_index(local, w);
    let index = local.op_b_val.limb(w, 0);
    lemma_selected(ecall.index_bitmap, commit_digest, deferred_proofs_digest, 0, w, 8, index);
    lemma_fmul_one(1);
    lemma_reduced_canonical(local.op_c_val, w);
    lemma_eq_when(
        1,
        selected_element(ecall.index_bitmap, deferred_proofs_digest, w, 8),
        local.op_c_val.reduced(w),
    );
}

} // verus!
