//! What the constraints of loads and stores enforce.
//!
//! Every statement is about a window of canonical field elements that
//! satisfies the constraints named in its hypotheses, on a row whose class
//! is what the statement says.

use crate::builder::{lemma_boolean_when, lemma_eq_when, lemma_zero_when};
use crate::cpu::opcode_air::memory::{
    access_constraints, addressed_byte, addressed_half, address_constraints, aligned_bits_boolean,
    flagged_offset, load_byte_constraints, load_half_constraints, load_result_constraints,
    load_sign_constraints, load_word_constraints, loads_negative, loads_positive,
    memory_load_message, offset_flag_constraints, offset_is_zero, recompose_aligned,
    store_byte_constraints, store_half_constraints, store_word_constraints, stored_byte,
    stored_half,
};
use crate::cpu::opcode_cols::{CpuOpcodeSpecificCols, MemoryColumns};
use crate::expr::{Var, Window};
use crate::field::{
    canonical, fadd, fmul, fsub, lemma_fadd_value, lemma_field_ops_canonical, lemma_fmul_one,
    lemma_fmul_small, lemma_fmul_zero, lemma_fsub_value, modulus,
};
use crate::memory::laws::lemma_select;
use crate::operations::{
    lemma_bit_is_boolean, lemma_recompose_bits, lemma_word_below_modulus, limbs_are_bytes,
    word_value,
};
use vstd::prelude::*;

verus! {

/// The offset of a load or store and its flags: at most one of the three
/// flags is set, the flag of offset zero is set if none of them is, and the
/// offset is the place of the flag that is set.
pub proof fn lemma_offset_flags(m: MemoryColumns<Var>, is_memory: int, w: Window)
    requires
        w.wf(),
        is_memory == 1,
        offset_flag_constraints(m, is_memory, w),
    ensures
        ({
            let one = w.var(m.offset_is_one);
            let two = w.var(m.offset_is_two);
            let three = w.var(m.offset_is_three);
            let offset = w.var(m.addr_offset);
            ||| one == 0 && two == 0 && three == 0 && offset == 0 && offset_is_zero(m, w) == 1
            ||| one == 1 && two == 0 && three == 0 && offset == 1 && offset_is_zero(m, w) == 0
            ||| one == 0 && two == 1 && three == 0 && offset == 2 && offset_is_zero(m, w) == 0
            ||| one == 0 && two == 0 && three == 1 && offset == 3 && offset_is_zero(m, w) == 0
        }),
{
    let one = w.var(m.offset_is_one);
    let two = w.var(m.offset_is_two);
    let three = w.var(m.offset_is_three);
    let offset = w.var(m.addr_offset);
    let zero = offset_is_zero(m, w);
    lemma_boolean_when(1, one);
    lemma_boolean_when(1, two);
    lemma_boolean_when(1, three);
    lemma_fsub_value(1, one);
    lemma_fsub_value(fsub(1, one), two);
    lemma_fsub_value(fsub(fsub(1, one), two), three);
    lemma_field_ops_canonical(fsub(fsub(1, one), two), three);
    lemma_fmul_one(zero);
    lemma_fmul_one(one);
    lemma_fmul_one(two);
    lemma_fmul_one(three);
    lemma_zero_when(fmul(1, zero), offset);
    lemma_eq_when(fmul(1, one), offset, 1);
    lemma_eq_when(fmul(1, two), offset, 2);
    lemma_eq_when(fmul(1, three), offset, 3);
}

/// Every bit of the aligned address that the constraints hold for is zero
/// or one.
pub proof fn lemma_aligned_bit_is_boolean(bits: [Var; 6], w: Window, n: nat, i: int)
    requires
        w.wf(),
        aligned_bits_boolean(bits, 1, w, n),
        0 <= i < n <= 6,
    ensures
        w.var(bits[i]) == 0 || w.var(bits[i]) == 1,
    decreases n,
{
    if i == n - 1 {
        lemma_boolean_when(1, w.var(bits[i]));
    } else {
        lemma_aligned_bit_is_boolean(bits, w, (n - 1) as nat, i);
    }
}

/// The byte that the bits of the aligned address stand for is a multiple of
/// four below 256.
pub proof fn lemma_recompose_aligned(bits: [Var; 6], w: Window, n: nat)
    requires
        n <= 6,
        forall|i: int| 0 <= i < 6 ==> w.var(#[trigger] bits[i]) == 0 || w.var(bits[i]) == 1,
    ensures
        0 <= recompose_aligned(bits, w, n) < vstd::arithmetic::power2::pow2((n + 2) as nat),
        recompose_aligned(bits, w, n) % 4 == 0,
    decreases n,
{
    vstd::arithmetic::power2::lemma2_to64();
    if n > 0 {
        lemma_recompose_aligned(bits, w, (n - 1) as nat);
        let bit = w.var(bits[n - 1]);
        let weight = vstd::arithmetic::power2::pow2((n + 1) as nat) as int;
        vstd::arithmetic::power2::lemma_pow2_unfold((n + 2) as nat);
        vstd::arithmetic::power2::lemma_pow2_unfold((n + 1) as nat);
        vstd::arithmetic::power2::lemma_pow2_unfold(n);
        assert(bit == 0 || bit == 1);
        assert(4 <= weight <= 128 && weight % 4 == 0) by {
            if n + 1 < 7 {
                vstd::arithmetic::power2::lemma_pow2_strictly_increases((n + 1) as nat, 7);
            }
            if n + 1 > 2 {
                vstd::arithmetic::power2::lemma_pow2_strictly_increases(2, (n + 1) as nat);
            }
            let quarter = vstd::arithmetic::power2::pow2((n - 1) as nat) as int;
            assert(weight == 4 * quarter);
        }
        assert(weight * bit == if bit == 1 {
            weight
        } else {
            0
        }) by (nonlinear_arith)
            requires
                bit == 0 || bit == 1,
        ;
        lemma_fmul_small(weight, bit);
        lemma_fadd_value(recompose_aligned(bits, w, (n - 1) as nat), fmul(weight, bit));
    }
}

/// The address of a load or store: its offset is what is left of it after
/// division by four.
///
/// That the limbs of the address are bytes is what the byte table checks.
pub proof fn lemma_address_offset(local: CpuOpcodeSpecificCols<Var>, w: Window)
    requires
        w.wf(),
        address_constraints(local, 1, w),
        limbs_are_bytes(local.opcode_specific_columns.spec_memory().addr_word, w),
    ensures
        ({
            let m = local.opcode_specific_columns.spec_memory();
            &&& word_value(m.addr_word, w) < modulus()
            &&& word_value(m.addr_word, w) % 4 == w.var(m.addr_offset)
            &&& fadd(w.var(m.addr_aligned), w.var(m.addr_offset)) == word_value(m.addr_word, w)
        }),
{
    let m = local.opcode_specific_columns.spec_memory();
    let bits = m.aa_least_sig_byte_decomp;
    let low = m.addr_word.limb(w, 0);
    lemma_word_below_modulus(m.addr_word, m.addr_word_range_checker, 1, w);
    lemma_offset_flags(m, 1, w);
    assert forall|i: int| 0 <= i < 6 implies w.var(#[trigger] bits[i]) == 0 || w.var(bits[i])
        == 1 by {
        lemma_aligned_bit_is_boolean(bits, w, 6, i);
    }
    lemma_recompose_aligned(bits, w, 6);
    vstd::arithmetic::power2::lemma2_to64();
    // The offset as the flags give it.
    let one = w.var(m.offset_is_one);
    let two = w.var(m.offset_is_two);
    let three = w.var(m.offset_is_three);
    lemma_fmul_one(one);
    lemma_fmul_small(2, two);
    lemma_fmul_small(3, three);
    lemma_fadd_value(0, fmul(1, one));
    lemma_fadd_value(fadd(0, fmul(1, one)), fmul(2, two));
    lemma_fadd_value(fadd(fadd(0, fmul(1, one)), fmul(2, two)), fmul(3, three));
    assert(flagged_offset(m, w) == w.var(m.addr_offset));
    // The least significant byte less the offset is a multiple of four.
    assert(0 <= low < 256);
    lemma_fsub_value(low, flagged_offset(m, w));
    lemma_field_ops_canonical(low, flagged_offset(m, w));
    lemma_eq_when(1, fsub(low, flagged_offset(m, w)), recompose_aligned(bits, w, 6));
    assert(low >= w.var(m.addr_offset));
    assert((low - w.var(m.addr_offset)) % 4 == 0);
    // The address is the aligned address plus the offset.
    lemma_field_ops_canonical(w.var(m.addr_aligned), w.var(m.addr_offset));
    crate::cpu::laws::lemma_reduced_canonical(m.addr_word, w);
    lemma_eq_when(
        1,
        fadd(w.var(m.addr_aligned), w.var(m.addr_offset)),
        m.addr_word.reduced(w),
    );
}

/// A load leaves the accessed word as it was.
pub proof fn lemma_load_leaves_memory(local: CpuOpcodeSpecificCols<Var>, w: Window, i: int)
    requires
        w.wf(),
        access_constraints(local, 1, w),
        local.selectors.load(w) == 1,
        0 <= i < 4,
    ensures
        ({
            let m = local.opcode_specific_columns.spec_memory();
            m.memory_access.access.value.limb(w, i) == m.memory_access.prev_value.limb(w, i)
        }),
{
    let m = local.opcode_specific_columns.spec_memory();
    lemma_eq_when(
        1,
        m.memory_access.access.value.limb(w, i),
        m.memory_access.prev_value.limb(w, i),
    );
}

/// A load word takes the accessed word, which has to be aligned.
pub proof fn lemma_load_word(local: CpuOpcodeSpecificCols<Var>, w: Window, i: int)
    requires
        w.wf(),
        load_word_constraints(local, w),
        w.var(local.selectors.is_lw) == 1,
        0 <= i < 4,
    ensures
        ({
            let m = local.opcode_specific_columns.spec_memory();
            &&& offset_is_zero(m, w) == 1
            &&& local.unsigned_mem_val.limb(w, i) == m.memory_access.access.value.limb(w, i)
        }),
{
    let m = local.opcode_specific_columns.spec_memory();
    lemma_field_ops_canonical(
        fsub(fsub(1, w.var(m.offset_is_one)), w.var(m.offset_is_two)),
        w.var(m.offset_is_three),
    );
    lemma_eq_when(1, offset_is_zero(m, w), 1);
    lemma_eq_when(
        1,
        m.memory_access.access.value.limb(w, i),
        local.unsigned_mem_val.limb(w, i),
    );
}

/// The byte at an offset in the accessed word, where the offset flags are
/// what [`lemma_offset_flags`] says.
pub proof fn lemma_addressed_byte(m: MemoryColumns<Var>, w: Window)
    requires
        w.wf(),
        offset_flag_constraints(m, 1, w),
    ensures
        0 <= w.var(m.addr_offset) < 4,
        addressed_byte(m, w) == m.memory_access.access.value.limb(w, w.var(m.addr_offset)),
{
    lemma_offset_flags(m, 1, w);
    let value = m.memory_access.access.value;
    lemma_fmul_one(value.limb(w, 0));
    lemma_fmul_one(value.limb(w, 1));
    lemma_fmul_one(value.limb(w, 2));
    lemma_fmul_one(value.limb(w, 3));
    lemma_fmul_zero(value.limb(w, 0));
    lemma_fmul_zero(value.limb(w, 1));
    lemma_fmul_zero(value.limb(w, 2));
    lemma_fmul_zero(value.limb(w, 3));
    lemma_fadd_value(0, 0);
    lemma_fadd_value(value.limb(w, 0), 0);
    lemma_fadd_value(0, value.limb(w, 1));
    lemma_fadd_value(value.limb(w, 1), 0);
    lemma_fadd_value(0, value.limb(w, 2));
    lemma_fadd_value(value.limb(w, 2), 0);
    lemma_fadd_value(0, value.limb(w, 3));
}

/// A load byte, signed or not, takes the byte at the offset, with zero
/// above it.
pub proof fn lemma_load_byte(local: CpuOpcodeSpecificCols<Var>, w: Window)
    requires
        w.wf(),
        offset_flag_constraints(local.opcode_specific_columns.spec_memory(), 1, w),
        load_byte_constraints(local, w),
        fadd(w.var(local.selectors.is_lb), w.var(local.selectors.is_lbu)) == 1,
    ensures
        ({
            let m = local.opcode_specific_columns.spec_memory();
            &&& local.unsigned_mem_val.limb(w, 0) == m.memory_access.access.value.limb(
                w,
                w.var(m.addr_offset),
            )
            &&& local.unsigned_mem_val.limb(w, 1) == 0
            &&& local.unsigned_mem_val.limb(w, 2) == 0
            &&& local.unsigned_mem_val.limb(w, 3) == 0
        }),
{
    let m = local.opcode_specific_columns.spec_memory();
    lemma_addressed_byte(m, w);
    lemma_eq_when(1, addressed_byte(m, w), local.unsigned_mem_val.limb(w, 0));
    lemma_eq_when(1, 0, local.unsigned_mem_val.limb(w, 1));
    lemma_eq_when(1, 0, local.unsigned_mem_val.limb(w, 2));
    lemma_eq_when(1, 0, local.unsigned_mem_val.limb(w, 3));
}

/// A load half word, signed or not, takes the half word at the offset,
/// which is zero or two, with zero above it.
pub proof fn lemma_load_half(local: CpuOpcodeSpecificCols<Var>, w: Window)
    requires
        w.wf(),
        offset_flag_constraints(local.opcode_specific_columns.spec_memory(), 1, w),
        load_half_constraints(local, w),
        fadd(w.var(local.selectors.is_lh), w.var(local.selectors.is_lhu)) == 1,
    ensures
        ({
            let m = local.opcode_specific_columns.spec_memory();
            let offset = w.var(m.addr_offset);
            &&& offset == 0 || offset == 2
            &&& local.unsigned_mem_val.limb(w, 0) == m.memory_access.access.value.limb(w, offset)
            &&& local.unsigned_mem_val.limb(w, 1) == m.memory_access.access.value.limb(
                w,
                offset + 1,
            )
            &&& local.unsigned_mem_val.limb(w, 2) == 0
            &&& local.unsigned_mem_val.limb(w, 3) == 0
        }),
{
    let m = local.opcode_specific_columns.spec_memory();
    let value = m.memory_access.access.value;
    lemma_offset_flags(m, 1, w);
    lemma_fadd_value(w.var(m.offset_is_one), w.var(m.offset_is_three));
    lemma_field_ops_canonical(w.var(m.offset_is_one), w.var(m.offset_is_three));
    lemma_zero_when(1, fadd(w.var(m.offset_is_one), w.var(m.offset_is_three)));
    lemma_fmul_one(value.limb(w, 0));
    lemma_fmul_one(value.limb(w, 1));
    lemma_fmul_one(value.limb(w, 2));
    lemma_fmul_one(value.limb(w, 3));
    lemma_fmul_zero(value.limb(w, 0));
    lemma_fmul_zero(value.limb(w, 1));
    lemma_fmul_zero(value.limb(w, 2));
    lemma_fmul_zero(value.limb(w, 3));
    lemma_fadd_value(value.limb(w, 0), 0);
    lemma_fadd_value(value.limb(w, 1), 0);
    lemma_fadd_value(0, value.limb(w, 2));
    lemma_fadd_value(0, value.limb(w, 3));
    lemma_field_ops_canonical(
        fmul(offset_is_zero(m, w), value.limb(w, 0)),
        fmul(w.var(m.offset_is_two), value.limb(w, 2)),
    );
    lemma_field_ops_canonical(
        fmul(offset_is_zero(m, w), value.limb(w, 1)),
        fmul(w.var(m.offset_is_two), value.limb(w, 3)),
    );
    lemma_eq_when(1, addressed_half(m, w, 0), local.unsigned_mem_val.limb(w, 0));
    lemma_eq_when(1, addressed_half(m, w, 1), local.unsigned_mem_val.limb(w, 1));
    lemma_eq_when(1, 0, local.unsigned_mem_val.limb(w, 2));
    lemma_eq_when(1, 0, local.unsigned_mem_val.limb(w, 3));
}

/// The sign of a loaded byte or half word: on LB and LH the top bit of the
/// decomposition is set if and only if the most significant byte of the
/// loaded value is at least 128.
pub proof fn lemma_load_sign(local: CpuOpcodeSpecificCols<Var>, w: Window)
    requires
        w.wf(),
        local.selectors.memory(w) == 1,
        load_sign_constraints(local, w),
    ensures
        ({
            let m = local.opcode_specific_columns.spec_memory();
            let negative = w.var(m.most_sig_byte_decomp[7]);
            &&& negative == 0 || negative == 1
            &&& w.var(local.selectors.is_lb) == 1 ==> (negative == 1) == (
            local.unsigned_mem_val.limb(w, 0) >= 128)
            &&& w.var(local.selectors.is_lh) == 1 ==> (negative == 1) == (
            local.unsigned_mem_val.limb(w, 1) >= 128)
        }),
{
    let m = local.opcode_specific_columns.spec_memory();
    let bits = m.most_sig_byte_decomp;
    assert forall|i: int| 0 <= i < 8 implies w.var(#[trigger] bits[i]) == 0 || w.var(bits[i])
        == 1 by {
        lemma_bit_is_boolean(bits, 1, w, 8, i);
    }
    lemma_recompose_bits(bits, w);
    assert(w.var(bits[0]) == 0 || w.var(bits[0]) == 1);
    assert(w.var(bits[1]) == 0 || w.var(bits[1]) == 1);
    assert(w.var(bits[2]) == 0 || w.var(bits[2]) == 1);
    assert(w.var(bits[3]) == 0 || w.var(bits[3]) == 1);
    assert(w.var(bits[4]) == 0 || w.var(bits[4]) == 1);
    assert(w.var(bits[5]) == 0 || w.var(bits[5]) == 1);
    assert(w.var(bits[6]) == 0 || w.var(bits[6]) == 1);
    assert(w.var(bits[7]) == 0 || w.var(bits[7]) == 1);
    lemma_eq_when(
        w.var(local.selectors.is_lb),
        crate::operations::recompose_bits(bits, w, 8),
        local.unsigned_mem_val.limb(w, 0),
    );
    lemma_eq_when(
        w.var(local.selectors.is_lh),
        crate::operations::recompose_bits(bits, w, 8),
        local.unsigned_mem_val.limb(w, 1),
    );
}

/// The register that a load writes: a loaded value that is not negative is
/// written as it is, unless the register is register zero; a negative one
/// is handed to the ALU table, which extends its sign.
pub proof fn lemma_load_result(local: CpuOpcodeSpecificCols<Var>, w: Window, i: int)
    requires
        w.wf(),
        load_result_constraints(local, w),
        w.var(local.op_a_0) == 0,
        0 <= i < 4,
    ensures
        loads_positive(local, w) == 1 ==> local.op_a_val.limb(w, i) == local.unsigned_mem_val.limb(
            w,
            i,
        ),
        memory_load_message(local, w).multiplicity == loads_negative(local, w),
{
    let m = local.opcode_specific_columns.spec_memory();
    let not_x0 = fsub(1, w.var(local.op_a_0));
    let signed = fadd(w.var(local.selectors.is_lb), w.var(local.selectors.is_lh));
    // Both flags are canonical field elements.
    lemma_field_ops_canonical(signed, w.var(m.most_sig_byte_decomp[7]));
    lemma_field_ops_canonical(
        fadd(
            fadd(
                fmul(signed, fsub(1, w.var(m.most_sig_byte_decomp[7]))),
                w.var(local.selectors.is_lbu),
            ),
            w.var(local.selectors.is_lhu),
        ),
        w.var(local.selectors.is_lw),
    );
    lemma_fsub_value(1, 0);
    lemma_field_ops_canonical(loads_positive(local, w), not_x0);
    lemma_field_ops_canonical(loads_negative(local, w), not_x0);
    lemma_field_ops_canonical(0, loads_positive(local, w));
    lemma_field_ops_canonical(0, loads_negative(local, w));
    lemma_fmul_one(loads_positive(local, w));
    lemma_fmul_one(loads_negative(local, w));
    crate::field::lemma_fsub_zero(
        w.var(local.mem_value_is_pos_not_x0),
        fmul(loads_positive(local, w), not_x0),
    );
    crate::field::lemma_fsub_zero(
        w.var(local.mem_value_is_neg_not_x0),
        fmul(loads_negative(local, w), not_x0),
    );
    lemma_eq_when(
        w.var(local.mem_value_is_pos_not_x0),
        local.unsigned_mem_val.limb(w, i),
        local.op_a_val.limb(w, i),
    );
}

/// A store byte puts the low byte of the first operand at the offset and
/// leaves the other bytes of the word.
pub proof fn lemma_store_byte(local: CpuOpcodeSpecificCols<Var>, w: Window, i: int)
    requires
        w.wf(),
        offset_flag_constraints(local.opcode_specific_columns.spec_memory(), 1, w),
        store_byte_constraints(local, w),
        w.var(local.selectors.is_sb) == 1,
        0 <= i < 4,
    ensures
        ({
            let m = local.opcode_specific_columns.spec_memory();
            m.memory_access.access.value.limb(w, i) == if i == w.var(m.addr_offset) {
                local.op_a_val.limb(w, 0)
            } else {
                m.memory_access.prev_value.limb(w, i)
            }
        }),
{
    let m = local.opcode_specific_columns.spec_memory();
    lemma_offset_flags(m, 1, w);
    let flag = if i == 0 {
        offset_is_zero(m, w)
    } else if i == 1 {
        w.var(m.offset_is_one)
    } else if i == 2 {
        w.var(m.offset_is_two)
    } else {
        w.var(m.offset_is_three)
    };
    lemma_select(flag, local.op_a_val.limb(w, 0), m.memory_access.prev_value.limb(w, i));
    lemma_eq_when(1, m.memory_access.access.value.limb(w, i), stored_byte(local, w, i));
}

/// A store half word puts the low half of the first operand at the offset,
/// which is zero or two, and leaves the other half of the word.
pub proof fn lemma_store_half(local: CpuOpcodeSpecificCols<Var>, w: Window, i: int)
    requires
        w.wf(),
        offset_flag_constraints(local.opcode_specific_columns.spec_memory(), 1, w),
        store_half_constraints(local, w),
        w.var(local.selectors.is_sh) == 1,
        0 <= i < 4,
    ensures
        ({
            let m = local.opcode_specific_columns.spec_memory();
            let offset = w.var(m.addr_offset);
            &&& offset == 0 || offset == 2
            &&& m.memory_access.access.value.limb(w, i) == if offset <= i < offset + 2 {
                local.op_a_val.limb(w, i - offset)
            } else {
                m.memory_access.prev_value.limb(w, i)
            }
        }),
{
    let m = local.opcode_specific_columns.spec_memory();
    lemma_offset_flags(m, 1, w);
    lemma_fadd_value(w.var(m.offset_is_one), w.var(m.offset_is_three));
    lemma_field_ops_canonical(w.var(m.offset_is_one), w.var(m.offset_is_three));
    lemma_zero_when(1, fadd(w.var(m.offset_is_one), w.var(m.offset_is_three)));
    let flag = if i < 2 {
        offset_is_zero(m, w)
    } else {
        w.var(m.offset_is_two)
    };
    lemma_select(flag, local.op_a_val.limb(w, i % 2), m.memory_access.prev_value.limb(w, i));
    lemma_eq_when(1, m.memory_access.access.value.limb(w, i), stored_half(local, w, i));
}

/// A store word puts the first operand in place of the word, which has to
/// be aligned.
pub proof fn lemma_store_word(local: CpuOpcodeSpecificCols<Var>, w: Window, i: int)
    requires
        w.wf(),
        store_word_constraints(local, w),
        w.var(local.selectors.is_sw) == 1,
        0 <= i < 4,
    ensures
        ({
            let m = local.opcode_specific_columns.spec_memory();
            &&& offset_is_zero(m, w) == 1
            &&& m.memory_access.access.value.limb(w, i) == local.op_a_val.limb(w, i)
        }),
{
    let m = local.opcode_specific_columns.spec_memory();
    lemma_field_ops_canonical(
        fsub(fsub(1, w.var(m.offset_is_one)), w.var(m.offset_is_two)),
        w.var(m.offset_is_three),
    );
    lemma_eq_when(1, offset_is_zero(m, w), 1);
    lemma_eq_when(1, m.memory_access.access.value.limb(w, i), local.op_a_val.limb(w, i));
}

} // verus!
