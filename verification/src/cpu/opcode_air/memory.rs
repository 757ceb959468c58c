//! Loads and stores.
//!
//! The address is the sum of the second and third operands. The word that
//! holds the addressed byte is read, and on a store written; a load takes a
//! byte, a half word or the word out of it and extends it, a store puts a
//! byte, a half word or the word of the first operand into it.

use crate::air_builder::{
    alu_values, local_message, memory_access_constraints, memory_access_messages, select,
    word_range_check_messages,
};
use crate::builder::{all_zero, boolean_when, eq_when, zero_when, ConstraintBuilder};
use crate::cpu::opcode_air::CpuOpcodeSpecificChip;
use crate::cpu::opcode_cols::{CpuOpcodeSpecificCols, MemoryColumns};
use crate::expr::{Expr, Var, Window};
use crate::field::{fadd, fmul, fsub};
use crate::interaction::{InteractionKind, Message};
use crate::opcode::Opcode;
use crate::operations::{
    bits_boolean, recompose_bits, word_range_constraints, BabyBearWordRangeChecker,
};
use crate::word::Word;
use vstd::prelude::*;

verus! {

/// One if the addressed byte is the first of its word: what is left of one
/// after the three other offset flags.
pub open spec fn offset_is_zero(m: MemoryColumns<Var>, w: Window) -> int {
    fsub(fsub(fsub(1, w.var(m.offset_is_one)), w.var(m.offset_is_two)), w.var(m.offset_is_three))
}

/// The constraints on the offset flags of a load or store: the three flags
/// are booleans, the four flags sum to one, and the offset is the place of
/// the flag that is set.
pub open spec fn offset_flag_constraints(m: MemoryColumns<Var>, is_memory: int, w: Window) -> bool {
    let zero = offset_is_zero(m, w);
    let one = w.var(m.offset_is_one);
    let two = w.var(m.offset_is_two);
    let three = w.var(m.offset_is_three);
    let offset = w.var(m.addr_offset);
    &&& boolean_when(is_memory, one)
    &&& boolean_when(is_memory, two)
    &&& boolean_when(is_memory, three)
    &&& eq_when(is_memory, fadd(fadd(fadd(zero, one), two), three), 1)
    &&& zero_when(fmul(is_memory, zero), offset)
    &&& eq_when(fmul(is_memory, one), offset, 1)
    &&& eq_when(fmul(is_memory, two), offset, 2)
    &&& eq_when(fmul(is_memory, three), offset, 3)
}

/// Whether each of the first `n` bits of the aligned address is zero or one
/// wherever `cond` is not zero.
pub open spec fn aligned_bits_boolean(bits: [Var; 6], cond: int, w: Window, n: nat) -> bool
    decreases n,
{
    if n == 0 {
        true
    } else {
        aligned_bits_boolean(bits, cond, w, (n - 1) as nat) && boolean_when(cond, w.var(bits[n - 1]))
    }
}

/// The byte that the first `n` bits of the aligned address stand for: bit
/// `i` has weight `2^(i + 2)`.
pub open spec fn recompose_aligned(bits: [Var; 6], w: Window, n: nat) -> int
    decreases n,
{
    if n == 0 {
        0
    } else {
        fadd(
            recompose_aligned(bits, w, (n - 1) as nat),
            fmul(vstd::arithmetic::power2::pow2((n + 1) as nat) as int, w.var(bits[n - 1])),
        )
    }
}

/// The offset as the flags give it: `1 * one + 2 * two + 3 * three`.
pub open spec fn flagged_offset(m: MemoryColumns<Var>, w: Window) -> int {
    fadd(
        fadd(fadd(0, fmul(1, w.var(m.offset_is_one))), fmul(2, w.var(m.offset_is_two))),
        fmul(3, w.var(m.offset_is_three)),
    )
}

/// The constraints on the address of a load or store.
///
/// The address is below the order of the field. It is the sum of the
/// aligned address and the offset, and the least significant byte of the
/// aligned address is a multiple of four.
pub open spec fn address_constraints(local: CpuOpcodeSpecificCols<Var>, is_memory: int, w: Window) -> bool {
    let m = local.opcode_specific_columns.spec_memory();
    &&& word_range_constraints(m.addr_word, m.addr_word_range_checker, is_memory, w)
    &&& offset_flag_constraints(m, is_memory, w)
    &&& eq_when(is_memory, fadd(w.var(m.addr_aligned), w.var(m.addr_offset)), m.addr_word.reduced(w))
    &&& aligned_bits_boolean(m.aa_least_sig_byte_decomp, is_memory, w, 6)
    &&& eq_when(
        is_memory,
        fsub(m.addr_word.limb(w, 0), flagged_offset(m, w)),
        recompose_aligned(m.aa_least_sig_byte_decomp, w, 6),
    )
}

/// The constraints on the access of a load or store: the word at the
/// aligned address is accessed at the start of the cycle, and a load leaves
/// it as it was.
pub open spec fn access_constraints(local: CpuOpcodeSpecificCols<Var>, is_memory: int, w: Window) -> bool {
    let m = local.opcode_specific_columns.spec_memory();
    &&& memory_access_constraints(
        m.memory_access.access,
        is_memory,
        w.var(local.shard),
        fadd(w.var(local.clk), 0),
        w,
    )
    &&& m.memory_access.access.value.eq_when(local.selectors.load(w), m.memory_access.prev_value, w)
}

/// The constraints on address and access of a load or store.
pub open spec fn memory_address_constraints(local: CpuOpcodeSpecificCols<Var>, is_memory: int, w: Window) -> bool {
    &&& address_constraints(local, is_memory, w)
    &&& access_constraints(local, is_memory, w)
}

/// The messages of the address and access of a load or store: the addition
/// `addr = op_b + op_c`, the check that the limbs of the address are bytes,
/// and the access to the word at the aligned address.
pub open spec fn memory_address_messages(local: CpuOpcodeSpecificCols<Var>, is_memory: int, w: Window) -> Seq<Message> {
    let m = local.opcode_specific_columns.spec_memory();
    seq![
        local_message(
            InteractionKind::Alu,
            true,
            alu_values(
                Opcode::ADD.spec_code(),
                m.addr_word.limbs(w),
                local.op_b_val.limbs(w),
                local.op_c_val.limbs(w),
                w.var(local.shard),
                w.var(local.channel),
                w.var(m.addr_word_nonce),
            ),
            is_memory,
        ),
    ] + word_range_check_messages(m.addr_word, local.shard, local.channel, is_memory, w)
        + memory_access_messages(
        m.memory_access.access,
        m.memory_access.prev_value,
        is_memory,
        local.shard,
        local.channel,
        fadd(w.var(local.clk), 0),
        w.var(m.addr_aligned),
        w,
    )
}

/// The byte at the offset in the accessed word: the sum of the bytes of the
/// word, each times its offset flag.
pub open spec fn addressed_byte(m: MemoryColumns<Var>, w: Window) -> int {
    let value = m.memory_access.access.value;
    fadd(
        fadd(
            fadd(
                fmul(value.limb(w, 0), offset_is_zero(m, w)),
                fmul(value.limb(w, 1), w.var(m.offset_is_one)),
            ),
            fmul(value.limb(w, 2), w.var(m.offset_is_two)),
        ),
        fmul(value.limb(w, 3), w.var(m.offset_is_three)),
    )
}

/// Byte `i` of the half word at the offset in the accessed word, for `i`
/// zero or one: the lower half at offset zero, the upper half at offset two.
pub open spec fn addressed_half(m: MemoryColumns<Var>, w: Window, i: int) -> int {
    let value = m.memory_access.access.value;
    fadd(
        fmul(offset_is_zero(m, w), value.limb(w, i)),
        fmul(w.var(m.offset_is_two), value.limb(w, i + 2)),
    )
}

/// The constraints on the value that a load byte takes out of the accessed
/// word: the byte at the offset, with zero above it.
pub open spec fn load_byte_constraints(local: CpuOpcodeSpecificCols<Var>, w: Window) -> bool {
    let m = local.opcode_specific_columns.spec_memory();
    let is_byte = fadd(w.var(local.selectors.is_lb), w.var(local.selectors.is_lbu));
    &&& eq_when(is_byte, addressed_byte(m, w), local.unsigned_mem_val.limb(w, 0))
    &&& eq_when(is_byte, 0, local.unsigned_mem_val.limb(w, 1))
    &&& eq_when(is_byte, 0, local.unsigned_mem_val.limb(w, 2))
    &&& eq_when(is_byte, 0, local.unsigned_mem_val.limb(w, 3))
}

/// The constraints on the value that a load half word takes out of the
/// accessed word: the offset is zero or two, and the value is the half word
/// at the offset, with zero above it.
pub open spec fn load_half_constraints(local: CpuOpcodeSpecificCols<Var>, w: Window) -> bool {
    let m = local.opcode_specific_columns.spec_memory();
    let is_half = fadd(w.var(local.selectors.is_lh), w.var(local.selectors.is_lhu));
    &&& zero_when(is_half, fadd(w.var(m.offset_is_one), w.var(m.offset_is_three)))
    &&& eq_when(is_half, addressed_half(m, w, 0), local.unsigned_mem_val.limb(w, 0))
    &&& eq_when(is_half, addressed_half(m, w, 1), local.unsigned_mem_val.limb(w, 1))
    &&& eq_when(is_half, 0, local.unsigned_mem_val.limb(w, 2))
    &&& eq_when(is_half, 0, local.unsigned_mem_val.limb(w, 3))
}

/// The constraints on the value that a load word takes: the offset is zero,
/// and the value is the accessed word.
pub open spec fn load_word_constraints(local: CpuOpcodeSpecificCols<Var>, w: Window) -> bool {
    let m = local.opcode_specific_columns.spec_memory();
    let is_lw = w.var(local.selectors.is_lw);
    &&& eq_when(is_lw, offset_is_zero(m, w), 1)
    &&& m.memory_access.access.value.eq_when(is_lw, local.unsigned_mem_val, w)
}

/// The constraints on the sign of a loaded byte or half word: the bits are
/// those of the most significant byte of the loaded value.
pub open spec fn load_sign_constraints(local: CpuOpcodeSpecificCols<Var>, w: Window) -> bool {
    let m = local.opcode_specific_columns.spec_memory();
    &&& bits_boolean(m.most_sig_byte_decomp, local.selectors.memory(w), w, 8)
    &&& eq_when(
        w.var(local.selectors.is_lb),
        recompose_bits(m.most_sig_byte_decomp, w, 8),
        local.unsigned_mem_val.limb(w, 0),
    )
    &&& eq_when(
        w.var(local.selectors.is_lh),
        recompose_bits(m.most_sig_byte_decomp, w, 8),
        local.unsigned_mem_val.limb(w, 1),
    )
}

/// One on a signed load whose value is negative.
pub open spec fn loads_negative(local: CpuOpcodeSpecificCols<Var>, w: Window) -> int {
    let m = local.opcode_specific_columns.spec_memory();
    fmul(
        fadd(w.var(local.selectors.is_lb), w.var(local.selectors.is_lh)),
        w.var(m.most_sig_byte_decomp[7]),
    )
}

/// One on a load whose value is not negative.
pub open spec fn loads_positive(local: CpuOpcodeSpecificCols<Var>, w: Window) -> int {
    let m = local.opcode_specific_columns.spec_memory();
    fadd(
        fadd(
            fadd(
                fmul(
                    fadd(w.var(local.selectors.is_lb), w.var(local.selectors.is_lh)),
                    fsub(1, w.var(m.most_sig_byte_decomp[7])),
                ),
                w.var(local.selectors.is_lbu),
            ),
            w.var(local.selectors.is_lhu),
        ),
        w.var(local.selectors.is_lw),
    )
}

/// The constraints on the register that a load writes.
///
/// The two flags say whether the loaded value is negative or not, and are
/// zero if the register is register zero. A value that is not negative is
/// written as it is; a negative one is extended by the ALU table.
pub open spec fn load_result_constraints(local: CpuOpcodeSpecificCols<Var>, w: Window) -> bool {
    let not_x0 = fsub(1, w.var(local.op_a_0));
    &&& fsub(w.var(local.mem_value_is_neg_not_x0), fmul(loads_negative(local, w), not_x0)) == 0
    &&& fsub(w.var(local.mem_value_is_pos_not_x0), fmul(loads_positive(local, w), not_x0)) == 0
    &&& local.unsigned_mem_val.eq_when(w.var(local.mem_value_is_pos_not_x0), local.op_a_val, w)
}

/// All constraints of the loads.
pub open spec fn memory_load_constraints(local: CpuOpcodeSpecificCols<Var>, w: Window) -> bool {
    &&& load_byte_constraints(local, w)
    &&& load_half_constraints(local, w)
    &&& load_word_constraints(local, w)
    &&& load_sign_constraints(local, w)
    &&& load_result_constraints(local, w)
}

/// The message of a load of a negative value: the subtraction
/// `op_a = value - 2^8` for a byte, `op_a = value - 2^16` for a half word,
/// which extends the sign, sent to the ALU table.
pub open spec fn memory_load_message(local: CpuOpcodeSpecificCols<Var>, w: Window) -> Message {
    local_message(
        InteractionKind::Alu,
        true,
        alu_values(
            Opcode::SUB.spec_code(),
            local.op_a_val.limbs(w),
            local.unsigned_mem_val.limbs(w),
            seq![0, w.var(local.selectors.is_lb), w.var(local.selectors.is_lh), 0],
            w.var(local.shard),
            w.var(local.channel),
            w.var(local.unsigned_mem_val_nonce),
        ),
        w.var(local.mem_value_is_neg_not_x0),
    )
}

/// Byte `i` of the word that a store byte leaves: the low byte of the first
/// operand at the offset, the old byte elsewhere.
pub open spec fn stored_byte(local: CpuOpcodeSpecificCols<Var>, w: Window, i: int) -> int {
    let m = local.opcode_specific_columns.spec_memory();
    let flag = if i == 0 {
        offset_is_zero(m, w)
    } else if i == 1 {
        w.var(m.offset_is_one)
    } else if i == 2 {
        w.var(m.offset_is_two)
    } else {
        w.var(m.offset_is_three)
    };
    select(flag, local.op_a_val.limb(w, 0), m.memory_access.prev_value.limb(w, i))
}

/// Byte `i` of the word that a store half word leaves: the low half of the
/// first operand at the offset, the old half elsewhere.
pub open spec fn stored_half(local: CpuOpcodeSpecificCols<Var>, w: Window, i: int) -> int {
    let m = local.opcode_specific_columns.spec_memory();
    let flag = if i < 2 {
        offset_is_zero(m, w)
    } else {
        w.var(m.offset_is_two)
    };
    select(flag, local.op_a_val.limb(w, i % 2), m.memory_access.prev_value.limb(w, i))
}

/// The constraints of a store byte.
pub open spec fn store_byte_constraints(local: CpuOpcodeSpecificCols<Var>, w: Window) -> bool {
    let m = local.opcode_specific_columns.spec_memory();
    let is_sb = w.var(local.selectors.is_sb);
    let value = m.memory_access.access.value;
    &&& eq_when(is_sb, value.limb(w, 0), stored_byte(local, w, 0))
    &&& eq_when(is_sb, value.limb(w, 1), stored_byte(local, w, 1))
    &&& eq_when(is_sb, value.limb(w, 2), stored_byte(local, w, 2))
    &&& eq_when(is_sb, value.limb(w, 3), stored_byte(local, w, 3))
}

/// The constraints of a store half word: the offset is zero or two.
pub open spec fn store_half_constraints(local: CpuOpcodeSpecificCols<Var>, w: Window) -> bool {
    let m = local.opcode_specific_columns.spec_memory();
    let is_sh = w.var(local.selectors.is_sh);
    let value = m.memory_access.access.value;
    &&& zero_when(is_sh, fadd(w.var(m.offset_is_one), w.var(m.offset_is_three)))
    &&& eq_when(is_sh, value.limb(w, 0), stored_half(local, w, 0))
    &&& eq_when(is_sh, value.limb(w, 1), stored_half(local, w, 1))
    &&& eq_when(is_sh, value.limb(w, 2), stored_half(local, w, 2))
    &&& eq_when(is_sh, value.limb(w, 3), stored_half(local, w, 3))
}

/// The constraints of a store word: the offset is zero, and the word
/// becomes the first operand.
pub open spec fn store_word_constraints(local: CpuOpcodeSpecificCols<Var>, w: Window) -> bool {
    let m = local.opcode_specific_columns.spec_memory();
    let is_sw = w.var(local.selectors.is_sw);
    &&& eq_when(is_sw, offset_is_zero(m, w), 1)
    &&& m.memory_access.access.value.eq_when(is_sw, local.op_a_val, w)
}

/// All constraints of the stores.
pub open spec fn memory_store_constraints(local: CpuOpcodeSpecificCols<Var>, w: Window) -> bool {
    &&& store_byte_constraints(local, w)
    &&& store_half_constraints(local, w)
    &&& store_word_constraints(local, w)
}

impl CpuOpcodeSpecificChip {
    /// The expression that is one if the addressed byte is the first of its
    /// word.
    fn offset_is_zero(m: &MemoryColumns<Var>) -> (r: Expr)
        ensures
            forall|w: Window| #[trigger] r.value(w) == offset_is_zero(*m, w),
    {
        Expr::one().minus(Expr::var(m.offset_is_one)).minus(Expr::var(m.offset_is_two)).minus(
            Expr::var(m.offset_is_three),
        )
    }

    /// States that on a load or store the offset flags are booleans that sum
    /// to one.
    fn eval_offset_flags(
        &self,
        builder: &mut ConstraintBuilder,
        m: &MemoryColumns<Var>,
        is_memory_instruction: &Expr,
    )
        ensures
            final(builder).interactions@ == old(builder).interactions@,
            forall|w: Window| #[trigger]
                final(builder).holds(w) == (old(builder).holds(w) && {
                    let is_memory = is_memory_instruction.value(w);
                    &&& boolean_when(is_memory, w.var(m.offset_is_one))
                    &&& boolean_when(is_memory, w.var(m.offset_is_two))
                    &&& boolean_when(is_memory, w.var(m.offset_is_three))
                    &&& eq_when(
                        is_memory,
                        fadd(
                            fadd(fadd(offset_is_zero(*m, w), w.var(m.offset_is_one)), w.var(m.offset_is_two)),
                            w.var(m.offset_is_three),
                        ),
                        1,
                    )
                }),
    {
        builder.assert_bool_when(is_memory_instruction.clone(), Expr::var(m.offset_is_one));
        builder.assert_bool_when(is_memory_instruction.clone(), Expr::var(m.offset_is_two));
        builder.assert_bool_when(is_memory_instruction.clone(), Expr::var(m.offset_is_three));
        builder.assert_one_when(
            is_memory_instruction.clone(),
            Self::offset_is_zero(m).plus(Expr::var(m.offset_is_one)).plus(
                Expr::var(m.offset_is_two),
            ).plus(Expr::var(m.offset_is_three)),
        );
    }

    /// States the constraints on the offset flags of a load or store.
    fn eval_offset_value_flags(
        &self,
        builder: &mut ConstraintBuilder,
        m: &MemoryColumns<Var>,
        is_memory_instruction: &Expr,
    )
        ensures
            final(builder).interactions@ == old(builder).interactions@,
            forall|w: Window| #[trigger]
                final(builder).holds(w) == (old(builder).holds(w) && offset_flag_constraints(
                    *m,
                    is_memory_instruction.value(w),
                    w,
                )),
    {
        self.eval_offset_flags(builder, m, is_memory_instruction);

        // The offset is the place of the flag that is set.
        builder.assert_zero_when(
            is_memory_instruction.clone().times(Self::offset_is_zero(m)),
            Expr::var(m.addr_offset),
        );
        builder.assert_one_when(
            is_memory_instruction.clone().times(Expr::var(m.offset_is_one)),
            Expr::var(m.addr_offset),
        );
        builder.assert_eq_when(
            is_memory_instruction.clone().times(Expr::var(m.offset_is_two)),
            Expr::var(m.addr_offset),
            Expr::constant(2),
        );
        builder.assert_eq_when(
            is_memory_instruction.clone().times(Expr::var(m.offset_is_three)),
            Expr::var(m.addr_offset),
            Expr::constant(3),
        );
    }

    /// States that the bits of the aligned address are bits on a load or
    /// store, and returns the byte that they stand for.
    fn eval_aligned_bits(
        &self,
        builder: &mut ConstraintBuilder,
        m: &MemoryColumns<Var>,
        is_memory_instruction: &Expr,
    ) -> (r: Expr)
        ensures
            final(builder).interactions@ == old(builder).interactions@,
            forall|w: Window| #[trigger]
                final(builder).holds(w) == (old(builder).holds(w) && aligned_bits_boolean(
                    m.aa_least_sig_byte_decomp,
                    is_memory_instruction.value(w),
                    w,
                    6,
                )),
            forall|w: Window| #[trigger]
                r.value(w) == recompose_aligned(m.aa_least_sig_byte_decomp, w, 6),
    {
        let mut recomposed_byte = Expr::zero();
        let mut power: u32 = 4;
        let mut i: usize = 0;
        proof {
            vstd::arithmetic::power2::lemma2_to64();
        }
        while i < 6
            invariant
                i <= 6,
                power as int == vstd::arithmetic::power2::pow2((i + 2) as nat),
                power <= 256,
                builder.interactions@ == old(builder).interactions@,
                forall|w: Window| #[trigger]
                    all_zero(builder.constraints@, w) == (all_zero(old(builder).constraints@, w)
                        && aligned_bits_boolean(
                        m.aa_least_sig_byte_decomp,
                        is_memory_instruction.value(w),
                        w,
                        i as nat,
                    )),
                forall|w: Window| #[trigger]
                    recomposed_byte.value(w) == recompose_aligned(
                        m.aa_least_sig_byte_decomp,
                        w,
                        i as nat,
                    ),
            decreases 6 - i,
        {
            let bit = m.aa_least_sig_byte_decomp[i];
            builder.assert_bool_when(is_memory_instruction.clone(), Expr::var(bit));
            recomposed_byte = recomposed_byte.plus(Expr::constant(power).times(Expr::var(bit)));
            proof {
                vstd::arithmetic::power2::lemma_pow2_unfold((i + 3) as nat);
                vstd::arithmetic::power2::lemma2_to64();
                if i < 5 {
                    vstd::arithmetic::power2::lemma_pow2_strictly_increases((i + 3) as nat, 8);
                }
            }
            power = power * 2;
            i += 1;
        }
        recomposed_byte
    }

    /// The offset as the flags give it, as an expression.
    fn flagged_offset(m: &MemoryColumns<Var>) -> (r: Expr)
        ensures
            forall|w: Window| #[trigger] r.value(w) == flagged_offset(*m, w),
    {
        Expr::zero().plus(Expr::constant(1).times(Expr::var(m.offset_is_one))).plus(
            Expr::constant(2).times(Expr::var(m.offset_is_two)),
        ).plus(Expr::constant(3).times(Expr::var(m.offset_is_three)))
    }

    /// States the constraints on the address of a load or store.
    fn eval_memory_address(
        &self,
        builder: &mut ConstraintBuilder,
        local: &CpuOpcodeSpecificCols<Var>,
        is_memory_instruction: &Expr,
    )
        ensures
            final(builder).interactions@ == old(builder).interactions@,
            forall|w: Window| #[trigger]
                final(builder).holds(w) == (old(builder).holds(w) && address_constraints(
                    *local,
                    is_memory_instruction.value(w),
                    w,
                )),
    {
        let memory_columns = local.opcode_specific_columns.memory();

        // The address is below the order of the field.
        BabyBearWordRangeChecker::<Var>::range_check(
            builder,
            &memory_columns.addr_word,
            &memory_columns.addr_word_range_checker,
            is_memory_instruction.clone(),
        );

        // The offset and its flags.
        self.eval_offset_value_flags(builder, &memory_columns, is_memory_instruction);

        // reduce(addr_word) == addr_aligned + addr_offset.
        builder.assert_eq_when(
            is_memory_instruction.clone(),
            Expr::var(memory_columns.addr_aligned).plus(Expr::var(memory_columns.addr_offset)),
            memory_columns.addr_word.reduce(),
        );

        // The least significant byte of addr_word - addr_offset is a
        // multiple of four.
        let recomposed_byte = self.eval_aligned_bits(builder, &memory_columns, is_memory_instruction);
        builder.assert_eq_when(
            is_memory_instruction.clone(),
            Expr::var(memory_columns.addr_word.0[0]).minus(Self::flagged_offset(&memory_columns)),
            recomposed_byte,
        );
    }

    /// States the constraints and interactions of the address and of the
    /// access of a load or store.
    #[verifier::rlimit(40)]
    pub fn eval_memory_address_and_access(
        &self,
        builder: &mut ConstraintBuilder,
        local: &CpuOpcodeSpecificCols<Var>,
        is_memory_instruction: Expr,
    )
        ensures
            final(builder).interactions@.len() == old(builder).interactions@.len() + 7,
            forall|w: Window| #[trigger]
                final(builder).holds(w) == (old(builder).holds(w) && memory_address_constraints(
                    *local,
                    is_memory_instruction.value(w),
                    w,
                )),
            forall|w: Window| #[trigger]
                final(builder).messages(w) == old(builder).messages(w) + memory_address_messages(
                    *local,
                    is_memory_instruction.value(w),
                    w,
                ),
    {
        // The memory columns.
        let memory_columns = local.opcode_specific_columns.memory();

        // The ALU table checks that addr_word is op_b + op_c.
        builder.send_alu(
            Expr::constant(Opcode::ADD.code()),
            &memory_columns.addr_word.exprs(),
            &local.op_b_val.exprs(),
            &local.op_c_val.exprs(),
            local.shard,
            local.channel,
            memory_columns.addr_word_nonce,
            is_memory_instruction.clone(),
        );

        // Every limb of addr_word is a byte.
        builder.word_range_check_u8(
            &memory_columns.addr_word,
            local.shard,
            local.channel,
            is_memory_instruction.clone(),
        );

        self.eval_memory_address(builder, local, &is_memory_instruction);

        // The word at the aligned address is read, and on a store written.
        builder.eval_memory_access(
            local.shard,
            local.channel,
            Expr::var(local.clk).plus(Expr::constant(0)),
            Expr::var(memory_columns.addr_aligned),
            &memory_columns.memory_access.prev_value(),
            &memory_columns.memory_access.access,
            is_memory_instruction.clone(),
        );

        // A load does not change the word.
        builder.assert_word_eq_when(
            &local.selectors.is_load_instruction(),
            &memory_columns.memory_access.value(),
            &memory_columns.memory_access.prev_value(),
        );
        assert forall|w: Window| #[trigger]
            builder.messages(w) == old(builder).messages(w) + memory_address_messages(
                *local,
                is_memory_instruction.value(w),
                w,
            ) by {
            assert(builder.messages(w) =~= old(builder).messages(w) + memory_address_messages(
                *local,
                is_memory_instruction.value(w),
                w,
            ));
        }
    }
    /// The byte at the offset in the accessed word, as an expression.
    fn addressed_byte(m: &MemoryColumns<Var>) -> (r: Expr)
        ensures
            forall|w: Window| #[trigger] r.value(w) == addressed_byte(*m, w),
    {
        let mem_val = m.memory_access.value();
        Expr::var(mem_val.0[0]).times(Self::offset_is_zero(m)).plus(
            Expr::var(mem_val.0[1]).times(Expr::var(m.offset_is_one)),
        ).plus(Expr::var(mem_val.0[2]).times(Expr::var(m.offset_is_two))).plus(
            Expr::var(mem_val.0[3]).times(Expr::var(m.offset_is_three)),
        )
    }

    /// Byte `i` of the half word at the offset in the accessed word, as an
    /// expression.
    fn addressed_half(m: &MemoryColumns<Var>, i: usize) -> (r: Expr)
        requires
            i < 2,
        ensures
            forall|w: Window| #[trigger] r.value(w) == addressed_half(*m, w, i as int),
    {
        let mem_val = m.memory_access.value();
        Self::offset_is_zero(m).times(Expr::var(mem_val.0[i])).plus(
            Expr::var(m.offset_is_two).times(Expr::var(mem_val.0[i + 2])),
        )
    }

    /// States what a load byte takes out of the accessed word.
    fn eval_load_byte(&self, builder: &mut ConstraintBuilder, local: &CpuOpcodeSpecificCols<Var>)
        ensures
            final(builder).interactions@ == old(builder).interactions@,
            forall|w: Window| #[trigger]
                final(builder).holds(w) == (old(builder).holds(w) && load_byte_constraints(
                    *local,
                    w,
                )),
    {
        let memory_columns = local.opcode_specific_columns.memory();
        let is_byte = Expr::var(local.selectors.is_lb).plus(Expr::var(local.selectors.is_lbu));
        builder.assert_eq_when(
            is_byte.clone(),
            Self::addressed_byte(&memory_columns),
            Expr::var(local.unsigned_mem_val.0[0]),
        );
        builder.assert_eq_when(is_byte.clone(), Expr::zero(), Expr::var(local.unsigned_mem_val.0[1]));
        builder.assert_eq_when(is_byte.clone(), Expr::zero(), Expr::var(local.unsigned_mem_val.0[2]));
        builder.assert_eq_when(is_byte, Expr::zero(), Expr::var(local.unsigned_mem_val.0[3]));
    }

    /// States what a load half word takes out of the accessed word.
    fn eval_load_half(&self, builder: &mut ConstraintBuilder, local: &CpuOpcodeSpecificCols<Var>)
        ensures
            final(builder).interactions@ == old(builder).interactions@,
            forall|w: Window| #[trigger]
                final(builder).holds(w) == (old(builder).holds(w) && load_half_constraints(
                    *local,
                    w,
                )),
    {
        let memory_columns = local.opcode_specific_columns.memory();
        let is_half = Expr::var(local.selectors.is_lh).plus(Expr::var(local.selectors.is_lhu));

        // The offset is zero or two.
        builder.assert_zero_when(
            is_half.clone(),
            Expr::var(memory_columns.offset_is_one).plus(Expr::var(memory_columns.offset_is_three)),
        );
        builder.assert_eq_when(
            is_half.clone(),
            Self::addressed_half(&memory_columns, 0),
            Expr::var(local.unsigned_mem_val.0[0]),
        );
        builder.assert_eq_when(
            is_half.clone(),
            Self::addressed_half(&memory_columns, 1),
            Expr::var(local.unsigned_mem_val.0[1]),
        );
        builder.assert_eq_when(is_half.clone(), Expr::zero(), Expr::var(local.unsigned_mem_val.0[2]));
        builder.assert_eq_when(is_half, Expr::zero(), Expr::var(local.unsigned_mem_val.0[3]));
    }

    /// States what a load word takes.
    fn eval_load_word(&self, builder: &mut ConstraintBuilder, local: &CpuOpcodeSpecificCols<Var>)
        ensures
            final(builder).interactions@ == old(builder).interactions@,
            forall|w: Window| #[trigger]
                final(builder).holds(w) == (old(builder).holds(w) && load_word_constraints(
                    *local,
                    w,
                )),
    {
        let memory_columns = local.opcode_specific_columns.memory();

        // The offset is zero.
        builder.assert_one_when(
            Expr::var(local.selectors.is_lw),
            Self::offset_is_zero(&memory_columns),
        );

        // The value is the word.
        builder.assert_word_eq_when(
            &Expr::var(local.selectors.is_lw),
            &memory_columns.memory_access.value(),
            &local.unsigned_mem_val,
        );
    }

    /// States the value that a load takes out of the accessed word, before
    /// the extension of its sign.
    fn eval_unsigned_mem_value(&self, builder: &mut ConstraintBuilder, local: &CpuOpcodeSpecificCols<Var>)
        ensures
            final(builder).interactions@ == old(builder).interactions@,
            forall|w: Window| #[trigger]
                final(builder).holds(w) == (old(builder).holds(w) && load_byte_constraints(
                    *local,
                    w,
                ) && load_half_constraints(*local, w) && load_word_constraints(*local, w)),
    {
        self.eval_load_byte(builder, local);
        self.eval_load_half(builder, local);
        self.eval_load_word(builder, local);
    }

    /// States that the bits of the most significant byte are bits on a load
    /// or store, and returns the byte that they stand for.
    fn eval_sign_bits(&self, builder: &mut ConstraintBuilder, local: &CpuOpcodeSpecificCols<Var>) -> (r: Expr)
        ensures
            final(builder).interactions@ == old(builder).interactions@,
            forall|w: Window| #[trigger]
                final(builder).holds(w) == (old(builder).holds(w) && bits_boolean(
                    local.opcode_specific_columns.spec_memory().most_sig_byte_decomp,
                    local.selectors.memory(w),
                    w,
                    8,
                )),
            forall|w: Window| #[trigger]
                r.value(w) == recompose_bits(
                    local.opcode_specific_columns.spec_memory().most_sig_byte_decomp,
                    w,
                    8,
                ),
    {
        let memory_columns = local.opcode_specific_columns.memory();
        let is_mem = local.selectors.is_memory_instruction();
        let mut recomposed_byte = Expr::zero();
        let mut power: u32 = 1;
        let mut i: usize = 0;
        proof {
            vstd::arithmetic::power2::lemma2_to64();
        }
        while i < 8
            invariant
                i <= 8,
                power as int == vstd::arithmetic::power2::pow2(i as nat),
                power <= 256,
                memory_columns == local.opcode_specific_columns.spec_memory(),
                forall|w: Window| #[trigger] is_mem.value(w) == local.selectors.memory(w),
                builder.interactions@ == old(builder).interactions@,
                forall|w: Window| #[trigger]
                    all_zero(builder.constraints@, w) == (all_zero(old(builder).constraints@, w)
                        && bits_boolean(
                        memory_columns.most_sig_byte_decomp,
                        local.selectors.memory(w),
                        w,
                        i as nat,
                    )),
                forall|w: Window| #[trigger]
                    recomposed_byte.value(w) == recompose_bits(
                        memory_columns.most_sig_byte_decomp,
                        w,
                        i as nat,
                    ),
            decreases 8 - i,
        {
            let bit = memory_columns.most_sig_byte_decomp[i];
            builder.assert_bool_when(is_mem.clone(), Expr::var(bit));
            recomposed_byte = recomposed_byte.plus(Expr::var(bit).times(Expr::constant(power)));
            proof {
                vstd::arithmetic::power2::lemma_pow2_unfold((i + 1) as nat);
                vstd::arithmetic::power2::lemma2_to64();
                if i < 7 {
                    vstd::arithmetic::power2::lemma_pow2_strictly_increases((i + 1) as nat, 8);
                }
            }
            power = power * 2;
            i += 1;
        }
        recomposed_byte
    }

    /// States that the sign bits are the bits of the most significant byte
    /// of a loaded byte or half word.
    fn eval_most_sig_byte_bit_decomp(&self, builder: &mut ConstraintBuilder, local: &CpuOpcodeSpecificCols<Var>)
        ensures
            final(builder).interactions@ == old(builder).interactions@,
            forall|w: Window| #[trigger]
                final(builder).holds(w) == (old(builder).holds(w) && load_sign_constraints(
                    *local,
                    w,
                )),
    {
        let recomposed_byte = self.eval_sign_bits(builder, local);
        builder.assert_eq_when(
            Expr::var(local.selectors.is_lb),
            recomposed_byte.clone(),
            Expr::var(local.unsigned_mem_val.0[0]),
        );
        builder.assert_eq_when(
            Expr::var(local.selectors.is_lh),
            recomposed_byte,
            Expr::var(local.unsigned_mem_val.0[1]),
        );
    }

    /// One on a signed load whose value is negative, as an expression.
    fn loads_negative(local: &CpuOpcodeSpecificCols<Var>) -> (r: Expr)
        ensures
            forall|w: Window| #[trigger] r.value(w) == loads_negative(*local, w),
    {
        let memory_columns = local.opcode_specific_columns.memory();
        Expr::var(local.selectors.is_lb).plus(Expr::var(local.selectors.is_lh)).times(
            Expr::var(memory_columns.most_sig_byte_decomp[7]),
        )
    }

    /// One on a load whose value is not negative, as an expression.
    fn loads_positive(local: &CpuOpcodeSpecificCols<Var>) -> (r: Expr)
        ensures
            forall|w: Window| #[trigger] r.value(w) == loads_positive(*local, w),
    {
        let memory_columns = local.opcode_specific_columns.memory();
        Expr::var(local.selectors.is_lb).plus(Expr::var(local.selectors.is_lh)).times(
            Expr::one().minus(Expr::var(memory_columns.most_sig_byte_decomp[7])),
        ).plus(Expr::var(local.selectors.is_lbu)).plus(Expr::var(local.selectors.is_lhu)).plus(
            Expr::var(local.selectors.is_lw),
        )
    }

    /// States the constraints on the register that a load writes.
    fn eval_load_result(&self, builder: &mut ConstraintBuilder, local: &CpuOpcodeSpecificCols<Var>)
        ensures
            final(builder).interactions@ == old(builder).interactions@,
            forall|w: Window| #[trigger]
                final(builder).holds(w) == (old(builder).holds(w) && load_result_constraints(
                    *local,
                    w,
                )),
    {
        // The two flags.
        builder.assert_eq(
            Expr::var(local.mem_value_is_neg_not_x0),
            Self::loads_negative(local).times(Expr::one().minus(Expr::var(local.op_a_0))),
        );
        builder.assert_eq(
            Expr::var(local.mem_value_is_pos_not_x0),
            Self::loads_positive(local).times(Expr::one().minus(Expr::var(local.op_a_0))),
        );

        // A value that is not negative is written as it is.
        builder.assert_word_eq_when(
            &Expr::var(local.mem_value_is_pos_not_x0),
            &local.unsigned_mem_val,
            &local.op_a_val,
        );
    }

    /// The word `[0, is_lb, is_lh, 0]`: what has to be subtracted from a
    /// negative byte or half word to extend its sign.
    fn sign_extension(local: &CpuOpcodeSpecificCols<Var>) -> (r: Word<Expr>)
        ensures
            forall|w: Window| #[trigger]
                r.values(w) == seq![
                    0,
                    w.var(local.selectors.is_lb),
                    w.var(local.selectors.is_lh),
                    0,
                ],
    {
        let r = Word(
            [
                Expr::zero(),
                Expr::var(local.selectors.is_lb),
                Expr::var(local.selectors.is_lh),
                Expr::zero(),
            ],
        );
        assert forall|w: Window| #[trigger]
            r.values(w) == seq![0, w.var(local.selectors.is_lb), w.var(local.selectors.is_lh), 0] by {
            assert(r.values(w) =~= seq![
                0,
                w.var(local.selectors.is_lb),
                w.var(local.selectors.is_lh),
                0,
            ]);
        }
        r
    }

    /// States the constraints and the interaction of the loads.
    pub fn eval_memory_load(&self, builder: &mut ConstraintBuilder, local: &CpuOpcodeSpecificCols<Var>)
        ensures
            final(builder).interactions@.len() == old(builder).interactions@.len() + 1,
            forall|w: Window| #[trigger]
                final(builder).holds(w) == (old(builder).holds(w) && memory_load_constraints(
                    *local,
                    w,
                )),
            forall|w: Window| #[trigger]
                final(builder).messages(w) == old(builder).messages(w).push(
                    memory_load_message(*local, w),
                ),
    {
        // The value before the extension of its sign.
        self.eval_unsigned_mem_value(builder, local);

        // The sign of a loaded byte or half word.
        self.eval_most_sig_byte_bit_decomp(builder, local);

        // The ALU table extends a negative value.
        builder.send_alu(
            Expr::constant(Opcode::SUB.code()),
            &local.op_a_val.exprs(),
            &local.unsigned_mem_val.exprs(),
            &Self::sign_extension(local),
            local.shard,
            local.channel,
            local.unsigned_mem_val_nonce,
            Expr::var(local.mem_value_is_neg_not_x0),
        );

        self.eval_load_result(builder, local);
    }

    /// Byte `i` of the word that a store byte leaves, as an expression.
    fn stored_byte(local: &CpuOpcodeSpecificCols<Var>, i: usize) -> (r: Expr)
        requires
            i < 4,
        ensures
            forall|w: Window| #[trigger] r.value(w) == stored_byte(*local, w, i as int),
    {
        let memory_columns = local.opcode_specific_columns.memory();
        let flag = if i == 0 {
            Self::offset_is_zero(&memory_columns)
        } else if i == 1 {
            Expr::var(memory_columns.offset_is_one)
        } else if i == 2 {
            Expr::var(memory_columns.offset_is_two)
        } else {
            Expr::var(memory_columns.offset_is_three)
        };
        ConstraintBuilder::if_else(
            &flag,
            Expr::var(local.op_a_val.0[0]),
            Expr::var(memory_columns.memory_access.prev_value().0[i]),
        )
    }

    /// Byte `i` of the word that a store half word leaves, as an expression.
    fn stored_half(local: &CpuOpcodeSpecificCols<Var>, i: usize) -> (r: Expr)
        requires
            i < 4,
        ensures
            forall|w: Window| #[trigger] r.value(w) == stored_half(*local, w, i as int),
    {
        let memory_columns = local.opcode_specific_columns.memory();
        let flag = if i < 2 {
            Self::offset_is_zero(&memory_columns)
        } else {
            Expr::var(memory_columns.offset_is_two)
        };
        ConstraintBuilder::if_else(
            &flag,
            Expr::var(local.op_a_val.0[i % 2]),
            Expr::var(memory_columns.memory_access.prev_value().0[i]),
        )
    }

    /// States the constraints of a store byte.
    fn eval_store_byte(&self, builder: &mut ConstraintBuilder, local: &CpuOpcodeSpecificCols<Var>)
        ensures
            final(builder).interactions@ == old(builder).interactions@,
            forall|w: Window| #[trigger]
                final(builder).holds(w) == (old(builder).holds(w) && store_byte_constraints(
                    *local,
                    w,
                )),
    {
        let memory_columns = local.opcode_specific_columns.memory();
        let mem_val = memory_columns.memory_access.value();
        builder.assert_eq_when(
            Expr::var(local.selectors.is_sb),
            Expr::var(mem_val.0[0]),
            Self::stored_byte(local, 0),
        );
        builder.assert_eq_when(
            Expr::var(local.selectors.is_sb),
            Expr::var(mem_val.0[1]),
            Self::stored_byte(local, 1),
        );
        builder.assert_eq_when(
            Expr::var(local.selectors.is_sb),
            Expr::var(mem_val.0[2]),
            Self::stored_byte(local, 2),
        );
        builder.assert_eq_when(
            Expr::var(local.selectors.is_sb),
            Expr::var(mem_val.0[3]),
            Self::stored_byte(local, 3),
        );
    }

    /// States the constraints of a store half word.
    fn eval_store_half(&self, builder: &mut ConstraintBuilder, local: &CpuOpcodeSpecificCols<Var>)
        ensures
            final(builder).interactions@ == old(builder).interactions@,
            forall|w: Window| #[trigger]
                final(builder).holds(w) == (old(builder).holds(w) && store_half_constraints(
                    *local,
                    w,
                )),
    {
        let memory_columns = local.opcode_specific_columns.memory();
        let mem_val = memory_columns.memory_access.value();

        // The offset is zero or two.
        builder.assert_zero_when(
            Expr::var(local.selectors.is_sh),
            Expr::var(memory_columns.offset_is_one).plus(Expr::var(memory_columns.offset_is_three)),
        );
        builder.assert_eq_when(
            Expr::var(local.selectors.is_sh),
            Expr::var(mem_val.0[0]),
            Self::stored_half(local, 0),
        );
        builder.assert_eq_when(
            Expr::var(local.selectors.is_sh),
            Expr::var(mem_val.0[1]),
            Self::stored_half(local, 1),
        );
        builder.assert_eq_when(
            Expr::var(local.selectors.is_sh),
            Expr::var(mem_val.0[2]),
            Self::stored_half(local, 2),
        );
        builder.assert_eq_when(
            Expr::var(local.selectors.is_sh),
            Expr::var(mem_val.0[3]),
            Self::stored_half(local, 3),
        );
    }

    /// States the constraints of the stores.
    pub fn eval_memory_store(&self, builder: &mut ConstraintBuilder, local: &CpuOpcodeSpecificCols<Var>)
        ensures
            final(builder).interactions@ == old(builder).interactions@,
            forall|w: Window| #[trigger]
                final(builder).holds(w) == (old(builder).holds(w) && memory_store_constraints(
                    *local,
                    w,
                )),
    {
        let memory_columns = local.opcode_specific_columns.memory();
        self.eval_store_byte(builder, local);
        self.eval_store_half(builder, local);

        // A store word has offset zero and writes the whole word.
        builder.assert_one_when(
            Expr::var(local.selectors.is_sw),
            Self::offset_is_zero(&memory_columns),
        );
        builder.assert_word_eq_when(
            &Expr::var(local.selectors.is_sw),
            &memory_columns.memory_access.value(),
            &local.op_a_val,
        );
    }
}

} // verus!
