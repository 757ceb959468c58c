//! The interactions and checks that several tables share.

use crate::builder::{boolean, boolean_when, eq_when, ConstraintBuilder};
use crate::cpu::columns::{InstructionCols, MemoryAccessCols, OpcodeSelectorCols};
use crate::expr::{Expr, Var, Window};
use crate::field::{fadd, fmul, fsub};
use crate::interaction::{values_of, AirInteraction, InteractionKind, InteractionScope, Message};
use crate::opcode::ByteOpcode;
use crate::word::Word;
use vstd::prelude::*;

verus! {

/// The tuple of an ALU operation: `a = opcode(b, c)` in the given shard and
/// channel. The nonce tells apart operations with equal operands.
pub open spec fn alu_values(
    opcode: int,
    a: Seq<int>,
    b: Seq<int>,
    c: Seq<int>,
    shard: int,
    channel: int,
    nonce: int,
) -> Seq<int> {
    seq![opcode] + a + b + c + seq![shard, channel, nonce]
}

/// The tuple of a byte operation.
pub open spec fn byte_values(opcode: int, a: int, b: int, c: int, shard: int, channel: int) -> Seq<
    int,
> {
    seq![opcode, a, b, c, shard, channel]
}

/// The tuple of a state of a memory cell or register: who wrote it last, and
/// what it holds.
pub open spec fn memory_values(shard: int, clk: int, addr: int, value: Seq<int>) -> Seq<int> {
    seq![shard, clk, addr] + value
}

/// The values of the instruction columns on a window, in column order.
pub open spec fn instruction_values(i: InstructionCols<Var>, w: Window) -> Seq<int> {
    seq![w.var(i.opcode), w.var(i.op_a)] + i.op_b.limbs(w) + i.op_c.limbs(w) + seq![w.var(i.op_a_0)]
}

/// The values of the selector block on a window, in column order.
pub open spec fn selector_values(s: OpcodeSelectorCols<Var>, w: Window) -> Seq<int> {
    Seq::new(22, |i: int| w.var(s.spec_to_array()[i]))
}

/// The tuple that fetches an instruction: the program counter, the
/// instruction, its class and the shard.
pub open spec fn program_values(
    pc: int,
    instruction: Seq<int>,
    selectors: Seq<int>,
    shard: int,
) -> Seq<int> {
    seq![pc] + instruction + selectors + seq![shard]
}

/// A message of the local scope.
pub open spec fn local_message(
    kind: InteractionKind,
    is_send: bool,
    values: Seq<int>,
    multiplicity: int,
) -> Message {
    Message { kind, scope: InteractionScope::Local, is_send, values, multiplicity }
}

/// The constraint of a 24-bit range check: `value = limb_16 + limb_8 * 2^16`
/// wherever `do_check` is not zero. That the limbs are below `2^16` and `2^8`
/// is left to the byte table.
pub open spec fn range_check_24bits(value: int, limb_16: int, limb_8: int, do_check: int) -> bool {
    eq_when(do_check, value, fadd(limb_16, fmul(limb_8, 65536)))
}

/// The two byte-table messages of a 24-bit range check.
pub open spec fn range_check_24bits_messages(
    limb_16: int,
    limb_8: int,
    shard: int,
    channel: int,
    do_check: int,
) -> Seq<Message> {
    seq![
        local_message(
            InteractionKind::Byte,
            true,
            byte_values(ByteOpcode::U16Range.spec_code(), limb_16, 0, 0, shard, channel),
            do_check,
        ),
        local_message(
            InteractionKind::Byte,
            true,
            byte_values(ByteOpcode::U8Range.spec_code(), 0, 0, limb_8, shard, channel),
            do_check,
        ),
    ]
}

/// `c * a + (1 - c) * b`: `a` where `c` is one, `b` where it is zero.
pub open spec fn select(c: int, a: int, b: int) -> int {
    fadd(fmul(c, a), fmul(fsub(1, c), b))
}

/// The constraints that order an access after the previous access to the
/// same cell, wherever `do_check` is not zero.
///
/// `compare_clk` says whether the previous access is in the same shard. If
/// it is, the clocks are compared, else the shards: the later of the two
/// must exceed the earlier by one plus a 24-bit number.
pub open spec fn memory_access_timestamp(
    access: MemoryAccessCols<Var>,
    do_check: int,
    shard: int,
    clk: int,
    w: Window,
) -> bool {
    let compare_clk = w.var(access.compare_clk);
    let prev = select(compare_clk, w.var(access.prev_clk), w.var(access.prev_shard));
    let current = select(compare_clk, clk, shard);
    &&& boolean_when(do_check, compare_clk)
    &&& eq_when(fmul(do_check, compare_clk), shard, w.var(access.prev_shard))
    &&& range_check_24bits(
        fsub(fsub(current, prev), 1),
        w.var(access.diff_16bit_limb),
        w.var(access.diff_8bit_limb),
        do_check,
    )
}

/// The constraints of an access to a memory cell or register.
pub open spec fn memory_access_constraints(
    access: MemoryAccessCols<Var>,
    do_check: int,
    shard: int,
    clk: int,
    w: Window,
) -> bool {
    &&& boolean(do_check)
    &&& memory_access_timestamp(access, do_check, shard, clk, w)
}

/// The messages of an access to a memory cell or register: the range check
/// of the distance to the previous access, the state that the previous
/// access left, which is sent, and the state that this access leaves, which
/// is received.
pub open spec fn memory_access_messages(
    access: MemoryAccessCols<Var>,
    prev_value: Word<Var>,
    do_check: int,
    shard: Var,
    channel: Var,
    clk: int,
    addr: int,
    w: Window,
) -> Seq<Message> {
    range_check_24bits_messages(
        w.var(access.diff_16bit_limb),
        w.var(access.diff_8bit_limb),
        w.var(shard),
        w.var(channel),
        do_check,
    ) + seq![
        local_message(
            InteractionKind::Memory,
            true,
            memory_values(w.var(access.prev_shard), w.var(access.prev_clk), addr, prev_value.limbs(w)),
            do_check,
        ),
        local_message(
            InteractionKind::Memory,
            false,
            memory_values(w.var(shard), clk, addr, access.value.limbs(w)),
            do_check,
        ),
    ]
}

/// The two byte-table messages that check that the limbs of a word are bytes.
pub open spec fn word_range_check_messages(
    word: Word<Var>,
    shard: Var,
    channel: Var,
    multiplicity: int,
    w: Window,
) -> Seq<Message> {
    seq![
        local_message(
            InteractionKind::Byte,
            true,
            byte_values(
                ByteOpcode::U8Range.spec_code(),
                0,
                word.limb(w, 0),
                word.limb(w, 1),
                w.var(shard),
                w.var(channel),
            ),
            multiplicity,
        ),
        local_message(
            InteractionKind::Byte,
            true,
            byte_values(
                ByteOpcode::U8Range.spec_code(),
                0,
                word.limb(w, 2),
                word.limb(w, 3),
                w.var(shard),
                w.var(channel),
            ),
            multiplicity,
        ),
    ]
}

/// The tuple that hands a row of the CPU table to the opcode-specific table.
pub open spec fn dispatch_values(
    clk: int,
    shard: int,
    channel: int,
    pc: int,
    next_pc: int,
    selectors: Seq<int>,
    op_a_prev: Seq<int>,
    op_a: Seq<int>,
    op_b: Seq<int>,
    op_c: Seq<int>,
    op_a_0: int,
    is_halt: int,
) -> Seq<int> {
    seq![clk, shard, channel, pc, next_pc] + selectors + op_a_prev + op_a + op_b + op_c + seq![
        op_a_0,
        is_halt,
    ]
}

/// The scalar columns of a dispatch tuple.
pub struct DispatchVars {
    pub clk: Var,
    pub shard: Var,
    pub channel: Var,
    pub pc: Var,
    pub next_pc: Var,
    pub op_a_0: Var,
    pub is_halt: Var,
}

/// The dispatch tuple of a row on a window.
pub open spec fn dispatch_values_of(
    scalars: DispatchVars,
    selectors: OpcodeSelectorCols<Var>,
    op_a_prev: Word<Var>,
    op_a: Word<Var>,
    op_b: Word<Var>,
    op_c: Word<Var>,
    w: Window,
) -> Seq<int> {
    dispatch_values(
        w.var(scalars.clk),
        w.var(scalars.shard),
        w.var(scalars.channel),
        w.var(scalars.pc),
        w.var(scalars.next_pc),
        selector_values(selectors, w),
        op_a_prev.limbs(w),
        op_a.limbs(w),
        op_b.limbs(w),
        op_c.limbs(w),
        w.var(scalars.op_a_0),
        w.var(scalars.is_halt),
    )
}

/// Appends the instruction columns to a list of expressions.
fn push_instruction(values: &mut Vec<Expr>, i: &InstructionCols<Var>)
    ensures
        final(values)@.len() == old(values)@.len() + 11,
        forall|k: int| 0 <= k < old(values)@.len() ==> final(values)@[k] == old(values)@[k],
        forall|w: Window| #[trigger]
            values_of(final(values)@, w) == values_of(old(values)@, w) + instruction_values(*i, w),
{
    values.push(Expr::var(i.opcode));
    values.push(Expr::var(i.op_a));
    i.op_b.push_to(values);
    i.op_c.push_to(values);
    values.push(Expr::var(i.op_a_0));
    assert forall|w: Window| #[trigger]
        values_of(values@, w) == values_of(old(values)@, w) + instruction_values(*i, w) by {
        assert(values_of(values@, w) =~= values_of(old(values)@, w) + instruction_values(*i, w));
    }
}

/// Appends the selector block to a list of expressions.
fn push_selectors(values: &mut Vec<Expr>, s: &OpcodeSelectorCols<Var>)
    ensures
        final(values)@.len() == old(values)@.len() + 22,
        forall|k: int| 0 <= k < old(values)@.len() ==> final(values)@[k] == old(values)@[k],
        forall|w: Window| #[trigger]
            values_of(final(values)@, w) == values_of(old(values)@, w) + selector_values(*s, w),
{
    let selectors = s.to_array();
    let mut i: usize = 0;
    while i < 22
        invariant
            i <= 22,
            selectors == s.spec_to_array(),
            values@.len() == old(values)@.len() + i,
            forall|k: int| 0 <= k < old(values)@.len() ==> values@[k] == old(values)@[k],
            forall|k: int|
                0 <= k < i ==> #[trigger] values@[old(values)@.len() + k] == Expr::Var(
                    s.spec_to_array()[k],
                ),
        decreases 22 - i,
    {
        values.push(Expr::var(selectors[i]));
        i += 1;
    }
    assert forall|w: Window| #[trigger]
        values_of(values@, w) == values_of(old(values)@, w) + selector_values(*s, w) by {
        let lhs = values_of(values@, w);
        let rhs = values_of(old(values)@, w) + selector_values(*s, w);
        assert(lhs.len() == rhs.len());
        assert forall|k: int| 0 <= k < lhs.len() implies lhs[k] == rhs[k] by {
            if k >= old(values)@.len() {
                let j = k - old(values)@.len();
                assert(values@[old(values)@.len() + j] == Expr::Var(s.spec_to_array()[j]));
            }
        }
        assert(lhs =~= rhs);
    }
}

impl ConstraintBuilder {
    /// Sends the tuple that fetches the instruction of a row from the
    /// program table.
    pub fn send_program(
        &mut self,
        pc: Var,
        instruction: &InstructionCols<Var>,
        selectors: &OpcodeSelectorCols<Var>,
        shard: Var,
        multiplicity: Expr,
    )
        ensures
            final(self).constraints@ == old(self).constraints@,
            final(self).interactions@.len() == old(self).interactions@.len() + 1,
            forall|w: Window| #[trigger]
                final(self).messages(w) == old(self).messages(w).push(
                    local_message(
                        InteractionKind::Program,
                        true,
                        program_values(
                            w.var(pc),
                            instruction_values(*instruction, w),
                            selector_values(*selectors, w),
                            w.var(shard),
                        ),
                        multiplicity.value(w),
                    ),
                ),
    {
        let mut values: Vec<Expr> = Vec::new();
        values.push(Expr::var(pc));
        let ghost v1 = values@;
        push_instruction(&mut values, instruction);
        let ghost v2 = values@;
        push_selectors(&mut values, selectors);
        let ghost v3 = values@;
        values.push(Expr::var(shard));
        let ghost v4 = values@;
        self.send(
            AirInteraction::new(values, multiplicity, InteractionKind::Program),
            InteractionScope::Local,
        );
        assert forall|w: Window| #[trigger]
            self.messages(w) == old(self).messages(w).push(
                local_message(
                    InteractionKind::Program,
                    true,
                    program_values(
                        w.var(pc),
                        instruction_values(*instruction, w),
                        selector_values(*selectors, w),
                        w.var(shard),
                    ),
                    multiplicity.value(w),
                ),
            ) by {
            assert(values_of(v1, w) =~= seq![w.var(pc)]);
            assert(values_of(v2, w) == values_of(v1, w) + instruction_values(*instruction, w));
            assert(values_of(v3, w) == values_of(v2, w) + selector_values(*selectors, w));
            assert(values_of(v4, w) =~= values_of(v3, w) + seq![w.var(shard)]);
        }
    }

    /// Sends the ALU operation `a = opcode(b, c)` to the table that checks it.
    pub fn send_alu(
        &mut self,
        opcode: Expr,
        a: &Word<Expr>,
        b: &Word<Expr>,
        c: &Word<Expr>,
        shard: Var,
        channel: Var,
        nonce: Var,
        multiplicity: Expr,
    )
        ensures
            final(self).constraints@ == old(self).constraints@,
            final(self).interactions@.len() == old(self).interactions@.len() + 1,
            forall|w: Window| #[trigger]
                final(self).messages(w) == old(self).messages(w).push(
                    local_message(
                        InteractionKind::Alu,
                        true,
                        alu_values(
                            opcode.value(w),
                            a.values(w),
                            b.values(w),
                            c.values(w),
                            w.var(shard),
                            w.var(channel),
                            w.var(nonce),
                        ),
                        multiplicity.value(w),
                    ),
                ),
    {
        let mut values: Vec<Expr> = Vec::new();
        values.push(opcode);
        a.push_to(&mut values);
        b.push_to(&mut values);
        c.push_to(&mut values);
        values.push(Expr::var(shard));
        values.push(Expr::var(channel));
        values.push(Expr::var(nonce));
        let ghost vs = values@;
        self.send(
            AirInteraction::new(values, multiplicity, InteractionKind::Alu),
            InteractionScope::Local,
        );
        assert forall|w: Window| #[trigger]
            self.messages(w) == old(self).messages(w).push(
                local_message(
                    InteractionKind::Alu,
                    true,
                    alu_values(
                        opcode.value(w),
                        a.values(w),
                        b.values(w),
                        c.values(w),
                        w.var(shard),
                        w.var(channel),
                        w.var(nonce),
                    ),
                    multiplicity.value(w),
                ),
            ) by {
            assert(values_of(vs, w) =~= alu_values(
                opcode.value(w),
                a.values(w),
                b.values(w),
                c.values(w),
                w.var(shard),
                w.var(channel),
                w.var(nonce),
            ));
        }
    }

    /// Sends a byte operation to the byte table.
    pub fn send_byte(
        &mut self,
        opcode: ByteOpcode,
        a: Expr,
        b: Expr,
        c: Expr,
        shard: Var,
        channel: Var,
        multiplicity: Expr,
    )
        ensures
            final(self).constraints@ == old(self).constraints@,
            final(self).interactions@.len() == old(self).interactions@.len() + 1,
            forall|w: Window| #[trigger]
                final(self).messages(w) == old(self).messages(w).push(
                    local_message(
                        InteractionKind::Byte,
                        true,
                        byte_values(
                            opcode.spec_code(),
                            a.value(w),
                            b.value(w),
                            c.value(w),
                            w.var(shard),
                            w.var(channel),
                        ),
                        multiplicity.value(w),
                    ),
                ),
    {
        let mut values: Vec<Expr> = Vec::new();
        values.push(Expr::constant(opcode.code()));
        values.push(a);
        values.push(b);
        values.push(c);
        values.push(Expr::var(shard));
        values.push(Expr::var(channel));
        let ghost vs = values@;
        self.send(
            AirInteraction::new(values, multiplicity, InteractionKind::Byte),
            InteractionScope::Local,
        );
        assert forall|w: Window| #[trigger]
            self.messages(w) == old(self).messages(w).push(
                local_message(
                    InteractionKind::Byte,
                    true,
                    byte_values(
                        opcode.spec_code(),
                        a.value(w),
                        b.value(w),
                        c.value(w),
                        w.var(shard),
                        w.var(channel),
                    ),
                    multiplicity.value(w),
                ),
            ) by {
            assert(values_of(vs, w) =~= byte_values(
                opcode.spec_code(),
                a.value(w),
                b.value(w),
                c.value(w),
                w.var(shard),
                w.var(channel),
            ));
        }
    }

    /// Checks that `value` is below `2^24` wherever `do_check` is not zero:
    /// `value` is the sum of a 16-bit and an 8-bit limb, and the byte table
    /// checks the range of the limbs.
    pub fn eval_range_check_24bits(
        &mut self,
        value: Expr,
        limb_16: Var,
        limb_8: Var,
        shard: Var,
        channel: Var,
        do_check: Expr,
    )
        ensures
            final(self).constraints@.len() == old(self).constraints@.len() + 1,
            final(self).interactions@.len() == old(self).interactions@.len() + 2,
            forall|w: Window| #[trigger]
                final(self).holds(w) == (old(self).holds(w) && range_check_24bits(
                    value.value(w),
                    w.var(limb_16),
                    w.var(limb_8),
                    do_check.value(w),
                )),
            forall|w: Window| #[trigger]
                final(self).messages(w) == old(self).messages(w) + range_check_24bits_messages(
                    w.var(limb_16),
                    w.var(limb_8),
                    w.var(shard),
                    w.var(channel),
                    do_check.value(w),
                ),
    {
        self.assert_eq_when(
            do_check.clone(),
            value,
            Expr::var(limb_16).plus(Expr::var(limb_8).times(Expr::constant(65536))),
        );
        self.send_byte(
            ByteOpcode::U16Range,
            Expr::var(limb_16),
            Expr::zero(),
            Expr::zero(),
            shard,
            channel,
            do_check.clone(),
        );
        self.send_byte(
            ByteOpcode::U8Range,
            Expr::zero(),
            Expr::zero(),
            Expr::var(limb_8),
            shard,
            channel,
            do_check.clone(),
        );
        assert forall|w: Window| #[trigger]
            self.messages(w) == old(self).messages(w) + range_check_24bits_messages(
                w.var(limb_16),
                w.var(limb_8),
                w.var(shard),
                w.var(channel),
                do_check.value(w),
            ) by {
            assert(self.messages(w) =~= old(self).messages(w) + range_check_24bits_messages(
                w.var(limb_16),
                w.var(limb_8),
                w.var(shard),
                w.var(channel),
                do_check.value(w),
            ));
        }
    }

    /// Checks that the limbs of `word` are bytes: the byte table checks them
    /// two at a time.
    pub fn word_range_check_u8(&mut self, word: &Word<Var>, shard: Var, channel: Var, multiplicity: Expr)
        ensures
            final(self).constraints@ == old(self).constraints@,
            final(self).interactions@.len() == old(self).interactions@.len() + 2,
            forall|w: Window| #[trigger]
                final(self).messages(w) == old(self).messages(w) + word_range_check_messages(
                    *word,
                    shard,
                    channel,
                    multiplicity.value(w),
                    w,
                ),
    {
        self.send_byte(
            ByteOpcode::U8Range,
            Expr::zero(),
            Expr::var(word.0[0]),
            Expr::var(word.0[1]),
            shard,
            channel,
            multiplicity.clone(),
        );
        self.send_byte(
            ByteOpcode::U8Range,
            Expr::zero(),
            Expr::var(word.0[2]),
            Expr::var(word.0[3]),
            shard,
            channel,
            multiplicity.clone(),
        );
        assert forall|w: Window| #[trigger]
            self.messages(w) == old(self).messages(w) + word_range_check_messages(
                *word,
                shard,
                channel,
                multiplicity.value(w),
                w,
            ) by {
            assert(self.messages(w) =~= old(self).messages(w) + word_range_check_messages(
                *word,
                shard,
                channel,
                multiplicity.value(w),
                w,
            ));
        }
    }

    /// The expression `c * a + (1 - c) * b`.
    pub fn if_else(c: &Expr, a: Expr, b: Expr) -> (r: Expr)
        ensures
            forall|w: Window| #[trigger] r.value(w) == select(c.value(w), a.value(w), b.value(w)),
    {
        c.clone().times(a).plus(Expr::one().minus(c.clone()).times(b))
    }

    /// States the constraints and interactions of one access to a memory
    /// cell or register at time (`shard`, `clk`), wherever `do_check` is one.
    ///
    /// `prev_value` holds the value before the access: for a read, the
    /// columns of the value itself.
    pub fn eval_memory_access(
        &mut self,
        shard: Var,
        channel: Var,
        clk: Expr,
        addr: Expr,
        prev_value: &Word<Var>,
        access: &MemoryAccessCols<Var>,
        do_check: Expr,
    )
        ensures
            final(self).constraints@.len() == old(self).constraints@.len() + 4,
            final(self).interactions@.len() == old(self).interactions@.len() + 4,
            forall|w: Window| #[trigger]
                final(self).holds(w) == (old(self).holds(w) && memory_access_constraints(
                    *access,
                    do_check.value(w),
                    w.var(shard),
                    clk.value(w),
                    w,
                )),
            forall|w: Window| #[trigger]
                final(self).messages(w) == old(self).messages(w) + memory_access_messages(
                    *access,
                    *prev_value,
                    do_check.value(w),
                    shard,
                    channel,
                    clk.value(w),
                    addr.value(w),
                    w,
                ),
    {
        self.assert_bool(do_check.clone());
        // The previous access is earlier than this one.
        self.assert_bool_when(do_check.clone(), Expr::var(access.compare_clk));
        self.assert_eq_when(
            do_check.clone().times(Expr::var(access.compare_clk)),
            Expr::var(shard),
            Expr::var(access.prev_shard),
        );
        let compare_clk = Expr::var(access.compare_clk);
        let prev = Self::if_else(&compare_clk, Expr::var(access.prev_clk), Expr::var(access.prev_shard));
        let current = Self::if_else(&compare_clk, clk.clone(), Expr::var(shard));
        let diff_minus_one = current.minus(prev).minus(Expr::one());
        self.eval_range_check_24bits(
            diff_minus_one,
            access.diff_16bit_limb,
            access.diff_8bit_limb,
            shard,
            channel,
            do_check.clone(),
        );
        // The state before the access is sent, the state after it received.
        let mut prev_values: Vec<Expr> = Vec::new();
        prev_values.push(Expr::var(access.prev_shard));
        prev_values.push(Expr::var(access.prev_clk));
        prev_values.push(addr.clone());
        prev_value.push_to(&mut prev_values);
        let mut current_values: Vec<Expr> = Vec::new();
        current_values.push(Expr::var(shard));
        current_values.push(clk.clone());
        current_values.push(addr.clone());
        access.value.push_to(&mut current_values);
        let ghost pv = prev_values@;
        let ghost cv = current_values@;
        self.send(
            AirInteraction::new(prev_values, do_check.clone(), InteractionKind::Memory),
            InteractionScope::Local,
        );
        self.receive(
            AirInteraction::new(current_values, do_check.clone(), InteractionKind::Memory),
            InteractionScope::Local,
        );
        assert forall|w: Window| #[trigger]
            self.messages(w) == old(self).messages(w) + memory_access_messages(
                *access,
                *prev_value,
                do_check.value(w),
                shard,
                channel,
                clk.value(w),
                addr.value(w),
                w,
            ) by {
            assert(values_of(pv, w) =~= memory_values(
                w.var(access.prev_shard),
                w.var(access.prev_clk),
                addr.value(w),
                prev_value.limbs(w),
            ));
            assert(values_of(cv, w) =~= memory_values(
                w.var(shard),
                clk.value(w),
                addr.value(w),
                access.value.limbs(w),
            ));
            assert(self.messages(w) =~= old(self).messages(w) + memory_access_messages(
                *access,
                *prev_value,
                do_check.value(w),
                shard,
                channel,
                clk.value(w),
                addr.value(w),
                w,
            ));
        }
    }

    /// Sends or receives the tuple that hands a row of the CPU table to the
    /// opcode-specific table.
    fn interact_instruction(
        &mut self,
        is_send: bool,
        scalars: &DispatchVars,
        selectors: &OpcodeSelectorCols<Var>,
        op_a_prev: &Word<Var>,
        op_a: &Word<Var>,
        op_b: &Word<Var>,
        op_c: &Word<Var>,
        multiplicity: Expr,
    )
        ensures
            final(self).constraints@ == old(self).constraints@,
            final(self).interactions@.len() == old(self).interactions@.len() + 1,
            forall|w: Window| #[trigger]
                final(self).messages(w) == old(self).messages(w).push(
                    local_message(
                        InteractionKind::Instruction,
                        is_send,
                        dispatch_values_of(*scalars, *selectors, *op_a_prev, *op_a, *op_b, *op_c, w),
                        multiplicity.value(w),
                    ),
                ),
    {
        let mut values: Vec<Expr> = Vec::new();
        values.push(Expr::var(scalars.clk));
        values.push(Expr::var(scalars.shard));
        values.push(Expr::var(scalars.channel));
        values.push(Expr::var(scalars.pc));
        values.push(Expr::var(scalars.next_pc));
        let ghost v1 = values@;
        push_selectors(&mut values, selectors);
        let ghost v2 = values@;
        op_a_prev.push_to(&mut values);
        op_a.push_to(&mut values);
        op_b.push_to(&mut values);
        op_c.push_to(&mut values);
        values.push(Expr::var(scalars.op_a_0));
        values.push(Expr::var(scalars.is_halt));
        let ghost v3 = values@;
        self.interact(
            AirInteraction::new(values, multiplicity, InteractionKind::Instruction),
            InteractionScope::Local,
            is_send,
        );
        assert forall|w: Window| #[trigger]
            self.messages(w) == old(self).messages(w).push(
                local_message(
                    InteractionKind::Instruction,
                    is_send,
                    dispatch_values_of(*scalars, *selectors, *op_a_prev, *op_a, *op_b, *op_c, w),
                    multiplicity.value(w),
                ),
            ) by {
            let head = seq![
                w.var(scalars.clk),
                w.var(scalars.shard),
                w.var(scalars.channel),
                w.var(scalars.pc),
                w.var(scalars.next_pc),
            ];
            let tail = op_a_prev.limbs(w) + op_a.limbs(w) + op_b.limbs(w) + op_c.limbs(w) + seq![
                w.var(scalars.op_a_0),
                w.var(scalars.is_halt),
            ];
            assert(values_of(v1, w) =~= head);
            assert(values_of(v2, w) == head + selector_values(*selectors, w));
            assert(v3 =~= v2 + seq![
                Expr::Var(op_a_prev.0[0]),
                Expr::Var(op_a_prev.0[1]),
                Expr::Var(op_a_prev.0[2]),
                Expr::Var(op_a_prev.0[3]),
                Expr::Var(op_a.0[0]),
                Expr::Var(op_a.0[1]),
                Expr::Var(op_a.0[2]),
                Expr::Var(op_a.0[3]),
                Expr::Var(op_b.0[0]),
                Expr::Var(op_b.0[1]),
                Expr::Var(op_b.0[2]),
                Expr::Var(op_b.0[3]),
                Expr::Var(op_c.0[0]),
                Expr::Var(op_c.0[1]),
                Expr::Var(op_c.0[2]),
                Expr::Var(op_c.0[3]),
                Expr::Var(scalars.op_a_0),
                Expr::Var(scalars.is_halt),
            ]);
            assert(values_of(v3, w) =~= values_of(v2, w) + tail);
            assert(values_of(v3, w) =~= dispatch_values_of(
                *scalars,
                *selectors,
                *op_a_prev,
                *op_a,
                *op_b,
                *op_c,
                w,
            ));
        }
    }

    /// Sends the tuple that hands a row of the CPU table to the
    /// opcode-specific table.
    pub fn send_instruction(
        &mut self,
        scalars: &DispatchVars,
        selectors: &OpcodeSelectorCols<Var>,
        op_a_prev: &Word<Var>,
        op_a: &Word<Var>,
        op_b: &Word<Var>,
        op_c: &Word<Var>,
        multiplicity: Expr,
    )
        ensures
            final(self).constraints@ == old(self).constraints@,
            final(self).interactions@.len() == old(self).interactions@.len() + 1,
            forall|w: Window| #[trigger]
                final(self).messages(w) == old(self).messages(w).push(
                    local_message(
                        InteractionKind::Instruction,
                        true,
                        dispatch_values_of(*scalars, *selectors, *op_a_prev, *op_a, *op_b, *op_c, w),
                        multiplicity.value(w),
                    ),
                ),
    {
        self.interact_instruction(true, scalars, selectors, op_a_prev, op_a, op_b, op_c, multiplicity);
    }

    /// Receives the tuple that the CPU table sends for a row.
    pub fn receive_instruction(
        &mut self,
        scalars: &DispatchVars,
        selectors: &OpcodeSelectorCols<Var>,
        op_a_prev: &Word<Var>,
        op_a: &Word<Var>,
        op_b: &Word<Var>,
        op_c: &Word<Var>,
        multiplicity: Expr,
    )
        ensures
            final(self).constraints@ == old(self).constraints@,
            final(self).interactions@.len() == old(self).interactions@.len() + 1,
            forall|w: Window| #[trigger]
                final(self).messages(w) == old(self).messages(w).push(
                    local_message(
                        InteractionKind::Instruction,
                        false,
                        dispatch_values_of(*scalars, *selectors, *op_a_prev, *op_a, *op_b, *op_c, w),
                        multiplicity.value(w),
                    ),
                ),
    {
        self.interact_instruction(false, scalars, selectors, op_a_prev, op_a, op_b, op_c, multiplicity);
    }
}

} // verus!
