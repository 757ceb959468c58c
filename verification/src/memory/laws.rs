//! What the memory interactions enforce.
//!
//! Within a shard every access to a cell is later than the access before
//! it, so that the state before the first access is not later than the
//! state after the last. Across shards the state that one shard leaves and
//! the state that another shard finds are matched on the global bus, and
//! they match only if they are the same state of the same cell.

use crate::air_builder::{memory_access_constraints, select};
use crate::builder::{lemma_boolean, lemma_boolean_when, lemma_eq_when};
use crate::bus::{balanced, net_multiplicity, BusKey};
use crate::cpu::columns::MemoryAccessCols;
use crate::expr::{Var, Window};
use crate::field::{
    canonical, fadd, fmul, fsub, lemma_fadd_value, lemma_field_ops_canonical, lemma_fmul_one,
    lemma_fmul_small, lemma_fmul_zero, lemma_fsub_value,
};
use crate::interaction::InteractionScope;
use crate::memory::local::{
    height_from, local_trace_values, memory_local_message, padded_height, MemoryLocalEvent,
    MemoryLocalInitCols,
};
use crate::trace::{trace_height, trace_row, window_at};
use crate::memory::{MemoryChipType, MemoryRecord};
use crate::word::word_limbs;
use vstd::prelude::*;

verus! {

/// Whether the time (`shard`, `clk`) of one state is before that of
/// another: shards are compared first, clocks within a shard.
pub open spec fn earlier(a_shard: int, a_clk: int, b_shard: int, b_clk: int) -> bool {
    a_shard < b_shard || (a_shard == b_shard && a_clk < b_clk)
}

/// `select` picks its second argument where the condition is one and its
/// third where it is zero.
pub proof fn lemma_select(c: int, a: int, b: int)
    requires
        c == 0 || c == 1,
        canonical(a),
        canonical(b),
    ensures
        select(c, a, b) == if c == 1 {
            a
        } else {
            b
        },
{
    lemma_fmul_one(a);
    lemma_fmul_one(b);
    lemma_fmul_zero(a);
    lemma_fmul_zero(b);
    lemma_fsub_value(1, c);
    lemma_fadd_value(a, 0);
    lemma_fadd_value(0, b);
}

/// If `current - previous - 1` in the field is below `2^24` and both times
/// are below `2^24`, then `previous` is before `current`: the difference
/// did not wrap around the order of the field.
pub proof fn lemma_difference_in_range(current: int, previous: int, limb_16: int, limb_8: int)
    requires
        0 <= current < 0x1000000,
        0 <= previous < 0x1000000,
        0 <= limb_16 < 0x10000,
        0 <= limb_8 < 0x100,
        fsub(fsub(current, previous), 1) == fadd(limb_16, fmul(limb_8, 65536)),
    ensures
        previous < current,
{
    assert(limb_8 * 65536 < 0x1000000) by (nonlinear_arith)
        requires
            0 <= limb_8 < 0x100,
    ;
    lemma_fmul_small(limb_8, 65536);
    lemma_fadd_value(limb_16, fmul(limb_8, 65536));
    lemma_fsub_value(current, previous);
    lemma_field_ops_canonical(current, previous);
    lemma_fsub_value(fsub(current, previous), 1);
}

/// What the constraints of an access enforce: an access that is checked is
/// later than the previous access to the same cell.
///
/// The byte table sees to it that the two limbs of the difference are in
/// range. That shards and clocks are below `2^24` is what the CPU table
/// checks of every row.
pub proof fn lemma_access_is_later(
    access: MemoryAccessCols<Var>,
    do_check: int,
    shard: int,
    clk: int,
    w: Window,
)
    requires
        w.wf(),
        canonical(do_check),
        do_check != 0,
        memory_access_constraints(access, do_check, shard, clk, w),
        0 <= shard < 0x1000000,
        0 <= clk < 0x1000000,
        w.var(access.prev_shard) < 0x1000000,
        w.var(access.prev_clk) < 0x1000000,
        w.var(access.diff_16bit_limb) < 0x10000,
        w.var(access.diff_8bit_limb) < 0x100,
    ensures
        do_check == 1,
        earlier(w.var(access.prev_shard), w.var(access.prev_clk), shard, clk),
{
    let compare_clk = w.var(access.compare_clk);
    let prev_shard = w.var(access.prev_shard);
    let prev_clk = w.var(access.prev_clk);
    let limb_16 = w.var(access.diff_16bit_limb);
    let limb_8 = w.var(access.diff_8bit_limb);
    lemma_boolean(do_check);
    lemma_boolean_when(do_check, compare_clk);
    lemma_fmul_one(compare_clk);
    lemma_eq_when(fmul(do_check, compare_clk), shard, prev_shard);
    lemma_select(compare_clk, prev_clk, prev_shard);
    lemma_select(compare_clk, clk, shard);
    let previous = select(compare_clk, prev_clk, prev_shard);
    let current = select(compare_clk, clk, shard);
    lemma_field_ops_canonical(current, previous);
    lemma_field_ops_canonical(fsub(current, previous), 1);
    lemma_field_ops_canonical(limb_16, fmul(limb_8, 65536));
    lemma_eq_when(
        do_check,
        fsub(fsub(current, previous), 1),
        fadd(limb_16, fmul(limb_8, 65536)),
    );
    lemma_difference_in_range(current, previous, limb_16, limb_8);
}

/// Whether every state of a list is earlier than the state after it.
pub open spec fn is_chain(states: Seq<MemoryRecord>) -> bool {
    forall|k: int|
        0 <= k < states.len() - 1 ==> earlier(
            (#[trigger] states[k]).shard as int,
            states[k].clk as int,
            states[k + 1].shard as int,
            states[k + 1].clk as int,
        )
}

/// In a chain of accesses every state is earlier than every state after it.
pub proof fn lemma_chain_is_ordered(states: Seq<MemoryRecord>, i: int, j: int)
    requires
        is_chain(states),
        0 <= i < j < states.len(),
    ensures
        earlier(
            states[i].shard as int,
            states[i].clk as int,
            states[j].shard as int,
            states[j].clk as int,
        ),
    decreases j - i,
{
    if i + 1 < j {
        lemma_chain_is_ordered(states, i, j - 1);
        assert(earlier(
            states[j - 1].shard as int,
            states[j - 1].clk as int,
            states[j].shard as int,
            states[j].clk as int,
        ));
    } else {
        assert(earlier(
            states[i].shard as int,
            states[i].clk as int,
            states[i + 1].shard as int,
            states[i + 1].clk as int,
        ));
    }
}

/// For every cell that a shard touches, the state before the first touch
/// is not later than the state after the last: the shard of the first is
/// not after the shard of the second, and within one shard the clock of the
/// first is not after the clock of the second.
///
/// The states of the cell form a chain: the state before the first access,
/// then the state that each access leaves.
pub proof fn lemma_initial_is_not_after_final(addr: u32, states: Seq<MemoryRecord>)
    requires
        states.len() >= 1,
        is_chain(states),
    ensures
        ({
            let event = MemoryLocalEvent {
                addr,
                initial_mem_access: states.first(),
                final_mem_access: states.last(),
            };
            &&& event.initial_mem_access.shard <= event.final_mem_access.shard
            &&& event.initial_mem_access.shard == event.final_mem_access.shard
                ==> event.initial_mem_access.clk <= event.final_mem_access.clk
        }),
{
    if states.len() > 1 {
        lemma_chain_is_ordered(states, 0, states.len() - 1);
    }
}

/// A word is the sum of its limbs, each times its weight.
pub proof fn lemma_word_from_limbs(x: u32)
    ensures
        x == word_limbs(x)[0] + 256 * word_limbs(x)[1] + 65536 * word_limbs(x)[2] + 16777216
            * word_limbs(x)[3],
        forall|i: int| 0 <= i < 4 ==> #[trigger] word_limbs(x)[i] < 256,
{
    assert(x == (x % 256) + 256 * ((x / 256) % 256) + 65536 * ((x / 65536) % 256) + 16777216 * (x
        / 16777216)) by (bit_vector);
    assert(x / 16777216 < 256) by (bit_vector);
    assert((x % 256) < 256 && ((x / 256) % 256) < 256 && ((x / 65536) % 256) < 256)
        by (bit_vector);
}

/// A word is determined by its limbs.
pub proof fn lemma_word_limbs_injective(x: u32, y: u32)
    requires
        word_limbs(x) == word_limbs(y),
    ensures
        x == y,
{
    lemma_word_from_limbs(x);
    lemma_word_from_limbs(y);
}

/// The window of a row of a local memory table that holds the state of a
/// cell.
pub open spec fn state_window(kind: MemoryChipType, event: MemoryLocalEvent) -> Window {
    Window {
        local: event.spec_cols(kind).spec_to_row(),
        next: Seq::empty(),
        public_values: Seq::empty(),
        is_first_row: false,
        is_last_row: false,
        is_transition: true,
    }
}

/// The global message of the row of a local memory table that holds the
/// state of a cell.
pub open spec fn global_state_message(kind: MemoryChipType, event: MemoryLocalEvent) -> crate::interaction::Message {
    memory_local_message(
        kind,
        InteractionScope::Global,
        MemoryLocalInitCols::<Var>::spec_at(false, 0),
        state_window(kind, event),
    )
}

/// The global message of a state carries the state: shard, clock, address
/// and the four bytes of the value, with multiplicity one; the initialize
/// table sends it, the finalize table receives it.
pub proof fn lemma_global_state_message(kind: MemoryChipType, event: MemoryLocalEvent)
    ensures
        global_state_message(kind, event).values == seq![
            event.spec_access(kind).shard as int,
            event.spec_access(kind).clk as int,
            event.addr as int,
            word_limbs(event.spec_access(kind).value)[0] as int,
            word_limbs(event.spec_access(kind).value)[1] as int,
            word_limbs(event.spec_access(kind).value)[2] as int,
            word_limbs(event.spec_access(kind).value)[3] as int,
        ],
        global_state_message(kind, event).multiplicity == 1,
        global_state_message(kind, event).is_send == (kind == MemoryChipType::Initialize),
        global_state_message(kind, event).scope == InteractionScope::Global,
{
    let m = global_state_message(kind, event);
    let want = seq![
        event.spec_access(kind).shard as int,
        event.spec_access(kind).clk as int,
        event.addr as int,
        word_limbs(event.spec_access(kind).value)[0] as int,
        word_limbs(event.spec_access(kind).value)[1] as int,
        word_limbs(event.spec_access(kind).value)[2] as int,
        word_limbs(event.spec_access(kind).value)[3] as int,
    ];
    assert(m.values =~= want);
}

/// What the global bus enforces of two consecutive shards: the message with
/// which a shard leaves a state is matched against the message with which
/// another shard finds a state if and only if the two are the same state of
/// the same cell.
pub proof fn lemma_matched_states_are_equal(left: MemoryLocalEvent, found: MemoryLocalEvent)
    ensures
        (global_state_message(MemoryChipType::Finalize, left).key() == global_state_message(
            MemoryChipType::Initialize,
            found,
        ).key()) == (left.addr == found.addr && left.final_mem_access
            == found.initial_mem_access),
{
    let a = global_state_message(MemoryChipType::Finalize, left);
    let b = global_state_message(MemoryChipType::Initialize, found);
    lemma_global_state_message(MemoryChipType::Finalize, left);
    lemma_global_state_message(MemoryChipType::Initialize, found);
    if a.key() == b.key() {
        assert(a.values[0] == b.values[0]);
        assert(a.values[1] == b.values[1]);
        assert(a.values[2] == b.values[2]);
        assert(a.values[3] == b.values[3]);
        assert(a.values[4] == b.values[4]);
        assert(a.values[5] == b.values[5]);
        assert(a.values[6] == b.values[6]);
        assert(word_limbs(left.final_mem_access.value) =~= word_limbs(
            found.initial_mem_access.value,
        ));
        lemma_word_limbs_injective(left.final_mem_access.value, found.initial_mem_access.value);
    }
    if left.addr == found.addr && left.final_mem_access == found.initial_mem_access {
        assert(a.values =~= b.values);
    }
}

/// If the state that shard `k` leaves of a cell is the state that shard
/// `k + 1` finds of it, the two global messages cancel: together they are
/// balanced.
pub proof fn lemma_chained_shards_cancel(left: MemoryLocalEvent, found: MemoryLocalEvent)
    requires
        left.addr == found.addr,
        left.final_mem_access == found.initial_mem_access,
    ensures
        balanced(
            seq![
                global_state_message(MemoryChipType::Finalize, left),
                global_state_message(MemoryChipType::Initialize, found),
            ],
        ),
{
    let a = global_state_message(MemoryChipType::Finalize, left);
    let b = global_state_message(MemoryChipType::Initialize, found);
    let messages = seq![a, b];
    lemma_matched_states_are_equal(left, found);
    lemma_global_state_message(MemoryChipType::Finalize, left);
    lemma_global_state_message(MemoryChipType::Initialize, found);
    assert forall|key: BusKey| #[trigger] net_multiplicity(messages, key, messages.len()) == 0 by {
        reveal_with_fuel(net_multiplicity, 3);
        reveal(fadd);
        reveal(fsub);
        assert(messages[0] == a && messages[1] == b);
    }
}

/// Whether `p` is a power of two.
pub open spec fn is_power_of_two(p: nat) -> bool {
    exists|k: nat| vstd::arithmetic::power2::pow2(k) == p
}

/// Doubling a power of two until it reaches `n` gives the least power of
/// two that is at least `n` and at least the start.
pub proof fn lemma_height_from(n: nat, p: nat)
    requires
        p > 0,
        is_power_of_two(p),
    ensures
        is_power_of_two(height_from(n, p)),
        height_from(n, p) >= n,
        height_from(n, p) >= p,
        height_from(n, p) == p || height_from(n, p) < 2 * n,
    decreases (if p < n { n - p } else { 0 }),
{
    if p < n {
        let k = choose|k: nat| vstd::arithmetic::power2::pow2(k) == p;
        vstd::arithmetic::power2::lemma_pow2_unfold(k + 1);
        assert(vstd::arithmetic::power2::pow2(k + 1) == 2 * p);
        lemma_height_from(n, 2 * p);
    }
}

/// The padded height of a trace with `n` real rows is a power of two, at
/// least `n`, at least sixteen, and the least such number.
pub proof fn lemma_padded_height(n: nat)
    ensures
        is_power_of_two(padded_height(n)),
        padded_height(n) >= n,
        padded_height(n) >= 16,
        padded_height(n) == 16 || padded_height(n) < 2 * n,
{
    vstd::arithmetic::power2::lemma2_to64();
    assert(vstd::arithmetic::power2::pow2(4) == 16);
    lemma_height_from(n, 16);
}

/// The rows of the trace of a local memory table: the trace has the padded
/// height; row `i` holds the state of cell `i` of the record, and every row
/// after the last cell is a row of zeros.
pub proof fn lemma_trace_rows(kind: MemoryChipType, events: Seq<MemoryLocalEvent>, i: int)
    requires
        0 <= i < padded_height(events.len()),
    ensures
        local_trace_values(kind, events).len() == 8 * padded_height(events.len()),
        trace_height(local_trace_values(kind, events), 8) == padded_height(events.len()),
        i < events.len() ==> trace_row(local_trace_values(kind, events), 8, i)
            == events[i].spec_cols(kind).spec_to_row(),
        i >= events.len() ==> trace_row(local_trace_values(kind, events), 8, i) == Seq::new(
            8,
            |k: int| 0u32,
        ),
{
    let values = local_trace_values(kind, events);
    lemma_padded_height(events.len());
    let row = trace_row(values, 8, i);
    assert(row.len() == 8);
    if i < events.len() {
        let want = events[i].spec_cols(kind).spec_to_row();
        assert forall|k: int| 0 <= k < 8 implies row[k] == want[k] by {
            assert(row[k] == values[i * 8 + k]);
            assert((i * 8 + k) / 8 == i);
            assert((i * 8 + k) % 8 == k);
        }
        assert(row =~= want);
    } else {
        assert forall|k: int| 0 <= k < 8 implies row[k] == 0u32 by {
            assert(row[k] == values[i * 8 + k]);
        }
        assert(row =~= Seq::new(8, |k: int| 0u32));
    }
}

/// What the rows of the trace of a local memory table put on the global
/// bus: the row of a cell carries the state of the cell with multiplicity
/// one, and a padding row carries multiplicity zero, so that it adds
/// nothing to either side of the bus.
pub proof fn lemma_trace_messages(
    kind: MemoryChipType,
    events: Seq<MemoryLocalEvent>,
    public_values: Seq<u32>,
    scope: InteractionScope,
    i: int,
)
    requires
        0 <= i < padded_height(events.len()),
    ensures
        ({
            let w = window_at(local_trace_values(kind, events), 8, public_values, i);
            let message = memory_local_message(
                kind,
                scope,
                MemoryLocalInitCols::<Var>::spec_at(false, 0),
                w,
            );
            &&& i < events.len() ==> message.multiplicity == 1 && message.values
                == global_state_message(kind, events[i]).values
            &&& i >= events.len() ==> message.multiplicity == 0
        }),
{
    lemma_trace_rows(kind, events, i);
    let w = window_at(local_trace_values(kind, events), 8, public_values, i);
    let message = memory_local_message(
        kind,
        scope,
        MemoryLocalInitCols::<Var>::spec_at(false, 0),
        w,
    );
    if i < events.len() {
        assert(message.values =~= global_state_message(kind, events[i]).values);
    }
}

} // verus!
