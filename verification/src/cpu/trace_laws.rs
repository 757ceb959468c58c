//! What the constraints of the CPU table enforce of a whole trace.
//!
//! A trace satisfies the constraints if the window of every row does. Then
//! the real rows come first, the clock starts at zero and advances from
//! real row to real row, the rows are chained by the pc and stay in their
//! shard, and the channel of a real row is its place in the trace modulo
//! the number of channels.

use crate::builder::ConstraintBuilder;
use crate::cpu::air::{cpu_constraints, num_extra_ecall_cycles};
use crate::cpu::channel_laws::{lemma_channel_is_selected, lemma_channel_moves_on, one_hot_at};
use crate::cpu::columns::CpuCols;
use crate::cpu::laws::{
    lemma_clock_advances, lemma_first_clock_is_zero, lemma_pc_is_chained,
    lemma_real_rows_come_first, lemma_rows_match_public_values,
};
use crate::expr::{all_canonical, Var, Window};
use crate::field::fadd;
use crate::public_values::PublicValues;
use crate::trace::{is_trace, rows_hold, trace_height, trace_row, window_at};
use crate::word::Word;
use vstd::prelude::*;

verus! {

/// The window of row `i` of a trace of the CPU table.
pub open spec fn cpu_window(values: Seq<u32>, public_values: Seq<u32>, i: int) -> Window {
    window_at(values, 90, public_values, i)
}

/// The columns of the current row of the CPU table.
pub open spec fn current() -> CpuCols<Var> {
    CpuCols::<Var>::spec_at(false, 0)
}

/// The columns of the next row of the CPU table.
pub open spec fn successor() -> CpuCols<Var> {
    CpuCols::<Var>::spec_at(true, 0)
}

/// Whether the window of every row of a trace satisfies the constraints of
/// the CPU table.
pub open spec fn cpu_trace_holds(values: Seq<u32>, public_values: Seq<u32>) -> bool {
    forall|i: int|
        0 <= i < trace_height(values, 90) ==> cpu_constraints(
            current(),
            successor(),
            PublicValues::<Word<Var>, Var>::spec_vars(),
            #[trigger] cpu_window(values, public_values, i),
        )
}

/// A trace that passes the check of a builder that holds the constraints of
/// the CPU table, and no others, satisfies the constraints of the CPU table.
pub proof fn lemma_checked_trace_holds(
    builder: ConstraintBuilder,
    values: Seq<u32>,
    public_values: Seq<u32>,
)
    requires
        forall|w: Window| #[trigger]
            builder.holds(w) == cpu_constraints(
                current(),
                successor(),
                PublicValues::<Word<Var>, Var>::spec_vars(),
                w,
            ),
        rows_hold(builder, values, 90, public_values, trace_height(values, 90) as int),
    ensures
        cpu_trace_holds(values, public_values),
{
    assert forall|i: int| 0 <= i < trace_height(values, 90) implies cpu_constraints(
        current(),
        successor(),
        PublicValues::<Word<Var>, Var>::spec_vars(),
        #[trigger] cpu_window(values, public_values, i),
    ) by {
        assert(builder.holds(window_at(values, 90, public_values, i)));
    }
}

/// The windows of a trace are well-formed, and the next row of a window is
/// the current row of the window after it.
pub proof fn lemma_cpu_windows(values: Seq<u32>, public_values: Seq<u32>, i: int)
    requires
        is_trace(values, 90),
        all_canonical(public_values),
        0 <= i < trace_height(values, 90),
    ensures
        cpu_window(values, public_values, i).wf(),
        cpu_window(values, public_values, i).local.len() == 90,
        cpu_window(values, public_values, i).next.len() == 90,
        cpu_window(values, public_values, i).is_first_row == (i == 0),
        cpu_window(values, public_values, i).is_transition == (i + 1 < trace_height(values, 90)),
        i + 1 < trace_height(values, 90) ==> cpu_window(values, public_values, i).next
            == cpu_window(values, public_values, i + 1).local,
{
    let height = trace_height(values, 90) as int;
    vstd::arithmetic::div_mod::lemma_fundamental_div_mod(values.len() as int, 90);
    let w = cpu_window(values, public_values, i);
    let after = if i + 1 < height {
        i + 1
    } else {
        0
    };
    assert(w.local == trace_row(values, 90, i));
    assert(w.next == trace_row(values, 90, after));
    assert(all_canonical(w.local)) by {
        assert forall|k: int| 0 <= k < w.local.len() implies crate::field::canonical(
            #[trigger] w.local[k] as int,
        ) by {
            assert(w.local[k] == values[i * 90 + k]);
        }
    }
    assert(all_canonical(w.next)) by {
        assert forall|k: int| 0 <= k < w.next.len() implies crate::field::canonical(
            #[trigger] w.next[k] as int,
        ) by {
            assert(w.next[k] == values[after * 90 + k]);
        }
    }
}

/// Whether row `i` of a trace is real.
pub open spec fn row_is_real(values: Seq<u32>, public_values: Seq<u32>, i: int) -> bool {
    cpu_window(values, public_values, i).var(current().is_real) == 1
}

/// The real rows of a trace come first: the first row is real, and every
/// row before a real row is real.
pub proof fn lemma_real_rows_are_a_prefix(
    values: Seq<u32>,
    public_values: Seq<u32>,
    i: int,
    j: int,
)
    requires
        is_trace(values, 90),
        all_canonical(public_values),
        cpu_trace_holds(values, public_values),
        0 <= i <= j < trace_height(values, 90),
        row_is_real(values, public_values, j),
    ensures
        row_is_real(values, public_values, 0),
        row_is_real(values, public_values, i),
    decreases j - i,
{
    lemma_cpu_windows(values, public_values, 0);
    lemma_real_rows_come_first(current(), successor(), cpu_window(values, public_values, 0));
    if i < j {
        // Row j - 1 is real, for else row j would not be.
        let w = cpu_window(values, public_values, j - 1);
        lemma_cpu_windows(values, public_values, j - 1);
        lemma_real_rows_come_first(current(), successor(), w);
        assert(w.var(successor().is_real) == cpu_window(values, public_values, j).var(
            current().is_real,
        ));
        lemma_real_rows_are_a_prefix(values, public_values, i, j - 1);
    }
}

/// The first row of a trace starts at clock zero and at the public start
/// pc.
pub proof fn lemma_trace_start(values: Seq<u32>, public_values: Seq<u32>)
    requires
        is_trace(values, 90),
        all_canonical(public_values),
        cpu_trace_holds(values, public_values),
    ensures
        cpu_window(values, public_values, 0).var(current().clk) == 0,
        cpu_window(values, public_values, 0).var(current().pc) == cpu_window(
            values,
            public_values,
            0,
        ).var(PublicValues::<Word<Var>, Var>::spec_vars().start_pc),
{
    let w = cpu_window(values, public_values, 0);
    lemma_cpu_windows(values, public_values, 0);
    lemma_first_clock_is_zero(current(), successor(), w);
    lemma_rows_match_public_values(
        current(),
        successor(),
        PublicValues::<Word<Var>, Var>::spec_vars(),
        w,
    );
}

/// From every row of a trace to a real successor the clock grows by four
/// plus the extra cycles of the row, the shard stays the same, and the pc
/// of the successor is the next pc of the row.
pub proof fn lemma_trace_transition(values: Seq<u32>, public_values: Seq<u32>, i: int)
    requires
        is_trace(values, 90),
        all_canonical(public_values),
        cpu_trace_holds(values, public_values),
        0 <= i,
        i + 1 < trace_height(values, 90),
        row_is_real(values, public_values, i + 1),
    ensures
        ({
            let w = cpu_window(values, public_values, i);
            let after = cpu_window(values, public_values, i + 1);
            &&& after.var(current().clk) == fadd(
                fadd(w.var(current().clk), 4),
                num_extra_ecall_cycles(current(), w),
            )
            &&& after.var(current().shard) == w.var(current().shard)
            &&& after.var(current().pc) == w.var(current().next_pc)
        }),
{
    let w = cpu_window(values, public_values, i);
    let after = cpu_window(values, public_values, i + 1);
    lemma_cpu_windows(values, public_values, i);
    assert(w.var(successor().is_real) == after.var(current().is_real));
    assert(w.var(successor().clk) == after.var(current().clk));
    assert(w.var(successor().shard) == after.var(current().shard));
    assert(w.var(successor().pc) == after.var(current().pc));
    lemma_clock_advances(current(), successor(), w);
    lemma_pc_is_chained(current(), successor(), PublicValues::<Word<Var>, Var>::spec_vars(), w);
}

/// The channel of a real row is its place in the trace modulo the number of
/// channels.
pub proof fn lemma_trace_channel(values: Seq<u32>, public_values: Seq<u32>, i: int)
    requires
        is_trace(values, 90),
        all_canonical(public_values),
        cpu_trace_holds(values, public_values),
        0 <= i < trace_height(values, 90),
        row_is_real(values, public_values, i),
    ensures
        cpu_window(values, public_values, i).var(current().channel) == i % 16,
        one_hot_at(
            current().channel_selectors,
            cpu_window(values, public_values, i),
            i % 16,
        ),
    decreases i,
{
    let w = cpu_window(values, public_values, i);
    lemma_cpu_windows(values, public_values, i);
    lemma_channel_is_selected(
        current().channel_selectors,
        successor().channel_selectors,
        w.var(current().channel),
        w.var(successor().is_real),
        w,
    );
    if i > 0 {
        let before = cpu_window(values, public_values, i - 1);
        lemma_real_rows_are_a_prefix(values, public_values, i - 1, i);
        lemma_trace_channel(values, public_values, i - 1);
        lemma_cpu_windows(values, public_values, i - 1);
        assert(before.var(successor().is_real) == w.var(current().is_real));
        lemma_channel_moves_on(
            current().channel_selectors,
            successor().channel_selectors,
            before.var(current().channel),
            before,
        );
        let moved = (before.var(current().channel) + 1) % 16;
        assert forall|k: int| 0 <= k < 16 implies before.var(
            #[trigger] successor().channel_selectors.channel_selectors[k],
        ) == w.var(current().channel_selectors.channel_selectors[k]) by {}
        assert(before.var(successor().channel_selectors.channel_selectors[moved]) == 1);
        assert(w.var(current().channel_selectors.channel_selectors[moved]) == 1);
    }
}

} // verus!
