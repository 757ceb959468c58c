//! The channel of a row.
//!
//! The interactions of a row go through one of a fixed number of channels,
//! so that no lookup column carries more than its share. The channel is no
//! state of the machine: row `i` of a shard uses channel `i` modulo the
//! number of channels.

use crate::builder::{all_zero, boolean, eq_when, ConstraintBuilder};
use crate::cpu::columns::{ChannelSelectorCols, NUM_CHANNELS};
use crate::expr::{Expr, Var, Window};
use crate::field::{fadd, fmul, fsub};
use vstd::prelude::*;

verus! {

/// Whether each of the first `n` channel selectors is zero or one.
pub open spec fn selectors_boolean(s: ChannelSelectorCols<Var>, w: Window, n: nat) -> bool
    decreases n,
{
    if n == 0 {
        true
    } else {
        selectors_boolean(s, w, (n - 1) as nat) && boolean(w.var(s.channel_selectors[n - 1]))
    }
}

/// The sum of the first `n` channel selectors.
pub open spec fn selector_sum(s: ChannelSelectorCols<Var>, w: Window, n: nat) -> int
    decreases n,
{
    if n == 0 {
        0
    } else {
        fadd(selector_sum(s, w, (n - 1) as nat), w.var(s.channel_selectors[n - 1]))
    }
}

/// The sum of `i` times selector `i` over the first `n` channel selectors:
/// the index of the selector that is set, if exactly one is.
pub open spec fn selected_channel(s: ChannelSelectorCols<Var>, w: Window, n: nat) -> int
    decreases n,
{
    if n == 0 {
        0
    } else {
        fadd(
            selected_channel(s, w, (n - 1) as nat),
            fmul(w.var(s.channel_selectors[n - 1]), (n - 1) % crate::field::modulus()),
        )
    }
}

/// Whether each of the first `n` selectors of the current row equals its
/// right neighbour, cyclically, on the next row, wherever `cond` is not zero.
pub open spec fn selectors_rotate(
    local: ChannelSelectorCols<Var>,
    next: ChannelSelectorCols<Var>,
    cond: int,
    w: Window,
    n: nat,
) -> bool
    decreases n,
{
    if n == 0 {
        true
    } else {
        selectors_rotate(local, next, cond, w, (n - 1) as nat) && eq_when(
            cond,
            w.var(local.channel_selectors[n - 1]),
            w.var(next.channel_selectors[(n % 16) as int]),
        )
    }
}

/// The constraints on the channel of a row.
///
/// Every selector is zero or one; the channel is the index of the selector
/// that is set; on a real row exactly one selector is set; on the first row
/// it is the first; and from a row to a real successor the set selector
/// moves one place to the right, cyclically.
pub open spec fn channel_constraints(
    local: ChannelSelectorCols<Var>,
    next: ChannelSelectorCols<Var>,
    channel: int,
    local_is_real: int,
    next_is_real: int,
    w: Window,
) -> bool {
    &&& selectors_boolean(local, w, 16)
    &&& fsub(selected_channel(local, w, 16), channel) == 0
    &&& eq_when(local_is_real, selector_sum(local, w, 16), 1)
    &&& eq_when(w.var(Var::IsFirstRow), w.var(local.channel_selectors[0]), 1)
    &&& selectors_rotate(local, next, fmul(w.var(Var::IsTransition), next_is_real), w, 16)
}

/// States the constraints on the channel of a row.
pub fn eval_channel_selectors(
    builder: &mut ConstraintBuilder,
    local: &ChannelSelectorCols<Var>,
    next: &ChannelSelectorCols<Var>,
    channel: Var,
    local_is_real: Var,
    next_is_real: Var,
)
    ensures
        final(builder).interactions@ == old(builder).interactions@,
        forall|w: Window| #[trigger]
            final(builder).holds(w) == (old(builder).holds(w) && channel_constraints(
                *local,
                *next,
                w.var(channel),
                w.var(local_is_real),
                w.var(next_is_real),
                w,
            )),
{
    let mut reconstruct_channel = Expr::zero();
    let mut sum = Expr::zero();
    let mut i: usize = 0;
    while i < NUM_CHANNELS
        invariant
            i <= 16,
            builder.interactions@ == old(builder).interactions@,
            forall|w: Window| #[trigger]
                all_zero(builder.constraints@, w) == (all_zero(old(builder).constraints@, w)
                    && selectors_boolean(*local, w, i as nat)),
            forall|w: Window| #[trigger] sum.value(w) == selector_sum(*local, w, i as nat),
            forall|w: Window| #[trigger]
                reconstruct_channel.value(w) == selected_channel(*local, w, i as nat),
        decreases 16 - i,
    {
        let selector = local.channel_selectors[i];
        // The selector is a boolean.
        builder.assert_bool(Expr::var(selector));
        // The number of selectors that are set.
        sum = sum.plus(Expr::var(selector));
        // The index of the selector that is set.
        let index: u32 = i as u32;
        reconstruct_channel = reconstruct_channel.plus(Expr::var(selector).times(Expr::constant(index)));
        i += 1;
    }

    // The selectors name the channel.
    builder.assert_eq(reconstruct_channel, Expr::var(channel));

    // On a real row exactly one selector is set.
    builder.assert_eq_when(Expr::var(local_is_real), sum, Expr::one());

    // The first row uses the first channel.
    builder.assert_one_when(builder.is_first_row(), Expr::var(local.channel_selectors[0]));

    let ghost mid = builder.constraints@;

    // The next real row uses the next channel.
    let mut i: usize = 0;
    while i < NUM_CHANNELS
        invariant
            i <= 16,
            builder.interactions@ == old(builder).interactions@,
            forall|w: Window| #[trigger]
                all_zero(builder.constraints@, w) == (all_zero(mid, w) && selectors_rotate(
                    *local,
                    *next,
                    fmul(w.var(Var::IsTransition), w.var(next_is_real)),
                    w,
                    i as nat,
                )),
        decreases 16 - i,
    {
        builder.assert_eq_when(
            builder.is_transition().times(Expr::var(next_is_real)),
            Expr::var(local.channel_selectors[i]),
            Expr::var(next.channel_selectors[(i + 1) % NUM_CHANNELS]),
        );
        i += 1;
    }
}

} // verus!
