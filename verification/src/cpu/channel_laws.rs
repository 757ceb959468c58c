//! What the constraints on the channel enforce: the channel of a row is its
//! place in the shard, modulo the number of channels.

use crate::builder::{lemma_boolean, lemma_eq_when};
use crate::cpu::channel::{
    channel_constraints, selected_channel, selector_sum, selectors_boolean, selectors_rotate,
};
use crate::cpu::columns::ChannelSelectorCols;
use crate::expr::{Var, Window};
use crate::field::{
    canonical, lemma_fadd_value, lemma_fmul_one, lemma_fmul_zero, lemma_fsub_zero, modulus,
};
use vstd::prelude::*;

verus! {

/// Whether exactly selector `c` is set, and to one.
pub open spec fn one_hot_at(s: ChannelSelectorCols<Var>, w: Window, c: int) -> bool {
    &&& 0 <= c < 16
    &&& forall|k: int|
        0 <= k < 16 ==> w.var(#[trigger] s.channel_selectors[k]) == if k == c {
            1int
        } else {
            0int
        }
}

/// Every channel selector that the constraints hold for is zero or one.
pub proof fn lemma_selector_is_boolean(s: ChannelSelectorCols<Var>, w: Window, n: nat, i: int)
    requires
        w.wf(),
        selectors_boolean(s, w, n),
        0 <= i < n <= 16,
    ensures
        w.var(s.channel_selectors[i]) == 0 || w.var(s.channel_selectors[i]) == 1,
    decreases n,
{
    if i == n - 1 {
        lemma_boolean(w.var(s.channel_selectors[i]));
    } else {
        lemma_selector_is_boolean(s, w, (n - 1) as nat, i);
    }
}

/// The sum of the first `n` selectors, where they are zero or one: it is
/// the number of those that are set; if it is zero none is set, and if it
/// is one exactly one is.
pub proof fn lemma_selector_sum(s: ChannelSelectorCols<Var>, w: Window, n: nat)
    requires
        n <= 16,
        forall|k: int|
            0 <= k < 16 ==> w.var(#[trigger] s.channel_selectors[k]) == 0 || w.var(
                s.channel_selectors[k],
            ) == 1,
    ensures
        0 <= selector_sum(s, w, n) <= n,
        selector_sum(s, w, n) == 0 ==> forall|k: int|
            0 <= k < n ==> w.var(#[trigger] s.channel_selectors[k]) == 0,
        selector_sum(s, w, n) == 1 ==> exists|c: int|
            0 <= c < n && w.var(#[trigger] s.channel_selectors[c]) == 1 && forall|k: int|
                0 <= k < n && k != c ==> w.var(#[trigger] s.channel_selectors[k]) == 0,
    decreases n,
{
    if n > 0 {
        lemma_selector_sum(s, w, (n - 1) as nat);
        let last = w.var(s.channel_selectors[n - 1]);
        let before = selector_sum(s, w, (n - 1) as nat);
        assert(last == 0 || last == 1);
        lemma_fadd_value(before, last);
        if selector_sum(s, w, n) == 1 {
            if last == 1 {
                assert(before == 0);
                assert(w.var(s.channel_selectors[n - 1]) == 1 && forall|k: int|
                    0 <= k < n && k != n - 1 ==> w.var(#[trigger] s.channel_selectors[k]) == 0);
            } else {
                let c = choose|c: int|
                    0 <= c < n - 1 && w.var(#[trigger] s.channel_selectors[c]) == 1 && forall|k: int|
                        0 <= k < n - 1 && k != c ==> w.var(#[trigger] s.channel_selectors[k]) == 0;
                assert(w.var(s.channel_selectors[c]) == 1 && forall|k: int|
                    0 <= k < n && k != c ==> w.var(#[trigger] s.channel_selectors[k]) == 0);
            }
        }
    }
}

/// The index that the first `n` selectors name, where exactly selector `c`
/// is set: `c` if it is among them, else zero.
pub proof fn lemma_selected_channel(s: ChannelSelectorCols<Var>, w: Window, n: nat, c: int)
    requires
        n <= 16,
        one_hot_at(s, w, c),
    ensures
        selected_channel(s, w, n) == if c < n {
            c
        } else {
            0
        },
    decreases n,
{
    if n > 0 {
        lemma_selected_channel(s, w, (n - 1) as nat, c);
        let last = w.var(s.channel_selectors[n - 1]);
        assert(last == if n - 1 == c {
            1int
        } else {
            0int
        });
        vstd::arithmetic::div_mod::lemma_small_mod((n - 1) as nat, modulus() as nat);
        lemma_fmul_one(n - 1);
        lemma_fmul_zero(n - 1);
        lemma_fadd_value(0, n - 1);
        lemma_fadd_value(0, 0);
        if c < n - 1 {
            lemma_fadd_value(c, 0);
        }
    }
}

/// The selector of a real row: exactly one selector is set, and it is the
/// one of the row's channel, which is below the number of channels. On the
/// first row the channel is zero.
pub proof fn lemma_channel_is_selected(
    local: ChannelSelectorCols<Var>,
    next: ChannelSelectorCols<Var>,
    channel: int,
    next_is_real: int,
    w: Window,
)
    requires
        w.wf(),
        canonical(channel),
        channel_constraints(local, next, channel, 1, next_is_real, w),
    ensures
        one_hot_at(local, w, channel),
        w.is_first_row ==> channel == 0,
{
    assert forall|k: int| 0 <= k < 16 implies w.var(#[trigger] local.channel_selectors[k]) == 0
        || w.var(local.channel_selectors[k]) == 1 by {
        lemma_selector_is_boolean(local, w, 16, k);
    }
    lemma_selector_sum(local, w, 16);
    lemma_eq_when(1, selector_sum(local, w, 16), 1);
    let c = choose|c: int|
        0 <= c < 16 && w.var(#[trigger] local.channel_selectors[c]) == 1 && forall|k: int|
            0 <= k < 16 && k != c ==> w.var(#[trigger] local.channel_selectors[k]) == 0;
    assert(one_hot_at(local, w, c));
    lemma_selected_channel(local, w, 16, c);
    lemma_fsub_zero(selected_channel(local, w, 16), channel);
    if w.is_first_row {
        lemma_eq_when(1, w.var(local.channel_selectors[0]), 1);
    }
}

/// Selector `k + 1`, cyclically, of the next row is selector `k` of the
/// current row, for every `k` below `n`, where the rotation is switched on.
pub proof fn lemma_rotated_selector(
    local: ChannelSelectorCols<Var>,
    next: ChannelSelectorCols<Var>,
    w: Window,
    n: nat,
    k: int,
)
    requires
        w.wf(),
        selectors_rotate(local, next, 1, w, n),
        0 <= k < n <= 16,
    ensures
        w.var(next.channel_selectors[(k + 1) % 16]) == w.var(local.channel_selectors[k]),
    decreases n,
{
    if k == n - 1 {
        lemma_eq_when(
            1,
            w.var(local.channel_selectors[k]),
            w.var(next.channel_selectors[(n % 16) as int]),
        );
    } else {
        lemma_rotated_selector(local, next, w, (n - 1) as nat, k);
    }
}

/// From a real row to a real successor the channel moves on by one,
/// cyclically: the selector that is set in the successor is the one after
/// the selector of the row. With [`lemma_channel_is_selected`], row `i` of a
/// shard has channel `i` modulo the number of channels.
pub proof fn lemma_channel_moves_on(
    local: ChannelSelectorCols<Var>,
    next: ChannelSelectorCols<Var>,
    channel: int,
    w: Window,
)
    requires
        w.wf(),
        canonical(channel),
        channel_constraints(local, next, channel, 1, 1, w),
        w.is_transition,
    ensures
        one_hot_at(next, w, (channel + 1) % 16),
{
    lemma_channel_is_selected(local, next, channel, 1, w);
    lemma_fmul_one(1);
    assert forall|k: int| 0 <= k < 16 implies w.var(#[trigger] next.channel_selectors[k]) == if k
        == (channel + 1) % 16 {
        1int
    } else {
        0int
    } by {
        let from = (k + 15) % 16;
        assert((from + 1) % 16 == k);
        lemma_rotated_selector(local, next, w, 16, from);
        assert(w.var(local.channel_selectors[from]) == if from == channel {
            1int
        } else {
            0int
        });
    }
}

} // verus!
