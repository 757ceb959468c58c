//! The balance of the interaction bus.
//!
//! Per kind, scope and tuple, the multiplicities of the sends less those of
//! the receives must add up to zero in the field. The functions of this
//! module add them up for a list of messages and name the tuples for which
//! they do not: those are the facts that one table states and no other
//! table takes up.

use crate::field::{canonical, fadd, felt_add, felt_sub, fsub, lemma_field_ops_canonical};
use crate::interaction::{BusMessage, InteractionKind, InteractionScope, Message};
use vstd::prelude::*;

verus! {

/// What messages are matched by: kind, scope and tuple.
pub struct BusKey {
    pub kind: InteractionKind,
    pub scope: InteractionScope,
    pub values: Seq<int>,
}

impl Message {
    /// What the message is matched by.
    pub open spec fn key(self) -> BusKey {
        BusKey { kind: self.kind, scope: self.scope, values: self.values }
    }
}

/// The views of a list of messages.
pub open spec fn views(messages: Seq<BusMessage>) -> Seq<Message> {
    Seq::new(messages.len(), |i: int| messages[i]@)
}

/// The multiplicities of the sends less those of the receives, in the
/// field, over those of the first `n` messages that have the given key.
pub open spec fn net_multiplicity(messages: Seq<Message>, key: BusKey, n: nat) -> int
    decreases n,
{
    if n == 0 {
        0
    } else {
        let rest = net_multiplicity(messages, key, (n - 1) as nat);
        let m = messages[n - 1];
        if m.key() != key {
            rest
        } else if m.is_send {
            fadd(rest, m.multiplicity)
        } else {
            fsub(rest, m.multiplicity)
        }
    }
}

/// Whether message `k` is the first of a list with its key.
pub open spec fn is_first_with_its_key(messages: Seq<Message>, k: int) -> bool {
    &&& 0 <= k < messages.len()
    &&& forall|j: int| 0 <= j < k ==> (#[trigger] messages[j]).key() != messages[k].key()
}

/// Whether every tuple is sent as often as it is received.
pub open spec fn balanced(messages: Seq<Message>) -> bool {
    forall|key: BusKey| #[trigger] net_multiplicity(messages, key, messages.len()) == 0
}

/// A tuple that is not sent as often as it is received, with the difference.
#[derive(Clone, Debug, PartialEq, Eq)]
pub struct Unmatched {
    pub kind: InteractionKind,
    pub scope: InteractionScope,
    pub values: Vec<u32>,
    /// The multiplicities of the sends less those of the receives, in the
    /// field. Not zero.
    pub net: u32,
}

impl Unmatched {
    /// The key of the tuple.
    pub open spec fn key(&self) -> BusKey {
        BusKey {
            kind: self.kind,
            scope: self.scope,
            values: Seq::new(self.values@.len(), |i: int| self.values@[i] as int),
        }
    }
}

/// Whether every message of a list holds canonical field elements only.
pub open spec fn all_well_formed(messages: Seq<BusMessage>) -> bool {
    forall|i: int| 0 <= i < messages.len() ==> (#[trigger] messages[i]).wf()
}

/// Decides [`all_well_formed`].
pub fn check_all_well_formed(messages: &Vec<BusMessage>) -> (r: bool)
    ensures
        r == all_well_formed(messages@),
{
    let mut i: usize = 0;
    while i < messages.len()
        invariant
            i <= messages@.len(),
            forall|j: int| 0 <= j < i ==> (#[trigger] messages@[j]).wf(),
        decreases messages@.len() - i,
    {
        if !messages[i].is_well_formed() {
            return false;
        }
        i += 1;
    }
    true
}

/// Whether the entries are the keys that first appear at the places
/// `origin` among the messages, and these places are in ascending order.
pub open spec fn appear_at(messages: Seq<Message>, entries: Seq<Unmatched>, origin: Seq<int>) -> bool {
    &&& origin.len() == entries.len()
    &&& forall|i: int|
        0 <= i < entries.len() ==> is_first_with_its_key(messages, #[trigger] origin[i])
            && entries[i].key() == messages[origin[i]].key()
    &&& forall|i: int, j: int|
        0 <= i < j < entries.len() ==> #[trigger] origin[i] < #[trigger] origin[j]
}

/// Whether two lists of field elements are equal.
pub fn same_values(a: &Vec<u32>, b: &Vec<u32>) -> (r: bool)
    ensures
        r == (a@ == b@),
{
    if a.len() != b.len() {
        return false;
    }
    let mut i: usize = 0;
    while i < a.len()
        invariant
            i <= a.len(),
            a@.len() == b@.len(),
            forall|j: int| 0 <= j < i ==> a@[j] == b@[j],
        decreases a.len() - i,
    {
        if a[i] != b[i] {
            return false;
        }
        i += 1;
    }
    assert(a@ =~= b@);
    true
}

/// Whether two messages are matched against each other: whether they have
/// the same kind, scope and tuple.
pub fn same_key(a: &BusMessage, b: &BusMessage) -> (r: bool)
    ensures
        r == (a@.key() == b@.key()),
{
    let r = a.kind == b.kind && a.scope == b.scope && same_values(&a.values, &b.values);
    proof {
        if a.values@ == b.values@ {
            assert(a@.values =~= b@.values);
        }
        if a@.values == b@.values {
            assert(a@.values.len() == a.values@.len());
            assert(b@.values.len() == b.values@.len());
            assert(a.values@.len() == b.values@.len());
            assert forall|j: int| 0 <= j < a.values@.len() implies a.values@[j] == b.values@[j] by {
                assert(a@.values[j] == b@.values[j]);
            }
            assert(a.values@ =~= b.values@);
        }
    }
    r
}

/// No message, no multiplicity: a key that none of the first `n` messages
/// has adds up to zero.
pub proof fn lemma_absent_key_is_balanced(messages: Seq<Message>, key: BusKey, n: nat)
    requires
        n <= messages.len(),
        forall|i: int| 0 <= i < n ==> (#[trigger] messages[i]).key() != key,
    ensures
        net_multiplicity(messages, key, n) == 0,
    decreases n,
{
    if n > 0 {
        lemma_absent_key_is_balanced(messages, key, (n - 1) as nat);
    }
}

/// The multiplicities of the sends less those of the receives, over the
/// messages that are matched against message `at`.
pub fn net_of(messages: &Vec<BusMessage>, at: usize) -> (r: u32)
    requires
        at < messages@.len(),
        forall|i: int| 0 <= i < messages@.len() ==> (#[trigger] messages@[i]).wf(),
    ensures
        r as int == net_multiplicity(views(messages@), messages@[at as int]@.key(), messages@.len()),
{
    let mut net: u32 = 0;
    let mut i: usize = 0;
    while i < messages.len()
        invariant
            i <= messages@.len(),
            at < messages@.len(),
            forall|j: int| 0 <= j < messages@.len() ==> (#[trigger] messages@[j]).wf(),
            canonical(net as int),
            net as int == net_multiplicity(views(messages@), messages@[at as int]@.key(), i as nat),
        decreases messages@.len() - i,
    {
        proof {
            assert(messages@[i as int].wf());
            assert(views(messages@)[i as int] == messages@[i as int]@);
            lemma_field_ops_canonical(net as int, messages@[i as int].multiplicity as int);
        }
        if same_key(&messages[i], &messages[at]) {
            if messages[i].is_send {
                net = felt_add(net, messages[i].multiplicity);
            } else {
                net = felt_sub(net, messages[i].multiplicity);
            }
        }
        i += 1;
    }
    net
}

/// Whether a message before `at` is matched against message `at`.
fn seen_before(messages: &Vec<BusMessage>, at: usize) -> (r: bool)
    requires
        at < messages@.len(),
    ensures
        r == exists|j: int| 0 <= j < at && (#[trigger] messages@[j])@.key() == messages@[at as int]@.key(),
{
    let mut j: usize = 0;
    while j < at
        invariant
            j <= at,
            at < messages@.len(),
            forall|k: int| 0 <= k < j ==> (#[trigger] messages@[k])@.key() != messages@[at as int]@.key(),
        decreases at - j,
    {
        if same_key(&messages[j], &messages[at]) {
            return true;
        }
        j += 1;
    }
    false
}

/// The tuples that are not sent as often as they are received.
///
/// Every entry of the result is the key of one of the messages and has the
/// net multiplicity of that key, which is not zero. Every key whose net
/// multiplicity is not zero has an entry, and no key has two. The entries
/// come in the order in which their keys first appear among the messages.
pub fn unmatched(messages: &Vec<BusMessage>) -> (r: Vec<Unmatched>)
    requires
        forall|i: int| 0 <= i < messages@.len() ==> (#[trigger] messages@[i]).wf(),
    ensures
        forall|i: int|
            0 <= i < r@.len() ==> (#[trigger] r@[i]).net != 0 && r@[i].net as int
                == net_multiplicity(views(messages@), r@[i].key(), messages@.len()),
        forall|i: int, j: int| 0 <= i < j < r@.len() ==> (#[trigger] r@[i]).key() != (#[trigger] r@[j]).key(),
        forall|key: BusKey|
            net_multiplicity(views(messages@), key, messages@.len()) != 0 ==> exists|i: int|
                0 <= i < r@.len() && (#[trigger] r@[i]).key() == key,
        (r@.len() == 0) == balanced(views(messages@)),
        exists|origin: Seq<int>| #[trigger] appear_at(views(messages@), r@, origin),
{
    let mut out: Vec<Unmatched> = Vec::new();
    let ghost all = views(messages@);
    let ghost total = messages@.len();
    // The index in `messages` of the message that gave entry `i` its key.
    let ghost mut origin: Seq<int> = Seq::empty();
    let mut at: usize = 0;
    while at < messages.len()
        invariant
            at <= messages@.len(),
            all == views(messages@),
            total == messages@.len(),
            forall|i: int| 0 <= i < messages@.len() ==> (#[trigger] messages@[i]).wf(),
            origin.len() == out@.len(),
            forall|i: int|
                0 <= i < out@.len() ==> 0 <= #[trigger] origin[i] < at && out@[i].key()
                    == messages@[origin[i]]@.key(),
            forall|i: int|
                0 <= i < out@.len() ==> is_first_with_its_key(all, #[trigger] origin[i]),
            forall|i: int, j: int|
                0 <= i < j < out@.len() ==> #[trigger] origin[i] < #[trigger] origin[j],
            forall|i: int|
                0 <= i < out@.len() ==> (#[trigger] out@[i]).net != 0 && out@[i].net as int
                    == net_multiplicity(all, out@[i].key(), total),
            forall|i: int, j: int|
                0 <= i < j < out@.len() ==> (#[trigger] out@[i]).key() != (#[trigger] out@[j]).key(),
            forall|k: int|
                0 <= k < at && net_multiplicity(all, (#[trigger] messages@[k])@.key(), total) != 0
                    ==> exists|i: int| 0 <= i < out@.len() && (#[trigger] out@[i]).key() == messages@[k]@.key(),
        decreases messages@.len() - at,
    {
        let first = !seen_before(messages, at);
        let ghost key = messages@[at as int]@.key();
        if first {
            let net = net_of(messages, at);
            if net != 0 {
                let ghost before = out@;
                let entry = Unmatched {
                    kind: messages[at].kind,
                    scope: messages[at].scope,
                    values: messages[at].values.clone(),
                    net,
                };
                assert(entry.key().values =~= key.values);
                assert(entry.key() == key);
                out.push(entry);
                proof {
                    assert(is_first_with_its_key(all, at as int)) by {
                        assert forall|j: int| 0 <= j < at implies (#[trigger] all[j]).key()
                            != all[at as int].key() by {
                            assert(all[j] == messages@[j]@);
                        }
                    }
                    origin = origin.push(at as int);
                    assert forall|i: int, j: int| 0 <= i < j < out@.len() implies (#[trigger] out@[i]).key()
                        != (#[trigger] out@[j]).key() by {
                        if j == before.len() {
                            assert(out@[i] == before[i]);
                            assert(0 <= origin[i] < at);
                            assert(messages@[origin[i]]@.key() != key);
                        } else {
                            assert(out@[i] == before[i] && out@[j] == before[j]);
                        }
                    }
                    assert forall|k: int|
                        0 <= k < at + 1 && net_multiplicity(all, (#[trigger] messages@[k])@.key(), total)
                            != 0 implies exists|i: int|
                        0 <= i < out@.len() && (#[trigger] out@[i]).key() == messages@[k]@.key() by {
                        if k == at {
                            assert(out@[before.len() as int].key() == messages@[k]@.key());
                        } else {
                            let i = choose|i: int|
                                0 <= i < before.len() && (#[trigger] before[i]).key() == messages@[k]@.key();
                            assert(out@[i] == before[i]);
                        }
                    }
                }
            }
        } else {
            proof {
                let j = choose|j: int|
                    0 <= j < at && (#[trigger] messages@[j])@.key() == messages@[at as int]@.key();
                assert(messages@[j]@.key() == key);
            }
        }
        at += 1;
    }
    proof {
        assert forall|i: int| 0 <= i < out@.len() implies is_first_with_its_key(
            views(messages@),
            #[trigger] origin[i],
        ) && out@[i].key() == views(messages@)[origin[i]].key() by {
            assert(all[origin[i]] == messages@[origin[i]]@);
        }
        assert(appear_at(views(messages@), out@, origin));
        assert forall|key: BusKey| net_multiplicity(all, key, total) != 0 implies exists|i: int|
            0 <= i < out@.len() && (#[trigger] out@[i]).key() == key by {
            if forall|k: int| 0 <= k < total ==> (#[trigger] all[k]).key() != key {
                lemma_absent_key_is_balanced(all, key, total);
            } else {
                let k = choose|k: int| 0 <= k < total && (#[trigger] all[k]).key() == key;
                assert(all[k] == messages@[k]@);
                assert(net_multiplicity(all, messages@[k]@.key(), total) != 0);
            }
        }
        assert(all.len() == total);
        if out@.len() == 0 {
            assert forall|key: BusKey| #[trigger] net_multiplicity(all, key, all.len()) == 0 by {
                if net_multiplicity(all, key, total) != 0 {
                    let i = choose|i: int| 0 <= i < out@.len() && (#[trigger] out@[i]).key() == key;
                }
            }
            assert(balanced(all));
        } else {
            assert(out@[0].net != 0);
            assert(net_multiplicity(all, out@[0].key(), all.len()) != 0);
            assert(!balanced(all));
        }
    }
    out
}

/// Whether every tuple is sent as often as it is received.
pub fn is_balanced(messages: &Vec<BusMessage>) -> (r: bool)
    requires
        forall|i: int| 0 <= i < messages@.len() ==> (#[trigger] messages@[i]).wf(),
    ensures
        r == balanced(views(messages@)),
{
    unmatched(messages).len() == 0
}

} // verus!
