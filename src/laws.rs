//! Properties of the release state that relate several of its operations.

use vstd::prelude::*;
use crate::state::{elapsed_since, Reason, State};

verus! {

broadcast use vstd::multiset::group_multiset_axioms;

/// No item is gained or lost: the items handed out and not returned are
/// exactly the items that came from the source and are no longer pending.
pub proof fn lemma_delivered_items<T, E>(s: State<T, E>)
    requires
        s.wf(),
        s.taken_back().subset_of(s.handed_out()),
    ensures
        s.handed_out().sub(s.taken_back()) == s.admitted().sub(s.pending().to_multiset()),
{
    let a = s.admitted();
    let tb = s.taken_back();
    let ho = s.handed_out();
    let p = s.pending().to_multiset();
    assert forall|v: T| #[trigger] ho.sub(tb).count(v) == a.sub(p).count(v) by {
        assert(a.add(tb).count(v) == ho.add(p).count(v));
        assert(tb.count(v) <= ho.count(v));
    }
    assert(ho.sub(tb) =~= a.sub(p));
}

/// Until the consumer returns an item, the batches handed out, one after the
/// other, followed by what is pending, are exactly the items that arrived from
/// the source, in the order in which they arrived.
pub proof fn lemma_released_in_order<T, E>(s: State<T, E>)
    requires
        s.wf(),
        s.taken_back().len() == 0,
    ensures
        s.released() + s.pending() == s.arrived(),
{
}

/// An item admitted while the state admits one leaves at most `soft_cap`
/// items pending.
pub proof fn lemma_admitted_item_within_soft_cap<T, E>(s: State<T, E>, item: T)
    requires
        s.admits(),
    ensures
        s.pending().push(item).len() <= s.soft_cap(),
{
}

/// Where items enter only while the state admits them, a batch released for
/// its size holds exactly `soft_cap` items.
pub proof fn lemma_size_batch_is_soft_cap<T, E>(s: State<T, E>, now: u64)
    requires
        s.pending().len() <= s.soft_cap(),
        s.ready_at(now) == Some(Reason::Size),
    ensures
        s.pending().len() == s.soft_cap(),
{
}

/// Pending items are released once `release_after` has passed since the last
/// release and no backoff delay holds them back.
pub proof fn lemma_release_deadline<T, E>(s: State<T, E>, now: u64)
    requires
        s.pending().len() > 0,
        elapsed_since(s.last_ok_consume(), now) >= s.release_after(),
        s.next_backoff() matches Some(d) ==> elapsed_since(s.last_ok_consume(), now) >= d,
    ensures
        s.ready_at(now) is Some,
{
}

/// While the backoff delay set by a return has not passed since the last
/// release, no batch is released, whatever its size, age or the source's state.
pub proof fn lemma_backoff_holds_release<T, E>(s: State<T, E>, now: u64)
    requires
        s.pending().len() > 0,
        s.next_backoff() matches Some(d) && elapsed_since(s.last_ok_consume(), now) < d,
    ensures
        s.ready_at(now) is None,
{
}

/// After a confirm, however many returns came before it, the schedule is back
/// at its start: the delay set by the next return is the schedule's first.
pub proof fn lemma_first_step_after_confirm<T, E>(
    confirmed: State<T, E>,
    returned: State<T, E>,
    items: Seq<T>,
)
    requires
        confirmed.has_backoff(),
        confirmed.backoff_steps() == 0,
        returned.returned_from(confirmed, items),
        returned.next_backoff() is Some,
    ensures
        returned.backoff_steps() == 1,
{
}

} // verus!
