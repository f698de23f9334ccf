//! The release state: the pending batch, the time of the last release, the
//! terminal error and the backoff delay that gates the next release.

use vstd::prelude::*;
use vstd::multiset::Multiset;
use crate::retry::{self, Schedule};

verus! {

broadcast use vstd::seq_lib::group_to_multiset_ensures, vstd::multiset::group_multiset_axioms;

/// Why a batch was released.
#[derive(Debug, PartialEq, Eq, Structural, Clone, Copy)]
pub enum Reason {
    /// The pending batch had been waiting for `release_after` or longer.
    Time,
    /// The pending batch reached the soft cap.
    Size,
    /// The source failed; what is pending is released one last time.
    Term,
}

/// How a buffer is set up. Durations are in nanoseconds.
pub struct RelaBufConfig {
    /// Age after which a pending batch is released whatever its size.
    pub release_after: u64,
    /// Batch size that triggers a release; pending items are admitted only
    /// while fewer than this many are pending.
    pub soft_cap: usize,
    /// Capacity of the inbound relay, where the producer blocks.
    pub hard_cap: usize,
    /// The schedule of delays before a returned batch is released again;
    /// without one a returned batch may be released at once.
    pub backoff: Option<backoff::ExponentialBackoff>,
}

/// What a release drained: the time since the previous release, and the items
/// in the order in which they were pending.
pub struct Consumed<T> {
    pub elapsed: u64,
    pub items: Vec<T>,
}

/// A released batch. It is ended by `confirm` or by `return_on_err`.
pub struct Released<T> {
    pub reason: Reason,
    /// Nanoseconds since the previous release.
    pub elapsed: u64,
    pub items: Vec<T>,
}

/// What the driver does next, decided by `State::step`.
pub enum Step<T, E> {
    /// A batch is handed to the consumer.
    Released(Released<T>),
    /// The source failed and nothing is pending: the error is handed over.
    Failed(E),
    /// No batch is ready and one more item may be admitted: receive one.
    Receive,
    /// No batch is ready and no item may be admitted: wait.
    Sleep,
    /// The source's error was handed over before and nothing is pending: the
    /// buffer has ended.
    Ended,
}

/// Time from `last` to `now`, or zero where the clock reads an earlier `now`.
pub open spec fn elapsed_since(last: u64, now: u64) -> u64 {
    if now >= last {
        (now - last) as u64
    } else {
        0
    }
}

/// The release state of one buffer.
pub struct State<T, E> {
    buffer: Vec<T>,
    backoff: Option<Schedule>,
    release_after: u64,
    soft_cap: usize,
    last_ok_consume: u64,
    err: Option<E>,
    /// The source's error was handed over; the buffer stays terminal.
    ended: bool,
    next_backoff: Option<u64>,
    /// Every item ever added from the source.
    admitted: Ghost<Multiset<T>>,
    /// Every item ever handed out in a batch.
    handed_out: Ghost<Multiset<T>>,
    /// Every item ever returned by the consumer.
    taken_back: Ghost<Multiset<T>>,
    /// Every item ever added from the source, in the order of arrival.
    arrived: Ghost<Seq<T>>,
    /// Every item ever handed out, batch after batch.
    released: Ghost<Seq<T>>,
}

impl<T, E> State<T, E> {
    /// The pending items, oldest first.
    pub closed spec fn pending(&self) -> Seq<T> {
        self.buffer@
    }

    pub closed spec fn has_backoff(&self) -> bool {
        self.backoff is Some
    }

    /// Steps of the backoff schedule since it was built or last reset.
    pub closed spec fn backoff_steps(&self) -> nat {
        match self.backoff {
            Some(b) => b.steps(),
            None => 0,
        }
    }

    /// Whether the source's error was handed over.
    pub closed spec fn ended(&self) -> bool {
        self.ended
    }

    /// Whether the source has failed: its error is held or was handed over.
    /// Once true this stays true.
    pub open spec fn failed(&self) -> bool {
        self.error() is Some || self.ended()
    }

    pub closed spec fn release_after(&self) -> u64 {
        self.release_after
    }

    pub closed spec fn soft_cap(&self) -> nat {
        self.soft_cap as nat
    }

    /// Time of the last release.
    pub closed spec fn last_ok_consume(&self) -> u64 {
        self.last_ok_consume
    }

    pub closed spec fn error(&self) -> Option<E> {
        self.err
    }

    /// The delay, counted from the last release, before which no batch is
    /// released.
    pub closed spec fn next_backoff(&self) -> Option<u64> {
        self.next_backoff
    }

    pub closed spec fn admitted(&self) -> Multiset<T> {
        self.admitted@
    }

    pub closed spec fn handed_out(&self) -> Multiset<T> {
        self.handed_out@
    }

    pub closed spec fn taken_back(&self) -> Multiset<T> {
        self.taken_back@
    }

    pub closed spec fn arrived(&self) -> Seq<T> {
        self.arrived@
    }

    pub closed spec fn released(&self) -> Seq<T> {
        self.released@
    }

    /// The state's invariant: a positive soft cap, a delay only where there is
    /// a schedule, and no item gained or lost: what came in from the source or
    /// back from the consumer was handed out or is pending. Until an item is
    /// returned, what was handed out followed by what is pending is what
    /// arrived, in order.
    pub open spec fn wf(&self) -> bool {
        &&& self.soft_cap() >= 1
        &&& (!self.has_backoff() ==> self.next_backoff() is None)
        &&& self.admitted().add(self.taken_back()) == self.handed_out().add(
            self.pending().to_multiset(),
        )
        &&& (self.taken_back().len() == 0 ==> self.released() + self.pending()
            == self.arrived())
    }

    /// Whether one more item may be taken from the source.
    pub open spec fn admits(&self) -> bool {
        self.pending().len() < self.soft_cap() && !self.failed()
    }

    /// Whether a batch is ready at time `now`, and why.
    pub open spec fn ready_at(&self, now: u64) -> Option<Reason> {
        let e = elapsed_since(self.last_ok_consume(), now);
        if self.pending().len() == 0 {
            if self.failed() {
                Some(Reason::Term)
            } else {
                None
            }
        } else if self.next_backoff() is Some && e < self.next_backoff()->0 {
            None
        } else if self.failed() {
            Some(Reason::Term)
        } else if self.pending().len() >= self.soft_cap() {
            Some(Reason::Size)
        } else if e >= self.release_after() {
            Some(Reason::Time)
        } else {
            None
        }
    }

    /// A new state at time `now` with nothing pending. `None` where the soft
    /// cap is zero, or where the backoff schedule's settings are not admitted
    /// (see `ScheduleLimits::admissible`); without a schedule a positive soft
    /// cap is always accepted.
    pub fn new(opts: RelaBufConfig, now: u64) -> (r: Option<Self>)
        ensures
            opts.soft_cap == 0 ==> r is None,
            opts.soft_cap > 0 && opts.backoff is None ==> r is Some,
            r matches Some(s) ==> {
                &&& s.wf()
                &&& s.pending() == Seq::<T>::empty()
                &&& s.has_backoff() == (opts.backoff is Some)
                &&& s.release_after() == opts.release_after
                &&& s.soft_cap() == opts.soft_cap
                &&& s.last_ok_consume() == now
                &&& s.error() is None
                &&& !s.ended()
                &&& s.next_backoff() is None
                &&& s.backoff_steps() == 0
                &&& s.admitted() == Multiset::<T>::empty()
                &&& s.handed_out() == Multiset::<T>::empty()
                &&& s.taken_back() == Multiset::<T>::empty()
                &&& s.arrived() == Seq::<T>::empty()
                &&& s.released() == Seq::<T>::empty()
            },
    {
        if opts.soft_cap == 0 {
            return None;
        }
        let backoff = match opts.backoff {
            Some(b) => match Schedule::new(b) {
                Some(schedule) => Some(schedule),
                None => {
                    return None;
                },
            },
            None => None,
        };
        let s = State {
            buffer: Vec::new(),
            backoff,
            release_after: opts.release_after,
            soft_cap: opts.soft_cap,
            last_ok_consume: now,
            err: None,
            ended: false,
            next_backoff: None,
            admitted: Ghost(Multiset::empty()),
            handed_out: Ghost(Multiset::empty()),
            taken_back: Ghost(Multiset::empty()),
            arrived: Ghost(Seq::empty()),
            released: Ghost(Seq::empty()),
        };
        proof {
            assert(s.pending().to_multiset() =~= Multiset::<T>::empty());
            assert(s.released() + s.pending() =~= s.arrived());
            assert(s.admitted().add(s.taken_back()) =~= s.handed_out().add(
                s.pending().to_multiset(),
            ));
        }
        Some(s)
    }

    /// Whether one more item may be taken from the source: fewer than the soft
    /// cap are pending and the source has not failed.
    pub fn can_receive(&self) -> (r: bool)
        ensures
            r == self.admits(),
    {
        self.buffer.len() < self.soft_cap && self.err.is_none() && !self.ended
    }

    /// Appends an item from the source to the pending batch.
    pub fn add_item(&mut self, item: T)
        requires
            old(self).wf(),
        ensures
            final(self).wf(),
            final(self).pending() == old(self).pending().push(item),
            final(self).admitted() == old(self).admitted().insert(item),
            final(self).arrived() == old(self).arrived().push(item),
            final(self).released() == old(self).released(),
            final(self).same_but_items(*old(self)),
            final(self).handed_out() == old(self).handed_out(),
            final(self).taken_back() == old(self).taken_back(),
    {
        let ghost p = self.buffer@;
        let ghost a = self.admitted@;
        self.buffer.push(item);
        self.admitted = Ghost(self.admitted@.insert(item));
        self.arrived = Ghost(self.arrived@.push(item));
        proof {
            assert(self.released@ + p.push(item) =~= (self.released@ + p).push(item));
            let tb = self.taken_back@;
            let ho = self.handed_out@;
            assert(self.buffer@ == p.push(item));
            assert(p.push(item).to_multiset() =~= p.to_multiset().insert(item));
            assert(a.add(tb) == ho.add(p.to_multiset()));
            assert(a.insert(item).add(tb) =~= a.add(tb).insert(item));
            assert(ho.add(p.to_multiset().insert(item)) =~= ho.add(p.to_multiset()).insert(item));
        }
    }

    /// Everything but the items and their accounting is as in `o`.
    pub open spec fn same_but_items(&self, o: Self) -> bool {
        &&& self.has_backoff() == o.has_backoff()
        &&& self.release_after() == o.release_after()
        &&& self.soft_cap() == o.soft_cap()
        &&& self.last_ok_consume() == o.last_ok_consume()
        &&& self.error() == o.error()
        &&& self.ended() == o.ended()
        &&& self.next_backoff() == o.next_backoff()
        &&& self.backoff_steps() == o.backoff_steps()
    }


    /// The state after a release at `now` from `o`, the error aside: nothing
    /// pending, the clock of the last release at `now`, and what was pending
    /// counted as handed out.
    pub open spec fn drained_from(&self, o: Self, now: u64) -> bool {
        &&& self.pending() == Seq::<T>::empty()
        &&& self.last_ok_consume() == now
        &&& self.has_backoff() == o.has_backoff()
        &&& self.release_after() == o.release_after()
        &&& self.soft_cap() == o.soft_cap()
        &&& self.next_backoff() == o.next_backoff()
        &&& self.backoff_steps() == o.backoff_steps()
        &&& self.admitted() == o.admitted()
        &&& self.taken_back() == o.taken_back()
        &&& self.handed_out() == o.handed_out().add(o.pending().to_multiset())
        &&& self.arrived() == o.arrived()
        &&& self.released() == o.released() + o.pending()
    }

    /// The state after `items` were returned to `o`: they are pending after
    /// what was pending, and are counted as taken back. Without a backoff
    /// schedule no delay is set; with one, the schedule took one step, or
    /// none where its budget was already spent, and a delay is set only where
    /// the step yielded one.
    pub open spec fn returned_from(&self, o: Self, items: Seq<T>) -> bool {
        &&& self.items_returned_from(o, items)
        &&& (!o.has_backoff() ==> self.next_backoff() is None && self.backoff_steps() == 0)
        &&& (o.has_backoff() ==> {
            ||| self.backoff_steps() == o.backoff_steps() + 1
            ||| self.next_backoff() is None && self.backoff_steps() == o.backoff_steps()
        })
    }

    /// `items` pending after what was pending in `o` and counted as taken
    /// back; everything else but the backoff delay and schedule as in `o`.
    pub open spec fn items_returned_from(&self, o: Self, items: Seq<T>) -> bool {
        &&& self.pending() == o.pending() + items
        &&& self.taken_back() == o.taken_back().add(items.to_multiset())
        &&& self.arrived() == o.arrived()
        &&& self.released() == o.released()
        &&& self.admitted() == o.admitted()
        &&& self.handed_out() == o.handed_out()
        &&& self.has_backoff() == o.has_backoff()
        &&& self.release_after() == o.release_after()
        &&& self.soft_cap() == o.soft_cap()
        &&& self.last_ok_consume() == o.last_ok_consume()
        &&& self.error() == o.error()
        &&& self.ended() == o.ended()
    }

    /// Puts the items of a failed batch back after those pending, and takes
    /// the next step of the backoff schedule, if there is one, as the delay
    /// before the next release. Without a schedule the delay stays unset.
    pub fn return_on_err(&mut self, items: Vec<T>)
        requires
            old(self).wf(),
        ensures
            final(self).wf(),
            final(self).returned_from(*old(self), items@),
    {
        let delay = match &mut self.backoff {
            Some(b) => retry::next_step(b),
            None => None,
        };
        self.rearm(items, delay);
    }

    /// Puts `items` back after those pending and, where there is a backoff
    /// schedule, sets `delay` as the delay before the next release.
    fn rearm(&mut self, items: Vec<T>, delay: Option<u64>)
        requires
            old(self).wf(),
        ensures
            final(self).wf(),
            final(self).items_returned_from(*old(self), items@),
            final(self).backoff_steps() == old(self).backoff_steps(),
            final(self).next_backoff() == (if old(self).has_backoff() {
                delay
            } else {
                None
            }),
    {
        let ghost p = self.buffer@;
        let ghost a = self.admitted@;
        let ghost tb = self.taken_back@;
        let ghost ho = self.handed_out@;
        let mut items = items;
        let ghost its = items@;
        self.buffer.append(&mut items);
        self.taken_back = Ghost(self.taken_back@.add(its.to_multiset()));
        if self.backoff.is_some() {
            self.next_backoff = delay;
        }
        proof {
            vstd::seq_lib::lemma_multiset_commutative(p, its);
            assert(self.buffer@ == p + its);
            assert(a.add(tb) == ho.add(p.to_multiset()));
            let m = its.to_multiset();
            assert forall|v: T|
                #[trigger] a.add(tb.add(m)).count(v) == ho.add(p.to_multiset().add(m)).count(
                    v,
                ) by {
                assert(a.add(tb).count(v) == ho.add(p.to_multiset()).count(v));
            }
            assert(a.add(tb.add(its.to_multiset())) =~= ho.add(
                p.to_multiset().add(its.to_multiset()),
            ));
        }
    }

    /// Ends a successful batch: the delay before the next release is cleared
    /// and the backoff schedule, if there is one, starts over.
    pub fn confirm(&mut self)
        requires
            old(self).wf(),
        ensures
            final(self).wf(),
            final(self).next_backoff() is None,
            final(self).has_backoff() ==> final(self).backoff_steps() == 0,
            final(self).same_items_as(*old(self)),
    {
        match &mut self.backoff {
            Some(b) => {
                self.next_backoff = None;
                retry::reset(b);
            },
            None => {},
        }
    }

    /// Everything but the delay before the next release is as in `o`.
    pub open spec fn same_items_as(&self, o: Self) -> bool {
        &&& self.pending() == o.pending()
        &&& self.arrived() == o.arrived()
        &&& self.released() == o.released()
        &&& self.admitted() == o.admitted()
        &&& self.handed_out() == o.handed_out()
        &&& self.taken_back() == o.taken_back()
        &&& self.has_backoff() == o.has_backoff()
        &&& self.release_after() == o.release_after()
        &&& self.soft_cap() == o.soft_cap()
        &&& self.last_ok_consume() == o.last_ok_consume()
        &&& self.error() == o.error()
        &&& self.ended() == o.ended()
    }

    /// Records that the source failed, unless a failure is already recorded
    /// or was handed over.
    pub fn set_err(&mut self, err: E)
        requires
            old(self).wf(),
        ensures
            final(self).wf(),
            final(self).error() == (if old(self).failed() {
                old(self).error()
            } else {
                Some(err)
            }),
            final(self).pending() == old(self).pending(),
            final(self).admitted() == old(self).admitted(),
            final(self).handed_out() == old(self).handed_out(),
            final(self).taken_back() == old(self).taken_back(),
            final(self).arrived() == old(self).arrived(),
            final(self).released() == old(self).released(),
            final(self).has_backoff() == old(self).has_backoff(),
            final(self).release_after() == old(self).release_after(),
            final(self).soft_cap() == old(self).soft_cap(),
            final(self).last_ok_consume() == old(self).last_ok_consume(),
            final(self).next_backoff() == old(self).next_backoff(),
            final(self).ended() == old(self).ended(),
            final(self).backoff_steps() == old(self).backoff_steps(),
    {
        if self.err.is_none() && !self.ended {
            self.err = Some(err);
        }
    }

    /// Whether a batch is ready at time `now`, and why.
    pub fn is_ready(&self, now: u64) -> (r: Option<Reason>)
        ensures
            r == self.ready_at(now),
    {
        let elapsed = if now >= self.last_ok_consume {
            now - self.last_ok_consume
        } else {
            0
        };
        let failed = self.err.is_some() || self.ended;
        if self.buffer.len() == 0 {
            if failed {
                return Some(Reason::Term);
            }
            return None;
        }
        match self.next_backoff {
            Some(next_backoff) => {
                if elapsed < next_backoff {
                    return None;
                }
            },
            None => {},
        }
        if failed {
            return Some(Reason::Term);
        }
        if self.buffer.len() >= self.soft_cap {
            return Some(Reason::Size);
        }
        if elapsed >= self.release_after {
            return Some(Reason::Time);
        }
        None
    }

    /// Drains the pending items at time `now`, which becomes the time of the
    /// last release. The delay before the next release is left as it is.
    pub fn consume(&mut self, now: u64) -> (r: Consumed<T>)
        requires
            old(self).wf(),
        ensures
            final(self).wf(),
            final(self).drained_from(*old(self), now),
            final(self).error() == old(self).error(),
            final(self).ended() == old(self).ended(),
            r.items@ == old(self).pending(),
            r.elapsed == elapsed_since(old(self).last_ok_consume(), now),
    {
        let elapsed = if now >= self.last_ok_consume {
            now - self.last_ok_consume
        } else {
            0
        };
        self.last_ok_consume = now;
        let ghost p = self.buffer@;
        let mut items: Vec<T> = Vec::new();
        std::mem::swap(&mut self.buffer, &mut items);
        self.handed_out = Ghost(self.handed_out@.add(p.to_multiset()));
        self.released = Ghost(self.released@ + p);
        proof {
            assert(self.buffer@.to_multiset() =~= Multiset::<T>::empty());
            assert(self.released@ + self.buffer@ =~= self.released@);
            assert(self.admitted().add(self.taken_back()) =~= self.handed_out().add(
                self.pending().to_multiset(),
            ));
        }
        Consumed { elapsed, items }
    }


    /// One decision of the driver at time `now`. Where a batch is ready, the
    /// pending items are drained: they are handed out, or, where the source
    /// failed and nothing was pending, its error is, or, where it was handed
    /// over before, the end of the buffer is reported. Otherwise nothing changes,
    /// and the driver is told to receive one more item if one may be admitted,
    /// or else to wait.
    pub fn step(&mut self, now: u64) -> (r: Step<T, E>)
        requires
            old(self).wf(),
        ensures
            final(self).wf(),
            old(self).failed() ==> final(self).failed(),
            old(self).ready_at(now) is None ==> {
                &&& *final(self) == *old(self)
                &&& if old(self).admits() {
                    r is Receive
                } else {
                    r is Sleep
                }
            },
            old(self).ready_at(now) matches Some(reason) ==> {
                &&& final(self).drained_from(*old(self), now)
                &&& if reason == Reason::Term && old(self).pending().len() == 0 {
                    &&& if old(self).error() is Some {
                        r == Step::<T, E>::Failed(old(self).error()->0)
                    } else {
                        r is Ended
                    }
                    &&& final(self).error() is None
                    &&& final(self).ended()
                } else {
                    &&& r matches Step::Released(b) && b.reason == reason && b.items@
                        == old(self).pending() && b.elapsed == elapsed_since(
                        old(self).last_ok_consume(),
                        now,
                    )
                    &&& final(self).error() == old(self).error()
                    &&& final(self).ended() == old(self).ended()
                }
            },
    {
        match self.is_ready(now) {
            None => {
                if self.can_receive() {
                    Step::Receive
                } else {
                    Step::Sleep
                }
            },
            Some(reason) => {
                let consumed = self.consume(now);
                let terminal = match reason {
                    Reason::Term => consumed.items.len() == 0,
                    _ => false,
                };
                if terminal {
                    self.ended = true;
                    match self.err.take() {
                        Some(e) => Step::Failed(e),
                        None => Step::Ended,
                    }
                } else {
                    Step::Released(Released { reason, elapsed: consumed.elapsed, items: consumed.items })
                }
            },
        }
    }

}

impl<T> Released<T> {
    /// Hands the batch back after a failure: its items are pending again,
    /// after those that arrived meanwhile, and the backoff schedule advances.
    pub fn return_on_err<E>(self, state: &mut State<T, E>)
        requires
            old(state).wf(),
        ensures
            final(state).wf(),
            final(state).returned_from(*old(state), self.items@),
    {
        state.return_on_err(self.items);
    }

    /// Ends the batch as processed: the delay before the next release is
    /// cleared and the backoff schedule starts over.
    pub fn confirm<E>(&self, state: &mut State<T, E>)
        requires
            old(state).wf(),
        ensures
            final(state).wf(),
            final(state).next_backoff() is None,
            final(state).has_backoff() ==> final(state).backoff_steps() == 0,
            final(state).same_items_as(*old(state)),
    {
        state.confirm();
    }
}

} // verus!
