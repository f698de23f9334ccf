//! The exponential backoff schedule of the `backoff` crate, as the release
//! state sees it: each step yields a delay or nothing, and a reset starts the
//! schedule over. A schedule is admitted only with settings small enough that
//! its steps cannot overflow a `Duration`.

use vstd::prelude::*;
use backoff::backoff::Backoff;

verus! {

#[verifier::external_type_specification]
#[verifier::external_body]
#[verifier::reject_recursive_types(C)]
pub struct ExExponentialBackoff<C>(backoff::exponential::ExponentialBackoff<C>);

#[verifier::external_type_specification]
#[verifier::external_body]
pub struct ExSystemClock(backoff::SystemClock);

/// The largest interval or time budget admitted, in nanoseconds (about 31
/// years): twice this plus the time a process runs stays far below the
/// largest `Duration`.
pub const INTERVAL_LIMIT: u128 = 1_000_000_000_000_000_000;

/// The bit pattern of the floating-point value 1.0.
pub const ONE_BITS: u64 = 0x3FF0_0000_0000_0000;

/// The settings of a schedule as plain values: intervals and budget in
/// nanoseconds, and the bit pattern of the randomization factor.
pub struct ScheduleLimits {
    pub current_interval: u128,
    pub initial_interval: u128,
    pub max_interval: u128,
    pub max_elapsed_time: Option<u128>,
    pub randomization_bits: u64,
}

impl ScheduleLimits {
    /// Every interval and the budget are at most `INTERVAL_LIMIT`, and the
    /// randomization factor lies in [0, 1]: a non-negative float orders as
    /// its bit pattern, and 1.0 is the largest admitted.
    pub open spec fn within(&self) -> bool {
        &&& self.current_interval <= INTERVAL_LIMIT
        &&& self.initial_interval <= INTERVAL_LIMIT
        &&& self.max_interval <= INTERVAL_LIMIT
        &&& (self.max_elapsed_time matches Some(t) ==> t <= INTERVAL_LIMIT)
        &&& self.randomization_bits <= ONE_BITS
    }

    /// Whether a schedule with these settings is admitted.
    pub fn admissible(&self) -> (r: bool)
        ensures
            r == self.within(),
    {
        let budget_ok = match self.max_elapsed_time {
            Some(t) => t <= INTERVAL_LIMIT,
            None => true,
        };
        self.current_interval <= INTERVAL_LIMIT && self.initial_interval <= INTERVAL_LIMIT
            && self.max_interval <= INTERVAL_LIMIT && budget_ok && self.randomization_bits
            <= ONE_BITS
    }
}

/// Relies on the public fields of `backoff::ExponentialBackoff`, read with
/// `Duration::as_nanos` and `f64::to_bits`: the schedule's settings.
#[verifier::external_body]
fn limits_of(b: &backoff::ExponentialBackoff) -> (r: ScheduleLimits) {
    ScheduleLimits {
        current_interval: b.current_interval.as_nanos(),
        initial_interval: b.initial_interval.as_nanos(),
        max_interval: b.max_interval.as_nanos(),
        max_elapsed_time: b.max_elapsed_time.map(|t| t.as_nanos()),
        randomization_bits: b.randomization_factor.to_bits(),
    }
}

/// A backoff schedule whose settings were checked, with the number of steps
/// taken since it was built or last reset.
pub struct Schedule {
    inner: backoff::ExponentialBackoff,
    steps: Ghost<nat>,
}

impl Schedule {
    /// Steps taken since the schedule was built or last reset.
    pub closed spec fn steps(&self) -> nat {
        self.steps@
    }

    /// The schedule `b`, if its settings are admitted (see `ScheduleLimits`).
    pub fn new(b: backoff::ExponentialBackoff) -> (r: Option<Schedule>)
        ensures
            r matches Some(s) ==> s.steps() == 0,
    {
        let limits = limits_of(&b);
        if limits.admissible() {
            Some(Schedule { inner: b, steps: Ghost(0) })
        } else {
            None
        }
    }
}

/// Relies on `backoff::ExponentialBackoff::next_backoff`: the next delay of
/// the schedule, which advances it by one step, or nothing once the time
/// budget is spent, checked before and after the step is taken. The delay is
/// randomized and the budget read from the clock, so no more is stated of it.
/// With admitted settings no `Duration` sum in it overflows. A delay longer
/// than `u64::MAX` nanoseconds is cut to that value.
#[verifier::external_body]
pub(crate) fn next_step(s: &mut Schedule) -> (r: Option<u64>)
    ensures
        r is Some ==> final(s).steps() == old(s).steps() + 1,
        r is None ==> final(s).steps() == old(s).steps() || final(s).steps() == old(s).steps()
            + 1,
{
    s.inner.next_backoff().map(|d| u64::try_from(d.as_nanos()).unwrap_or(u64::MAX))
}

/// Relies on `backoff::ExponentialBackoff::reset`: the schedule starts over at
/// its initial interval, with its time budget counted from now.
#[verifier::external_body]
pub(crate) fn reset(s: &mut Schedule)
    ensures
        final(s).steps() == 0,
{
    s.inner.reset()
}

} // verus!
