//! Time: readings of a monotonic clock, and the whole nanoseconds between them.

use vstd::prelude::*;

use std::time::Duration;

verus! {

/// The monotonic instant of the `tokio` runtime.
#[verifier::external_type_specification]
#[verifier::external_body]
pub struct ExInstant(tokio::time::Instant);

/// The nanoseconds that a duration holds.
pub uninterp spec fn total_nanos(duration: Duration) -> u128;

/// `Duration::as_nanos` hands out the total number of nanoseconds of the duration: the same
/// number for equal durations.
pub assume_specification[ Duration::as_nanos ](duration: &Duration) -> (nanos: u128)
    ensures
        nanos == total_nanos(*duration),
;

/// `tokio::time::Instant::now`: an instant that stands for now. Nothing is claimed of it.
#[verifier::external_body]
fn instant_now() -> (instant: tokio::time::Instant) {
    tokio::time::Instant::now()
}

/// The time from one instant to another.
pub uninterp spec fn time_between(
    earlier: tokio::time::Instant,
    later: tokio::time::Instant,
) -> Duration;

/// `tokio::time::Instant::duration_since` hands out the time from another instant to this one,
/// which depends on the two instants alone.
pub assume_specification[ tokio::time::Instant::duration_since ](
    later: &tokio::time::Instant,
    earlier: tokio::time::Instant,
) -> (elapsed: Duration)
    ensures
        elapsed == time_between(earlier, *later),
;

/// A reading of a clock, in nanoseconds since the clock was made.
#[derive(Clone, Copy, Debug, PartialEq, Eq, Structural)]
pub struct Moment {
    pub nanos: u128,
}

/// A clock that counts from the moment it was made.
#[derive(Clone, Copy, Debug)]
pub struct Clock {
    origin: tokio::time::Instant,
}

impl Clock {
    /// The instant from which the clock counts.
    pub closed spec fn origin(self) -> tokio::time::Instant {
        self.origin
    }

    /// What the clock shows at an instant: the nanoseconds since its origin.
    pub open spec fn shows(self, instant: tokio::time::Instant) -> Moment {
        Moment { nanos: total_nanos(time_between(self.origin(), instant)) }
    }

    /// A clock that starts now. Which instant that is depends on the time of the call.
    pub fn new() -> (clock: Clock) {
        Clock::starting_at(instant_now())
    }

    /// A clock that starts at this instant.
    pub fn starting_at(origin: tokio::time::Instant) -> (clock: Clock)
        ensures
            clock.origin() == origin,
    {
        Clock { origin }
    }

    /// Reads the clock. Which instant it is read at depends on the time of the call.
    pub fn now(&self) -> (moment: Moment)
        ensures
            exists|instant: tokio::time::Instant| moment == #[trigger] self.shows(instant),
    {
        let instant = instant_now();
        self.moment_at(instant)
    }

    /// What the clock shows at this instant.
    pub fn moment_at(&self, instant: tokio::time::Instant) -> (moment: Moment)
        ensures
            moment == self.shows(instant),
    {
        Moment { nanos: instant.duration_since(self.origin).as_nanos() }
    }
}

/// A number of nanoseconds as samples report it: what does not fit in 64 bits reads as the
/// largest number.
pub open spec fn reported_nanos(nanos: u128) -> u64 {
    if nanos > u64::MAX {
        u64::MAX
    } else {
        nanos as u64
    }
}

/// The nanoseconds of a duration, at most `u64::MAX`.
pub fn duration_nanos(duration: Duration) -> (nanos: u64)
    ensures
        nanos == reported_nanos(total_nanos(duration)),
{
    clamp_nanos(duration.as_nanos())
}

/// The nanoseconds from one moment to another: none where the second is not later.
pub open spec fn nanos_between(earlier: Moment, later: Moment) -> u64 {
    if later.nanos <= earlier.nanos {
        0
    } else {
        reported_nanos((later.nanos - earlier.nanos) as u128)
    }
}

/// The length of a closed interval: its nanoseconds, and at least 1, so that a phase that was
/// reached never reads as one that was not.
pub open spec fn interval_nanos(earlier: Moment, later: Moment) -> u64 {
    if nanos_between(earlier, later) == 0 {
        1
    } else {
        nanos_between(earlier, later)
    }
}

fn clamp_nanos(nanos: u128) -> (clamped: u64)
    ensures
        clamped == reported_nanos(nanos),
{
    if nanos > u64::MAX as u128 {
        u64::MAX
    } else {
        nanos as u64
    }
}

/// Measures a closed interval.
pub fn measure_interval(earlier: Moment, later: Moment) -> (nanos: u64)
    ensures
        nanos == interval_nanos(earlier, later),
        nanos >= 1,
{
    let nanos = if later.nanos <= earlier.nanos {
        0
    } else {
        clamp_nanos(later.nanos - earlier.nanos)
    };
    if nanos == 0 {
        1
    } else {
        nanos
    }
}

/// A later end gives no shorter interval.
pub proof fn law_intervals_grow(start: Moment, end: Moment, later_end: Moment)
    requires
        end.nanos <= later_end.nanos,
    ensures
        1 <= interval_nanos(start, end) <= interval_nanos(start, later_end),
{
}

/// An interval is as long as its end is after its start: at least 1, and at most the largest number
/// of 64 bits.
pub proof fn law_interval_is_the_difference(start: Moment, end: Moment)
    ensures
        1 <= end.nanos - start.nanos <= u64::MAX ==> interval_nanos(start, end) == end.nanos
            - start.nanos,
        end.nanos - start.nanos > u64::MAX ==> interval_nanos(start, end) == u64::MAX,
        end.nanos <= start.nanos ==> interval_nanos(start, end) == 1,
{
}

/// Nanoseconds are reported as they are, as far as 64 bits hold them.
pub proof fn law_nanos_are_reported_as_they_are(nanos: u128)
    ensures
        nanos <= u64::MAX ==> reported_nanos(nanos) == nanos,
        nanos > u64::MAX ==> reported_nanos(nanos) == u64::MAX,
{
}

/// A clock counts the nanoseconds from its origin.
pub proof fn law_clock_counts_from_its_origin(clock: Clock, instant: tokio::time::Instant)
    ensures
        clock.shows(instant).nanos == total_nanos(time_between(clock.origin(), instant)),
{
}

} // verus!
