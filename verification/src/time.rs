//! Spans of time and points in time, as plain counts of nanoseconds.

use vstd::prelude::*;

verus! {

/// Nanoseconds in a second.
pub const NANOS_PER_SEC: u128 = 1_000_000_000;

/// Nanoseconds in a millisecond.
pub const NANOS_PER_MILLI: u128 = 1_000_000;

/// A span of time.
#[derive(Debug, Clone, Copy, PartialEq, Eq, Structural)]
pub struct Duration {
    /// Length in nanoseconds.
    pub nanos: u128,
}

/// A point in time, counted from a moment that the caller picks.
#[derive(Debug, Clone, Copy, PartialEq, Eq, Structural)]
pub struct Instant {
    /// Nanoseconds since the caller's moment.
    pub nanos: u128,
}

impl Duration {
    /// The span of no time at all.
    pub fn zero() -> (span: Duration)
        ensures
            span.nanos == 0,
    {
        Duration { nanos: 0 }
    }

    /// A span of whole seconds.
    pub fn from_secs(secs: u64) -> (span: Duration)
        ensures
            span.nanos == secs * NANOS_PER_SEC,
            span.nanos == secs * 1_000_000_000,
    {
        Duration { nanos: secs as u128 * NANOS_PER_SEC }
    }

    /// A span of whole milliseconds.
    pub fn from_millis(millis: u64) -> (span: Duration)
        ensures
            span.nanos == millis * NANOS_PER_MILLI,
            span.nanos == millis * 1_000_000,
    {
        Duration { nanos: millis as u128 * NANOS_PER_MILLI }
    }

    /// Whether the span is no time at all.
    pub fn is_zero(&self) -> (zero: bool)
        ensures
            zero == (self.nanos == 0),
    {
        self.nanos == 0
    }
}

impl Instant {
    /// The point in time `nanos` nanoseconds after the caller's moment.
    pub fn from_nanos(nanos: u128) -> (instant: Instant)
        ensures
            instant.nanos == nanos,
    {
        Instant { nanos }
    }

    /// Whether a span after this point can be counted.
    pub open spec fn can_add(self, span: Duration) -> bool {
        self.nanos + span.nanos <= u128::MAX
    }

    /// The point in time `span` after this one.
    pub open spec fn spec_plus(self, span: Duration) -> Instant {
        Instant { nanos: (self.nanos + span.nanos) as u128 }
    }

    /// The point in time `span` after this one.
    pub fn plus(self, span: Duration) -> (later: Instant)
        requires
            self.can_add(span),
        ensures
            later == self.spec_plus(span),
    {
        Instant { nanos: self.nanos + span.nanos }
    }

    /// Whether this point is `deadline` or later.
    pub open spec fn spec_reached(self, deadline: Instant) -> bool {
        deadline.nanos <= self.nanos
    }

    /// Whether this point is `deadline` or later.
    pub fn reached(self, deadline: Instant) -> (reached: bool)
        ensures
            reached == self.spec_reached(deadline),
    {
        deadline.nanos <= self.nanos
    }
}

/// A point in time after a span is exactly that span later, whatever else there is,
/// and the sum of two spans is reached by adding one after the other.
pub proof fn spans_add_up(at: Instant, first: Duration, second: Duration)
    requires
        at.nanos + first.nanos + second.nanos <= u128::MAX,
    ensures
        at.can_add(first),
        at.spec_plus(first).nanos == at.nanos + first.nanos,
        at.spec_plus(first).can_add(second),
        at.spec_plus(first).spec_plus(second).nanos == at.nanos + first.nanos + second.nanos,
{
}

/// A span can be counted as long as the sum is one that the clock can show.
pub proof fn countable_spans(at: Instant, span: Duration)
    ensures
        at.can_add(span) <==> at.nanos + span.nanos <= u128::MAX,
{
}

/// A deadline is reached from the very instant of it on, and not before.
pub proof fn deadlines_are_reached_on_time(now: Instant, deadline: Instant)
    ensures
        now.spec_reached(deadline) <==> now.nanos >= deadline.nanos,
{
}

} // verus!
