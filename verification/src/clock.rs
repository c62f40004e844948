//! Plain-value time: durations and points of a monotonic clock.
use vstd::prelude::*;

verus! {

/// The longest duration that can be expressed: all seconds that fit in 64 bits
/// and a last fraction, in nanoseconds.
pub const MAX_DURATION_NANOS: u128 = 18446744073709551615999999999;

/// The last point that the monotonic clock can express, in nanoseconds.
pub const MAX_INSTANT_NANOS: u128 = 9223372036854775807999999999;

/// Nanoseconds in one second.
pub const NANOS_PER_SEC: u128 = 1000000000;

/// A span of time.
#[derive(Clone, Copy, Debug, PartialEq, Eq, Structural)]
pub struct Duration {
    /// Length in nanoseconds.
    pub nanos: u128,
}

/// A point of the monotonic clock.
#[derive(Clone, Copy, Debug, PartialEq, Eq, Structural)]
pub struct Instant {
    /// Nanoseconds since the clock's origin.
    pub nanos: u128,
}

impl Duration {
    /// The span of `secs` seconds.
    pub fn from_secs(secs: u64) -> (duration: Self)
        ensures
            duration.nanos == secs * NANOS_PER_SEC,
    {
        Duration { nanos: secs as u128 * NANOS_PER_SEC }
    }

    /// The span of `millis` milliseconds.
    pub fn from_millis(millis: u64) -> (duration: Self)
        ensures
            duration.nanos == millis * 1000000,
    {
        Duration { nanos: millis as u128 * 1000000 }
    }

    /// The span of `nanos` nanoseconds.
    pub fn from_nanos(nanos: u64) -> (duration: Self)
        ensures
            duration.nanos == nanos,
    {
        Duration { nanos: nanos as u128 }
    }

    /// The longest span.
    pub fn max_value() -> (duration: Self)
        ensures
            duration.nanos == MAX_DURATION_NANOS,
    {
        Duration { nanos: MAX_DURATION_NANOS }
    }

    /// The empty span.
    pub fn zero() -> (duration: Self)
        ensures
            duration.nanos == 0,
    {
        Duration { nanos: 0 }
    }

    /// Whether the span is empty.
    pub fn is_zero(&self) -> (empty: bool)
        ensures
            empty == (self.nanos == 0),
    {
        self.nanos == 0
    }

    /// `factor` times the span, unless that is longer than the longest span.
    pub fn checked_mul(&self, factor: u32) -> (product: Option<Self>)
        ensures
            match product {
                Some(span) => span.nanos == self.nanos * factor
                    && self.nanos * factor <= MAX_DURATION_NANOS,
                None => self.nanos * factor > MAX_DURATION_NANOS,
            },
    {
        match self.nanos.checked_mul(factor as u128) {
            Some(nanos) => if nanos <= MAX_DURATION_NANOS {
                Some(Duration { nanos })
            } else {
                None
            },
            None => None,
        }
    }

    /// The shorter of two spans.
    pub fn shorter(&self, other: Self) -> (duration: Self)
        ensures
            duration.nanos == if self.nanos <= other.nanos {
                self.nanos
            } else {
                other.nanos
            },
    {
        if self.nanos <= other.nanos {
            *self
        } else {
            other
        }
    }

    /// The longer of two spans.
    pub fn longer(&self, other: Self) -> (duration: Self)
        ensures
            duration.nanos == if self.nanos >= other.nanos {
                self.nanos
            } else {
                other.nanos
            },
    {
        if self.nanos >= other.nanos {
            *self
        } else {
            other
        }
    }
}

impl Instant {
    /// The point `duration` later, if the clock can express it.
    pub open spec fn plus(self, duration: Duration) -> Option<Instant> {
        if self.nanos + duration.nanos <= MAX_INSTANT_NANOS {
            Some(Instant { nanos: (self.nanos + duration.nanos) as u128 })
        } else {
            None
        }
    }

    /// The point `duration` earlier, if the clock can express it.
    pub open spec fn minus(self, duration: Duration) -> Option<Instant> {
        if self.nanos >= duration.nanos {
            Some(Instant { nanos: (self.nanos - duration.nanos) as u128 })
        } else {
            None
        }
    }

    /// The point `duration` later, if the clock can express it.
    pub fn checked_add(&self, duration: Duration) -> (later: Option<Instant>)
        ensures
            later == self.plus(duration),
    {
        match self.nanos.checked_add(duration.nanos) {
            Some(nanos) => if nanos <= MAX_INSTANT_NANOS {
                Some(Instant { nanos })
            } else {
                None
            },
            None => None,
        }
    }

    /// The point `duration` earlier, if the clock can express it.
    pub fn checked_sub(&self, duration: Duration) -> (earlier: Option<Instant>)
        ensures
            earlier == self.minus(duration),
    {
        if self.nanos >= duration.nanos {
            Some(Instant { nanos: self.nanos - duration.nanos })
        } else {
            None
        }
    }

    /// The span from an earlier point to this one; empty if that point is later.
    pub fn since(&self, earlier: Instant) -> (elapsed: Duration)
        ensures
            elapsed.nanos == if self.nanos >= earlier.nanos {
                self.nanos - earlier.nanos
            } else {
                0
            },
    {
        if self.nanos >= earlier.nanos {
            Duration { nanos: self.nanos - earlier.nanos }
        } else {
            Duration { nanos: 0 }
        }
    }

    /// Whether this point is at or after `deadline`.
    pub open spec fn reached(self, deadline: Instant) -> bool {
        self.nanos >= deadline.nanos
    }

    /// Whether this point is at or after `deadline`.
    pub fn has_reached(&self, deadline: Instant) -> (reached: bool)
        ensures
            reached == self.reached(deadline),
    {
        self.nanos >= deadline.nanos
    }
}

/// Whether an optional deadline lies at or before `now`.
pub open spec fn deadline_passed(now: Instant, deadline: Option<Instant>) -> bool {
    deadline matches Some(point) && now.reached(point)
}

/// Whether an optional deadline lies at or before `now`.
pub fn is_past(now: Instant, deadline: Option<Instant>) -> (past: bool)
    ensures
        past == deadline_passed(now, deadline),
{
    match deadline {
        Some(point) => now.has_reached(point),
        None => false,
    }
}

/// Whether a deadline `duration` after `now` can be expressed.
pub fn duration_fits_instant(now: Instant, duration: Duration) -> (fits: bool)
    ensures
        fits == now.plus(duration) is Some,
{
    now.checked_add(duration).is_some()
}

/// Going forward and back by the same span ends where it began, a later point is
/// never earlier, and only what lies beyond the last point cannot be expressed.
pub proof fn points_and_spans_add_up(point: Instant, span: Duration)
    ensures
        point.plus(span) is Some <==> point.nanos + span.nanos <= 9223372036854775807999999999,
        point.plus(span) matches Some(later) ==> {
            &&& later.nanos - point.nanos == span.nanos
            &&& later.minus(span) == Some(point)
            &&& later.reached(point)
            &&& span.nanos > 0 ==> !point.reached(later)
        },
        point.minus(span) is Some <==> point.nanos >= span.nanos,
        point.minus(span) matches Some(earlier) ==> point.nanos - earlier.nanos == span.nanos,
        point.reached(point),
{
}

/// A deadline passes once, at its point, and one that was never set does not.
pub proof fn deadlines_pass_at_their_point(now: Instant, later: Instant, deadline: Instant)
    requires
        now.nanos <= later.nanos,
    ensures
        !deadline_passed(now, None),
        deadline_passed(now, Some(deadline)) <==> now.nanos >= deadline.nanos,
        deadline_passed(now, Some(deadline)) ==> deadline_passed(later, Some(deadline)),
{
}

} // verus!
