//! Spans of monotonic time with the range of the standard library's duration.

use vstd::prelude::*;

verus! {

/// Nanoseconds in one second.
pub const NANOS_PER_SECOND: u128 = 1_000_000_000;

/// The longest representable span: `u64::MAX` seconds and 999,999,999 ns.
pub const MAX_NANOS: u128 = 18_446_744_073_709_551_615_999_999_999;

/// A reading of, or a distance on, one monotonic clock, in whole nanoseconds.
#[derive(Clone, Copy, Debug, PartialEq, Eq, Structural)]
pub struct Duration {
    pub nanos: u128,
}

impl Duration {
    /// The span of `seconds` whole seconds.
    pub open spec fn of_seconds(seconds: u64) -> Duration {
        Duration { nanos: (seconds * 1_000_000_000) as u128 }
    }

    /// Whole seconds.
    pub fn from_secs(seconds: u64) -> (r: Duration)
        ensures
            r == Duration::of_seconds(seconds),
            r.nanos == seconds * 1_000_000_000,
            r.nanos <= MAX_NANOS,
    {
        Duration { nanos: (seconds as u128) * NANOS_PER_SECOND }
    }

    /// Whole milliseconds.
    pub fn from_millis(milliseconds: u64) -> (r: Duration)
        ensures
            r.nanos == milliseconds * 1_000_000,
            r.nanos <= MAX_NANOS,
    {
        Duration { nanos: (milliseconds as u128) * 1_000_000 }
    }

    /// Whole nanoseconds.
    pub fn from_nanos(nanoseconds: u64) -> (r: Duration)
        ensures
            r.nanos == nanoseconds,
            r.nanos <= MAX_NANOS,
    {
        Duration { nanos: nanoseconds as u128 }
    }

    /// Seconds and the nanoseconds beyond them, if the second part is below one
    /// second.
    pub fn from_parts(seconds: u64, subsecond_nanos: u32) -> (r: Option<Duration>)
        ensures
            r is Some <==> subsecond_nanos < 1_000_000_000,
            r matches Some(span) ==> span.nanos == seconds * 1_000_000_000 + subsecond_nanos
                && span.nanos <= MAX_NANOS,
    {
        if subsecond_nanos < 1_000_000_000 {
            Some(Duration { nanos: (seconds as u128) * NANOS_PER_SECOND + (subsecond_nanos as u128) })
        } else {
            None
        }
    }

    /// The longest representable span.
    pub fn max() -> (r: Duration)
        ensures
            r.nanos == MAX_NANOS,
    {
        Duration { nanos: MAX_NANOS }
    }

    /// The empty span.
    pub fn zero() -> (r: Duration)
        ensures
            r.nanos == 0,
    {
        Duration { nanos: 0 }
    }

    /// Whether the span is empty.
    pub fn is_zero(self) -> (r: bool)
        ensures
            r == (self.nanos == 0),
    {
        self.nanos == 0
    }

    /// Whether this span is at least as long as `other`.
    pub fn at_least(self, other: Duration) -> (r: bool)
        ensures
            r == (self.nanos >= other.nanos),
    {
        self.nanos >= other.nanos
    }

    /// The sum, where it is representable.
    pub fn checked_add(self, other: Duration) -> (r: Option<Duration>)
        ensures
            r is Some <==> self.nanos + other.nanos <= MAX_NANOS,
            r matches Some(sum) ==> sum.nanos == self.nanos + other.nanos,
    {
        match self.nanos.checked_add(other.nanos) {
            Some(nanos) => if nanos <= MAX_NANOS {
                Some(Duration { nanos })
            } else {
                None
            },
            None => None,
        }
    }

    /// The sum, or the longest span where it would be longer.
    pub open spec fn plus(self, other: Duration) -> Duration {
        if self.nanos + other.nanos <= MAX_NANOS {
            Duration { nanos: (self.nanos + other.nanos) as u128 }
        } else {
            Duration { nanos: MAX_NANOS }
        }
    }

    /// The sum, or the longest span where it would be longer.
    pub fn saturating_add(self, other: Duration) -> (r: Duration)
        ensures
            r == self.plus(other),
    {
        match self.checked_add(other) {
            Some(sum) => sum,
            None => Duration { nanos: MAX_NANOS },
        }
    }

    /// The difference, where it is not negative.
    pub fn checked_sub(self, other: Duration) -> (r: Option<Duration>)
        ensures
            r is Some <==> other.nanos <= self.nanos,
            r matches Some(rest) ==> rest.nanos == self.nanos - other.nanos,
    {
        if other.nanos <= self.nanos {
            Some(Duration { nanos: self.nanos - other.nanos })
        } else {
            None
        }
    }

    /// The difference, or the empty span where it would be negative.
    pub fn saturating_sub(self, other: Duration) -> (r: Duration)
        ensures
            r.nanos == if other.nanos <= self.nanos {
                self.nanos - other.nanos
            } else {
                0
            },
    {
        if other.nanos <= self.nanos {
            Duration { nanos: self.nanos - other.nanos }
        } else {
            Duration { nanos: 0 }
        }
    }

    /// The shorter of the two spans.
    pub fn shorter(self, other: Duration) -> (r: Duration)
        ensures
            r == if self.nanos <= other.nanos {
                self
            } else {
                other
            },
    {
        if self.nanos <= other.nanos {
            self
        } else {
            other
        }
    }
}

} // verus!
