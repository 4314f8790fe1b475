//! The ordered scale of time units, each with the span of exactly one unit.
use vstd::prelude::*;

use crate::duration::Duration;

verus! {

/// Seconds in the average Gregorian month; a year is twelve of them.
pub const S_IN_MNTH: u64 = 2_628_003;

/// Units of time, from the smallest to the largest. Months and years have a
/// fixed average length, not a calendar one.
#[derive(Debug, Clone, Copy, PartialEq, Eq, Structural, PartialOrd, Ord, Hash)]
pub enum TimeUnit {
    Nanoseconds,
    Microseconds,
    Milliseconds,
    Seconds,
    Minutes,
    Hours,
    Days,
    Weeks,
    Months,
    Years,
}

impl TimeUnit {
    /// Position of the unit in the scale, the smallest being 0.
    pub open spec fn rank(self) -> nat {
        match self {
            TimeUnit::Nanoseconds => 0,
            TimeUnit::Microseconds => 1,
            TimeUnit::Milliseconds => 2,
            TimeUnit::Seconds => 3,
            TimeUnit::Minutes => 4,
            TimeUnit::Hours => 5,
            TimeUnit::Days => 6,
            TimeUnit::Weeks => 7,
            TimeUnit::Months => 8,
            TimeUnit::Years => 9,
        }
    }

    /// The span of exactly one unit.
    pub open spec fn unit_span(self) -> Duration {
        match self {
            TimeUnit::Nanoseconds => Duration { secs: 0, nanos: 1 },
            TimeUnit::Microseconds => Duration { secs: 0, nanos: 1000 },
            TimeUnit::Milliseconds => Duration { secs: 0, nanos: 1_000_000 },
            TimeUnit::Seconds => Duration { secs: 1, nanos: 0 },
            TimeUnit::Minutes => Duration { secs: 60, nanos: 0 },
            TimeUnit::Hours => Duration { secs: 3600, nanos: 0 },
            TimeUnit::Days => Duration { secs: 86400, nanos: 0 },
            TimeUnit::Weeks => Duration { secs: 604800, nanos: 0 },
            TimeUnit::Months => Duration { secs: S_IN_MNTH, nanos: 0 },
            TimeUnit::Years => Duration { secs: (S_IN_MNTH * 12) as u64, nanos: 0 },
        }
    }

    /// The span of one unit, in nanoseconds.
    pub open spec fn threshold(self) -> nat {
        self.unit_span().total()
    }

    /// The next larger unit, if any.
    pub open spec fn bigger(self) -> Option<TimeUnit> {
        match self {
            TimeUnit::Nanoseconds => Some(TimeUnit::Microseconds),
            TimeUnit::Microseconds => Some(TimeUnit::Milliseconds),
            TimeUnit::Milliseconds => Some(TimeUnit::Seconds),
            TimeUnit::Seconds => Some(TimeUnit::Minutes),
            TimeUnit::Minutes => Some(TimeUnit::Hours),
            TimeUnit::Hours => Some(TimeUnit::Days),
            TimeUnit::Days => Some(TimeUnit::Weeks),
            TimeUnit::Weeks => Some(TimeUnit::Months),
            TimeUnit::Months => Some(TimeUnit::Years),
            TimeUnit::Years => None,
        }
    }

    /// The next smaller unit, if any.
    pub open spec fn smaller(self) -> Option<TimeUnit> {
        match self {
            TimeUnit::Nanoseconds => None,
            TimeUnit::Microseconds => Some(TimeUnit::Nanoseconds),
            TimeUnit::Milliseconds => Some(TimeUnit::Microseconds),
            TimeUnit::Seconds => Some(TimeUnit::Milliseconds),
            TimeUnit::Minutes => Some(TimeUnit::Seconds),
            TimeUnit::Hours => Some(TimeUnit::Minutes),
            TimeUnit::Days => Some(TimeUnit::Hours),
            TimeUnit::Weeks => Some(TimeUnit::Days),
            TimeUnit::Months => Some(TimeUnit::Weeks),
            TimeUnit::Years => Some(TimeUnit::Months),
        }
    }

    /// The span of one unit: the shortest span that this unit can show as a
    /// count of 1.
    pub fn min_duration(&self) -> (r: Duration)
        ensures
            r == self.unit_span(),
            r.wf(),
    {
        match *self {
            TimeUnit::Nanoseconds => Duration { secs: 0, nanos: 1 },
            TimeUnit::Microseconds => Duration { secs: 0, nanos: 1000 },
            TimeUnit::Milliseconds => Duration { secs: 0, nanos: 1_000_000 },
            TimeUnit::Seconds => Duration { secs: 1, nanos: 0 },
            TimeUnit::Minutes => Duration { secs: 60, nanos: 0 },
            TimeUnit::Hours => Duration { secs: 60 * 60, nanos: 0 },
            TimeUnit::Days => Duration { secs: 24 * 60 * 60, nanos: 0 },
            TimeUnit::Weeks => Duration { secs: 7 * 24 * 60 * 60, nanos: 0 },
            TimeUnit::Months => Duration { secs: S_IN_MNTH, nanos: 0 },
            TimeUnit::Years => Duration { secs: S_IN_MNTH * 12, nanos: 0 },
        }
    }

    /// The next larger unit ("upgrades" minutes to hours), or `None` for years.
    pub fn bigger_unit(&self) -> (r: Option<TimeUnit>)
        ensures
            r == self.bigger(),
    {
        match *self {
            TimeUnit::Nanoseconds => Some(TimeUnit::Microseconds),
            TimeUnit::Microseconds => Some(TimeUnit::Milliseconds),
            TimeUnit::Milliseconds => Some(TimeUnit::Seconds),
            TimeUnit::Seconds => Some(TimeUnit::Minutes),
            TimeUnit::Minutes => Some(TimeUnit::Hours),
            TimeUnit::Hours => Some(TimeUnit::Days),
            TimeUnit::Days => Some(TimeUnit::Weeks),
            TimeUnit::Weeks => Some(TimeUnit::Months),
            TimeUnit::Months => Some(TimeUnit::Years),
            TimeUnit::Years => None,
        }
    }

    /// The next smaller unit ("downgrades" weeks to days), or `None` for
    /// nanoseconds.
    pub fn smaller_unit(&self) -> (r: Option<TimeUnit>)
        ensures
            r == self.smaller(),
    {
        match *self {
            TimeUnit::Nanoseconds => None,
            TimeUnit::Microseconds => Some(TimeUnit::Nanoseconds),
            TimeUnit::Milliseconds => Some(TimeUnit::Microseconds),
            TimeUnit::Seconds => Some(TimeUnit::Milliseconds),
            TimeUnit::Minutes => Some(TimeUnit::Seconds),
            TimeUnit::Hours => Some(TimeUnit::Minutes),
            TimeUnit::Days => Some(TimeUnit::Hours),
            TimeUnit::Weeks => Some(TimeUnit::Days),
            TimeUnit::Months => Some(TimeUnit::Weeks),
            TimeUnit::Years => Some(TimeUnit::Months),
        }
    }

    /// The position of the unit in the scale.
    pub fn ordinal(&self) -> (r: u8)
        ensures
            r as nat == self.rank(),
    {
        match *self {
            TimeUnit::Nanoseconds => 0,
            TimeUnit::Microseconds => 1,
            TimeUnit::Milliseconds => 2,
            TimeUnit::Seconds => 3,
            TimeUnit::Minutes => 4,
            TimeUnit::Hours => 5,
            TimeUnit::Days => 6,
            TimeUnit::Weeks => 7,
            TimeUnit::Months => 8,
            TimeUnit::Years => 9,
        }
    }
}

/// Units are told apart by their rank.
pub proof fn lemma_rank_injective(a: TimeUnit, b: TimeUnit)
    ensures
        a.rank() == b.rank() <==> a == b,
{
}

/// Stepping up or down the scale moves the rank by exactly one, and each
/// unit's span is shorter than the next larger one's.
pub proof fn lemma_scale_steps(u: TimeUnit)
    ensures
        u.bigger() matches Some(v) ==> v.rank() == u.rank() + 1 && u.threshold() < v.threshold(),
        u.smaller() matches Some(v) ==> v.rank() + 1 == u.rank() && v.threshold() < u.threshold(),
        u.bigger() is None <==> u.rank() == 9,
        u.smaller() is None <==> u.rank() == 0,
        u.unit_span().wf(),
        u.threshold() > 0,
{
}

/// The largest unit whose span is at most `n` nanoseconds; nanoseconds when
/// `n` is shorter than every unit.
pub open spec fn dominant_unit(n: nat) -> TimeUnit {
    if n < TimeUnit::Microseconds.threshold() {
        TimeUnit::Nanoseconds
    } else if n < TimeUnit::Milliseconds.threshold() {
        TimeUnit::Microseconds
    } else if n < TimeUnit::Seconds.threshold() {
        TimeUnit::Milliseconds
    } else if n < TimeUnit::Minutes.threshold() {
        TimeUnit::Seconds
    } else if n < TimeUnit::Hours.threshold() {
        TimeUnit::Minutes
    } else if n < TimeUnit::Days.threshold() {
        TimeUnit::Hours
    } else if n < TimeUnit::Weeks.threshold() {
        TimeUnit::Days
    } else if n < TimeUnit::Months.threshold() {
        TimeUnit::Weeks
    } else if n < TimeUnit::Years.threshold() {
        TimeUnit::Months
    } else {
        TimeUnit::Years
    }
}

/// A longer span never has a smaller dominant unit.
pub proof fn lemma_dominant_monotone(d1: Duration, d2: Duration)
    requires
        d1.total() <= d2.total(),
    ensures
        dominant_unit(d1.total()).rank() <= dominant_unit(d2.total()).rank(),
{
}

/// The natural unit for a span: the largest one whose span does not exceed it.
pub fn dominant_time_unit(d: Duration) -> (r: TimeUnit)
    requires
        d.wf(),
    ensures
        r == dominant_unit(d.total()),
        r.threshold() <= d.total() || r == TimeUnit::Nanoseconds,
        forall|u: TimeUnit| u.rank() > r.rank() ==> d.total() < u.threshold(),
{
    if TimeUnit::Microseconds.min_duration().exceeds(&d) {
        TimeUnit::Nanoseconds
    } else if TimeUnit::Milliseconds.min_duration().exceeds(&d) {
        TimeUnit::Microseconds
    } else if TimeUnit::Seconds.min_duration().exceeds(&d) {
        TimeUnit::Milliseconds
    } else if TimeUnit::Minutes.min_duration().exceeds(&d) {
        TimeUnit::Seconds
    } else if TimeUnit::Hours.min_duration().exceeds(&d) {
        TimeUnit::Minutes
    } else if TimeUnit::Days.min_duration().exceeds(&d) {
        TimeUnit::Hours
    } else if TimeUnit::Weeks.min_duration().exceeds(&d) {
        TimeUnit::Days
    } else if TimeUnit::Months.min_duration().exceeds(&d) {
        TimeUnit::Weeks
    } else if TimeUnit::Years.min_duration().exceeds(&d) {
        TimeUnit::Months
    } else {
        TimeUnit::Years
    }
}

} // verus!
