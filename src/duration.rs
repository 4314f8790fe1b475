//! An exact, non-negative span of time: whole seconds plus a sub-second
//! count of nanoseconds.
use vstd::prelude::*;

verus! {

/// Nanoseconds in one second.
pub const NANOS_PER_SEC: u32 = 1_000_000_000;

/// An elapsed time span, kept as whole seconds and the nanoseconds left over.
///
/// A well-formed value (see [`Duration::wf`]) holds fewer than one second's
/// worth of nanoseconds in `nanos`; every constructor here yields one.
#[derive(Debug, Clone, Copy, PartialEq, Eq, Structural, PartialOrd, Ord, Hash)]
pub struct Duration {
    pub secs: u64,
    pub nanos: u32,
}

/// The duration that holds exactly `n` nanoseconds.
pub open spec fn duration_of_nanos(n: nat) -> Duration {
    Duration { secs: (n / NANOS_PER_SEC as nat) as u64, nanos: (n % NANOS_PER_SEC as nat) as u32 }
}

impl Duration {
    /// The nanosecond part is below one second.
    pub open spec fn wf(self) -> bool {
        self.nanos < NANOS_PER_SEC
    }

    /// The whole span in nanoseconds.
    pub open spec fn total(self) -> nat {
        (self.secs as nat) * (NANOS_PER_SEC as nat) + self.nanos as nat
    }

    /// A span of `secs` seconds plus `nanos` nanoseconds; nanoseconds beyond
    /// one second carry into the seconds.
    pub fn new(secs: u64, nanos: u32) -> (r: Duration)
        requires
            secs as nat + nanos as nat / (NANOS_PER_SEC as nat) <= u64::MAX,
        ensures
            r.wf(),
            r.total() == secs as nat * NANOS_PER_SEC as nat + nanos as nat,
    {
        let extra = (nanos / NANOS_PER_SEC) as u64;
        let r = Duration { secs: secs + extra, nanos: nanos % NANOS_PER_SEC };
        assert(nanos as nat == extra as nat * NANOS_PER_SEC as nat + (nanos % NANOS_PER_SEC) as nat);
        assert(r.total() == secs as nat * NANOS_PER_SEC as nat + nanos as nat) by (nonlinear_arith)
            requires
                r.secs == secs + extra,
                nanos as nat == extra as nat * NANOS_PER_SEC as nat + r.nanos as nat,
                r.total() == (r.secs as nat) * (NANOS_PER_SEC as nat) + r.nanos as nat,
        ;
        r
    }

    /// A span of whole seconds.
    pub fn from_secs(secs: u64) -> (r: Duration)
        ensures
            r == (Duration { secs, nanos: 0 }),
    {
        Duration { secs, nanos: 0 }
    }

    /// A span of whole minutes.
    pub fn from_mins(mins: u64) -> (r: Duration)
        requires
            mins * 60 <= u64::MAX,
        ensures
            r == (Duration { secs: (mins * 60) as u64, nanos: 0 }),
    {
        Duration { secs: mins * 60, nanos: 0 }
    }

    /// A span of whole hours.
    pub fn from_hours(hours: u64) -> (r: Duration)
        requires
            hours * 3600 <= u64::MAX,
        ensures
            r == (Duration { secs: (hours * 3600) as u64, nanos: 0 }),
    {
        Duration { secs: hours * 3600, nanos: 0 }
    }

    /// A span of `n` nanoseconds.
    pub fn from_nanos(n: u64) -> (r: Duration)
        ensures
            r.wf(),
            r == duration_of_nanos(n as nat),
    {
        Duration { secs: n / 1_000_000_000, nanos: (n % 1_000_000_000) as u32 }
    }

    /// A span of `n` microseconds.
    pub fn from_micros(n: u64) -> (r: Duration)
        ensures
            r.wf(),
            r.total() == n as nat * 1000,
    {
        let r = Duration { secs: n / 1_000_000, nanos: ((n % 1_000_000) * 1000) as u32 };
        assert(r.total() == n as nat * 1000) by (nonlinear_arith)
            requires
                r.secs == n / 1_000_000,
                r.nanos == (n % 1_000_000) * 1000,
                r.total() == (r.secs as nat) * 1_000_000_000 + r.nanos as nat,
        ;
        r
    }

    /// A span of `n` milliseconds.
    pub fn from_millis(n: u64) -> (r: Duration)
        ensures
            r.wf(),
            r.total() == n as nat * 1_000_000,
    {
        let r = Duration { secs: n / 1000, nanos: ((n % 1000) * 1_000_000) as u32 };
        assert(r.total() == n as nat * 1_000_000) by (nonlinear_arith)
            requires
                r.secs == n / 1000,
                r.nanos == (n % 1000) * 1_000_000,
                r.total() == (r.secs as nat) * 1_000_000_000 + r.nanos as nat,
        ;
        r
    }

    /// The whole seconds of the span.
    pub fn as_secs(&self) -> (r: u64)
        ensures
            r == self.secs,
    {
        self.secs
    }

    /// The nanoseconds beyond the whole seconds.
    pub fn subsec_nanos(&self) -> (r: u32)
        ensures
            r == self.nanos,
    {
        self.nanos
    }

    /// Whether this span is strictly longer than `other`.
    pub fn exceeds(&self, other: &Duration) -> (r: bool)
        requires
            self.wf(),
            other.wf(),
        ensures
            r == (self.total() > other.total()),
    {
        proof {
            lemma_total_order(*self, *other);
        }
        self.secs > other.secs || (self.secs == other.secs && self.nanos > other.nanos)
    }
}

/// Among well-formed spans, comparing totals is comparing (seconds, nanoseconds)
/// lexicographically.
pub proof fn lemma_total_order(a: Duration, b: Duration)
    requires
        a.wf(),
        b.wf(),
    ensures
        a.total() > b.total() <==> (a.secs > b.secs || (a.secs == b.secs && a.nanos > b.nanos)),
{
    if a.secs > b.secs {
        assert(a.total() > b.total()) by (nonlinear_arith)
            requires
                a.secs > b.secs,
                b.nanos < 1_000_000_000,
                a.total() == (a.secs as nat) * 1_000_000_000 + a.nanos as nat,
                b.total() == (b.secs as nat) * 1_000_000_000 + b.nanos as nat,
        ;
    } else if a.secs < b.secs {
        assert(a.total() < b.total()) by (nonlinear_arith)
            requires
                a.secs < b.secs,
                a.nanos < 1_000_000_000,
                a.total() == (a.secs as nat) * 1_000_000_000 + a.nanos as nat,
                b.total() == (b.secs as nat) * 1_000_000_000 + b.nanos as nat,
        ;
    }
}

} // verus!
