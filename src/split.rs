//! Splitting a span into a whole count of one unit and an exact remainder.
use vstd::prelude::*;

use crate::duration::{duration_of_nanos, Duration, NANOS_PER_SEC};
use crate::time_unit::TimeUnit;

verus! {

/// `n` capped at the largest `u64`.
pub open spec fn saturate(n: nat) -> u64 {
    if n > u64::MAX {
        u64::MAX
    } else {
        n as u64
    }
}

/// Whether the unit is shorter than a second.
pub open spec fn is_subsecond(u: TimeUnit) -> bool {
    u.unit_span().secs == 0
}

/// What [`split_up`] returns. Units of a second or more divide the whole
/// seconds and keep the nanoseconds; shorter units count the whole span,
/// capped at the largest `u64`, and the remainder is what that count leaves.
pub open spec fn split_spec(d: Duration, u: TimeUnit) -> (u64, Duration) {
    let m = u.unit_span();
    if m.secs != 0 {
        ((d.secs / m.secs) as u64, Duration { secs: (d.secs % m.secs) as u64, nanos: d.nanos })
    } else {
        let c = saturate(d.total() / (m.nanos as nat));
        (c, duration_of_nanos((d.total() - c * m.nanos) as nat))
    }
}

/// Splits `d` into a count of `tu` and the remainder, without loss of
/// precision and without overflow.
pub fn split_up(d: Duration, tu: TimeUnit) -> (r: (u64, Duration))
    requires
        d.wf(),
    ensures
        r == split_spec(d, tu),
        r.1.wf(),
{
    let s = d.secs;
    let n = d.nanos;
    let tud = tu.min_duration();
    let tus = tud.secs;
    let tun = tud.nanos;
    if tus != 0 {
        (s / tus, Duration { secs: s % tus, nanos: n })
    } else if s == 0 {
        assert(d.total() == n as nat);
        let r = (n / tun) as u64;
        proof {
            assert(n as nat == (n / tun) as nat * tun as nat + (n % tun) as nat) by (nonlinear_arith)
                requires
                    tun > 0,
            ;
            lemma_remainder_exact(d.total(), tun as nat, r as nat);
        }
        (r, Duration { secs: 0, nanos: n % tun })
    } else {
        let tuninv: u64 = 1_000_000_000 / (tun as u64);
        assert(tuninv * tun == 1_000_000_000) by {
            assert(tun == 1 || tun == 1000 || tun == 1_000_000);
            if tun == 1000 {
                assert(tuninv == 1_000_000) by (nonlinear_arith)
                    requires
                        tun == 1000,
                        tuninv == 1_000_000_000u64 / (tun as u64),
                ;
            } else if tun == 1_000_000 {
                assert(tuninv == 1000) by (nonlinear_arith)
                    requires
                        tun == 1_000_000,
                        tuninv == 1_000_000_000u64 / (tun as u64),
                ;
            }
        }
        let whole: u64 = match s.checked_mul(tuninv) {
            Some(v) => v,
            None => u64::MAX,
        };
        let pieces = whole.saturating_add((n / tun) as u64);
        proof {
            lemma_pieces(s as nat, n as nat, tun as nat, tuninv as nat, whole as nat, pieces as nat, d.total());
        }
        let subtract_s = pieces / tuninv;
        assert((pieces % tuninv) * tun < 1_000_000_000) by (nonlinear_arith)
            requires
                tuninv * tun == 1_000_000_000,
                tuninv > 0,
        ;
        let subtract_ns = ((pieces % tuninv) as u32) * tun;
        assert(pieces as nat * tun as nat == subtract_s as nat * NANOS_PER_SEC as nat + subtract_ns as nat)
            by (nonlinear_arith)
            requires
                tuninv * tun == 1_000_000_000,
                tuninv > 0,
                subtract_s == pieces / tuninv,
                subtract_ns == (pieces % tuninv) * tun,
        ;
        let mut s = s;
        let mut n = n;
        if subtract_ns > n {
            s = s - 1;
            n = n + NANOS_PER_SEC;
        }
        assert(s as nat * 1_000_000_000 + n as nat == d.total());
        assert(subtract_ns <= n && n - subtract_ns < 1_000_000_000);
        assert(subtract_s <= s) by (nonlinear_arith)
            requires
                subtract_s as nat * 1_000_000_000 + subtract_ns as nat <= s as nat * 1_000_000_000 + n as nat,
                subtract_ns <= n,
                n - subtract_ns < 1_000_000_000,
        ;
        let remain_s = s - subtract_s;
        let remain_ns = n - subtract_ns;
        let rem = Duration { secs: remain_s, nanos: remain_ns };
        proof {
            lemma_remainder_exact(d.total(), tun as nat, pieces as nat);
            assert(rem.total() == d.total() - pieces * tun) by (nonlinear_arith)
                requires
                    rem.total() == remain_s as nat * 1_000_000_000 + remain_ns as nat,
                    remain_s == s - subtract_s,
                    remain_ns == n - subtract_ns,
                    s as nat * 1_000_000_000 + n as nat == d.total(),
                    pieces as nat * tun as nat == subtract_s as nat * 1_000_000_000 + subtract_ns as nat,
            ;
        }
        (pieces, rem)
    }
}

/// Splitting a span shorter than the next larger unit (any span, for years)
/// rebuilds it exactly: the count times the unit's span plus the remainder is
/// the span, and the remainder is shorter than one unit.
pub proof fn lemma_split_round_trip(d: Duration, u: TimeUnit)
    requires
        d.wf(),
        u.bigger() matches Some(v) ==> d.total() < v.threshold(),
    ensures
        split_spec(d, u).0 * u.threshold() + split_spec(d, u).1.total() == d.total(),
        split_spec(d, u).1.total() < u.threshold(),
{
    let m = u.unit_span();
    let (c, r) = split_spec(d, u);
    if m.secs != 0 {
        let ms = m.secs as nat;
        assert(m.nanos == 0);
        assert(u.threshold() == ms * 1_000_000_000);
        assert(c * (ms * 1_000_000_000) + r.total() == d.total()) by (nonlinear_arith)
            requires
                ms > 0,
                c == d.secs as nat / ms,
                r.total() == (d.secs as nat % ms) * 1_000_000_000 + d.nanos as nat,
                d.total() == d.secs as nat * 1_000_000_000 + d.nanos as nat,
        ;
        assert(r.total() < ms * 1_000_000_000) by (nonlinear_arith)
            requires
                ms > 0,
                d.nanos < 1_000_000_000,
                r.total() == (d.secs as nat % ms) * 1_000_000_000 + d.nanos as nat,
        ;
    } else {
        lemma_split_saturating(d, u);
        assert(d.total() < 1_000_000_000);
        let t = m.nanos as nat;
        assert(d.total() / t <= d.total()) by (nonlinear_arith)
            requires
                t > 0,
        ;
        assert(c < u64::MAX);
    }
}

/// Splitting into a unit shorter than a second never overflows: the count is
/// the exact count capped at the largest `u64`, the count and remainder still
/// rebuild the span exactly, and unless the count was capped the remainder is
/// shorter than one unit.
pub proof fn lemma_split_saturating(d: Duration, u: TimeUnit)
    requires
        d.wf(),
        is_subsecond(u),
    ensures
        split_spec(d, u).0 == saturate(d.total() / u.threshold()),
        split_spec(d, u).0 * u.threshold() + split_spec(d, u).1.total() == d.total(),
        split_spec(d, u).1.wf(),
        split_spec(d, u).0 < u64::MAX ==> split_spec(d, u).1.total() < u.threshold(),
{
    let t = u.unit_span().nanos as nat;
    let c = split_spec(d, u).0;
    assert(t == u.threshold());
    assert(c <= d.total() / t);
    assert(c * t <= (d.total() / t) * t) by (nonlinear_arith)
        requires
            c <= d.total() / t,
    ;
    assert((d.total() / t) * t <= d.total()) by (nonlinear_arith)
        requires
            t > 0,
    ;
    assert(d.total() < (u64::MAX as nat + 1) * 1_000_000_000) by (nonlinear_arith)
        requires
            d.nanos < 1_000_000_000,
            d.secs <= u64::MAX,
            d.total() == d.secs as nat * 1_000_000_000 + d.nanos as nat,
    ;
    lemma_remainder_exact(d.total(), t, c as nat);
    if c < u64::MAX {
        assert(c == d.total() / t);
        assert(d.total() - c * t < t) by (nonlinear_arith)
            requires
                t > 0,
                c == d.total() / t,
        ;
    }
}

/// Counting `c` units of `t` nanoseconds out of `total` leaves a remainder
/// whose seconds and nanoseconds are those of `total - c * t`.
proof fn lemma_remainder_exact(total: nat, t: nat, c: nat)
    requires
        t > 0,
        c * t <= total,
        total < (u64::MAX as nat + 1) * 1_000_000_000,
    ensures
        duration_of_nanos((total - c * t) as nat).wf(),
        duration_of_nanos((total - c * t) as nat).total() == total - c * t,
{
    let k = (total - c * t) as nat;
    assert(k == (k / 1_000_000_000) * 1_000_000_000 + k % 1_000_000_000) by (nonlinear_arith);
    assert(k / 1_000_000_000 <= u64::MAX) by (nonlinear_arith)
        requires
            k < (u64::MAX as nat + 1) * 1_000_000_000,
    ;
}

/// The saturating count of the original scheme is the capped exact count.
proof fn lemma_pieces(s: nat, n: nat, t: nat, inv: nat, whole: nat, pieces: nat, total: nat)
    requires
        n < 1_000_000_000,
        t > 0,
        inv * t == 1_000_000_000,
        total == s * 1_000_000_000 + n,
        whole == (if s * inv > u64::MAX { u64::MAX as nat } else { s * inv }),
        pieces == (if whole + n / t > u64::MAX { u64::MAX as nat } else { whole + n / t }),
    ensures
        pieces == saturate(total / t),
        pieces * t <= total,
{
    assert(total == (s * inv) * t + n) by (nonlinear_arith)
        requires
            inv * t == 1_000_000_000,
            total == s * 1_000_000_000 + n,
    ;
    assert(total / t == s * inv + n / t) by (nonlinear_arith)
        requires
            total == (s * inv) * t + n,
            t > 0,
    ;
    assert(pieces <= total / t);
    assert(pieces * t <= (total / t) * t) by (nonlinear_arith)
        requires
            pieces <= total / t,
    ;
    assert((total / t) * t <= total) by (nonlinear_arith)
        requires
            t > 0,
    ;
}

} // verus!
