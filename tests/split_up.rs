use timeago::{dominant_time_unit, split_up, Duration, TimeUnit};
use timeago::TimeUnit::{Days, Hours, Microseconds, Milliseconds, Minutes, Months, Nanoseconds, Seconds, Years};

fn ds(secs: u64) -> Duration {
    Duration::from_secs(secs)
}

fn dn(secs: u64, nanos: u32) -> Duration {
    Duration::new(secs, nanos)
}

#[test]
fn dominant_time_unit_test() {

    assert_eq!(dominant_time_unit(ds(3)), Seconds);
    assert_eq!(dominant_time_unit(ds(60)), Minutes);
    assert_eq!(dominant_time_unit(dn(0, 250_000_000)), Milliseconds);
}

#[test]
fn split_up_test_sane() {

    assert_eq!(split_up(ds(120), Minutes), (2, ds(0)));
    assert_eq!(split_up(ds(119), Minutes), (1, ds(59)));
    assert_eq!(split_up(ds(60), Minutes), (1, ds(0)));
    assert_eq!(split_up(ds(1), Minutes), (0, ds(1)));
    assert_eq!(split_up(ds(0), Minutes), (0, ds(0)));
    assert_eq!(split_up(ds(3600), Minutes), (60, ds(0)));
    assert_eq!(split_up(ds(3600), Hours), (1, ds(0)));
    assert_eq!(split_up(ds(3600), Seconds), (3600, ds(0)));
    assert_eq!(split_up(ds(3600), Milliseconds), (3600_000, ds(0)));
    assert_eq!(split_up(ds(100000000), Years), (3, ds(5391892)));
    assert_eq!(split_up(ds(100000000), Months), (38, ds(135886)));
    assert_eq!(split_up(ds(100000000), Days), (1157, ds(35200)));
    assert_eq!(split_up(ds(3600), Microseconds), (3600_000_000, ds(0)));
}

#[test]
fn split_up_test_tricky() {

    assert_eq!(split_up(ds(3600), Nanoseconds), (3600_000_000_000, ds(0)));
    assert_eq!(
        split_up(ds(3600_000), Nanoseconds),
        (3600_000_000_000_000, ds(0))
    );
    assert_eq!(
        split_up(ds(3600_000_000), Nanoseconds),
        (3600_000_000_000_000_000, ds(0))
    );
    assert_eq!(
        split_up(ds(3600_000_000_000), Nanoseconds),
        (std::u64::MAX, dn(3581_553_255_926, 290448385))
    );
    assert_eq!(
        split_up(ds(3600_000_000_000), Microseconds),
        (3600_000_000_000_000_000, ds(0))
    );
    assert_eq!(
        split_up(ds(3600_000_000_000_000), Microseconds),
        (std::u64::MAX, dn(3581_553_255_926_290, 448385000))
    );
    assert_eq!(
        split_up(ds(3600_000_000_000_000), Milliseconds),
        (3600_000_000_000_000_000, ds(0))
    );
    assert_eq!(
        split_up(ds(3600_000_000_000_000_000), Milliseconds),
        (std::u64::MAX, dn(3581_553_255_926_290_448, 385000000))
    );
}

#[test]
fn split_round_trip_below_next_unit() {
    // 59 minutes 59.5 seconds in minutes: 59 whole minutes, the rest left over.
    let d = dn(3599, 500_000_000);
    let (c, r) = split_up(d, TimeUnit::Minutes);
    assert_eq!((c, r), (59, dn(59, 500_000_000)));
    // 999 microseconds and 999 nanoseconds in microseconds.
    let (c, r) = split_up(dn(0, 999_999), TimeUnit::Microseconds);
    assert_eq!((c, r), (999, dn(0, 999)));
    let total = c as u128 * 1000 + r.as_secs() as u128 * 1_000_000_000 + r.subsec_nanos() as u128;
    assert_eq!(total, 999_999);
}

#[test]
fn split_saturates_multi_century_spans() {
    // About 317 centuries, in nanoseconds: the count is capped and the
    // remainder is exactly what the capped count leaves.
    let d = ds(1_000_000_000_000);
    let (c, r) = split_up(d, TimeUnit::Nanoseconds);
    assert_eq!(c, u64::MAX);
    let total = 1_000_000_000_000u128 * 1_000_000_000;
    let rebuilt = c as u128 + r.as_secs() as u128 * 1_000_000_000 + r.subsec_nanos() as u128;
    assert_eq!(rebuilt, total);
    assert!(r.subsec_nanos() < 1_000_000_000);
    // The largest span of all still splits without overflow.
    let (c, r) = split_up(dn(u64::MAX, 999_999_999), TimeUnit::Milliseconds);
    assert_eq!(c, u64::MAX);
    let rebuilt = c as u128 * 1_000_000 + r.as_secs() as u128 * 1_000_000_000 + r.subsec_nanos() as u128;
    assert_eq!(rebuilt, u64::MAX as u128 * 1_000_000_000 + 999_999_999);
}

#[test]
fn split_sub_second_part_never_counts_for_large_units() {
    assert_eq!(split_up(dn(0, 999_999_999), TimeUnit::Seconds), (0, dn(0, 999_999_999)));
    assert_eq!(split_up(dn(90, 5), TimeUnit::Minutes), (1, dn(30, 5)));
}

#[test]
fn dominant_unit_grows_with_the_span() {
    let spans = [
        dn(0, 0),
        dn(0, 999),
        dn(0, 1000),
        dn(0, 1_000_000),
        ds(1),
        ds(59),
        ds(60),
        ds(3600),
        ds(86400),
        ds(604800),
        ds(2_628_003),
        ds(2_628_003 * 12),
        ds(u64::MAX),
    ];
    let mut last = TimeUnit::Nanoseconds;
    for d in spans.iter() {
        let u = dominant_time_unit(*d);
        assert!(u >= last);
        last = u;
    }
    assert_eq!(dominant_time_unit(ds(2_628_003 * 12 - 1)), TimeUnit::Months);
    assert_eq!(dominant_time_unit(ds(2_628_003 * 12)), TimeUnit::Years);
}

#[test]
fn unit_scale_steps() {
    assert_eq!(TimeUnit::Years.bigger_unit(), None);
    assert_eq!(TimeUnit::Nanoseconds.smaller_unit(), None);
    assert_eq!(TimeUnit::Weeks.bigger_unit(), Some(TimeUnit::Months));
    assert_eq!(TimeUnit::Weeks.smaller_unit(), Some(TimeUnit::Days));
    assert_eq!(TimeUnit::Months.min_duration(), ds(2_628_003));
    assert_eq!(TimeUnit::Years.min_duration(), ds(31_536_036));
    assert_eq!(TimeUnit::Microseconds.min_duration(), dn(0, 1000));
}

#[test]
fn duration_constructors() {
    assert_eq!(Duration::new(1, 1_500_000_000), dn(2, 500_000_000));
    assert_eq!(Duration::from_millis(1500), dn(1, 500_000_000));
    assert_eq!(Duration::from_micros(42), dn(0, 42_000));
    assert_eq!(Duration::from_nanos(3_000_000_007), dn(3, 7));
    assert_eq!(Duration::from_mins(2), ds(120));
    assert_eq!(Duration::from_hours(2), ds(7200));
    assert!(ds(2).exceeds(&dn(1, 999_999_999)));
    assert!(!ds(2).exceeds(&ds(2)));
}
