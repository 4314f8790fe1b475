use timeago::{format_5chars, Duration, Style};

fn dns(secs: u64) -> Duration {
    Duration::from_secs(secs)
}

fn dn2(secs: u64, nanos: u32) -> Duration {
    Duration::new(secs, nanos)
}

fn fmtl(d: Duration) -> String {
    timeago::compact::format(d, Style::LONG)
}

fn fmth(d: Duration) -> String {
    timeago::compact::format(d, Style::HUMAN)
}

fn fmts(d: Duration) -> String {
    timeago::compact::format(d, Style::SHORT)
}

#[test]
fn test_long() {
    assert_eq!(fmtl(dns(0)), "now");
    assert_eq!(fmtl(dn2(0, 500_000_000)), "500 milliseconds ago");
    assert_eq!(fmtl(dns(1)), "1 second ago");
    assert_eq!(fmtl(dn2(1, 500_000_000)), "1 second ago");
    assert_eq!(fmtl(dns(59)), "59 seconds ago");
    assert_eq!(fmtl(dns(60)), "1 minute ago");
    assert_eq!(fmtl(dns(65)), "1 minute ago");
    assert_eq!(fmtl(dns(119)), "1 minute ago");
    assert_eq!(fmtl(dns(120)), "2 minutes ago");
    assert_eq!(fmtl(dns(3599)), "59 minutes ago");
    assert_eq!(fmtl(dns(3600)), "1 hour ago");
    assert_eq!(fmtl(dns(1000_000)), "1 week ago");
    assert_eq!(fmtl(dns(1000_000_000)), "31 years ago");
}

#[test]
fn test_human() {
    assert_eq!(fmth(dns(0)), "just now");
    assert_eq!(fmth(dn2(0, 500_000_000)), "just now");
    assert_eq!(fmth(dns(1)), "1 second ago");
    assert_eq!(fmth(dn2(1, 500_000_000)), "1 second ago");
    assert_eq!(fmth(dns(59)), "59 seconds ago");
    assert_eq!(fmth(dns(60)), "1 minute ago");
    assert_eq!(fmth(dns(65)), "1 minute ago");
    assert_eq!(fmth(dns(119)), "1 minute ago");
    assert_eq!(fmth(dns(120)), "2 minutes ago");
    assert_eq!(fmth(dns(3599)), "59 minutes ago");
    assert_eq!(fmth(dns(3600)), "1 hour ago");
    assert_eq!(fmth(dns(1000_000)), "1 week ago");
    assert_eq!(fmth(dns(1000_000_000)), "31 years ago");
}

#[test]
fn test_short() {
    assert_eq!(fmts(dns(0)), " now ");
    assert_eq!(fmts(dn2(0, 500_000_000)), " now ");
    assert_eq!(fmts(dns(1)), "01sec");
    assert_eq!(fmts(dn2(1, 500_000_000)), "01sec");
    assert_eq!(fmts(dns(59)), "59sec");
    assert_eq!(fmts(dns(60)), "01min");
    assert_eq!(fmts(dns(65)), "01min");
    assert_eq!(fmts(dns(119)), "01min");
    assert_eq!(fmts(dns(120)), "02min");
    assert_eq!(fmts(dns(3599)), "59min");
    assert_eq!(fmts(dns(3600)), "01hou");
    assert_eq!(fmts(dns(1000_000)), "11day");
    assert_eq!(fmts(dns(1000_000_000)), "31Yea");
}

#[test]
fn five_chars_boundaries() {
    assert_eq!(format_5chars(dns(86399)), "23hou");
    assert_eq!(format_5chars(dns(86400)), "01day");
    assert_eq!(format_5chars(dns(2_628_002)), "30day");
    assert_eq!(format_5chars(dns(2_628_003)), "01Mon");
    assert_eq!(format_5chars(dns(2_628_003 * 12 - 1)), "11Mon");
    assert_eq!(format_5chars(dns(2_628_003 * 12)), "01Yea");
    assert_eq!(format_5chars(dns(99 * 12 * 2_628_003)), "99Yea");
    assert_eq!(format_5chars(dns(99 * 12 * 2_628_003 + 1)), " OLD ");
    assert_eq!(format_5chars(dns(u64::MAX)), " OLD ");
    assert_eq!(format_5chars(dns(9)), "09sec");
}
