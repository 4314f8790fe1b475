use timeago::languages::german::German;
use timeago::languages::korean::Korean;
use timeago::languages::russian::Russian;
use timeago::languages::thai::Thai;
use timeago::{boxup, from_isolang, from_name, AnyLanguage, Duration, English, Formatter, Language, TimeUnit};

fn secs(s: u64) -> Duration {
    Duration::from_secs(s)
}

#[test]
fn default_formatter_examples() {
    let f = Formatter::new();
    assert_eq!(f.convert(secs(3600)), "1 hour ago");
    assert_eq!(f.convert(secs(3600 * 24)), "1 day ago");
    assert_eq!(f.convert(secs(0)), "now");
    assert_eq!(f.convert(secs(59)), "59 seconds ago");
    assert_eq!(f.convert(secs(60)), "1 minute ago");
    let g: Formatter = Default::default();
    assert_eq!(g.convert(secs(120)), "2 minutes ago");
}

#[test]
fn num_items_limits_chunks() {
    let mut f = Formatter::new();
    let d = secs(3600 + 60 + 3);
    f.num_items(1);
    assert_eq!(f.convert(d), "1 hour ago");
    f.num_items(2);
    assert_eq!(f.convert(d), "1 hour 1 minute ago");
    f.num_items(3);
    assert_eq!(f.convert(d), "1 hour 1 minute 3 seconds ago");
    f.num_items(4);
    assert_eq!(f.convert(d), "1 hour 1 minute 3 seconds ago");
}

#[test]
fn max_unit_caps_the_unit() {
    let mut f = Formatter::new();
    f.max_unit(TimeUnit::Hours);
    assert_eq!(f.convert(secs(60)), "1 minute ago");
    assert_eq!(f.convert(secs(3600)), "1 hour ago");
    assert_eq!(f.convert(secs(24 * 3600)), "24 hours ago");
    assert_eq!(f.convert(secs(30 * 24 * 3600)), "720 hours ago");
}

#[test]
fn min_unit_sets_precision() {
    let mut f = Formatter::new();
    f.min_unit(TimeUnit::Minutes);
    assert_eq!(f.convert(secs(30)), "now");
    assert_eq!(f.convert(secs(90)), "1 minute ago");

    let mut f = Formatter::new();
    f.num_items(99);
    let d = Duration::new(1 * 3600 * 24 + 2 * 3600 + 3 * 60 + 4, 500_000_000);
    assert_eq!(f.convert(d), "1 day 2 hours 3 minutes 4 seconds ago");
    f.min_unit(TimeUnit::Hours);
    assert_eq!(f.convert(d), "1 day 2 hours ago");
    f.min_unit(TimeUnit::Microseconds);
    assert_eq!(f.convert(d), "1 day 2 hours 3 minutes 4 seconds 500 milliseconds ago");
    f.min_unit(TimeUnit::Months);
    assert_eq!(f.convert(d), "now");
}

#[test]
fn too_low_overrides() {
    let mut f = Formatter::new();
    f.min_unit(TimeUnit::Months).too_low("this month");
    assert_eq!(f.convert(secs(24 * 3600)), "this month");

    let mut f = Formatter::new();
    f.min_unit(TimeUnit::Minutes);
    let d = secs(30);
    assert_eq!(f.convert(d), "now");
    f.too_low("-");
    assert_eq!(f.convert(d), "-");
    f.too_low("");
    assert_eq!(f.convert(d), "");
    f.too_low("0");
    assert_eq!(f.convert(d), "0 minutes ago");
}

#[test]
fn too_high_overrides() {
    let mut f = Formatter::new();
    f.max_duration(secs(3600 * 24 * 30));
    f.too_high("ancient");
    assert_eq!(f.convert(secs(1000_000_000_000)), "ancient");

    let mut f = Formatter::new();
    f.max_duration(Duration::new(3600 * 24 * 30, 0));
    assert_eq!(f.convert(secs(1000_000_000)), "old");
}

#[test]
fn too_high_ignores_items_and_units() {
    let mut f = Formatter::new();
    f.max_duration(secs(10)).num_items(5).min_unit(TimeUnit::Nanoseconds).max_unit(TimeUnit::Seconds);
    assert_eq!(f.convert(Duration::new(10, 1)), "old");
    assert_eq!(f.convert(secs(10)), "10 seconds ago");
    let mut r = Formatter::with_language(Russian);
    r.max_duration(secs(10));
    assert_eq!(r.convert(secs(11)), "давно");
}

#[test]
fn ago_overrides() {
    let mut f = Formatter::new();
    let d = secs(60);
    assert_eq!(f.convert(d), "1 minute ago");
    f.ago("later");
    assert_eq!(f.convert(d), "1 minute later");
    f.ago("");
    assert_eq!(f.convert(d), "1 minute");
}

#[test]
fn zero_span_gives_too_low_phrase() {
    assert_eq!(Formatter::new().convert(secs(0)), "now");
    assert_eq!(Formatter::with_language(Russian).convert(secs(0)), "сейчас");
    assert_eq!(Formatter::with_language(German).convert(secs(0)), "jetzt");
    let mut f = Formatter::new();
    f.min_unit(TimeUnit::Nanoseconds);
    assert_eq!(f.convert(secs(0)), "now");
}

#[test]
fn boundary_phrases() {
    let mut f = Formatter::new();
    assert_eq!(f.convert(secs(59)), "59 seconds ago");
    assert_eq!(f.convert(secs(60)), "1 minute ago");
    assert_eq!(f.convert(secs(3600)), "1 hour ago");
    f.num_items(2);
    assert_eq!(f.convert(secs(3663)), "1 hour 1 minute ago");
}

#[test]
fn russian_plural_cycle() {
    let f = Formatter::with_language(Russian);
    let year = 3600 * 24 * 366;
    assert_eq!(f.convert(secs(year)), "1 год назад");
    assert_eq!(f.convert(secs(3 * year)), "3 года назад");
    assert_eq!(f.convert(secs(7 * year)), "7 лет назад");
    assert_eq!(f.convert(secs(11 * year)), "11 лет назад");
    assert_eq!(f.convert(secs(21 * year)), "21 год назад");
    assert_eq!(Russian.get_word(TimeUnit::Minutes, 112), "минут");
    assert_eq!(Russian.get_word(TimeUnit::Minutes, 122), "минуты");
}

#[test]
fn zero_chunk_uses_language_layout() {
    let mut f = Formatter::with_language(German);
    f.min_unit(TimeUnit::Hours).too_low("0");
    assert_eq!(f.convert(secs(5)), "vor 0 Stunden");
}

#[test]
fn layout_hooks() {
    let mut k = Formatter::with_language(Korean);
    k.num_items(2);
    assert_eq!(k.convert(secs(3661)), "1시간 1분 전");
    let t = Formatter::with_language(Thai);
    assert_eq!(t.convert(secs(5)), "5 วินาทีที่แล้ว");
}

#[test]
fn any_language_by_name() {
    let l = from_name("Russian").unwrap();
    let f = Formatter::with_language(l);
    assert_eq!(f.convert(secs(3600)), "1 час назад");
    assert!(from_name("Klingon").is_none());
    let b: AnyLanguage = boxup(German);
    assert_eq!(Formatter::with_language(b).convert(secs(60)), "vor 1 Minute");
    assert_eq!(boxup(English).too_low(), "now");
}

#[test]
fn any_language_from_isolang() {
    let il = isolang::Language::from_639_1("ru").unwrap();
    let l = from_isolang(il).unwrap();
    let f = Formatter::with_language(l);
    assert_eq!(f.convert(secs(3600)), "1 час назад");
    let il = isolang::Language::from_639_1("de").unwrap();
    assert_eq!(Formatter::with_language(from_isolang(il).unwrap()).convert(secs(60)), "vor 1 Minute");
    let il = isolang::Language::from_639_1("sw").unwrap();
    assert!(from_isolang(il).is_none());
}

#[test]
fn chrono_delta() {
    let mut f = Formatter::new();
    f.num_items(2);
    let from = chrono::DateTime::parse_from_rfc3339("2013-12-19T15:00:00+03:00").unwrap();
    let to = chrono::DateTime::parse_from_rfc3339("2013-12-23T17:00:00+03:00").unwrap();
    assert_eq!(f.convert_delta(&to.signed_duration_since(from)), "4 days 2 hours ago");
    assert_eq!(f.convert_delta(&from.signed_duration_since(to)), "???");
    assert_eq!(f.convert_span(None), "???");
    assert_eq!(f.convert_span(Some(secs(61))), "1 minute 1 second ago");
}
