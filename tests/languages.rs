use timeago::{Duration, Formatter, TimeUnit};
use timeago::languages::basque::Basque;
use timeago::languages::belarusian::Belarusian;
use timeago::languages::french::French;
use timeago::languages::german::German;
use timeago::languages::italian::Italian;
use timeago::languages::korean::Korean;
use timeago::languages::polish::Polish;
use timeago::languages::romanian::Romanian;
use timeago::languages::russian::Russian;
use timeago::languages::spanish::Spanish;
use timeago::languages::turkish::Turkish;
use timeago::languages::ukrainian::Ukrainian;

#[test]
fn basque_test() {
    let f = Formatter::with_language(Basque);
    assert_eq!(f.convert(Duration::from_secs(60)), "orain dela minutu 1");
    assert_eq!(f.convert(Duration::from_secs(120)), "orain dela 2 minutu");
}

#[test]
fn belarusian_test() {
    let f = Formatter::with_language(Belarusian);
    assert_eq!(f.convert(Duration::from_secs(60)), "1 хвіліну таму");
    assert_eq!(f.convert(Duration::from_secs(2)), "2 сэкунды таму");
    assert_eq!(f.convert(Duration::from_secs(5)), "5 сэкундаў таму");
    assert_eq!(f.convert(Duration::from_secs(12)), "12 сэкундаў таму");
    assert_eq!(f.convert(Duration::from_secs(1*3600*12*366)), "6 месяцаў таму");
    assert_eq!(f.convert(Duration::from_secs(1*3600*24*366)), "1 год таму");
    assert_eq!(f.convert(Duration::from_secs(2*3600*24*366)), "2 гады таму");
    assert_eq!(f.convert(Duration::from_secs(4*3600*24*366)), "4 гады таму");
    assert_eq!(f.convert(Duration::from_secs(5*3600*24*366)), "5 гадоў таму");
    assert_eq!(f.convert(Duration::from_secs(10*3600*24*366)), "10 гадоў таму");
    assert_eq!(f.convert(Duration::from_secs(11*3600*24*366)), "11 гадоў таму");
    assert_eq!(f.convert(Duration::from_secs(14*3600*24*366)), "14 гадоў таму");
    assert_eq!(f.convert(Duration::from_secs(15*3600*24*366)), "15 гадоў таму");
    assert_eq!(f.convert(Duration::from_secs(19*3600*24*366)), "19 гадоў таму");
    assert_eq!(f.convert(Duration::from_secs(20*3600*24*366)), "20 гадоў таму");
    assert_eq!(f.convert(Duration::from_secs(21*3600*24*366)), "21 год таму");
    assert_eq!(f.convert(Duration::from_secs(32*3600*24*366)), "32 гады таму");
    assert_eq!(f.convert(Duration::from_secs(99*3600*24*366)), "99 гадоў таму");
    assert_eq!(f.convert(Duration::from_secs(100*3600*24*366)), "100 гадоў таму");
    assert_eq!(f.convert(Duration::from_secs(101*3600*24*366)), "101 год таму");
    assert_eq!(f.convert(Duration::from_secs(111*3600*24*366)), "111 гадоў таму");
}

#[test]
fn french_test() {
    let f = Formatter::with_language(French);
    assert_eq!(f.convert(Duration::from_secs(60)), "il y a 1 minute");
}

#[test]
fn german_test() {
    let f = Formatter::with_language(German);
    assert_eq!(f.convert(Duration::from_secs(60)), "vor 1 Minute");
}

#[test]
fn italian_test() {
    let f = Formatter::with_language(Italian);
    assert_eq!(f.convert(Duration::from_secs(60)), "1 minuto fa");
}

#[test]
fn korean_test() {
    let mut f = Formatter::with_language(Korean);
    f.min_unit(TimeUnit::Seconds);
    assert_eq!(f.convert(Duration::from_secs(0)), "방금");
    assert_eq!(f.convert(Duration::from_nanos(42)), "방금");
    assert_eq!(f.convert(Duration::from_micros(42)), "방금");
    assert_eq!(f.convert(Duration::from_millis(42)), "방금");
    assert_eq!(f.convert(Duration::from_secs(42)), "42초 전");
    assert_eq!(f.convert(Duration::from_mins(42)), "42분 전");
    assert_eq!(f.convert(Duration::from_hours(2)), "2시간 전");
    assert_eq!(f.convert(Duration::from_hours(23)), "23시간 전");
    assert_eq!(f.convert(Duration::from_hours(24)), "1일 전");
    assert_eq!(f.convert(Duration::from_hours(24 + 1)), "1일 전");
    assert_eq!(f.convert(Duration::from_hours(2 * 24 - 1)), "1일 전");
    assert_eq!(f.convert(Duration::from_hours(2 * 24)), "2일 전");
    assert_eq!(f.convert(Duration::from_hours(2 * 24 + 1)), "2일 전");
    assert_eq!(f.convert(Duration::from_hours(3 * 24 - 1)), "2일 전");
    assert_eq!(f.convert(Duration::from_hours(3 * 24)), "3일 전");
    assert_eq!(f.convert(Duration::from_hours(3 * 24 + 1)), "3일 전");
    assert_eq!(f.convert(Duration::from_hours(42 * 24)), "1개월 전");
    assert_eq!(f.convert(Duration::from_hours(364 * 24)), "11개월 전");
    assert_eq!(f.convert(Duration::from_hours(365 * 24)), "11개월 전");
    assert_eq!(f.convert(Duration::from_hours(366 * 24)), "1년 전");
    assert_eq!(f.convert(Duration::from_hours(42 * 366 * 24)), "42년 전");

    f.min_unit(TimeUnit::Nanoseconds);
    assert_eq!(f.convert(Duration::from_nanos(42)), "42나노초 전");
    assert_eq!(f.convert(Duration::from_micros(42)), "42마이크로초 전");
    assert_eq!(f.convert(Duration::from_millis(42)), "42밀리초 전");

    f.max_unit(TimeUnit::Months);
    assert_eq!(f.convert(Duration::from_hours(365 * 24)), "11개월 전");
    assert_eq!(f.convert(Duration::from_hours(366 * 24)), "12개월 전");

    f.max_duration(Duration::from_hours(365 * 24));
    assert_eq!(f.convert(Duration::from_hours(365 * 24)), "11개월 전");
    assert_eq!(f.convert(Duration::from_hours(366 * 24)), "오래전");
}

#[test]
fn polish_test() {
    let f = Formatter::with_language(Polish);
    assert_eq!(f.convert(Duration::from_secs(60)), "1 minutę temu");
    assert_eq!(f.convert(Duration::from_secs(2)), "2 sekundy temu");
    assert_eq!(f.convert(Duration::from_secs(5)), "5 sekund temu");
    assert_eq!(f.convert(Duration::from_secs(12)), "12 sekund temu");
    assert_eq!(f.convert(Duration::from_secs(1*3600*12*366)), "6 miesięcy temu");
    assert_eq!(f.convert(Duration::from_secs(1*3600*24*366)), "1 rok temu");
    assert_eq!(f.convert(Duration::from_secs(2*3600*24*366)), "2 lata temu");
    assert_eq!(f.convert(Duration::from_secs(4*3600*24*366)), "4 lata temu");
    assert_eq!(f.convert(Duration::from_secs(5*3600*24*366)), "5 lat temu");
    assert_eq!(f.convert(Duration::from_secs(10*3600*24*366)), "10 lat temu");
    assert_eq!(f.convert(Duration::from_secs(11*3600*24*366)), "11 lat temu");
    assert_eq!(f.convert(Duration::from_secs(14*3600*24*366)), "14 lat temu");
    assert_eq!(f.convert(Duration::from_secs(15*3600*24*366)), "15 lat temu");
    assert_eq!(f.convert(Duration::from_secs(19*3600*24*366)), "19 lat temu");
    assert_eq!(f.convert(Duration::from_secs(20*3600*24*366)), "20 lat temu");
    assert_eq!(f.convert(Duration::from_secs(21*3600*24*366)), "21 lat temu");
    assert_eq!(f.convert(Duration::from_secs(32*3600*24*366)), "32 lata temu");
    assert_eq!(f.convert(Duration::from_secs(99*3600*24*366)), "99 lat temu");
    assert_eq!(f.convert(Duration::from_secs(100*3600*24*366)), "100 lat temu");
    assert_eq!(f.convert(Duration::from_secs(101*3600*24*366)), "101 lat temu");
    assert_eq!(f.convert(Duration::from_secs(104*3600*24*366)), "104 lata temu");
    assert_eq!(f.convert(Duration::from_secs(111*3600*24*366)), "111 lat temu");
}

#[test]
fn romanian_test() {
    let f = Formatter::with_language(Romanian);
    assert_eq!(f.convert(Duration::from_secs(60)), "acum 1 minut");
}

#[test]
fn russian_test() {
    let f = Formatter::with_language(Russian);
    assert_eq!(f.convert(Duration::from_secs(60)), "1 минуту назад");
    assert_eq!(f.convert(Duration::from_secs(2)), "2 секунды назад");
    assert_eq!(f.convert(Duration::from_secs(5)), "5 секунд назад");
    assert_eq!(f.convert(Duration::from_secs(12)), "12 секунд назад");
    assert_eq!(
        f.convert(Duration::from_secs(1 * 3600 * 12 * 366)),
        "6 месяцев назад"
    );
    assert_eq!(
        f.convert(Duration::from_secs(1 * 3600 * 24 * 366)),
        "1 год назад"
    );
    assert_eq!(
        f.convert(Duration::from_secs(2 * 3600 * 24 * 366)),
        "2 года назад"
    );
    assert_eq!(
        f.convert(Duration::from_secs(4 * 3600 * 24 * 366)),
        "4 года назад"
    );
    assert_eq!(
        f.convert(Duration::from_secs(5 * 3600 * 24 * 366)),
        "5 лет назад"
    );
    assert_eq!(
        f.convert(Duration::from_secs(10 * 3600 * 24 * 366)),
        "10 лет назад"
    );
    assert_eq!(
        f.convert(Duration::from_secs(11 * 3600 * 24 * 366)),
        "11 лет назад"
    );
    assert_eq!(
        f.convert(Duration::from_secs(14 * 3600 * 24 * 366)),
        "14 лет назад"
    );
    assert_eq!(
        f.convert(Duration::from_secs(15 * 3600 * 24 * 366)),
        "15 лет назад"
    );
    assert_eq!(
        f.convert(Duration::from_secs(19 * 3600 * 24 * 366)),
        "19 лет назад"
    );
    assert_eq!(
        f.convert(Duration::from_secs(20 * 3600 * 24 * 366)),
        "20 лет назад"
    );
    assert_eq!(
        f.convert(Duration::from_secs(21 * 3600 * 24 * 366)),
        "21 год назад"
    );
    assert_eq!(
        f.convert(Duration::from_secs(32 * 3600 * 24 * 366)),
        "32 года назад"
    );
    assert_eq!(
        f.convert(Duration::from_secs(99 * 3600 * 24 * 366)),
        "99 лет назад"
    );
    assert_eq!(
        f.convert(Duration::from_secs(100 * 3600 * 24 * 366)),
        "100 лет назад"
    );
    assert_eq!(
        f.convert(Duration::from_secs(101 * 3600 * 24 * 366)),
        "101 год назад"
    );
    assert_eq!(
        f.convert(Duration::from_secs(111 * 3600 * 24 * 366)),
        "111 лет назад"
    );
}

#[test]
fn spanish_test() {
    let f = Formatter::with_language(Spanish);
    assert_eq!(f.convert(Duration::from_secs(60)), "hace 1 minuto");
}

#[test]
fn turkish_test() {
    let f = Formatter::with_language(Turkish);
    assert_eq!(f.convert(Duration::from_secs(60)), "1 dakika önce");
    assert_eq!(f.convert(Duration::from_secs(2)), "2 saniye önce");
    assert_eq!(f.convert(Duration::from_secs(5)), "5 saniye önce");
    assert_eq!(f.convert(Duration::from_secs(12)), "12 saniye önce");
    assert_eq!(f.convert(Duration::from_secs(1*60*60)), "1 saat önce");
    assert_eq!(f.convert(Duration::from_secs(2*60*60)), "2 saat önce");
    assert_eq!(f.convert(Duration::from_secs(1*24*60*60)), "1 gün önce");
    assert_eq!(f.convert(Duration::from_secs(2*24*60*60)), "2 gün önce");
    assert_eq!(f.convert(Duration::from_secs(1*7*24*60*60)), "1 hafta önce");
    assert_eq!(f.convert(Duration::from_secs(2*7*24*60*60)), "2 hafta önce");
    assert_eq!(f.convert(Duration::from_secs(1*3600*12*366)), "6 ay önce");
    assert_eq!(f.convert(Duration::from_secs(1*3600*24*366)), "1 yıl önce");
    assert_eq!(f.convert(Duration::from_secs(2*3600*24*366)), "2 yıl önce");
    assert_eq!(f.convert(Duration::from_secs(100*3600*24*366)), "100 yıl önce");
    assert_eq!(f.convert(Duration::from_secs(101*3600*24*366)), "101 yıl önce");
    assert_eq!(f.convert(Duration::from_secs(111*3600*24*366)), "111 yıl önce");
}

#[test]
fn ukrainian_test() {
    let f = Formatter::with_language(Ukrainian);
    assert_eq!(f.convert(Duration::from_secs(60)), "1 хвилину тому");
    assert_eq!(f.convert(Duration::from_secs(2)), "2 секунди тому");
    assert_eq!(f.convert(Duration::from_secs(5)), "5 секунд тому");
    assert_eq!(f.convert(Duration::from_secs(12)), "12 секунд тому");
    assert_eq!(f.convert(Duration::from_secs(1*3600*12*366)), "6 місяців тому");
    assert_eq!(f.convert(Duration::from_secs(1*3600*24*366)), "1 рік тому");
    assert_eq!(f.convert(Duration::from_secs(2*3600*24*366)), "2 роки тому");
    assert_eq!(f.convert(Duration::from_secs(4*3600*24*366)), "4 роки тому");
    assert_eq!(f.convert(Duration::from_secs(5*3600*24*366)), "5 років тому");
    assert_eq!(f.convert(Duration::from_secs(10*3600*24*366)), "10 років тому");
    assert_eq!(f.convert(Duration::from_secs(11*3600*24*366)), "11 років тому");
    assert_eq!(f.convert(Duration::from_secs(14*3600*24*366)), "14 років тому");
    assert_eq!(f.convert(Duration::from_secs(15*3600*24*366)), "15 років тому");
    assert_eq!(f.convert(Duration::from_secs(19*3600*24*366)), "19 років тому");
    assert_eq!(f.convert(Duration::from_secs(20*3600*24*366)), "20 років тому");
    assert_eq!(f.convert(Duration::from_secs(21*3600*24*366)), "21 рік тому");
    assert_eq!(f.convert(Duration::from_secs(32*3600*24*366)), "32 роки тому");
    assert_eq!(f.convert(Duration::from_secs(99*3600*24*366)), "99 років тому");
    assert_eq!(f.convert(Duration::from_secs(100*3600*24*366)), "100 років тому");
    assert_eq!(f.convert(Duration::from_secs(101*3600*24*366)), "101 рік тому");
    assert_eq!(f.convert(Duration::from_secs(111*3600*24*366)), "111 років тому");
}
