//! Unit tests of the calendar arithmetic, the alias parser, the weekday
//! resolver and the timestamp renderings.

use nextday::date::{
    date_of_day_number, day_number_of, decompose_abs_seconds, iso_week_fields, leap_year,
    month_len, CalendarDate, TimeOfDay,
};
use nextday::fmt::{fmt_basic, fmt_extended, fmt_rfc2822, fmt_week_date, fmt_with_tzname};
use nextday::fmt::{fmt_date_only, fmt_ordinal, fmt_time_only};
use nextday::resolve::{resolve, Mode};
use nextday::weekday::{parse_weekday, Weekday};

fn date(year: i32, month: u8, day: u8) -> CalendarDate {
    CalendarDate { year, month, day }
}

#[test]
fn parses_every_alias() {
    let table: Vec<(&str, Weekday)> = vec![
        ("monday", Weekday::Monday),
        ("mon", Weekday::Monday),
        ("m", Weekday::Monday),
        ("tuesday", Weekday::Tuesday),
        ("tues", Weekday::Tuesday),
        ("tue", Weekday::Tuesday),
        ("t", Weekday::Tuesday),
        ("wednesday", Weekday::Wednesday),
        ("wed", Weekday::Wednesday),
        ("w", Weekday::Wednesday),
        ("thursday", Weekday::Thursday),
        ("thurs", Weekday::Thursday),
        ("thur", Weekday::Thursday),
        ("th", Weekday::Thursday),
        ("r", Weekday::Thursday),
        ("friday", Weekday::Friday),
        ("fri", Weekday::Friday),
        ("f", Weekday::Friday),
        ("saturday", Weekday::Saturday),
        ("sat", Weekday::Saturday),
        ("sunday", Weekday::Sunday),
        ("sun", Weekday::Sunday),
    ];
    for (alias, expected) in table {
        assert_eq!(parse_weekday(alias), Some(expected));
    }
}

#[test]
fn rejects_near_misses() {
    assert_eq!(parse_weekday(""), None);
    assert_eq!(parse_weekday("mond"), None);
    assert_eq!(parse_weekday("s"), None);
    assert_eq!(parse_weekday("xyz"), None);
    assert_eq!(parse_weekday("monday "), None);
}

#[test]
fn parse_ignores_ascii_case() {
    assert_eq!(parse_weekday("SATURDAY"), Some(Weekday::Saturday));
    assert_eq!(parse_weekday("SaT"), Some(Weekday::Saturday));
    assert_eq!(parse_weekday("Th"), Some(Weekday::Thursday));
    assert_eq!(parse_weekday("R"), Some(Weekday::Thursday));
}

#[test]
fn leap_year_rules() {
    assert!(leap_year(2024));
    assert!(leap_year(2000));
    assert!(!leap_year(1900));
    assert!(!leap_year(2025));
    assert_eq!(month_len(2024, 2), 29);
    assert_eq!(month_len(2025, 2), 28);
    assert_eq!(month_len(2025, 8), 31);
    assert_eq!(month_len(2025, 9), 30);
}

#[test]
fn day_numbers_round_trip() {
    let samples = vec![
        date(1, 1, 1),
        date(1970, 1, 1),
        date(2024, 2, 29),
        date(2025, 8, 16),
        date(9999, 12, 31),
    ];
    for d in samples {
        let n = day_number_of(d);
        assert_eq!(date_of_day_number(n), d);
    }
}

#[test]
fn epoch_day_is_a_thursday() {
    // 1970-01-01 is day 719162 from 0001-01-01, and 0001-01-01 is a Monday.
    let n = day_number_of(date(1970, 1, 1));
    assert_eq!(n, 719162);
    assert_eq!(n % 7, 3);
}

#[test]
fn month_boundaries_roll_over() {
    let n = day_number_of(date(2025, 8, 31));
    assert_eq!(date_of_day_number(n + 1), date(2025, 9, 1));
    let dec31 = day_number_of(date(2025, 12, 31));
    assert_eq!(date_of_day_number(dec31 + 1), date(2026, 1, 1));
    let feb28 = day_number_of(date(2024, 2, 28));
    assert_eq!(date_of_day_number(feb28 + 1), date(2024, 2, 29));
    assert_eq!(date_of_day_number(feb28 + 2), date(2024, 3, 1));
}

#[test]
fn resolve_next_from_wednesday() {
    // 2025-08-13 is a Wednesday.
    let base = date(2025, 8, 13);
    assert_eq!(resolve(base, Weekday::Saturday, Mode::Next), date(2025, 8, 16));
    assert_eq!(resolve(base, Weekday::Wednesday, Mode::Next), date(2025, 8, 20));
    assert_eq!(resolve(base, Weekday::Tuesday, Mode::Next), date(2025, 8, 19));
}

#[test]
fn resolve_this_from_wednesday() {
    let base = date(2025, 8, 13);
    assert_eq!(resolve(base, Weekday::Wednesday, Mode::This), base);
    assert_eq!(resolve(base, Weekday::Saturday, Mode::This), date(2025, 8, 16));
    assert_eq!(resolve(base, Weekday::Monday, Mode::This), date(2025, 8, 18));
}

#[test]
fn resolve_next_never_returns_base() {
    let base = date(2025, 8, 13);
    let targets = vec![
        Weekday::Monday,
        Weekday::Tuesday,
        Weekday::Wednesday,
        Weekday::Thursday,
        Weekday::Friday,
        Weekday::Saturday,
        Weekday::Sunday,
    ];
    for w in targets {
        let r = resolve(base, w, Mode::Next);
        assert_ne!(r, base);
        let gap = day_number_of(r) - day_number_of(base);
        assert!(1 <= gap && gap <= 7);
    }
}

#[test]
fn decompose_seconds_of_day() {
    // 2025-08-13T06:30:15 from 0001-01-01, as absolute seconds.
    let n = day_number_of(date(2025, 8, 13));
    let abs = n * 86400 + 6 * 3600 + 30 * 60 + 15;
    let (d, t) = decompose_abs_seconds(abs);
    assert_eq!(d, date(2025, 8, 13));
    assert_eq!(t, TimeOfDay { hour: 6, minute: 30, second: 15 });
}

#[test]
fn iso_week_around_year_ends() {
    // 2021-01-01 (Friday) belongs to 2020-W53.
    assert_eq!(iso_week_fields(date(2021, 1, 1)), (2020, 53));
    // 2019-12-30 (Monday) belongs to 2020-W01.
    assert_eq!(iso_week_fields(date(2019, 12, 30)), (2020, 1));
    // 2016-01-03 (Sunday) belongs to 2015-W53 (2015 is a long ISO year).
    assert_eq!(iso_week_fields(date(2016, 1, 3)), (2015, 53));
    // A plain mid-year date.
    assert_eq!(iso_week_fields(date(2025, 8, 16)), (2025, 33));
}

#[test]
fn renders_fixed_fields() {
    let d = date(2025, 8, 16);
    let t = TimeOfDay { hour: 6, minute: 0, second: 0 };
    assert_eq!(fmt_extended(d, t, -21600), "2025-08-16T06:00:00-06:00");
    assert_eq!(fmt_basic(d, t, -21600), "20250816T060000-0600");
    assert_eq!(fmt_rfc2822(d, t, -21600), "Sat, 16 Aug 2025 06:00:00 -0600");
    assert_eq!(fmt_date_only(d), "2025-08-16");
    assert_eq!(fmt_time_only(t), "06:00:00");
    assert_eq!(fmt_week_date(d), "2025-W33-6");
    assert_eq!(fmt_ordinal(d), "2025-228");
}

#[test]
fn renders_small_years_padded() {
    let d = date(33, 1, 2);
    let t = TimeOfDay { hour: 0, minute: 0, second: 0 };
    assert_eq!(fmt_date_only(d), "0033-01-02");
    assert_eq!(fmt_ordinal(d), "0033-002");
}

#[test]
fn zone_label_without_abbreviation_is_numeric() {
    let d = date(2025, 8, 16);
    let t = TimeOfDay { hour: 6, minute: 0, second: 0 };
    let s = fmt_with_tzname(d, t, -21600, None);
    assert_eq!(s, "2025-08-16 06:00:00 -06-06:00");
    let s2 = fmt_with_tzname(d, t, 20700, None);
    assert_eq!(s2, "2025-08-16 06:00:00 +0545+05:45");
    let s3 = fmt_with_tzname(d, t, 19800, Some(String::from("IST")));
    assert_eq!(s3, "2025-08-16 06:00:00 IST+05:30");
}
