//! End-to-end tests of the compute pipeline against fixed instants.

use nextday::compute::{compute, CoreError};
use nextday::resolve::Mode;

// 2025-08-13T12:00:00Z, a Wednesday; 06:00 in Canada/Mountain (MDT, UTC-6).
const WED_NOON_UTC: i64 = 1755086400;

fn outputs_equal(
    a: &nextday::compute::FormattedTimestamps,
    b: &nextday::compute::FormattedTimestamps,
) -> bool {
    a.input_weekday == b.input_weekday
        && a.input_timezone == b.input_timezone
        && a.local_rfc3339 == b.local_rfc3339
        && a.local_rfc3339_micros == b.local_rfc3339_micros
        && a.local_rfc2822 == b.local_rfc2822
        && a.local_iso_extended == b.local_iso_extended
        && a.local_iso_basic == b.local_iso_basic
        && a.local_date_only == b.local_date_only
        && a.local_time_only == b.local_time_only
        && a.local_week_date == b.local_week_date
        && a.local_ordinal_date == b.local_ordinal_date
        && a.local_with_tzname == b.local_with_tzname
        && a.utc_rfc3339 == b.utc_rfc3339
        && a.utc_rfc2822 == b.utc_rfc2822
        && a.utc_iso_extended == b.utc_iso_extended
        && a.utc_iso_basic == b.utc_iso_basic
        && a.epoch_seconds == b.epoch_seconds
        && a.epoch_milliseconds == b.epoch_milliseconds
        && a.epoch_microseconds == b.epoch_microseconds
        && a.epoch_nanoseconds == b.epoch_nanoseconds
}

#[test]
fn next_saturday_default_zone() {
    let t = compute("saturday", None, Mode::Next, WED_NOON_UTC).unwrap();
    assert_eq!(t.input_weekday, "saturday");
    assert_eq!(t.input_timezone, "Canada/Mountain");
    assert_eq!(t.local_date_only, "2025-08-16");
    assert_eq!(t.local_time_only, "06:00:00");
    assert_eq!(t.local_rfc3339, "2025-08-16T06:00:00-06:00");
    assert_eq!(t.local_rfc3339_micros, "2025-08-16T06:00:00.000000-06:00");
    assert_eq!(t.local_rfc2822, "Sat, 16 Aug 2025 06:00:00 -0600");
    assert_eq!(t.local_iso_extended, "2025-08-16T06:00:00-06:00");
    assert_eq!(t.local_iso_basic, "20250816T060000-0600");
    assert_eq!(t.local_week_date, "2025-W33-6");
    assert_eq!(t.local_ordinal_date, "2025-228");
    assert_eq!(t.local_with_tzname, "2025-08-16 06:00:00 MDT-06:00");
    assert_eq!(t.utc_rfc3339, "2025-08-16T12:00:00Z");
    assert_eq!(t.utc_rfc2822, "Sat, 16 Aug 2025 12:00:00 +0000");
    assert_eq!(t.utc_iso_extended, "2025-08-16T12:00:00Z");
    assert_eq!(t.utc_iso_basic, "20250816T120000Z");
    assert_eq!(t.epoch_seconds, 1755345600);
    assert_eq!(t.epoch_milliseconds, 1755345600000);
    assert_eq!(t.epoch_microseconds, 1755345600000000);
    assert_eq!(t.epoch_nanoseconds, 1755345600000000000);
}

#[test]
fn this_wednesday_is_today() {
    let t = compute("wednesday", None, Mode::This, WED_NOON_UTC).unwrap();
    assert_eq!(t.local_date_only, "2025-08-13");
    assert_eq!(t.local_time_only, "06:00:00");
    // Today's occurrence at the preserved time of day is "now" itself.
    assert_eq!(t.epoch_seconds, WED_NOON_UTC);
}

#[test]
fn next_wednesday_is_a_week_ahead() {
    let t = compute("wednesday", None, Mode::Next, WED_NOON_UTC).unwrap();
    assert_eq!(t.local_date_only, "2025-08-20");
    assert_eq!(t.epoch_seconds, WED_NOON_UTC + 7 * 86400);
}

#[test]
fn unknown_timezone_is_client_error() {
    let r = compute("friday", Some("Not/AZone"), Mode::Next, WED_NOON_UTC);
    let e = r.unwrap_err();
    assert_eq!(e, CoreError::InvalidTimezoneName);
    assert_eq!(e.http_status(), 400);
    assert_eq!(e.message(), "invalid tz: failed to parse timezone");
}

#[test]
fn unknown_alias_is_client_error() {
    let r = compute("xyz", None, Mode::Next, WED_NOON_UTC);
    let e = r.unwrap_err();
    assert_eq!(e, CoreError::InvalidWeekdayAlias);
    assert_eq!(e.http_status(), 400);
    assert!(e.message().starts_with("expected a weekday like"));
}

#[test]
fn mixed_case_aliases_resolve_identically() {
    let a = compute("saturday", None, Mode::Next, WED_NOON_UTC).unwrap();
    let b = compute("SATURDAY", None, Mode::Next, WED_NOON_UTC).unwrap();
    let c = compute("SaT", None, Mode::Next, WED_NOON_UTC).unwrap();
    assert_eq!(b.local_rfc3339, a.local_rfc3339);
    assert_eq!(b.epoch_seconds, a.epoch_seconds);
    assert_eq!(c.local_rfc3339, a.local_rfc3339);
    assert_eq!(c.epoch_seconds, a.epoch_seconds);
}

#[test]
fn aliases_of_one_weekday_agree() {
    let a = compute("sat", None, Mode::Next, WED_NOON_UTC).unwrap();
    let b = compute("saturday", None, Mode::Next, WED_NOON_UTC).unwrap();
    assert_eq!(a.local_rfc3339, b.local_rfc3339);
    assert_eq!(a.utc_rfc3339, b.utc_rfc3339);
    assert_eq!(a.epoch_seconds, b.epoch_seconds);
}

#[test]
fn identical_inputs_identical_output() {
    let a = compute("friday", Some("Europe/Berlin"), Mode::Next, WED_NOON_UTC).unwrap();
    let b = compute("friday", Some("Europe/Berlin"), Mode::Next, WED_NOON_UTC).unwrap();
    assert!(outputs_equal(&a, &b));
}

#[test]
fn timezone_lookup_is_case_insensitive() {
    let a = compute("monday", Some("canada/mountain"), Mode::Next, WED_NOON_UTC).unwrap();
    assert_eq!(a.input_timezone, "Canada/Mountain");
    let b = compute("monday", None, Mode::Next, WED_NOON_UTC).unwrap();
    assert!(outputs_equal(&a, &b));
}

// 2025-03-05T09:30:00Z: Wednesday 02:30 in America/Denver (MST, UTC-7).
const WED_0230_DENVER: i64 = 1741167000;

#[test]
fn skipped_local_time_falls_back_to_midnight() {
    // 2025-03-09 02:30 does not exist in Denver (spring forward).
    let t = compute("sunday", Some("America/Denver"), Mode::Next, WED_0230_DENVER).unwrap();
    assert_eq!(t.local_date_only, "2025-03-09");
    assert_eq!(t.local_time_only, "00:00:00");
    assert_eq!(t.local_rfc3339, "2025-03-09T00:00:00-07:00");
    assert_eq!(t.epoch_seconds, 1741503600);
}

// 2025-10-29T07:30:00Z: Wednesday 01:30 in America/Denver (MDT, UTC-6).
const WED_0130_DENVER: i64 = 1761723000;

#[test]
fn ambiguous_local_time_falls_back_to_midnight() {
    // 2025-11-02 01:30 happens twice in Denver (fall back).
    let t = compute("sunday", Some("America/Denver"), Mode::Next, WED_0130_DENVER).unwrap();
    assert_eq!(t.local_date_only, "2025-11-02");
    assert_eq!(t.local_time_only, "00:00:00");
    assert_eq!(t.local_rfc3339, "2025-11-02T00:00:00-06:00");
    assert_eq!(t.epoch_seconds, 1762063200);
}

// 2017-10-11T03:30:00Z: Wednesday 00:30 in America/Sao_Paulo (UTC-3).
const WED_0030_SAO_PAULO: i64 = 1507692600;

#[test]
fn unresolvable_midnight_is_server_error() {
    // On 2017-10-15 Sao Paulo's clocks jumped from 00:00 to 01:00, so both
    // 00:30 and the midnight fallback are nonexistent.
    let r = compute("sunday", Some("America/Sao_Paulo"), Mode::Next, WED_0030_SAO_PAULO);
    let e = r.unwrap_err();
    assert_eq!(e, CoreError::UnresolvableLocalTime);
    assert_eq!(e.http_status(), 500);
    assert_eq!(
        e.message(),
        "failed to construct next datetime in timezone (possible DST transition issue)"
    );
}

#[test]
fn input_weekday_echoes_raw_alias() {
    let t = compute("SaT", None, Mode::Next, WED_NOON_UTC).unwrap();
    assert_eq!(t.input_weekday, "SaT");
}

#[test]
fn positive_offset_zone_renders_plus() {
    // Tokyo never observes DST; 2025-08-13T12:00:00Z is 21:00 local.
    let t = compute("wednesday", Some("Asia/Tokyo"), Mode::This, WED_NOON_UTC).unwrap();
    assert_eq!(t.local_rfc3339, "2025-08-13T21:00:00+09:00");
    assert_eq!(t.local_iso_basic, "20250813T210000+0900");
    assert_eq!(t.local_with_tzname, "2025-08-13 21:00:00 JST+09:00");
    assert_eq!(t.epoch_seconds, WED_NOON_UTC);
}

#[test]
fn this_mode_crossing_into_next_week() {
    // From Wednesday, "this monday" is five days ahead (the cycle runs
    // Monday through Sunday from the base date).
    let t = compute("monday", None, Mode::This, WED_NOON_UTC).unwrap();
    assert_eq!(t.local_date_only, "2025-08-18");
}

#[test]
fn nanoseconds_zero_when_out_of_range() {
    // 2262-04-12T00:00:00Z is past the last instant whose nanosecond count
    // fits a signed 64-bit integer.
    let far: i64 = 9223372800;
    let t = compute("monday", Some("UTC"), Mode::Next, far).unwrap();
    assert_eq!(t.epoch_nanoseconds, 0);
    assert_eq!(t.epoch_milliseconds, t.epoch_seconds * 1000);
}
