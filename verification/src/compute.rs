//! The end-to-end pipeline: parse the alias, resolve the timezone, resolve
//! the weekday, build the timezone-aware instant with the midnight fallback,
//! and project it into every rendering.

use crate::date::{abs_seconds, date_of_day_number_spec, decompose_abs_seconds, CalendarDate};
use crate::date::{day_number_of, lemma_abs_seconds_injective, lemma_date_of_day_number_unique};
use crate::date::{lemma_days_before_year_10000, lemma_days_before_year_9999, TimeOfDay};
use crate::tz::{civil_to_epoch_single, default_zone, default_zone_name, lookup_zone};
use crate::tz::{zone_civil_to_epoch, zone_lookup, zone_offset};
use vstd::prelude::*;

verus! {

/// The three failure kinds of the pipeline.
#[derive(Clone, Copy, PartialEq, Eq, Structural, Debug)]
pub enum CoreError {
    /// The input string matches no alias table entry.
    InvalidWeekdayAlias,
    /// The input string does not resolve in the timezone database.
    InvalidTimezoneName,
    /// Neither the requested time of day nor the midnight fallback denotes
    /// exactly one instant in the zone.
    UnresolvableLocalTime,
}

impl CoreError {
    pub fn message(&self) -> (r: &'static str)
        ensures
            *self == CoreError::InvalidWeekdayAlias ==> r@
                == "expected a weekday like /next/saturday?tz=America/New_York or /next/sunday?tz=Canada/Eastern"@,
            *self == CoreError::InvalidTimezoneName ==> r@
                == "invalid tz: failed to parse timezone"@,
            *self == CoreError::UnresolvableLocalTime ==> r@
                == "failed to construct next datetime in timezone (possible DST transition issue)"@,
    {
        match self {
            CoreError::InvalidWeekdayAlias => "expected a weekday like /next/saturday?tz=America/New_York or /next/sunday?tz=Canada/Eastern",
            CoreError::InvalidTimezoneName => "invalid tz: failed to parse timezone",
            CoreError::UnresolvableLocalTime => "failed to construct next datetime in timezone (possible DST transition issue)",
        }
    }

    /// The HTTP status the request handler maps this error to: client errors
    /// for bad input, a server error for the unresolvable DST edge case.
    pub fn http_status(&self) -> (r: u16)
        ensures
            r == 500 <==> *self == CoreError::UnresolvableLocalTime,
            r == 400 <==> *self != CoreError::UnresolvableLocalTime,
    {
        match self {
            CoreError::UnresolvableLocalTime => 500,
            _ => 400,
        }
    }
}

/// A timezone-aware instant: local wall-clock fields, the zone's canonical
/// name, the concrete UTC offset they were resolved with, and the epoch
/// second they denote.
pub struct ResolvedInstant {
    pub zone: String,
    pub date: CalendarDate,
    pub tod: TimeOfDay,
    pub offset_seconds: i32,
    pub epoch_seconds: i64,
}

impl ResolvedInstant {
    /// Well-formed: the fields are in range, the offset is the zone's offset
    /// at the instant, and local wall-clock and epoch agree through it.
    pub open spec fn wf(self) -> bool {
        &&& self.date.spec_valid()
        &&& self.tod.spec_valid()
        &&& -86400 < self.offset_seconds < 86400
        &&& zone_lookup(self.zone@) == Some(self.zone@)
        &&& self.offset_seconds as int == zone_offset(self.zone@, self.epoch_seconds as int)
        &&& self.epoch_seconds as int == abs_seconds(self.date, self.tod) - 62135596800
            - self.offset_seconds as int
    }
}

/// Resolves an optional timezone name: absent names fall back to the fixed
/// default zone; present names are looked up case-insensitively, and unknown
/// ones are a client error.
pub fn resolve_timezone(timezone_name: Option<&str>) -> (r: Result<String, CoreError>)
    ensures
        match r {
            Ok(z) => {
                &&& zone_lookup(z@) == Some(z@)
                &&& match timezone_name {
                    Some(s) => zone_lookup(s@) == Some(z@),
                    None => z@ == default_zone_name(),
                }
            },
            Err(e) => {
                &&& e == CoreError::InvalidTimezoneName
                &&& timezone_name is Some
                &&& zone_lookup(timezone_name.unwrap()@) is None
            },
        },
{
    match timezone_name {
        None => Ok(default_zone()),
        Some(s) => match lookup_zone(s) {
            Some(z) => Ok(z),
            None => Err(CoreError::InvalidTimezoneName),
        },
    }
}

/// Builds the timezone-aware instant at `date` + `tod` in `zone`.
///
/// If the wall-clock reading denotes exactly one instant, that instant is
/// returned with the time of day preserved; if it is skipped or repeated
/// (a daylight-saving transition), the same date at midnight is tried; if
/// that is also not unique, the pipeline fails with its one server error.
pub fn build_instant(zone: &str, date: CalendarDate, tod: TimeOfDay) -> (r: Result<
    ResolvedInstant,
    CoreError,
>)
    requires
        zone_lookup(zone@) == Some(zone@),
        date.spec_valid(),
        tod.spec_valid(),
        1 <= date.day_number() < 3651694,
    ensures
        ({
            let prim = zone_civil_to_epoch(
                zone@,
                date.year as int,
                date.month as int,
                date.day as int,
                tod.hour as int,
                tod.minute as int,
                tod.second as int,
            );
            let mid = zone_civil_to_epoch(
                zone@,
                date.year as int,
                date.month as int,
                date.day as int,
                0,
                0,
                0,
            );
            match r {
                Ok(inst) => {
                    &&& inst.wf()
                    &&& inst.zone@ == zone@
                    &&& inst.date == date
                    &&& if prim is Some {
                        inst.tod == tod && prim == Some(inst.epoch_seconds as int)
                    } else {
                        inst.tod == (TimeOfDay { hour: 0, minute: 0, second: 0 }) && mid == Some(
                            inst.epoch_seconds as int,
                        )
                    }
                },
                Err(e) => {
                    &&& e == CoreError::UnresolvableLocalTime
                    &&& prim is None
                    &&& mid is None
                },
            }
        }),
{
    let n: i64 = day_number_of(date);
    match civil_to_epoch_single(zone, date, tod) {
        Some(e) => {
            let off64: i64 = n * 86400 + 3600 * tod.hour as i64 + 60 * tod.minute as i64
                + tod.second as i64 - 62135596800 - e;
            Ok(
                ResolvedInstant {
                    zone: String::from_str(zone),
                    date,
                    tod,
                    offset_seconds: off64 as i32,
                    epoch_seconds: e,
                },
            )
        },
        None => {
            let midnight = TimeOfDay { hour: 0, minute: 0, second: 0 };
            match civil_to_epoch_single(zone, date, midnight) {
                Some(e) => {
                    let off64: i64 = n * 86400 - 62135596800 - e;
                    Ok(
                        ResolvedInstant {
                            zone: String::from_str(zone),
                            date,
                            tod: midnight,
                            offset_seconds: off64 as i32,
                            epoch_seconds: e,
                        },
                    )
                },
                None => Err(CoreError::UnresolvableLocalTime),
            }
        },
    }
}

/// Every rendering of one resolved computation, grouped as the response
/// groups them: the echoed input, local and UTC renderings, and the four
/// epoch granularities.
#[derive(Debug)]
pub struct FormattedTimestamps {
    pub input_weekday: String,
    pub input_timezone: String,
    pub local_rfc3339: String,
    pub local_rfc3339_micros: String,
    pub local_rfc2822: String,
    pub local_iso_extended: String,
    pub local_iso_basic: String,
    pub local_date_only: String,
    pub local_time_only: String,
    pub local_week_date: String,
    pub local_ordinal_date: String,
    pub local_with_tzname: String,
    pub utc_rfc3339: String,
    pub utc_rfc2822: String,
    pub utc_iso_extended: String,
    pub utc_iso_basic: String,
    pub epoch_seconds: i64,
    pub epoch_milliseconds: i64,
    pub epoch_microseconds: i64,
    pub epoch_nanoseconds: i64,
}

/// What every field of a successful result is: each rendering is the exact
/// projection of the local fields `(ld, lt)`, the UTC fields `(ud, ut)`, the
/// epoch second `e`, and the zone's abbreviation `ab`; the local offset is
/// the gap between local wall-clock seconds and the epoch second.
pub open spec fn ok_post(
    t: FormattedTimestamps,
    alias: Seq<char>,
    zone: Seq<char>,
    ld: CalendarDate,
    lt: TimeOfDay,
    ud: CalendarDate,
    ut: TimeOfDay,
    e: int,
    ab: Option<Seq<char>>,
) -> bool {
    let off = abs_seconds(ld, lt) - 62135596800 - e;
    &&& t.input_weekday@ == alias
    &&& t.input_timezone@ == zone
    &&& t.local_rfc3339@ == crate::fmt::extended_chars(ld, lt, off)
    &&& t.local_rfc3339_micros@ == crate::fmt::extended_micros_chars(ld, lt, off)
    &&& t.local_rfc2822@ == crate::fmt::rfc2822_chars(ld, lt, off)
    &&& t.local_iso_extended@ == crate::fmt::extended_chars(ld, lt, off)
    &&& t.local_iso_basic@ == crate::fmt::basic_chars(ld, lt, off)
    &&& t.local_date_only@ == crate::fmt::date_chars(ld)
    &&& t.local_time_only@ == crate::fmt::time_chars(lt)
    &&& t.local_week_date@ == crate::fmt::week_date_chars(ld)
    &&& t.local_ordinal_date@ == crate::fmt::ordinal_chars(ld)
    &&& t.local_with_tzname@ == crate::fmt::with_tzname_chars(ld, lt, off, ab)
    &&& t.utc_rfc3339@ == crate::fmt::extended_z_chars(ud, ut)
    &&& t.utc_rfc2822@ == crate::fmt::rfc2822_chars(ud, ut, 0)
    &&& t.utc_iso_extended@ == crate::fmt::extended_z_chars(ud, ut)
    &&& t.utc_iso_basic@ == crate::fmt::basic_z_chars(ud, ut)
    &&& t.epoch_seconds as int == e
    &&& t.epoch_milliseconds as int == e * 1000
    &&& t.epoch_microseconds as int == e * 1000000
    &&& t.epoch_nanoseconds as int == (if -9223372036 <= e <= 9223372036 {
        e * 1000000000
    } else {
        0
    })
}

/// Projects a resolved computation into every rendering; pure formatting,
/// no date arithmetic.
fn render(
    alias: &str,
    zone: &str,
    ld: CalendarDate,
    lt: TimeOfDay,
    ud: CalendarDate,
    ut: TimeOfDay,
    off: i32,
    e: i64,
    ab: Option<String>,
) -> (t: FormattedTimestamps)
    requires
        ld.spec_valid(),
        lt.spec_valid(),
        ud.spec_valid(),
        ut.spec_valid(),
        ld.year <= 9998,
        -86400 < off < 86400,
        -62200000000 <= e <= 253500000000,
        off as int == abs_seconds(ld, lt) - 62135596800 - e as int,
    ensures
        ok_post(
            t,
            alias@,
            zone@,
            ld,
            lt,
            ud,
            ut,
            e as int,
            if ab is Some {
                Some(ab.unwrap()@)
            } else {
                None
            },
        ),
{
    let nanos: i64 = if -9223372036 <= e && e <= 9223372036 {
        e * 1000000000
    } else {
        0
    };
    FormattedTimestamps {
        input_weekday: String::from_str(alias),
        input_timezone: String::from_str(zone),
        local_rfc3339: crate::fmt::fmt_extended(ld, lt, off),
        local_rfc3339_micros: crate::fmt::fmt_extended_micros(ld, lt, off),
        local_rfc2822: crate::fmt::fmt_rfc2822(ld, lt, off),
        local_iso_extended: crate::fmt::fmt_extended(ld, lt, off),
        local_iso_basic: crate::fmt::fmt_basic(ld, lt, off),
        local_date_only: crate::fmt::fmt_date_only(ld),
        local_time_only: crate::fmt::fmt_time_only(lt),
        local_week_date: crate::fmt::fmt_week_date(ld),
        local_ordinal_date: crate::fmt::fmt_ordinal(ld),
        local_with_tzname: crate::fmt::fmt_with_tzname(ld, lt, off, ab),
        utc_rfc3339: crate::fmt::fmt_extended_z(ud, ut),
        utc_rfc2822: crate::fmt::fmt_rfc2822(ud, ut, 0),
        utc_iso_extended: crate::fmt::fmt_extended_z(ud, ut),
        utc_iso_basic: crate::fmt::fmt_basic_z(ud, ut),
        epoch_seconds: e,
        epoch_milliseconds: e * 1000,
        epoch_microseconds: e * 1000000,
        epoch_nanoseconds: nanos,
    }
}

/// The time-of-day fields carried by a second count since 0001-01-01.
pub open spec fn tod_of_abs(abs: int) -> TimeOfDay {
    TimeOfDay {
        hour: (abs % 86400 / 3600) as u8,
        minute: (abs % 86400 % 3600 / 60) as u8,
        second: (abs % 86400 % 3600 % 60) as u8,
    }
}

/// The whole pipeline, as a relation between the inputs and the result:
/// which error comes on which inputs, and what every field of a successful
/// result is. Everything in it is a function of the inputs, so the result is
/// fully determined by them.
pub open spec fn compute_post(
    alias: Seq<char>,
    tzname: Option<Seq<char>>,
    mode: crate::resolve::Mode,
    now: int,
    r: Result<FormattedTimestamps, CoreError>,
) -> bool {
    let target = crate::weekday::spec_parse_weekday(alias);
    if target is None {
        r == Err::<FormattedTimestamps, CoreError>(CoreError::InvalidWeekdayAlias)
    } else {
        let req = match tzname {
            Some(s) => s,
            None => default_zone_name(),
        };
        match zone_lookup(req) {
            None => r == Err::<FormattedTimestamps, CoreError>(CoreError::InvalidTimezoneName),
            Some(zone) => {
                let local_abs = now + 62135596800 + zone_offset(zone, now);
                let base_days = local_abs / 86400;
                let lt = tod_of_abs(local_abs);
                let tdn = base_days + crate::resolve::resolve_offset(
                    base_days % 7,
                    target.unwrap().spec_index(),
                    mode,
                );
                let td = date_of_day_number_spec(tdn);
                let prim = zone_civil_to_epoch(
                    zone,
                    td.year as int,
                    td.month as int,
                    td.day as int,
                    lt.hour as int,
                    lt.minute as int,
                    lt.second as int,
                );
                let mid = zone_civil_to_epoch(
                    zone,
                    td.year as int,
                    td.month as int,
                    td.day as int,
                    0,
                    0,
                    0,
                );
                match prim {
                    Some(e) => r is Ok && ok_post(
                        r.unwrap(),
                        alias,
                        zone,
                        td,
                        lt,
                        date_of_day_number_spec((e + 62135596800) / 86400),
                        tod_of_abs(e + 62135596800),
                        e,
                        crate::tz::zone_abbrev(zone, e),
                    ),
                    None => match mid {
                        Some(e) => r is Ok && ok_post(
                            r.unwrap(),
                            alias,
                            zone,
                            td,
                            TimeOfDay { hour: 0, minute: 0, second: 0 },
                            date_of_day_number_spec((e + 62135596800) / 86400),
                            tod_of_abs(e + 62135596800),
                            e,
                            crate::tz::zone_abbrev(zone, e),
                        ),
                        None => r == Err::<FormattedTimestamps, CoreError>(
                            CoreError::UnresolvableLocalTime,
                        ),
                    },
                }
            },
        }
    }
}

/// Computes every rendering of the `mode`-occurrence of the aliased weekday,
/// in the named timezone (or the fixed default), counted from `now_utc`
/// (epoch seconds), preserving the local time of day of `now_utc` except on
/// the documented midnight fallback.
#[verifier::rlimit(100)]
pub fn compute(
    weekday_alias: &str,
    timezone_name: Option<&str>,
    mode: crate::resolve::Mode,
    now_utc: i64,
) -> (r: Result<FormattedTimestamps, CoreError>)
    requires
        -62135424000 <= now_utc <= 253369900800,
    ensures
        compute_post(
            weekday_alias@,
            match timezone_name {
                Some(s) => Some(s@),
                None => None,
            },
            mode,
            now_utc as int,
            r,
        ),
{
    let target = match crate::weekday::parse_weekday(weekday_alias) {
        Some(w) => w,
        None => {
            return Err(CoreError::InvalidWeekdayAlias);
        },
    };
    let zone: String = match resolve_timezone(timezone_name) {
        Ok(z) => z,
        Err(e) => {
            return Err(e);
        },
    };
    let off_now: i32 = crate::tz::offset_at(zone.as_str(), now_utc);
    let local_abs: i64 = now_utc + 62135596800 + off_now as i64;
    proof {
        lemma_days_before_year_9999();
        lemma_days_before_year_10000();
        vstd::arithmetic::div_mod::lemma_fundamental_div_mod(local_abs as int, 86400);
    }
    let today_tod = decompose_abs_seconds(local_abs);
    let today: CalendarDate = today_tod.0;
    let now_tod: TimeOfDay = today_tod.1;
    proof {
        crate::date::lemma_day_number_in_year(today);
        if today.year == 9999 {
            assert(false);
        }
    }
    let target_date: CalendarDate = crate::resolve::resolve(today, target, mode);
    proof {
        crate::date::lemma_date_of_day_number_unique(target_date);
    }
    let inst: ResolvedInstant = match build_instant(zone.as_str(), target_date, now_tod) {
        Ok(i) => i,
        Err(e) => {
            return Err(e);
        },
    };
    let utc_abs: i64 = inst.epoch_seconds + 62135596800;
    proof {
        vstd::arithmetic::div_mod::lemma_fundamental_div_mod(utc_abs as int, 86400);
        crate::date::lemma_day_number_in_year(inst.date);
        if inst.date.year == 9999 {
            assert(crate::date::days_before_year(9999) <= inst.date.day_number());
            assert(false);
        }
    }
    let ab: Option<String> = crate::tz::abbrev_at(zone.as_str(), inst.epoch_seconds);
    let utc_fields = decompose_abs_seconds(utc_abs);
    let t: FormattedTimestamps = render(
        weekday_alias,
        zone.as_str(),
        inst.date,
        inst.tod,
        utc_fields.0,
        utc_fields.1,
        inst.offset_seconds,
        inst.epoch_seconds,
        ab,
    );
    Ok(t)
}

/// Idempotence: any two results that the pipeline's specification admits for
/// the same inputs carry identical output, field for field.
pub open spec fn same_output(a: FormattedTimestamps, b: FormattedTimestamps) -> bool {
    &&& a.input_weekday@ == b.input_weekday@
    &&& a.input_timezone@ == b.input_timezone@
    &&& a.local_rfc3339@ == b.local_rfc3339@
    &&& a.local_rfc3339_micros@ == b.local_rfc3339_micros@
    &&& a.local_rfc2822@ == b.local_rfc2822@
    &&& a.local_iso_extended@ == b.local_iso_extended@
    &&& a.local_iso_basic@ == b.local_iso_basic@
    &&& a.local_date_only@ == b.local_date_only@
    &&& a.local_time_only@ == b.local_time_only@
    &&& a.local_week_date@ == b.local_week_date@
    &&& a.local_ordinal_date@ == b.local_ordinal_date@
    &&& a.local_with_tzname@ == b.local_with_tzname@
    &&& a.utc_rfc3339@ == b.utc_rfc3339@
    &&& a.utc_rfc2822@ == b.utc_rfc2822@
    &&& a.utc_iso_extended@ == b.utc_iso_extended@
    &&& a.utc_iso_basic@ == b.utc_iso_basic@
    &&& a.epoch_seconds == b.epoch_seconds
    &&& a.epoch_milliseconds == b.epoch_milliseconds
    &&& a.epoch_microseconds == b.epoch_microseconds
    &&& a.epoch_nanoseconds == b.epoch_nanoseconds
}

pub open spec fn same_result(
    r1: Result<FormattedTimestamps, CoreError>,
    r2: Result<FormattedTimestamps, CoreError>,
) -> bool {
    match (r1, r2) {
        (Ok(a), Ok(b)) => same_output(a, b),
        (Err(a), Err(b)) => a == b,
        _ => false,
    }
}

/// Idempotence of the pipeline: identical inputs (alias, timezone, mode and
/// the same `now`) admit only byte-identical output.
pub proof fn lemma_compute_deterministic(
    alias: Seq<char>,
    tzname: Option<Seq<char>>,
    mode: crate::resolve::Mode,
    now: int,
    r1: Result<FormattedTimestamps, CoreError>,
    r2: Result<FormattedTimestamps, CoreError>,
)
    requires
        compute_post(alias, tzname, mode, now, r1),
        compute_post(alias, tzname, mode, now, r2),
    ensures
        same_result(r1, r2),
{
}

/// Round trip: converting a resolved instant's epoch second back to local
/// wall-clock fields in its zone, through the zone's offset at that instant,
/// reproduces exactly the date and time of day the instant carries.
pub proof fn lemma_instant_round_trip(inst: ResolvedInstant, d2: CalendarDate, t2: TimeOfDay)
    requires
        inst.wf(),
        d2.spec_valid(),
        t2.spec_valid(),
        abs_seconds(d2, t2) == inst.epoch_seconds as int + 62135596800 + zone_offset(
            inst.zone@,
            inst.epoch_seconds as int,
        ),
    ensures
        d2 == inst.date,
        t2 == inst.tod,
{
    lemma_abs_seconds_injective(inst.date, inst.tod, d2, t2);
}

} // verus!
