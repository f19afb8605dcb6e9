//! The timezone database boundary: the few lookups that only the compiled-in
//! IANA table can answer, each behind a trusted wrapper whose contract names
//! what the table returns, together with the verified timezone resolution.

use crate::date::{CalendarDate, TimeOfDay};
use chrono::Offset;
use chrono::TimeZone;
use chrono_tz::OffsetName;
use vstd::prelude::*;

verus! {

/// The canonical zone name that the timezone database resolves an input name
/// to, case-insensitively; `None` for names it does not know.
pub uninterp spec fn zone_lookup(name: Seq<char>) -> Option<Seq<char>>;

/// The UTC offset, in seconds, of a zone at a given instant.
pub uninterp spec fn zone_offset(zone: Seq<char>, epoch_secs: int) -> int;

/// The epoch second that a local wall-clock reading in a zone denotes, when
/// it denotes exactly one instant; `None` when the reading is skipped or
/// repeated around a daylight-saving transition.
pub uninterp spec fn zone_civil_to_epoch(
    zone: Seq<char>,
    y: int,
    mo: int,
    d: int,
    h: int,
    mi: int,
    s: int,
) -> Option<int>;

/// The zone's short name ("MDT") at a given instant; `None` for zones whose
/// offset at that instant only has a numeric form.
pub uninterp spec fn zone_abbrev(zone: Seq<char>, epoch_secs: int) -> Option<Seq<char>>;

/// The fixed default timezone used when a request names none.
pub open spec fn default_zone_name() -> Seq<char> {
    "Canada/Mountain"@
}

/// Relies on chrono_tz::Tz::from_str_insensitive, an ASCII-case-insensitive
/// lookup in the compiled-in IANA table, and chrono_tz::Tz::name, which
/// returns the canonical spelling; that spelling is itself a key of the
/// table, mapped to the same zone.
#[verifier::external_body]
pub(crate) fn lookup_zone(name: &str) -> (r: Option<String>)
    ensures
        match r {
            Some(z) => zone_lookup(name@) == Some(z@) && zone_lookup(z@) == Some(z@),
            None => zone_lookup(name@) is None,
        },
{
    match chrono_tz::Tz::from_str_insensitive(name) {
        Ok(tz) => Some(tz.name().to_string()),
        Err(_) => None,
    }
}

/// Relies on chrono_tz::Canada::Mountain being a zone of the table whose
/// canonical name is "Canada/Mountain".
#[verifier::external_body]
pub(crate) fn default_zone() -> (r: String)
    ensures
        r@ == default_zone_name(),
        zone_lookup(r@) == Some(r@),
{
    chrono_tz::Canada::Mountain.name().to_string()
}

/// Relies on chrono_tz's offset_from_utc_datetime: every instant has exactly
/// one UTC offset in a zone, and chrono's FixedOffset keeps offsets strictly
/// within one day.
#[verifier::external_body]
pub(crate) fn offset_at(zone: &str, epoch_secs: i64) -> (off: i32)
    requires
        zone_lookup(zone@) == Some(zone@),
        -62200000000 <= epoch_secs <= 253500000000,
    ensures
        off as int == zone_offset(zone@, epoch_secs as int),
        -86400 < off < 86400,
{
    let tz: chrono_tz::Tz = match chrono_tz::Tz::from_str_insensitive(zone) {
        Ok(t) => t,
        Err(_) => return 0,
    };
    let utc = match chrono::DateTime::from_timestamp(epoch_secs, 0) {
        Some(dt) => dt,
        None => return 0,
    };
    tz.offset_from_utc_datetime(&utc.naive_utc()).fix().local_minus_utc()
}

/// Relies on chrono's TimeZone::with_ymd_and_hms together with
/// MappedLocalTime::single: `Some` exactly when the wall-clock fields denote
/// one UTC instant in the zone, and DateTime::timestamp: that instant's epoch
/// second differs from the local second count by the zone's offset at the
/// instant.
#[verifier::external_body]
pub(crate) fn civil_to_epoch_single(zone: &str, date: CalendarDate, tod: TimeOfDay) -> (r: Option<i64>)
    requires
        zone_lookup(zone@) == Some(zone@),
        date.spec_valid(),
        tod.spec_valid(),
    ensures
        match r {
            Some(e) => {
                &&& zone_civil_to_epoch(
                    zone@,
                    date.year as int,
                    date.month as int,
                    date.day as int,
                    tod.hour as int,
                    tod.minute as int,
                    tod.second as int,
                ) == Some(e as int)
                &&& e as int == crate::date::abs_seconds(date, tod) - 62135596800 - zone_offset(
                    zone@,
                    e as int,
                )
                &&& -86400 < zone_offset(zone@, e as int) < 86400
            },
            None => zone_civil_to_epoch(
                zone@,
                date.year as int,
                date.month as int,
                date.day as int,
                tod.hour as int,
                tod.minute as int,
                tod.second as int,
            ) is None,
        },
{
    let tz: chrono_tz::Tz = match chrono_tz::Tz::from_str_insensitive(zone) {
        Ok(t) => t,
        Err(_) => return None,
    };
    match tz.with_ymd_and_hms(
        date.year,
        date.month as u32,
        date.day as u32,
        tod.hour as u32,
        tod.minute as u32,
        tod.second as u32,
    ).single() {
        Some(dt) => Some(dt.timestamp()),
        None => None,
    }
}

/// Relies on chrono_tz's OffsetName::abbreviation: the zone's short name at
/// the instant, absent where the zone's offset only has a numeric form.
#[verifier::external_body]
pub(crate) fn abbrev_at(zone: &str, epoch_secs: i64) -> (r: Option<String>)
    requires
        zone_lookup(zone@) == Some(zone@),
        -62200000000 <= epoch_secs <= 253500000000,
    ensures
        match r {
            Some(a) => zone_abbrev(zone@, epoch_secs as int) == Some(a@),
            None => zone_abbrev(zone@, epoch_secs as int) is None,
        },
{
    let tz: chrono_tz::Tz = match chrono_tz::Tz::from_str_insensitive(zone) {
        Ok(t) => t,
        Err(_) => return None,
    };
    let utc = match chrono::DateTime::from_timestamp(epoch_secs, 0) {
        Some(dt) => dt,
        None => return None,
    };
    match tz.offset_from_utc_datetime(&utc.naive_utc()).abbreviation() {
        Some(a) => Some(a.to_string()),
        None => None,
    }
}

} // verus!
