//! The timestamp formatter: every rendering is a pure projection of a
//! resolved instant's plain fields into a character sequence, specified
//! exactly and built by verified code.

use crate::date::{day_number_of, day_of_year, iso_week, iso_week_fields, iso_week_year};
use crate::date::{iso_weekday, CalendarDate, TimeOfDay};
use vstd::prelude::*;

verus! {

pub open spec fn digit_char(d: int) -> char {
    seq!['0', '1', '2', '3', '4', '5', '6', '7', '8', '9'][d]
}

/// Two decimal digits, zero padded.
pub open spec fn dec2(n: int) -> Seq<char> {
    seq![digit_char(n / 10 % 10), digit_char(n % 10)]
}

/// Three decimal digits, zero padded.
pub open spec fn dec3(n: int) -> Seq<char> {
    seq![digit_char(n / 100 % 10), digit_char(n / 10 % 10), digit_char(n % 10)]
}

/// Four decimal digits, zero padded.
pub open spec fn dec4(n: int) -> Seq<char> {
    seq![digit_char(n / 1000 % 10), digit_char(n / 100 % 10), digit_char(n / 10 % 10), digit_char(n % 10)]
}

fn digit_str(d: u64) -> (r: &'static str)
    requires
        d < 10,
    ensures
        r@ == seq![digit_char(d as int)],
{
    proof {
        reveal_strlit("0");
        reveal_strlit("1");
        reveal_strlit("2");
        reveal_strlit("3");
        reveal_strlit("4");
        reveal_strlit("5");
        reveal_strlit("6");
        reveal_strlit("7");
        reveal_strlit("8");
        reveal_strlit("9");
    }
    let r: &'static str = if d == 0 {
        "0"
    } else if d == 1 {
        "1"
    } else if d == 2 {
        "2"
    } else if d == 3 {
        "3"
    } else if d == 4 {
        "4"
    } else if d == 5 {
        "5"
    } else if d == 6 {
        "6"
    } else if d == 7 {
        "7"
    } else if d == 8 {
        "8"
    } else {
        "9"
    };
    proof {
        assert(r@ =~= seq![digit_char(d as int)]);
    }
    r
}

fn push_dec2(out: &mut String, n: u64)
    requires
        n < 100,
    ensures
        final(out)@ == old(out)@ + dec2(n as int),
{
    out.append(digit_str(n / 10));
    out.append(digit_str(n % 10));
    proof {
        assert(out@ =~= old(out)@ + dec2(n as int));
    }
}

fn push_dec3(out: &mut String, n: u64)
    requires
        n < 1000,
    ensures
        final(out)@ == old(out)@ + dec3(n as int),
{
    out.append(digit_str(n / 100));
    out.append(digit_str(n / 10 % 10));
    out.append(digit_str(n % 10));
    proof {
        assert(out@ =~= old(out)@ + dec3(n as int));
    }
}

fn push_dec4(out: &mut String, n: u64)
    requires
        n < 10000,
    ensures
        final(out)@ == old(out)@ + dec4(n as int),
{
    out.append(digit_str(n / 1000));
    out.append(digit_str(n / 100 % 10));
    out.append(digit_str(n / 10 % 10));
    out.append(digit_str(n % 10));
    proof {
        assert(out@ =~= old(out)@ + dec4(n as int));
    }
}

/// A UTC offset as `+HH:MM` / `-HH:MM`, minutes truncated.
pub open spec fn offset_colon(off: int) -> Seq<char> {
    let a = if off < 0 {
        -off
    } else {
        off
    };
    (if off < 0 {
        "-"@
    } else {
        "+"@
    }) + dec2(a / 3600) + ":"@ + dec2(a % 3600 / 60)
}

/// A UTC offset as `+HHMM` / `-HHMM`, minutes truncated.
pub open spec fn offset_basic(off: int) -> Seq<char> {
    let a = if off < 0 {
        -off
    } else {
        off
    };
    (if off < 0 {
        "-"@
    } else {
        "+"@
    }) + dec2(a / 3600) + dec2(a % 3600 / 60)
}

fn push_offset(out: &mut String, off: i32, colon: bool)
    requires
        -86400 < off < 86400,
    ensures
        colon ==> final(out)@ == old(out)@ + offset_colon(off as int),
        !colon ==> final(out)@ == old(out)@ + offset_basic(off as int),
{
    let a: u64 = if off < 0 {
        out.append("-");
        (-off) as u64
    } else {
        out.append("+");
        off as u64
    };
    push_dec2(out, a / 3600);
    if colon {
        out.append(":");
    }
    push_dec2(out, a % 3600 / 60);
    proof {
        if colon {
            assert(out@ =~= old(out)@ + offset_colon(off as int));
        } else {
            assert(out@ =~= old(out)@ + offset_basic(off as int));
        }
    }
}

/// `YYYY-MM-DD`.
pub open spec fn date_chars(d: CalendarDate) -> Seq<char> {
    dec4(d.year as int) + "-"@ + dec2(d.month as int) + "-"@ + dec2(d.day as int)
}

/// `HH:MM:SS`.
pub open spec fn time_chars(t: TimeOfDay) -> Seq<char> {
    dec2(t.hour as int) + ":"@ + dec2(t.minute as int) + ":"@ + dec2(t.second as int)
}

fn push_date(out: &mut String, d: CalendarDate)
    requires
        d.spec_valid(),
    ensures
        final(out)@ == old(out)@ + date_chars(d),
{
    push_dec4(out, d.year as u64);
    out.append("-");
    push_dec2(out, d.month as u64);
    out.append("-");
    push_dec2(out, d.day as u64);
    proof {
        assert(out@ =~= old(out)@ + date_chars(d));
    }
}

fn push_time(out: &mut String, t: TimeOfDay)
    requires
        t.spec_valid(),
    ensures
        final(out)@ == old(out)@ + time_chars(t),
{
    push_dec2(out, t.hour as u64);
    out.append(":");
    push_dec2(out, t.minute as u64);
    out.append(":");
    push_dec2(out, t.second as u64);
    proof {
        assert(out@ =~= old(out)@ + time_chars(t));
    }
}

/// Extended ISO-8601 / RFC-3339 with numeric offset:
/// `YYYY-MM-DDTHH:MM:SS+HH:MM`.
pub open spec fn extended_chars(d: CalendarDate, t: TimeOfDay, off: int) -> Seq<char> {
    date_chars(d) + "T"@ + time_chars(t) + offset_colon(off)
}

/// RFC-3339 at microsecond precision; instants carry whole seconds, so the
/// fraction is always zero: `YYYY-MM-DDTHH:MM:SS.000000+HH:MM`.
pub open spec fn extended_micros_chars(d: CalendarDate, t: TimeOfDay, off: int) -> Seq<char> {
    date_chars(d) + "T"@ + time_chars(t) + ".000000"@ + offset_colon(off)
}

/// Basic ISO-8601 with numeric offset: `YYYYMMDDTHHMMSS+HHMM`.
pub open spec fn basic_chars(d: CalendarDate, t: TimeOfDay, off: int) -> Seq<char> {
    dec4(d.year as int) + dec2(d.month as int) + dec2(d.day as int) + "T"@ + dec2(t.hour as int)
        + dec2(t.minute as int) + dec2(t.second as int) + offset_basic(off)
}

/// Extended ISO-8601 of a UTC reading: `YYYY-MM-DDTHH:MM:SSZ`.
pub open spec fn extended_z_chars(d: CalendarDate, t: TimeOfDay) -> Seq<char> {
    date_chars(d) + "T"@ + time_chars(t) + "Z"@
}

/// Basic ISO-8601 of a UTC reading: `YYYYMMDDTHHMMSSZ`.
pub open spec fn basic_z_chars(d: CalendarDate, t: TimeOfDay) -> Seq<char> {
    dec4(d.year as int) + dec2(d.month as int) + dec2(d.day as int) + "T"@ + dec2(t.hour as int)
        + dec2(t.minute as int) + dec2(t.second as int) + "Z"@
}

pub fn fmt_extended(d: CalendarDate, t: TimeOfDay, off: i32) -> (r: String)
    requires
        d.spec_valid(),
        t.spec_valid(),
        -86400 < off < 86400,
    ensures
        r@ == extended_chars(d, t, off as int),
{
    let mut out: String = String::new();
    push_date(&mut out, d);
    out.append("T");
    push_time(&mut out, t);
    push_offset(&mut out, off, true);
    proof {
        assert(out@ =~= extended_chars(d, t, off as int));
    }
    out
}

pub fn fmt_extended_micros(d: CalendarDate, t: TimeOfDay, off: i32) -> (r: String)
    requires
        d.spec_valid(),
        t.spec_valid(),
        -86400 < off < 86400,
    ensures
        r@ == extended_micros_chars(d, t, off as int),
{
    let mut out: String = String::new();
    push_date(&mut out, d);
    out.append("T");
    push_time(&mut out, t);
    out.append(".000000");
    push_offset(&mut out, off, true);
    proof {
        assert(out@ =~= extended_micros_chars(d, t, off as int));
    }
    out
}

pub fn fmt_basic(d: CalendarDate, t: TimeOfDay, off: i32) -> (r: String)
    requires
        d.spec_valid(),
        t.spec_valid(),
        -86400 < off < 86400,
    ensures
        r@ == basic_chars(d, t, off as int),
{
    let mut out: String = String::new();
    push_dec4(&mut out, d.year as u64);
    push_dec2(&mut out, d.month as u64);
    push_dec2(&mut out, d.day as u64);
    out.append("T");
    push_dec2(&mut out, t.hour as u64);
    push_dec2(&mut out, t.minute as u64);
    push_dec2(&mut out, t.second as u64);
    push_offset(&mut out, off, false);
    proof {
        assert(out@ =~= basic_chars(d, t, off as int));
    }
    out
}

pub fn fmt_extended_z(d: CalendarDate, t: TimeOfDay) -> (r: String)
    requires
        d.spec_valid(),
        t.spec_valid(),
    ensures
        r@ == extended_z_chars(d, t),
{
    let mut out: String = String::new();
    push_date(&mut out, d);
    out.append("T");
    push_time(&mut out, t);
    out.append("Z");
    proof {
        assert(out@ =~= extended_z_chars(d, t));
    }
    out
}

pub fn fmt_basic_z(d: CalendarDate, t: TimeOfDay) -> (r: String)
    requires
        d.spec_valid(),
        t.spec_valid(),
    ensures
        r@ == basic_z_chars(d, t),
{
    let mut out: String = String::new();
    push_dec4(&mut out, d.year as u64);
    push_dec2(&mut out, d.month as u64);
    push_dec2(&mut out, d.day as u64);
    out.append("T");
    push_dec2(&mut out, t.hour as u64);
    push_dec2(&mut out, t.minute as u64);
    push_dec2(&mut out, t.second as u64);
    out.append("Z");
    proof {
        assert(out@ =~= basic_z_chars(d, t));
    }
    out
}

pub fn fmt_date_only(d: CalendarDate) -> (r: String)
    requires
        d.spec_valid(),
    ensures
        r@ == date_chars(d),
{
    let mut out: String = String::new();
    push_date(&mut out, d);
    out
}

pub fn fmt_time_only(t: TimeOfDay) -> (r: String)
    requires
        t.spec_valid(),
    ensures
        r@ == time_chars(t),
{
    let mut out: String = String::new();
    push_time(&mut out, t);
    out
}

/// Three-letter English weekday name, by canonical index (Monday = 0).
pub open spec fn weekday_abbrev_chars(w: int) -> Seq<char> {
    if w == 0 {
        "Mon"@
    } else if w == 1 {
        "Tue"@
    } else if w == 2 {
        "Wed"@
    } else if w == 3 {
        "Thu"@
    } else if w == 4 {
        "Fri"@
    } else if w == 5 {
        "Sat"@
    } else {
        "Sun"@
    }
}

/// Three-letter English month name.
pub open spec fn month_abbrev_chars(m: int) -> Seq<char> {
    if m == 1 {
        "Jan"@
    } else if m == 2 {
        "Feb"@
    } else if m == 3 {
        "Mar"@
    } else if m == 4 {
        "Apr"@
    } else if m == 5 {
        "May"@
    } else if m == 6 {
        "Jun"@
    } else if m == 7 {
        "Jul"@
    } else if m == 8 {
        "Aug"@
    } else if m == 9 {
        "Sep"@
    } else if m == 10 {
        "Oct"@
    } else {
        if m == 11 {
            "Nov"@
        } else {
            "Dec"@
        }
    }
}

fn weekday_abbrev(w: u8) -> (r: &'static str)
    requires
        w < 7,
    ensures
        r@ == weekday_abbrev_chars(w as int),
{
    if w == 0 {
        "Mon"
    } else if w == 1 {
        "Tue"
    } else if w == 2 {
        "Wed"
    } else if w == 3 {
        "Thu"
    } else if w == 4 {
        "Fri"
    } else if w == 5 {
        "Sat"
    } else {
        "Sun"
    }
}

fn month_abbrev(m: u8) -> (r: &'static str)
    requires
        1 <= m <= 12,
    ensures
        r@ == month_abbrev_chars(m as int),
{
    if m == 1 {
        "Jan"
    } else if m == 2 {
        "Feb"
    } else if m == 3 {
        "Mar"
    } else if m == 4 {
        "Apr"
    } else if m == 5 {
        "May"
    } else if m == 6 {
        "Jun"
    } else if m == 7 {
        "Jul"
    } else if m == 8 {
        "Aug"
    } else if m == 9 {
        "Sep"
    } else if m == 10 {
        "Oct"
    } else if m == 11 {
        "Nov"
    } else {
        "Dec"
    }
}

/// RFC-2822: `Wed, 13 Aug 2025 15:04:05 -0600`.
pub open spec fn rfc2822_chars(d: CalendarDate, t: TimeOfDay, off: int) -> Seq<char> {
    weekday_abbrev_chars(d.day_number() % 7) + ", "@ + dec2(d.day as int) + " "@
        + month_abbrev_chars(d.month as int) + " "@ + dec4(d.year as int) + " "@ + time_chars(t)
        + " "@ + offset_basic(off)
}

pub fn fmt_rfc2822(d: CalendarDate, t: TimeOfDay, off: i32) -> (r: String)
    requires
        d.spec_valid(),
        t.spec_valid(),
        -86400 < off < 86400,
    ensures
        r@ == rfc2822_chars(d, t, off as int),
{
    let n: i64 = day_number_of(d);
    let wd: u8 = (n as u64 % 7) as u8;
    let mut out: String = String::new();
    out.append(weekday_abbrev(wd));
    out.append(", ");
    push_dec2(&mut out, d.day as u64);
    out.append(" ");
    out.append(month_abbrev(d.month));
    out.append(" ");
    push_dec4(&mut out, d.year as u64);
    out.append(" ");
    push_time(&mut out, t);
    out.append(" ");
    push_offset(&mut out, off, false);
    proof {
        assert(out@ =~= rfc2822_chars(d, t, off as int));
    }
    out
}

/// ISO week date: `GGGG-Www-D`.
pub open spec fn week_date_chars(d: CalendarDate) -> Seq<char> {
    dec4(iso_week_year(d)) + "-W"@ + dec2(iso_week(d)) + "-"@ + seq![digit_char(iso_weekday(d))]
}

pub fn fmt_week_date(d: CalendarDate) -> (r: String)
    requires
        d.spec_valid(),
        d.year <= 9998,
    ensures
        r@ == week_date_chars(d),
{
    let wf: (i32, u8) = iso_week_fields(d);
    let n: i64 = day_number_of(d);
    let wd: u64 = n as u64 % 7 + 1;
    let mut out: String = String::new();
    push_dec4(&mut out, wf.0 as u64);
    out.append("-W");
    push_dec2(&mut out, wf.1 as u64);
    out.append("-");
    out.append(digit_str(wd));
    proof {
        assert(out@ =~= week_date_chars(d));
    }
    out
}

/// Ordinal date: `YYYY-DDD`.
pub open spec fn ordinal_chars(d: CalendarDate) -> Seq<char> {
    dec4(d.year as int) + "-"@ + dec3(day_of_year(d))
}

pub fn fmt_ordinal(d: CalendarDate) -> (r: String)
    requires
        d.spec_valid(),
    ensures
        r@ == ordinal_chars(d),
{
    let n: i64 = day_number_of(d);
    let jan1 = CalendarDate { year: d.year, month: 1, day: 1 };
    let n1: i64 = day_number_of(jan1);
    let doy: u64 = (n - n1 + 1) as u64;
    proof {
        assert(crate::date::days_before_month(d.year as int, 1) == 0);
        crate::date::lemma_days_before_month_bounds(d.year as int, 1, d.month as int);
        crate::date::lemma_months_cover_year(d.year as int);
        crate::date::lemma_days_before_month_bounds(d.year as int, d.month as int + 1, 13);
        assert(crate::date::days_before_month(d.year as int, d.month as int + 1)
            == crate::date::days_before_month(d.year as int, d.month as int)
            + crate::date::days_in_month(d.year as int, d.month as int));
    }
    let mut out: String = String::new();
    push_dec4(&mut out, d.year as u64);
    out.append("-");
    push_dec3(&mut out, doy);
    proof {
        assert(out@ =~= ordinal_chars(d));
    }
    out
}

/// The zone label of the annotated rendering: the zone's short name where it
/// has one, otherwise the offset's numeric form (`+HH`, with minutes only
/// when they are nonzero).
pub open spec fn zone_label_chars(ab: Option<Seq<char>>, off: int) -> Seq<char> {
    match ab {
        Some(a) => a,
        None => {
            let v = if off < 0 {
                -off
            } else {
                off
            };
            (if off < 0 {
                "-"@
            } else {
                "+"@
            }) + dec2(v / 3600) + (if v % 3600 / 60 != 0 {
                dec2(v % 3600 / 60)
            } else {
                Seq::<char>::empty()
            })
        },
    }
}

/// Human-readable local rendering annotated with the zone label and offset:
/// `YYYY-MM-DD HH:MM:SS MDT-06:00`.
pub open spec fn with_tzname_chars(
    d: CalendarDate,
    t: TimeOfDay,
    off: int,
    ab: Option<Seq<char>>,
) -> Seq<char> {
    date_chars(d) + " "@ + time_chars(t) + " "@ + zone_label_chars(ab, off) + offset_colon(off)
}

pub fn fmt_with_tzname(d: CalendarDate, t: TimeOfDay, off: i32, ab: Option<String>) -> (r: String)
    requires
        d.spec_valid(),
        t.spec_valid(),
        -86400 < off < 86400,
    ensures
        r@ == with_tzname_chars(
            d,
            t,
            off as int,
            match ab {
                Some(a) => Some(a@),
                None => None,
            },
        ),
{
    let ghost abv: Option<Seq<char>> = if ab is Some {
        Some(ab.unwrap()@)
    } else {
        None
    };
    let mut out: String = String::new();
    push_date(&mut out, d);
    out.append(" ");
    push_time(&mut out, t);
    out.append(" ");
    match ab {
        Some(a) => {
            out.append(a.as_str());
        },
        None => {
            let v: u64 = if off < 0 {
                out.append("-");
                (-off) as u64
            } else {
                out.append("+");
                off as u64
            };
            push_dec2(&mut out, v / 3600);
            if v % 3600 / 60 != 0 {
                push_dec2(&mut out, v % 3600 / 60);
            }
        },
    }
    push_offset(&mut out, off, true);
    proof {
        assert(out@ =~= with_tzname_chars(d, t, off as int, abv));
    }
    out
}

} // verus!
