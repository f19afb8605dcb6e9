//! Proleptic Gregorian calendar dates as plain (year, month, day) values,
//! with a linear day numbering (0001-01-01 is day 0) that underlies all
//! weekday and offset arithmetic.

use vstd::arithmetic::div_mod::{lemma_fundamental_div_mod, lemma_fundamental_div_mod_converse};
use vstd::prelude::*;

verus! {

/// A calendar date in the proleptic Gregorian calendar.
#[derive(Clone, Copy, PartialEq, Eq, Structural, Debug)]
pub struct CalendarDate {
    pub year: i32,
    pub month: u8,
    pub day: u8,
}

/// A wall-clock time of day at whole-second resolution.
#[derive(Clone, Copy, PartialEq, Eq, Structural, Debug)]
pub struct TimeOfDay {
    pub hour: u8,
    pub minute: u8,
    pub second: u8,
}

pub open spec fn is_leap_year(y: int) -> bool {
    (y % 4 == 0 && y % 100 != 0) || y % 400 == 0
}

pub open spec fn year_length(y: int) -> int {
    if is_leap_year(y) {
        366
    } else {
        365
    }
}

pub open spec fn days_in_month(y: int, m: int) -> int {
    if m == 2 {
        if is_leap_year(y) {
            29
        } else {
            28
        }
    } else if m == 4 || m == 6 || m == 9 || m == 11 {
        30
    } else {
        31
    }
}

/// Days strictly before the first day of year `y`, counting from 0001-01-01.
pub open spec fn days_before_year(y: int) -> int
    decreases y,
{
    if y <= 1 {
        0
    } else {
        days_before_year(y - 1) + year_length(y - 1)
    }
}

/// Days of year `y` strictly before the first day of month `m`.
pub open spec fn days_before_month(y: int, m: int) -> int
    decreases m,
{
    if m <= 1 {
        0
    } else {
        days_before_month(y, m - 1) + days_in_month(y, m - 1)
    }
}

impl CalendarDate {
    /// A representable date: month and day are in range and the year lies in
    /// the four-digit span the renderings cover.
    pub open spec fn spec_valid(self) -> bool {
        &&& 1 <= self.year <= 9999
        &&& 1 <= self.month <= 12
        &&& 1 <= self.day <= days_in_month(self.year as int, self.month as int)
    }

    /// Linear day number of this date: 0001-01-01 is day 0, which was a
    /// Monday, so `day_number % 7` is the canonical weekday index.
    pub open spec fn day_number(self) -> int {
        days_before_year(self.year as int) + days_before_month(
            self.year as int,
            self.month as int,
        ) + (self.day as int - 1)
    }
}

impl TimeOfDay {
    pub open spec fn spec_valid(self) -> bool {
        self.hour < 24 && self.minute < 60 && self.second < 60
    }

    /// Seconds since local midnight.
    pub open spec fn seconds_of_day(self) -> int {
        3600 * self.hour as int + 60 * self.minute as int + self.second as int
    }
}

/// Seconds since 0001-01-01T00:00:00 of a date plus a time of day.
pub open spec fn abs_seconds(d: CalendarDate, t: TimeOfDay) -> int {
    86400 * d.day_number() + t.seconds_of_day()
}

/// The unique valid date carrying the given day number (unique by
/// `lemma_day_number_injective`).
pub open spec fn date_of_day_number_spec(n: int) -> CalendarDate {
    choose|d: CalendarDate| d.spec_valid() && d.day_number() == n
}

/// Stepping the divisor boundary: how `x / d` relates to `(x - 1) / d`.
proof fn lemma_div_step(x: int, d: int)
    requires
        x >= 1,
        d >= 1,
    ensures
        x % d == 0 ==> x / d == (x - 1) / d + 1,
        x % d != 0 ==> x / d == (x - 1) / d,
{
    let q = x / d;
    let r = x % d;
    lemma_fundamental_div_mod(x, d);
    if r == 0 {
        assert(x - 1 == (q - 1) * d + (d - 1)) by (nonlinear_arith)
            requires
                x == d * q + r,
                r == 0,
        ;
        lemma_fundamental_div_mod_converse(x - 1, d, q - 1, d - 1);
    } else {
        assert(x - 1 == q * d + (r - 1)) by (nonlinear_arith)
            requires
                x == d * q + r,
        ;
        lemma_fundamental_div_mod_converse(x - 1, d, q, r - 1);
    }
}

/// Divisibility by 400 implies divisibility by 100, and by 100 implies by 4.
proof fn lemma_divides_coarser(x: int)
    requires
        x >= 0,
    ensures
        x % 400 == 0 ==> x % 100 == 0,
        x % 100 == 0 ==> x % 4 == 0,
{
    if x % 400 == 0 {
        lemma_fundamental_div_mod(x, 400);
        lemma_fundamental_div_mod_converse(x, 100, 4 * (x / 400), 0);
    }
    if x % 100 == 0 {
        lemma_fundamental_div_mod(x, 100);
        lemma_fundamental_div_mod_converse(x, 4, 25 * (x / 100), 0);
    }
}

/// Closed form of `days_before_year` via the Gregorian leap-year counts.
pub proof fn lemma_days_before_year_closed(y: int)
    requires
        y >= 1,
    ensures
        days_before_year(y) == 365 * (y - 1) + (y - 1) / 4 - (y - 1) / 100 + (y - 1) / 400,
    decreases y,
{
    if y == 1 {
    } else {
        lemma_days_before_year_closed(y - 1);
        let x = y - 1;
        lemma_div_step(x, 4);
        lemma_div_step(x, 100);
        lemma_div_step(x, 400);
        lemma_divides_coarser(x);
    }
}

/// Total days in years 1 through 9999.
pub proof fn lemma_days_before_year_10000()
    ensures
        days_before_year(10000) == 3652059,
{
    lemma_days_before_year_closed(10000);
}

/// Total days in years 1 through 9998.
pub proof fn lemma_days_before_year_9999()
    ensures
        days_before_year(9999) == 3651694,
{
    lemma_days_before_year_closed(9999);
}

/// Year spans grow by 365 to 366 days per year.
pub proof fn lemma_days_before_year_bounds(y1: int, y2: int)
    requires
        1 <= y1 <= y2,
    ensures
        days_before_year(y1) + 365 * (y2 - y1) <= days_before_year(y2),
        days_before_year(y2) <= days_before_year(y1) + 366 * (y2 - y1),
    decreases y2 - y1,
{
    if y1 < y2 {
        lemma_days_before_year_bounds(y1, y2 - 1);
    }
}

/// Month spans grow by 28 to 31 days per month.
pub proof fn lemma_days_before_month_bounds(y: int, m1: int, m2: int)
    requires
        1 <= m1 <= m2,
    ensures
        days_before_month(y, m1) + 28 * (m2 - m1) <= days_before_month(y, m2),
        days_before_month(y, m2) <= days_before_month(y, m1) + 31 * (m2 - m1),
    decreases m2 - m1,
{
    if m1 < m2 {
        lemma_days_before_month_bounds(y, m1, m2 - 1);
    }
}

/// The twelve months together cover exactly the year.
pub proof fn lemma_months_cover_year(y: int)
    ensures
        days_before_month(y, 13) == year_length(y),
{
    assert(days_before_month(y, 2) == days_before_month(y, 1) + days_in_month(y, 1));
    assert(days_before_month(y, 3) == days_before_month(y, 2) + days_in_month(y, 2));
    assert(days_before_month(y, 4) == days_before_month(y, 3) + days_in_month(y, 3));
    assert(days_before_month(y, 5) == days_before_month(y, 4) + days_in_month(y, 4));
    assert(days_before_month(y, 6) == days_before_month(y, 5) + days_in_month(y, 5));
    assert(days_before_month(y, 7) == days_before_month(y, 6) + days_in_month(y, 6));
    assert(days_before_month(y, 8) == days_before_month(y, 7) + days_in_month(y, 7));
    assert(days_before_month(y, 9) == days_before_month(y, 8) + days_in_month(y, 8));
    assert(days_before_month(y, 10) == days_before_month(y, 9) + days_in_month(y, 9));
    assert(days_before_month(y, 11) == days_before_month(y, 10) + days_in_month(y, 10));
    assert(days_before_month(y, 12) == days_before_month(y, 11) + days_in_month(y, 11));
    assert(days_before_month(y, 13) == days_before_month(y, 12) + days_in_month(y, 12));
}

/// A valid date's day number falls inside its year's span of days.
pub proof fn lemma_day_number_in_year(d: CalendarDate)
    requires
        d.spec_valid(),
    ensures
        days_before_year(d.year as int) <= d.day_number(),
        d.day_number() < days_before_year(d.year as int + 1),
        d.day_number() < days_before_year(d.year as int) + year_length(d.year as int),
{
    let y = d.year as int;
    let m = d.month as int;
    lemma_days_before_month_bounds(y, 1, m);
    assert(days_before_month(y, m + 1) == days_before_month(y, m) + days_in_month(y, m));
    lemma_days_before_month_bounds(y, m + 1, 13);
    lemma_months_cover_year(y);
    assert(days_before_year(y + 1) == days_before_year(y) + year_length(y));
}

/// Distinct valid dates have distinct day numbers.
pub proof fn lemma_day_number_injective(a: CalendarDate, b: CalendarDate)
    requires
        a.spec_valid(),
        b.spec_valid(),
        a.day_number() == b.day_number(),
    ensures
        a == b,
{
    lemma_day_number_in_year(a);
    lemma_day_number_in_year(b);
    if a.year < b.year {
        lemma_days_before_year_bounds(a.year as int + 1, b.year as int);
        assert(false);
    }
    if b.year < a.year {
        lemma_days_before_year_bounds(b.year as int + 1, a.year as int);
        assert(false);
    }
    let y = a.year as int;
    if a.month < b.month {
        assert(days_before_month(y, a.month as int + 1) == days_before_month(y, a.month as int)
            + days_in_month(y, a.month as int));
        lemma_days_before_month_bounds(y, a.month as int + 1, b.month as int);
        assert(false);
    }
    if b.month < a.month {
        assert(days_before_month(y, b.month as int + 1) == days_before_month(y, b.month as int)
            + days_in_month(y, b.month as int));
        lemma_days_before_month_bounds(y, b.month as int + 1, a.month as int);
        assert(false);
    }
}

/// Hence the chosen date for a day number is the one that produced it.
pub proof fn lemma_date_of_day_number_unique(d: CalendarDate)
    requires
        d.spec_valid(),
    ensures
        date_of_day_number_spec(d.day_number()) == d,
{
    let n = d.day_number();
    assert(d.spec_valid() && d.day_number() == n);
    let c = date_of_day_number_spec(n);
    assert(c.spec_valid() && c.day_number() == n);
    lemma_day_number_injective(c, d);
}

pub fn leap_year(y: i32) -> (b: bool)
    requires
        y >= 1,
    ensures
        b == is_leap_year(y as int),
{
    (y % 4 == 0 && y % 100 != 0) || y % 400 == 0
}

pub fn month_len(y: i32, m: u8) -> (n: u8)
    requires
        y >= 1,
        1 <= m <= 12,
    ensures
        n as int == days_in_month(y as int, m as int),
{
    if m == 2 {
        if leap_year(y) {
            29
        } else {
            28
        }
    } else if m == 4 || m == 6 || m == 9 || m == 11 {
        30
    } else {
        31
    }
}

/// Day number of a valid date, by summing whole years, then whole months.
pub fn day_number_of(d: CalendarDate) -> (n: i64)
    requires
        d.spec_valid(),
    ensures
        n == d.day_number(),
        0 <= n < 3652059,
{
    let mut acc: i64 = 0;
    let mut y: i32 = 1;
    while y < d.year
        invariant
            1 <= y <= d.year,
            d.spec_valid(),
            acc == days_before_year(y as int),
            0 <= acc <= 366 * (y - 1),
        decreases d.year - y,
    {
        let len: i64 = if leap_year(y) {
            366
        } else {
            365
        };
        proof {
            assert(days_before_year(y as int + 1) == days_before_year(y as int) + year_length(
                y as int,
            ));
            lemma_days_before_year_bounds(1, y as int + 1);
        }
        acc = acc + len;
        y = y + 1;
    }
    let mut m: u8 = 1;
    while m < d.month
        invariant
            1 <= m <= d.month,
            d.spec_valid(),
            y == d.year,
            acc == days_before_year(y as int) + days_before_month(y as int, m as int),
            0 <= acc <= 366 * (y - 1) + 31 * (m - 1),
        decreases d.month - m,
    {
        let len: u8 = month_len(y, m);
        proof {
            assert(days_before_month(y as int, m as int + 1) == days_before_month(
                y as int,
                m as int,
            ) + days_in_month(y as int, m as int));
        }
        acc = acc + len as i64;
        m = m + 1;
    }
    proof {
        lemma_day_number_in_year(d);
        lemma_days_before_year_bounds(1, d.year as int + 1);
        lemma_days_before_year_bounds(d.year as int + 1, 10000);
        lemma_days_before_year_10000();
    }
    acc + (d.day as i64 - 1)
}

/// The valid date with the given day number, by scanning years, then months.
pub fn date_of_day_number(n: i64) -> (d: CalendarDate)
    requires
        0 <= n < 3652059,
    ensures
        d.spec_valid(),
        d.day_number() == n,
{
    let mut acc: i64 = 0;
    let mut y: i32 = 1;
    loop
        invariant
            1 <= y <= 9999,
            0 <= n < 3652059,
            acc == days_before_year(y as int),
            0 <= acc <= n,
        ensures
            1 <= y <= 9999,
            acc == days_before_year(y as int),
            acc <= n < acc + year_length(y as int),
        decreases 9999 - y,
    {
        let len: i64 = if leap_year(y) {
            366
        } else {
            365
        };
        if acc + len > n {
            break ;
        }
        proof {
            assert(days_before_year(y as int + 1) == days_before_year(y as int) + year_length(
                y as int,
            ));
            lemma_days_before_year_10000();
            if y as int + 1 == 10000 {
                assert(false);
            }
            lemma_days_before_year_bounds(y as int + 1, 10000);
        }
        acc = acc + len;
        y = y + 1;
    }
    let mut rem: i64 = n - acc;
    let mut m: u8 = 1;
    proof {
        lemma_months_cover_year(y as int);
    }
    loop
        invariant
            1 <= m <= 12,
            y >= 1,
            rem == n - days_before_year(y as int) - days_before_month(y as int, m as int),
            0 <= rem,
            n - days_before_year(y as int) < year_length(y as int),
            days_before_month(y as int, 13) == year_length(y as int),
        ensures
            1 <= m <= 12,
            rem == n - days_before_year(y as int) - days_before_month(y as int, m as int),
            0 <= rem < days_in_month(y as int, m as int),
        decreases 12 - m,
    {
        let len: u8 = month_len(y, m);
        if rem < len as i64 {
            break ;
        }
        proof {
            assert(days_before_month(y as int, m as int + 1) == days_before_month(
                y as int,
                m as int,
            ) + days_in_month(y as int, m as int));
            if m as int + 1 == 13 {
                assert(false);
            }
            lemma_days_before_month_bounds(y as int, m as int + 1, 13);
        }
        rem = rem - len as i64;
        m = m + 1;
    }
    CalendarDate { year: y, month: m, day: (rem + 1) as u8 }
}

/// Ordinal day of the year, 1-based.
pub open spec fn day_of_year(d: CalendarDate) -> int {
    days_before_month(d.year as int, d.month as int) + d.day as int
}

/// Weekday of January 1 of year `y`, as canonical index (Monday = 0).
pub open spec fn jan1_weekday(y: int) -> int {
    days_before_year(y) % 7
}

/// An ISO week-numbering year with 53 weeks: it starts on a Thursday, or on
/// a Wednesday of a leap year.
pub open spec fn is_long_iso_year(y: int) -> bool {
    jan1_weekday(y) == 3 || (is_leap_year(y) && jan1_weekday(y) == 2)
}

/// ISO weekday, Monday = 1 … Sunday = 7.
pub open spec fn iso_weekday(d: CalendarDate) -> int {
    d.day_number() % 7 + 1
}

/// Raw ISO week count: 0 means the last week of the previous ISO year, 53
/// may overflow into week 1 of the next.
pub open spec fn iso_week_raw(d: CalendarDate) -> int {
    (day_of_year(d) - iso_weekday(d) + 10) / 7
}

/// The ISO week-numbering year of a date.
pub open spec fn iso_week_year(d: CalendarDate) -> int {
    if iso_week_raw(d) == 0 {
        d.year as int - 1
    } else if iso_week_raw(d) == 53 && !is_long_iso_year(d.year as int) {
        d.year as int + 1
    } else {
        d.year as int
    }
}

/// The ISO week number of a date, 1 … 53.
pub open spec fn iso_week(d: CalendarDate) -> int {
    if iso_week_raw(d) == 0 {
        if is_long_iso_year(d.year as int - 1) {
            53
        } else {
            52
        }
    } else if iso_week_raw(d) == 53 && !is_long_iso_year(d.year as int) {
        1
    } else {
        iso_week_raw(d)
    }
}

/// ISO week-date fields (week year, week number) of a valid date.
pub fn iso_week_fields(d: CalendarDate) -> (r: (i32, u8))
    requires
        d.spec_valid(),
        d.year <= 9998,
    ensures
        r.0 as int == iso_week_year(d),
        r.1 as int == iso_week(d),
        0 <= r.0 <= 9999,
        1 <= r.1 <= 53,
{
    let n: i64 = day_number_of(d);
    let jan1 = CalendarDate { year: d.year, month: 1, day: 1 };
    let n1: i64 = day_number_of(jan1);
    let doy: i64 = n - n1 + 1;
    let wd: i64 = ((n as u64 % 7) as i64) + 1;
    proof {
        assert(days_before_month(d.year as int, 1) == 0);
        lemma_days_before_month_bounds(d.year as int, 1, d.month as int);
        assert(doy == day_of_year(d));
        lemma_fundamental_div_mod(n as int, 7);
        assert(doy - wd + 10 >= 0) by {
            assert(n - 7 * (n / 7) >= 0);
        };
    }
    let raw: i64 = ((doy - wd + 10) as u64 / 7) as i64;
    if raw == 0 {
        proof {
            if d.year == 1 {
                assert(days_before_year(1) == 0);
                assert(n == doy - 1);
                assert(false);
            }
        }
        let prev = CalendarDate { year: d.year - 1, month: 1, day: 1 };
        let p1: i64 = day_number_of(prev);
        let pw: u8 = (p1 as u64 % 7) as u8;
        let long_prev: bool = pw == 3 || (leap_year(d.year - 1) && pw == 2);
        proof {
            assert(days_before_month(prev.year as int, 1) == 0);
            assert(p1 == days_before_year(d.year as int - 1));
        }
        if long_prev {
            (d.year - 1, 53)
        } else {
            (d.year - 1, 52)
        }
    } else {
        let jw: u8 = (n1 as u64 % 7) as u8;
        proof {
            assert(n1 == days_before_year(d.year as int));
        }
        let long_here: bool = jw == 3 || (leap_year(d.year) && jw == 2);
        if raw == 53 && !long_here {
            (d.year + 1, 1)
        } else {
            proof {
                assert(day_of_year(d) <= 366) by {
                    lemma_months_cover_year(d.year as int);
                    lemma_days_before_month_bounds(d.year as int, d.month as int + 1, 13);
                    assert(days_before_month(d.year as int, d.month as int + 1)
                        == days_before_month(d.year as int, d.month as int) + days_in_month(
                        d.year as int,
                        d.month as int,
                    ));
                };
            }
            (d.year, raw as u8)
        }
    }
}

/// A second count since 0001-01-01T00:00:00 decomposes into one date and one
/// time of day.
pub fn decompose_abs_seconds(abs: i64) -> (r: (CalendarDate, TimeOfDay))
    requires
        0 <= abs < 3652059 * 86400,
    ensures
        r.0.spec_valid(),
        r.1.spec_valid(),
        abs_seconds(r.0, r.1) == abs,
        r.0 == date_of_day_number_spec(abs as int / 86400),
        r.0.day_number() == abs as int / 86400,
        r.1.hour as int == abs as int % 86400 / 3600,
        r.1.minute as int == abs as int % 86400 % 3600 / 60,
        r.1.second as int == abs as int % 86400 % 3600 % 60,
{
    let total: u64 = abs as u64;
    let days: u64 = total / 86400;
    let sod: u64 = total % 86400;
    let h: u64 = sod / 3600;
    let rem: u64 = sod % 3600;
    let mi: u64 = rem / 60;
    let s: u64 = rem % 60;
    proof {
        lemma_fundamental_div_mod(total as int, 86400);
        lemma_fundamental_div_mod(sod as int, 3600);
        lemma_fundamental_div_mod(rem as int, 60);
    }
    let date: CalendarDate = date_of_day_number(days as i64);
    let tod = TimeOfDay { hour: h as u8, minute: mi as u8, second: s as u8 };
    proof {
        lemma_date_of_day_number_unique(date);
    }
    (date, tod)
}

/// That decomposition is the only one: equal second counts built from valid
/// parts come from equal parts.
pub proof fn lemma_abs_seconds_injective(
    d1: CalendarDate,
    t1: TimeOfDay,
    d2: CalendarDate,
    t2: TimeOfDay,
)
    requires
        d1.spec_valid(),
        t1.spec_valid(),
        d2.spec_valid(),
        t2.spec_valid(),
        abs_seconds(d1, t1) == abs_seconds(d2, t2),
    ensures
        d1 == d2,
        t1 == t2,
{
    let a = abs_seconds(d1, t1);
    lemma_fundamental_div_mod_converse(a, 86400, d1.day_number(), t1.seconds_of_day());
    lemma_fundamental_div_mod_converse(a, 86400, d2.day_number(), t2.seconds_of_day());
    lemma_day_number_injective(d1, d2);
    let sod = t1.seconds_of_day();
    lemma_fundamental_div_mod_converse(
        sod,
        3600,
        t1.hour as int,
        60 * t1.minute as int + t1.second as int,
    );
    lemma_fundamental_div_mod_converse(
        sod,
        3600,
        t2.hour as int,
        60 * t2.minute as int + t2.second as int,
    );
    let rem = 60 * t1.minute as int + t1.second as int;
    lemma_fundamental_div_mod_converse(rem, 60, t1.minute as int, t1.second as int);
    lemma_fundamental_div_mod_converse(rem, 60, t2.minute as int, t2.second as int);
}

} // verus!
