//! The weekday resolver: from a base date and a target weekday, the date of
//! the current-cycle or strictly-next occurrence of that weekday.

use crate::date::{date_of_day_number, day_number_of, CalendarDate};
use crate::date::{lemma_day_number_in_year, lemma_day_number_injective};
use crate::date::{lemma_days_before_year_10000, lemma_days_before_year_bounds};
use crate::weekday::Weekday;
use vstd::prelude::*;

verus! {

/// Whether the resolver may return the base date itself (`This`) or must move
/// strictly into the future (`Next`).
#[derive(Clone, Copy, PartialEq, Eq, Structural, Debug)]
pub enum Mode {
    This,
    Next,
}

/// Days ahead of the base date at which the target weekday occurs: the gap
/// modulo 7, except that `Next` turns a gap of 0 into a full week.
pub open spec fn resolve_offset(base_wd: int, target_wd: int, mode: Mode) -> int {
    let delta = (7 + target_wd - base_wd) % 7;
    if mode == Mode::Next && delta == 0 {
        7
    } else {
        delta
    }
}

/// The date of the `mode`-occurrence of `target`, counted from `base`.
///
/// The result is exactly `resolve_offset` days ahead, which keeps it inside
/// the rolling window `[base, base + 7]`.
pub fn resolve(base: CalendarDate, target: Weekday, mode: Mode) -> (r: CalendarDate)
    requires
        base.spec_valid(),
        base.year <= 9998,
    ensures
        r.spec_valid(),
        r.day_number() == base.day_number() + resolve_offset(
            base.day_number() % 7,
            target.spec_index(),
            mode,
        ),
        mode == Mode::Next ==> 1 <= r.day_number() - base.day_number() <= 7,
        mode == Mode::This ==> 0 <= r.day_number() - base.day_number() <= 6,
{
    let n: i64 = day_number_of(base);
    let wd: u8 = ((n as u64) % 7) as u8;
    let ti: u8 = target.index();
    let delta: u8 = (((7 + ti as u64) - wd as u64) % 7) as u8;
    let off: u8 = if mode == Mode::Next && delta == 0 {
        7
    } else {
        delta
    };
    proof {
        lemma_day_number_in_year(base);
        lemma_days_before_year_bounds(base.year as int + 1, 10000);
        lemma_days_before_year_10000();
    }
    date_of_day_number(n + off as i64)
}

/// In `Next` mode the resolver never returns the base date itself.
pub proof fn lemma_next_moves(base: CalendarDate, r: CalendarDate, target: Weekday)
    requires
        base.spec_valid(),
        r.spec_valid(),
        r.day_number() == base.day_number() + resolve_offset(
            base.day_number() % 7,
            target.spec_index(),
            Mode::Next,
        ),
    ensures
        r != base,
{
    assert(r.day_number() != base.day_number());
}

/// In `This` mode the resolver returns the base date itself exactly when the
/// base date's weekday already is the target.
pub proof fn lemma_this_fixed_point(base: CalendarDate, r: CalendarDate, target: Weekday)
    requires
        base.spec_valid(),
        r.spec_valid(),
        r.day_number() == base.day_number() + resolve_offset(
            base.day_number() % 7,
            target.spec_index(),
            Mode::This,
        ),
    ensures
        r == base <==> Weekday::spec_from_index(base.day_number() % 7) == target,
{
    let w = base.day_number() % 7;
    let t = target.spec_index();
    crate::weekday::lemma_weekday_index_roundtrip(target);
    if Weekday::spec_from_index(w) == target {
        assert(t == w);
        assert(resolve_offset(w, t, Mode::This) == 0);
        lemma_day_number_injective(base, r);
    }
    if r == base {
        assert((7 + t - w) % 7 == 0);
        assert(t == w);
    }
}

/// Two aliases that parse to the same weekday resolve to the same offset for
/// every base weekday and mode: alias normalization is lossless.
pub proof fn lemma_aliases_resolve_identically(
    a1: Seq<char>,
    a2: Seq<char>,
    w: Weekday,
    base_wd: int,
    mode: Mode,
)
    requires
        crate::weekday::spec_parse_weekday(a1) == Some(w),
        crate::weekday::spec_parse_weekday(a2) == Some(w),
    ensures
        resolve_offset(base_wd, crate::weekday::spec_parse_weekday(a1).unwrap().spec_index(), mode)
            == resolve_offset(
            base_wd,
            crate::weekday::spec_parse_weekday(a2).unwrap().spec_index(),
            mode,
        ),
{
}

} // verus!
