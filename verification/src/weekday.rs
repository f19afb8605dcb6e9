//! The seven weekdays with their canonical ordering, Monday first, used for
//! all day-of-week offset arithmetic.

use vstd::prelude::*;

verus! {

/// A day of the week in the proleptic Gregorian calendar.
#[derive(Clone, Copy, PartialEq, Eq, Structural, Debug)]
pub enum Weekday {
    Monday,
    Tuesday,
    Wednesday,
    Thursday,
    Friday,
    Saturday,
    Sunday,
}

impl Weekday {
    /// Canonical index used for offset arithmetic: Monday = 0 … Sunday = 6.
    pub open spec fn spec_index(self) -> int {
        match self {
            Weekday::Monday => 0,
            Weekday::Tuesday => 1,
            Weekday::Wednesday => 2,
            Weekday::Thursday => 3,
            Weekday::Friday => 4,
            Weekday::Saturday => 5,
            Weekday::Sunday => 6,
        }
    }

    /// The weekday with the given canonical index.
    pub open spec fn spec_from_index(i: int) -> Weekday {
        if i == 0 {
            Weekday::Monday
        } else if i == 1 {
            Weekday::Tuesday
        } else if i == 2 {
            Weekday::Wednesday
        } else if i == 3 {
            Weekday::Thursday
        } else if i == 4 {
            Weekday::Friday
        } else if i == 5 {
            Weekday::Saturday
        } else {
            Weekday::Sunday
        }
    }

    pub fn index(self) -> (i: u8)
        ensures
            i as int == self.spec_index(),
    {
        match self {
            Weekday::Monday => 0,
            Weekday::Tuesday => 1,
            Weekday::Wednesday => 2,
            Weekday::Thursday => 3,
            Weekday::Friday => 4,
            Weekday::Saturday => 5,
            Weekday::Sunday => 6,
        }
    }

    pub fn from_index(i: u8) -> (w: Weekday)
        requires
            i < 7,
        ensures
            w == Weekday::spec_from_index(i as int),
            w.spec_index() == i as int,
    {
        if i == 0 {
            Weekday::Monday
        } else if i == 1 {
            Weekday::Tuesday
        } else if i == 2 {
            Weekday::Wednesday
        } else if i == 3 {
            Weekday::Thursday
        } else if i == 4 {
            Weekday::Friday
        } else if i == 5 {
            Weekday::Saturday
        } else {
            Weekday::Sunday
        }
    }
}

/// Every weekday's canonical index maps back to that weekday.
pub proof fn lemma_weekday_index_roundtrip(w: Weekday)
    ensures
        Weekday::spec_from_index(w.spec_index()) == w,
{
}

/// ASCII lowercasing of a single character; everything else is unchanged.
pub open spec fn lower_char(c: char) -> char {
    if 'A' <= c && c <= 'Z' {
        ((c as u8) + 32) as char
    } else {
        c
    }
}

pub open spec fn lower_seq(s: Seq<char>) -> Seq<char> {
    s.map(|i: int, c: char| lower_char(c))
}

/// The fixed alias table, matched against the lowercased input: full names,
/// common abbreviations, and single letters where unambiguous.
pub open spec fn spec_parse_weekday(s: Seq<char>) -> Option<Weekday> {
    let l = lower_seq(s);
    if l == "monday"@ || l == "mon"@ || l == "m"@ {
        Some(Weekday::Monday)
    } else if l == "tuesday"@ || l == "tues"@ || l == "tue"@ || l == "t"@ {
        Some(Weekday::Tuesday)
    } else if l == "wednesday"@ || l == "wed"@ || l == "w"@ {
        Some(Weekday::Wednesday)
    } else if l == "thursday"@ || l == "thurs"@ || l == "thur"@ || l == "th"@ || l == "r"@ {
        Some(Weekday::Thursday)
    } else if l == "friday"@ || l == "fri"@ || l == "f"@ {
        Some(Weekday::Friday)
    } else if l == "saturday"@ || l == "sat"@ {
        Some(Weekday::Saturday)
    } else if l == "sunday"@ || l == "sun"@ {
        Some(Weekday::Sunday)
    } else {
        None
    }
}

fn lower_char_exec(c: char) -> (r: char)
    ensures
        r == lower_char(c),
{
    if c >= 'A' && c <= 'Z' {
        ((c as u8) + 32) as char
    } else {
        c
    }
}

/// The input lowercased character by character.
fn lower_chars(s: &str) -> (v: Vec<char>)
    ensures
        v@ == lower_seq(s@),
{
    let n: usize = s.unicode_len();
    let mut v: Vec<char> = Vec::new();
    let mut i: usize = 0;
    while i < n
        invariant
            i <= n,
            n == s@.len(),
            v@ == lower_seq(s@.subrange(0, i as int)),
        decreases n - i,
    {
        let c: char = s.get_char(i);
        v.push(lower_char_exec(c));
        proof {
            assert(v@ =~= lower_seq(s@.subrange(0, i as int + 1)));
        }
        i = i + 1;
    }
    proof {
        assert(s@.subrange(0, n as int) =~= s@);
    }
    v
}

/// Character-wise equality of a lowered input with one table entry.
fn chars_eq(v: &Vec<char>, lit: &str) -> (r: bool)
    ensures
        r == (v@ == lit@),
{
    let n: usize = lit.unicode_len();
    if v.len() != n {
        proof {
            assert(v@ != lit@);
        }
        return false;
    }
    let mut i: usize = 0;
    while i < n
        invariant
            i <= n,
            n == lit@.len(),
            n == v@.len(),
            forall|j: int| 0 <= j < i ==> v@[j] == lit@[j],
        decreases n - i,
    {
        if v[i] != lit.get_char(i) {
            proof {
                assert(v@[i as int] != lit@[i as int]);
            }
            return false;
        }
        i = i + 1;
    }
    proof {
        assert(v@ =~= lit@);
    }
    true
}

/// Parses a weekday alias, case-insensitively, against the fixed table.
pub fn parse_weekday(s: &str) -> (r: Option<Weekday>)
    ensures
        r == spec_parse_weekday(s@),
{
    let v: Vec<char> = lower_chars(s);
    if chars_eq(&v, "monday") || chars_eq(&v, "mon") || chars_eq(&v, "m") {
        Some(Weekday::Monday)
    } else if chars_eq(&v, "tuesday") || chars_eq(&v, "tues") || chars_eq(&v, "tue") || chars_eq(
        &v,
        "t",
    ) {
        Some(Weekday::Tuesday)
    } else if chars_eq(&v, "wednesday") || chars_eq(&v, "wed") || chars_eq(&v, "w") {
        Some(Weekday::Wednesday)
    } else if chars_eq(&v, "thursday") || chars_eq(&v, "thurs") || chars_eq(&v, "thur") || chars_eq(
        &v,
        "th",
    ) || chars_eq(&v, "r") {
        Some(Weekday::Thursday)
    } else if chars_eq(&v, "friday") || chars_eq(&v, "fri") || chars_eq(&v, "f") {
        Some(Weekday::Friday)
    } else if chars_eq(&v, "saturday") || chars_eq(&v, "sat") {
        Some(Weekday::Saturday)
    } else if chars_eq(&v, "sunday") || chars_eq(&v, "sun") {
        Some(Weekday::Sunday)
    } else {
        None
    }
}

/// Lowercasing first changes nothing: mixed-case aliases parse identically to
/// their lowercase forms.
pub proof fn lemma_parse_case_insensitive(s: Seq<char>)
    ensures
        spec_parse_weekday(s) == spec_parse_weekday(lower_seq(s)),
{
    assert forall|i: int| 0 <= i < s.len() implies lower_char(lower_seq(s)[i]) == lower_seq(s)[i]
    by {
        let c = s[i];
        if 'A' <= c && c <= 'Z' {
            assert(!('A' <= lower_char(c) && lower_char(c) <= 'Z'));
        }
    }
    assert(lower_seq(lower_seq(s)) =~= lower_seq(s));
}

} // verus!
