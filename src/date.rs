//! Calendar dates and their canonical texts.
use crate::text::{digit, digit_char, nat_chars, nat_text};
use chrono::{Datelike, NaiveDate, NaiveDateTime};
use vstd::prelude::*;

verus! {

/// A calendar date without time of day.
#[derive(Clone, Copy, Debug, PartialEq, Eq, Structural)]
pub struct Date {
    pub year: i32,
    pub month: u32,
    pub day: u32,
}

/// `n` written with at least `w` digits, zeros in front.
pub open spec fn padded_text(n: nat, w: nat) -> Seq<char> {
    let t = nat_text(n);
    if t.len() < w {
        Seq::new((w - t.len()) as nat, |i: int| '0') + t
    } else {
        t
    }
}

/// A year as the `%Y` field writes it: four digits within 0..=9999, and a sign
/// in front of four or more digits outside it.
pub open spec fn year_text(y: int) -> Seq<char> {
    if 0 <= y <= 9999 {
        padded_text(y as nat, 4)
    } else if y < 0 {
        seq!['-'] + padded_text((-y) as nat, 4)
    } else {
        seq!['+'] + padded_text(y as nat, 4)
    }
}

/// A number below 100 as two digits.
pub open spec fn two_digit_text(n: int) -> Seq<char> {
    seq![digit_char(n / 10), digit_char(n % 10)]
}

/// What chrono's `NaiveDateTime::parse_from_str` gives, reduced to its date.
pub uninterp spec fn datetime_date_of(s: Seq<char>, fmt: Seq<char>) -> Option<Date>;

/// What chrono's `NaiveDate::parse_from_str` gives.
pub uninterp spec fn date_of(s: Seq<char>, fmt: Seq<char>) -> Option<Date>;

impl Date {
    pub open spec fn wf(self) -> bool {
        1 <= self.month <= 12 && 1 <= self.day <= 31
    }

    /// A number that orders dates chronologically: `yyyymmdd`.
    pub open spec fn ordinal(self) -> int {
        self.year * 10000 + self.month * 100 + self.day
    }

    pub open spec fn before(self, other: Date) -> bool {
        self.year < other.year || (self.year == other.year && (self.month < other.month || (
        self.month == other.month && self.day < other.day)))
    }

    /// The key text `YYYYMMDD`.
    pub open spec fn key_text(self) -> Seq<char> {
        year_text(self.year as int) + two_digit_text(self.month as int) + two_digit_text(
            self.day as int,
        )
    }

    /// The text `YYYY-MM-DD`.
    pub open spec fn iso_text(self) -> Seq<char> {
        year_text(self.year as int) + seq!['-'] + two_digit_text(self.month as int) + seq!['-']
            + two_digit_text(self.day as int)
    }

    /// The earliest date that records may carry: 2020-07-01.
    pub open spec fn first_recorded_spec() -> Date {
        Date { year: 2020, month: 7, day: 1 }
    }

    /// The date that a record carries before one is read for it: 2019-12-08.
    pub open spec fn placeholder_spec() -> Date {
        Date { year: 2019, month: 12, day: 8 }
    }

    pub fn first_recorded() -> (r: Date)
        ensures
            r == Date::first_recorded_spec(),
    {
        Date { year: 2020, month: 7, day: 1 }
    }

    pub fn placeholder() -> (r: Date)
        ensures
            r == Date::placeholder_spec(),
    {
        Date { year: 2019, month: 12, day: 8 }
    }

    pub fn is_before(&self, other: &Date) -> (r: bool)
        ensures
            r == self.before(*other),
    {
        self.year < other.year || (self.year == other.year && (self.month < other.month || (
        self.month == other.month && self.day < other.day)))
    }

    pub fn ordinal_number(&self) -> (r: i64)
        ensures
            r == self.ordinal(),
    {
        self.year as i64 * 10000 + self.month as i64 * 100 + self.day as i64
    }

    /// The key text `YYYYMMDD`.
    pub fn key(&self) -> (r: String)
        requires
            self.wf(),
        ensures
            r@ == self.key_text(),
    {
        let mut v = year_chars(self.year);
        push_two_digits(&mut v, self.month);
        push_two_digits(&mut v, self.day);
        proof {
            assert(v@ =~= self.key_text());
        }
        crate::text::string_of_chars(&v)
    }

    /// The text `YYYY-MM-DD`.
    pub fn iso(&self) -> (r: String)
        requires
            self.wf(),
        ensures
            r@ == self.iso_text(),
    {
        let mut v = year_chars(self.year);
        v.push('-');
        push_two_digits(&mut v, self.month);
        v.push('-');
        push_two_digits(&mut v, self.day);
        proof {
            assert(v@ =~= self.iso_text());
        }
        crate::text::string_of_chars(&v)
    }
}

fn padded_chars(n: u64, w: usize) -> (r: Vec<char>)
    ensures
        r@ == padded_text(n as nat, w as nat),
{
    let t = nat_chars(n);
    let mut v: Vec<char> = Vec::new();
    if t.len() < w {
        let k = w - t.len();
        let mut i: usize = 0;
        while i < k
            invariant
                i <= k,
                v@ =~= Seq::new(i as nat, |j: int| '0'),
            decreases k - i,
        {
            v.push('0');
            i += 1;
        }
    }
    let mut j: usize = 0;
    let ghost start = v@;
    while j < t.len()
        invariant
            j <= t.len(),
            v@ =~= start + t@.subrange(0, j as int),
        decreases t.len() - j,
    {
        v.push(t[j]);
        j += 1;
    }
    proof {
        assert(t@.subrange(0, t@.len() as int) =~= t@);
        assert(v@ =~= padded_text(n as nat, w as nat));
    }
    v
}

fn year_chars(y: i32) -> (r: Vec<char>)
    ensures
        r@ == year_text(y as int),
{
    if 0 <= y && y <= 9999 {
        padded_chars(y as u64, 4)
    } else {
        let mut v: Vec<char> = Vec::new();
        let m: u64 = if y < 0 {
            v.push('-');
            (-(y as i64)) as u64
        } else {
            v.push('+');
            y as u64
        };
        let t = padded_chars(m, 4);
        let mut j: usize = 0;
        let ghost start = v@;
        while j < t.len()
            invariant
                j <= t.len(),
                v@ =~= start + t@.subrange(0, j as int),
            decreases t.len() - j,
        {
            v.push(t[j]);
            j += 1;
        }
        proof {
            assert(t@.subrange(0, t@.len() as int) =~= t@);
            assert(v@ =~= year_text(y as int));
        }
        v
    }
}

fn push_two_digits(v: &mut Vec<char>, n: u32)
    requires
        n < 100,
    ensures
        final(v)@ == old(v)@ + two_digit_text(n as int),
{
    v.push(digit((n / 10) as u64));
    v.push(digit((n % 10) as u64));
    proof {
        assert(final(v)@ =~= old(v)@ + two_digit_text(n as int));
    }
}

/// Relies on chrono's `NaiveDateTime::parse_from_str`, keeping the date part.
#[verifier::external_body]
pub(crate) fn parse_datetime_date(s: &str, fmt: &str) -> (r: Option<Date>)
    ensures
        r == datetime_date_of(s@, fmt@),
        r matches Some(d) ==> d.wf(),
{
    NaiveDateTime::parse_from_str(s, fmt).ok().map(|dt| {
        let d = dt.date();
        Date { year: d.year(), month: d.month(), day: d.day() }
    })
}

/// Relies on chrono's `NaiveDate::parse_from_str`.
#[verifier::external_body]
pub(crate) fn parse_date(s: &str, fmt: &str) -> (r: Option<Date>)
    ensures
        r == date_of(s@, fmt@),
        r matches Some(d) ==> d.wf(),
{
    NaiveDate::parse_from_str(s, fmt).ok().map(
        |d| Date { year: d.year(), month: d.month(), day: d.day() },
    )
}

} // verus!
