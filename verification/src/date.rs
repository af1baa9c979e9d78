//! Calendar dates, printed and read by `chrono`.
//!
//! A [`Date`] keeps year, month and day as plain integers, so that dates can
//! be compared and reasoned about; `chrono` prints them as `YYYY-MM-DD` and
//! reads such text back. Every `Date` that exists has been printed and read
//! back once, which is what makes a saved list load under the same date.

use chrono::{Datelike, NaiveDate};
use vstd::prelude::*;

verus! {

/// First year that `chrono::NaiveDate` can hold.
pub const MIN_YEAR: i32 = -262143;

/// Last year that `chrono::NaiveDate` can hold.
pub const MAX_YEAR: i32 = 262142;

/// Leap years of the proleptic Gregorian calendar.
pub open spec fn is_leap_year(year: int) -> bool {
    year % 4 == 0 && (year % 100 != 0 || year % 400 == 0)
}

/// Number of days of `month` (1 to 12) in `year`.
pub open spec fn days_in_month(year: int, month: int) -> int {
    if month == 2 {
        if is_leap_year(year) {
            29
        } else {
            28
        }
    } else if month == 4 || month == 6 || month == 9 || month == 11 {
        30
    } else {
        31
    }
}

/// The day exists in the proleptic Gregorian calendar and its year is one
/// that `chrono::NaiveDate` can hold.
pub open spec fn is_calendar_date(year: int, month: int, day: int) -> bool {
    &&& MIN_YEAR <= year <= MAX_YEAR
    &&& 1 <= month <= 12
    &&& 1 <= day <= days_in_month(year, month)
}

/// The character for a decimal digit `0 <= d <= 9`.
pub open spec fn digit(d: int) -> char {
    ('0' as int + d) as char
}

/// Decimal digits of `n`, most significant first, without padding.
pub open spec fn decimal(n: nat) -> Seq<char>
    decreases n,
{
    if n < 10 {
        seq![digit(n as int)]
    } else {
        decimal(n / 10).push(digit((n % 10) as int))
    }
}

/// Decimal digits of `n`, padded with zeros on the left to at least four.
pub open spec fn four_digits(n: nat) -> Seq<char> {
    if n < 10 {
        seq!['0', '0', '0'] + decimal(n)
    } else if n < 100 {
        seq!['0', '0'] + decimal(n)
    } else if n < 1000 {
        seq!['0'] + decimal(n)
    } else {
        decimal(n)
    }
}

/// Two decimal digits of `0 <= n <= 99`.
pub open spec fn two_digits(n: int) -> Seq<char> {
    seq![digit(n / 10), digit(n % 10)]
}

/// A year as `%Y` prints it: four digits from 0 to 9999, otherwise a sign
/// and at least four digits.
pub open spec fn year_text(year: int) -> Seq<char> {
    if 0 <= year <= 9999 {
        four_digits(year as nat)
    } else if year > 9999 {
        seq!['+'] + decimal(year as nat)
    } else {
        seq!['-'] + four_digits((-year) as nat)
    }
}

/// The text `YYYY-MM-DD` of a date.
pub open spec fn date_text(year: int, month: int, day: int) -> Seq<char> {
    year_text(year) + seq!['-'] + two_digits(month) + seq!['-'] + two_digits(day)
}

/// What `chrono::NaiveDate::parse_from_str` with the format `%Y-%m-%d` reads
/// from `text`: year, month and day, or `None` where it reports an error.
pub uninterp spec fn parsed_date(text: Seq<char>) -> Option<(int, int, int)>;

/// A triple of machine integers as a triple of mathematical ones.
pub open spec fn ymd_model(r: Option<(i32, u32, u32)>) -> Option<(int, int, int)> {
    match r {
        Some((y, m, d)) => Some((y as int, m as int, d as int)),
        None => None,
    }
}

/// A calendar date whose text `chrono` reads back as the same date.
pub open spec fn is_date(year: int, month: int, day: int) -> bool {
    &&& is_calendar_date(year, month, day)
    &&& parsed_date(date_text(year, month, day)) == Some((year, month, day))
}

/// Calls `chrono::NaiveDate::from_ymd_opt` and prints the date it returns
/// with `NaiveDate::format` and the format `%Y-%m-%d`.
///
/// Trusted: `from_ymd_opt` returns a date exactly for the days that exist, in
/// the years from `MIN_YEAR` to `MAX_YEAR`; `%Y` prints the year zero-padded
/// to four digits, with a sign outside 0 to 9999, and `%m` and `%d` print two
/// digits each. Nothing of this is proved here.
#[verifier::external_body]
fn chrono_ymd_text(year: i32, month: u32, day: u32) -> (r: Option<String>)
    ensures
        r is Some <==> is_calendar_date(year as int, month as int, day as int),
        r matches Some(t) ==> t@ == date_text(year as int, month as int, day as int),
{
    match NaiveDate::from_ymd_opt(year, month, day) {
        Some(d) => Some(d.format("%Y-%m-%d").to_string()),
        None => None,
    }
}

/// Calls `chrono::NaiveDate::parse_from_str` with the format `%Y-%m-%d` and
/// hands out year, month and day of the date it returns, or `None` where it
/// returns an error.
///
/// Trusted: the outcome depends on `text` alone. It is named
/// [`parsed_date`]; nothing else is claimed of it.
#[verifier::external_body]
fn chrono_parse_ymd(text: &str) -> (r: Option<(i32, u32, u32)>)
    ensures
        ymd_model(r) == parsed_date(text@),
{
    match NaiveDate::parse_from_str(text, "%Y-%m-%d") {
        Ok(d) => Some((d.year(), d.month(), d.day())),
        Err(_) => None,
    }
}

/// A calendar date.
#[derive(Clone, Copy, Debug, PartialEq, Eq, Structural)]
pub struct Date {
    year: i32,
    month: u32,
    day: u32,
}

impl Date {
    #[verifier::type_invariant]
    spec fn inv(self) -> bool {
        is_date(self.year as int, self.month as int, self.day as int)
    }

    /// The year, which may be negative or zero.
    pub closed spec fn spec_year(&self) -> int {
        self.year as int
    }

    /// The month, 1 to 12.
    pub closed spec fn spec_month(&self) -> int {
        self.month as int
    }

    /// The day of the month, from 1.
    pub closed spec fn spec_day(&self) -> int {
        self.day as int
    }

    /// Validity of a date in specifications; every `Date` in executable
    /// code is valid.
    pub open spec fn wf(&self) -> bool {
        is_date(self.spec_year(), self.spec_month(), self.spec_day())
    }

    /// The text `YYYY-MM-DD` of this date.
    pub open spec fn text(&self) -> Seq<char> {
        date_text(self.spec_year(), self.spec_month(), self.spec_day())
    }

    /// The date that `text` stands for, if it stands for one.
    pub open spec fn of_text(text: Seq<char>) -> Option<Date> {
        match parsed_date(text) {
            Some((y, m, d)) => if is_date(y, m, d) {
                Some(Date::of_ymd(y, m, d))
            } else {
                None
            },
            None => None,
        }
    }

    /// The date with the given year, month and day of a calendar date.
    pub closed spec fn of_ymd(year: int, month: int, day: int) -> Date {
        Date { year: year as i32, month: month as u32, day: day as u32 }
    }

    /// Strictly earlier in the calendar.
    pub open spec fn before(&self, other: &Date) -> bool {
        ||| self.spec_year() < other.spec_year()
        ||| self.spec_year() == other.spec_year() && self.spec_month() < other.spec_month()
        ||| self.spec_year() == other.spec_year() && self.spec_month() == other.spec_month()
            && self.spec_day() < other.spec_day()
    }

    /// Two dates with the same year, month and day are the same date.
    pub proof fn lemma_same_ymd(a: Date, b: Date)
        requires
            a.spec_year() == b.spec_year(),
            a.spec_month() == b.spec_month(),
            a.spec_day() == b.spec_day(),
        ensures
            a == b,
    {
    }

    /// `of_ymd` keeps the year, month and day of a calendar date.
    pub proof fn lemma_of_ymd(year: int, month: int, day: int)
        requires
            is_calendar_date(year, month, day),
        ensures
            Date::of_ymd(year, month, day).spec_year() == year,
            Date::of_ymd(year, month, day).spec_month() == month,
            Date::of_ymd(year, month, day).spec_day() == day,
    {
    }

    /// A valid date is the one that its own text stands for.
    pub proof fn lemma_text_round_trip(d: Date)
        requires
            d.wf(),
        ensures
            Date::of_text(d.text()) == Some(d),
    {
        Date::lemma_of_ymd(d.spec_year(), d.spec_month(), d.spec_day());
        Date::lemma_same_ymd(Date::of_ymd(d.spec_year(), d.spec_month(), d.spec_day()), d);
    }

    /// The date of the given year, month and day, where that is a calendar
    /// date that `chrono` prints and reads back unchanged.
    pub fn from_ymd_opt(year: i32, month: u32, day: u32) -> (r: Option<Date>)
        ensures
            r is Some <==> is_date(year as int, month as int, day as int),
            r matches Some(d) ==> d.wf() && d.spec_year() == year && d.spec_month() == month
                && d.spec_day() == day,
    {
        match chrono_ymd_text(year, month, day) {
            Some(text) => Date::confirm(year, month, day, chrono_parse_ymd(text.as_str())),
            None => None,
        }
    }

    /// Builds the date once its text has been read back as `reread`.
    fn confirm(year: i32, month: u32, day: u32, reread: Option<(i32, u32, u32)>) -> (r: Option<
        Date,
    >)
        requires
            is_calendar_date(year as int, month as int, day as int),
            ymd_model(reread) == parsed_date(date_text(year as int, month as int, day as int)),
        ensures
            r is Some <==> is_date(year as int, month as int, day as int),
            r matches Some(d) ==> d.wf() && d.spec_year() == year && d.spec_month() == month
                && d.spec_day() == day,
    {
        match reread {
            Some((y, m, d)) => {
                if y == year && m == month && d == day {
                    Some(Date { year, month, day })
                } else {
                    None
                }
            },
            None => None,
        }
    }

    /// Reads a date with `chrono`, format `%Y-%m-%d`.
    pub fn parse(text: &str) -> (r: Option<Date>)
        ensures
            r == Date::of_text(text@),
            r matches Some(d) ==> d.wf(),
    {
        match chrono_parse_ymd(text) {
            Some((y, m, d)) => {
                let r = Date::from_ymd_opt(y, m, d);
                proof {
                    if r is Some {
                        Date::lemma_of_ymd(y as int, m as int, d as int);
                        Date::lemma_same_ymd(r->0, Date::of_ymd(y as int, m as int, d as int));
                    }
                }
                r
            },
            None => None,
        }
    }

    /// The year.
    pub fn year(&self) -> (r: i32)
        ensures
            r == self.spec_year(),
    {
        self.year
    }

    /// The month, 1 to 12.
    pub fn month(&self) -> (r: u32)
        ensures
            r == self.spec_month(),
    {
        self.month
    }

    /// The day of the month.
    pub fn day(&self) -> (r: u32)
        ensures
            r == self.spec_day(),
    {
        self.day
    }

    /// Prints the date as `YYYY-MM-DD`.
    pub fn to_text(&self) -> (r: String)
        ensures
            self.wf(),
            r@ == self.text(),
    {
        proof {
            use_type_invariant(self);
        }
        match chrono_ymd_text(self.year, self.month, self.day) {
            Some(text) => text,
            None => String::new(),
        }
    }

    /// Whether this date is strictly earlier than `other`.
    pub fn is_before(&self, other: &Date) -> (r: bool)
        ensures
            r == self.before(other),
    {
        self.year < other.year || (self.year == other.year && (self.month < other.month || (
        self.month == other.month && self.day < other.day)))
    }
}

} // verus!
