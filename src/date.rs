//! Civil dates and moments, as plain values.

use vstd::prelude::*;

verus! {

/// Smallest year that chrono's `NaiveDate` represents.
pub const MIN_YEAR: i32 = -262143;

/// Largest year that chrono's `NaiveDate` represents.
pub const MAX_YEAR: i32 = 262142;

pub open spec fn is_leap_year(y: int) -> bool {
    (y % 4 == 0 && y % 100 != 0) || y % 400 == 0
}

pub open spec fn days_in_month(y: int, m: int) -> int {
    if m == 2 {
        if is_leap_year(y) { 29 } else { 28 }
    } else if m == 4 || m == 6 || m == 9 || m == 11 {
        30
    } else {
        31
    }
}

/// A day of the proleptic Gregorian calendar.
#[derive(Clone, Copy, Debug, PartialEq, Eq, Structural)]
pub struct Date {
    pub year: i32,
    pub month: u32,
    pub day: u32,
}

/// A date together with the hour of the day (local civil time).
#[derive(Clone, Copy, Debug, PartialEq, Eq, Structural)]
pub struct Moment {
    pub date: Date,
    pub hour: u32,
}

/// The text that chrono writes for `d` under the strftime `pattern`.
pub uninterp spec fn formatted(d: Date, pattern: Seq<char>) -> Seq<char>;

/// The date that chrono reads from `s` under the strftime `pattern`, if any.
pub uninterp spec fn parsed(s: Seq<char>, pattern: Seq<char>) -> Option<Date>;

/// The date that chrono reaches `n` days after `d`, if it is in its range.
pub uninterp spec fn days_after(d: Date, n: nat) -> Option<Date>;

/// The patterns this library formats dates with.
pub open spec fn known_pattern(p: Seq<char>) -> bool {
    p == "%d-%m-%Y"@ || p == "%A, %d-%b-%Y"@
}

/// The key under which the tables list a date: day-month-year.
pub open spec fn key_of(d: Date) -> Seq<char> {
    formatted(d, "%d-%m-%Y"@)
}

/// The human-readable form of a date: weekday, day, abbreviated month, year.
pub open spec fn display_of(d: Date) -> Seq<char> {
    formatted(d, "%A, %d-%b-%Y"@)
}

impl Date {
    /// A real calendar day within chrono's range.
    pub open spec fn wf(self) -> bool {
        &&& MIN_YEAR <= self.year <= MAX_YEAR
        &&& 1 <= self.month <= 12
        &&& 1 <= self.day <= days_in_month(self.year as int, self.month as int)
    }

    /// Strictly later in the calendar.
    pub open spec fn spec_after(self, other: Date) -> bool {
        ||| self.year > other.year
        ||| (self.year == other.year && self.month > other.month)
        ||| (self.year == other.year && self.month == other.month && self.day > other.day)
    }

    /// The date with these fields, when it is a real calendar day.
    pub fn new(year: i32, month: u32, day: u32) -> (r: Option<Date>)
        ensures
            r == (if (Date { year, month, day }).wf() {
                Some(Date { year, month, day })
            } else {
                None
            }),
    {
        if year < MIN_YEAR || year > MAX_YEAR || month < 1 || month > 12 || day < 1 {
            return None;
        }
        let leap = (year % 4 == 0 && year % 100 != 0) || year % 400 == 0;
        let last: u32 = if month == 2 {
            if leap { 29 } else { 28 }
        } else if month == 4 || month == 6 || month == 9 || month == 11 {
            30
        } else {
            31
        };
        if day > last {
            None
        } else {
            Some(Date { year, month, day })
        }
    }

    pub fn is_after(&self, other: &Date) -> (r: bool)
        ensures
            r == self.spec_after(*other),
    {
        self.year > other.year || (self.year == other.year && self.month > other.month) || (
        self.year == other.year && self.month == other.month && self.day > other.day)
    }

    /// This date written as the tables key it: `dd-mm-yyyy`.
    pub fn key(&self) -> (r: String)
        requires
            self.wf(),
        ensures
            r@ == key_of(*self),
    {
        format_date(self, "%d-%m-%Y")
    }

    /// This date written for display, as in `Sunday, 01-Sep-2024`.
    pub fn display(&self) -> (r: String)
        requires
            self.wf(),
        ensures
            r@ == display_of(*self),
    {
        format_date(self, "%A, %d-%b-%Y")
    }

    /// The date `n` days later, if chrono's range holds it.
    pub fn plus_days(&self, n: u32) -> (r: Option<Date>)
        requires
            self.wf(),
        ensures
            r == days_after(*self, n as nat),
            r matches Some(e) ==> e.wf(),
    {
        add_days(self, n)
    }

    /// Reads a `dd-mm-yyyy` key back into a date.
    pub fn from_key(s: &str) -> (r: Option<Date>)
        ensures
            r == parsed(s@, "%d-%m-%Y"@),
            r matches Some(d) ==> d.wf(),
    {
        parse_date(s, "%d-%m-%Y")
    }
}

/// Relies on chrono's `NaiveDate::checked_add_days`, which returns a valid
/// `NaiveDate` or `None` when the result leaves chrono's range.
#[verifier::external_body]
fn add_days(d: &Date, n: u32) -> (r: Option<Date>)
    requires
        d.wf(),
    ensures
        r == days_after(*d, n as nat),
        r matches Some(e) ==> e.wf(),
{
    let nd = chrono::NaiveDate::from_ymd_opt(d.year, d.month, d.day).unwrap();
    nd.checked_add_days(chrono::Days::new(n as u64)).map(
        |e| Date { year: chrono::Datelike::year(&e), month: chrono::Datelike::month(&e), day: chrono::Datelike::day(&e) },
    )
}

impl Moment {
    pub open spec fn wf(self) -> bool {
        self.date.wf() && self.hour < 24
    }
}

/// Relies on chrono's `NaiveDate::from_ymd_opt`, which accepts every valid
/// date in its range, and on `NaiveDate::format`, which writes well-formed
/// strftime patterns without failing.
#[verifier::external_body]
fn format_date(d: &Date, pattern: &str) -> (r: String)
    requires
        d.wf(),
        known_pattern(pattern@),
    ensures
        r@ == formatted(*d, pattern@),
{
    let nd = chrono::NaiveDate::from_ymd_opt(d.year, d.month, d.day).unwrap();
    nd.format(pattern).to_string()
}

/// Relies on chrono's `NaiveDate::parse_from_str`; a date it returns is a
/// valid `NaiveDate`, so its fields form a real calendar day in range.
#[verifier::external_body]
fn parse_date(s: &str, pattern: &str) -> (r: Option<Date>)
    ensures
        r == parsed(s@, pattern@),
        r matches Some(d) ==> d.wf(),
{
    chrono::NaiveDate::parse_from_str(s, pattern).ok().map(
        |nd| Date { year: chrono::Datelike::year(&nd), month: chrono::Datelike::month(&nd), day: chrono::Datelike::day(&nd) },
    )
}

} // verus!
