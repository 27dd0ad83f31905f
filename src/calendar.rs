//! Calendar dates and times of day, and the texts they are shown and read in.
//! chrono does the formatting and parsing; the values themselves are held as
//! plain integers.

use chrono::{Datelike, NaiveDate, NaiveTime, Timelike};
use vstd::prelude::*;
use crate::digits::{nat_text, padded};

verus! {

/// The earliest and the latest year that chrono's dates reach.
pub const MIN_YEAR: i32 = -262143;
pub const MAX_YEAR: i32 = 262142;

pub open spec fn is_leap_year(y: int) -> bool {
    (y % 4 == 0 && y % 100 != 0) || y % 400 == 0
}

pub open spec fn days_in_month(y: int, m: int) -> int {
    if m == 2 {
        if is_leap_year(y) { 29 } else { 28 }
    } else if m == 4 || m == 6 || m == 9 || m == 11 {
        30
    } else {
        31
    }
}

/// A date as plain numbers.
pub struct DateView {
    pub year: int,
    pub month: int,
    pub day: int,
}

/// A time of day as plain numbers.
pub struct TimeView {
    pub hour: int,
    pub minute: int,
    pub second: int,
}

pub open spec fn valid_date(d: DateView) -> bool {
    &&& MIN_YEAR <= d.year <= MAX_YEAR
    &&& 1 <= d.month <= 12
    &&& 1 <= d.day <= days_in_month(d.year, d.month)
}

pub open spec fn valid_time(t: TimeView) -> bool {
    &&& 0 <= t.hour < 24
    &&& 0 <= t.minute < 60
    &&& 0 <= t.second < 60
}

/// A calendar date of the proleptic Gregorian calendar.
#[derive(Clone, Copy, Debug, PartialEq, Eq, Hash)]
pub struct Date {
    year: i32,
    month: u32,
    day: u32,
}

/// A time of day, to the second.
#[derive(Clone, Copy, Debug, PartialEq, Eq, Hash)]
pub struct Time {
    hour: u32,
    minute: u32,
    second: u32,
}

impl View for Date {
    type V = DateView;

    closed spec fn view(&self) -> DateView {
        DateView { year: self.year as int, month: self.month as int, day: self.day as int }
    }
}

impl View for Time {
    type V = TimeView;

    closed spec fn view(&self) -> TimeView {
        TimeView { hour: self.hour as int, minute: self.minute as int, second: self.second as int }
    }
}

impl Date {
    #[verifier::type_invariant]
    spec fn inv(&self) -> bool {
        valid_date(self@)
    }

    /// The date with this year, month and day, where there is one.
    pub fn new(year: i32, month: u32, day: u32) -> (r: Option<Date>)
        ensures
            r.is_some() <==> valid_date(DateView { year: year as int, month: month as int, day: day as int }),
            r matches Some(d) ==> d@ == (DateView { year: year as int, month: month as int, day: day as int }),
    {
        if year < MIN_YEAR || year > MAX_YEAR || month < 1 || month > 12 || day < 1 {
            return None;
        }
        let leap = (year % 4 == 0 && year % 100 != 0) || year % 400 == 0;
        let last: u32 = if month == 2 {
            if leap { 29 } else { 28 }
        } else if month == 4 || month == 6 || month == 9 || month == 11 {
            30
        } else {
            31
        };
        if day > last {
            return None;
        }
        Some(Date { year, month, day })
    }

    pub fn year(&self) -> (r: i32)
        ensures
            r as int == self@.year,
            valid_date(self@),
    {
        proof {
            use_type_invariant(self);
        }
        self.year
    }

    pub fn month(&self) -> (r: u32)
        ensures
            r as int == self@.month,
            valid_date(self@),
    {
        proof {
            use_type_invariant(self);
        }
        self.month
    }

    pub fn day(&self) -> (r: u32)
        ensures
            r as int == self@.day,
            valid_date(self@),
    {
        proof {
            use_type_invariant(self);
        }
        self.day
    }

    /// Whether this date comes before `other`.
    pub fn precedes(&self, other: &Date) -> (r: bool)
        ensures
            r == (date_key(self@) < date_key(other@)),
    {
        proof {
            use_type_invariant(self);
            use_type_invariant(other);
            lemma_date_key_order(self@, other@);
        }
        if self.year != other.year {
            self.year < other.year
        } else if self.month != other.month {
            self.month < other.month
        } else {
            self.day < other.day
        }
    }

    /// The date in the column of a table: `Jan 05 2021`.
    pub fn display_text(&self) -> (r: String)
        ensures
            r@ == date_display(self@),
    {
        proof {
            use_type_invariant(self);
        }
        proof {
            reveal_strlit("%b %d %Y");
        }
        format_date(self, "%b %d %Y")
    }

    /// The date in an input field: `2021-01-05`.
    pub fn input_text(&self) -> (r: String)
        ensures
            r@ == date_input(self@),
    {
        proof {
            use_type_invariant(self);
        }
        proof {
            reveal_strlit("%b %d %Y");
            reveal_strlit("%Y-%m-%d");
            assert("%Y-%m-%d"@[1] != "%b %d %Y"@[1]);
        }
        format_date(self, "%Y-%m-%d")
    }
}

impl Time {
    #[verifier::type_invariant]
    spec fn inv(&self) -> bool {
        valid_time(self@)
    }

    /// The time with this hour, minute and second, where there is one.
    pub fn new(hour: u32, minute: u32, second: u32) -> (r: Option<Time>)
        ensures
            r.is_some() <==> valid_time(TimeView { hour: hour as int, minute: minute as int, second: second as int }),
            r matches Some(t) ==> t@ == (TimeView { hour: hour as int, minute: minute as int, second: second as int }),
    {
        if hour < 24 && minute < 60 && second < 60 {
            Some(Time { hour, minute, second })
        } else {
            None
        }
    }

    pub fn hour(&self) -> (r: u32)
        ensures
            r as int == self@.hour,
            valid_time(self@),
    {
        proof {
            use_type_invariant(self);
        }
        self.hour
    }

    pub fn minute(&self) -> (r: u32)
        ensures
            r as int == self@.minute,
            valid_time(self@),
    {
        proof {
            use_type_invariant(self);
        }
        self.minute
    }

    pub fn second(&self) -> (r: u32)
        ensures
            r as int == self@.second,
            valid_time(self@),
    {
        proof {
            use_type_invariant(self);
        }
        self.second
    }

    /// The time in the column of a table: `9:05 PM`.
    pub fn display_text(&self) -> (r: String)
        ensures
            r@ == time_display(self@),
    {
        proof {
            use_type_invariant(self);
        }
        proof {
            reveal_strlit("%-I:%M %p");
        }
        format_time(self, "%-I:%M %p")
    }

    /// The time in an input field: `21:05`.
    pub fn input_text(&self) -> (r: String)
        ensures
            r@ == time_input(self@),
    {
        proof {
            use_type_invariant(self);
        }
        proof {
            reveal_strlit("%-I:%M %p");
            reveal_strlit("%H:%M");
            assert("%H:%M"@[1] != "%-I:%M %p"@[1]);
        }
        format_time(self, "%H:%M")
    }
}

/// A number that orders dates as the calendar does.
pub open spec fn date_key(d: DateView) -> int {
    d.year * 10000 + d.month * 100 + d.day
}

/// On valid dates, `date_key` compares year first, then month, then day.
pub proof fn lemma_date_key_order(a: DateView, b: DateView)
    requires
        valid_date(a),
        valid_date(b),
    ensures
        a.year < b.year ==> date_key(a) < date_key(b),
        a.year > b.year ==> date_key(a) > date_key(b),
        a.year == b.year && a.month < b.month ==> date_key(a) < date_key(b),
        a.year == b.year && a.month > b.month ==> date_key(a) > date_key(b),
        a.year == b.year && a.month == b.month ==> (date_key(a) < date_key(b) <==> a.day < b.day),
        date_key(a) == date_key(b) ==> a == b,
{
    assert(a.year < b.year ==> a.year * 10000 + 10000 <= b.year * 10000) by (nonlinear_arith);
    assert(a.year > b.year ==> b.year * 10000 + 10000 <= a.year * 10000) by (nonlinear_arith);
    if date_key(a) == date_key(b) {
        assert(a.year == b.year);
        assert(a.month == b.month);
    }
}

pub open spec fn month_abbrev(m: int) -> Seq<char> {
    if m == 1 { "Jan"@ }
    else if m == 2 { "Feb"@ }
    else if m == 3 { "Mar"@ }
    else if m == 4 { "Apr"@ }
    else if m == 5 { "May"@ }
    else if m == 6 { "Jun"@ }
    else if m == 7 { "Jul"@ }
    else if m == 8 { "Aug"@ }
    else if m == 9 { "Sep"@ }
    else if m == 10 { "Oct"@ }
    else if m == 11 { "Nov"@ }
    else { "Dec"@ }
}

/// A year with at least four digits; outside `0..=9999` with its sign in front.
pub open spec fn year_text(y: int) -> Seq<char> {
    if 0 <= y <= 9999 {
        padded(y as nat, 4)
    } else if y < 0 {
        seq!['-'] + padded((-y) as nat, 4)
    } else {
        seq!['+'] + padded(y as nat, 4)
    }
}

pub open spec fn date_display(d: DateView) -> Seq<char> {
    month_abbrev(d.month) + seq![' '] + padded(d.day as nat, 2) + seq![' '] + year_text(d.year)
}

pub open spec fn date_input(d: DateView) -> Seq<char> {
    year_text(d.year) + seq!['-'] + padded(d.month as nat, 2) + seq!['-'] + padded(d.day as nat, 2)
}

/// The hour on a twelve-hour clock, `1..=12`.
pub open spec fn hour12(h: int) -> int {
    if h % 12 == 0 { 12 } else { h % 12 }
}

pub open spec fn time_display(t: TimeView) -> Seq<char> {
    nat_text(hour12(t.hour) as nat) + seq![':'] + padded(t.minute as nat, 2) + seq![' ']
        + (if t.hour >= 12 { "PM"@ } else { "AM"@ })
}

pub open spec fn time_input(t: TimeView) -> Seq<char> {
    padded(t.hour as nat, 2) + seq![':'] + padded(t.minute as nat, 2)
}

/// An optional time in the column of a table: empty when absent.
pub open spec fn opt_time_display(t: Option<Time>) -> Seq<char> {
    match t {
        Some(t) => time_display(t@),
        None => Seq::empty(),
    }
}

/// An optional time in an input field: empty when absent.
pub open spec fn opt_time_input(t: Option<Time>) -> Seq<char> {
    match t {
        Some(t) => time_input(t@),
        None => Seq::empty(),
    }
}

pub fn time_cell(t: Option<Time>) -> (r: String)
    ensures
        r@ == opt_time_display(t),
{
    match t {
        Some(t) => t.display_text(),
        None => String::new(),
    }
}

pub fn time_input_value(t: Option<Time>) -> (r: String)
    ensures
        r@ == opt_time_input(t),
{
    match t {
        Some(t) => t.input_text(),
        None => String::new(),
    }
}

/// What chrono reads from `s` in the form `%Y-%m-%d`, if anything.
pub uninterp spec fn chrono_date_of(s: Seq<char>) -> Option<DateView>;

/// What chrono reads from `s` in the form `%H:%M`, if anything.
pub uninterp spec fn chrono_time_of(s: Seq<char>) -> Option<TimeView>;

pub open spec fn date_opt_view(d: Option<Date>) -> Option<DateView> {
    match d {
        Some(d) => Some(d@),
        None => None,
    }
}

pub open spec fn time_opt_view(t: Option<Time>) -> Option<TimeView> {
    match t {
        Some(t) => Some(t@),
        None => None,
    }
}

/// The texts that the format strings of this module ask chrono for.
pub open spec fn date_format_result(d: DateView, fmt: Seq<char>) -> Seq<char> {
    if fmt == "%b %d %Y"@ {
        date_display(d)
    } else {
        date_input(d)
    }
}

pub open spec fn time_format_result(t: TimeView, fmt: Seq<char>) -> Seq<char> {
    if fmt == "%-I:%M %p"@ {
        time_display(t)
    } else {
        time_input(t)
    }
}

/// Relies on `NaiveDate::format` with `%b` (English month abbreviation),
/// `%d`, `%m` (two digits) and `%Y` (at least four digits, signed outside
/// `0..=9999`).
#[verifier::external_body]
fn format_date(d: &Date, fmt: &str) -> (r: String)
    requires
        valid_date(d@),
        fmt@ == "%b %d %Y"@ || fmt@ == "%Y-%m-%d"@,
    ensures
        r@ == date_format_result(d@, fmt@),
{
    NaiveDate::from_ymd_opt(d.year, d.month, d.day).unwrap().format(fmt).to_string()
}

/// Relies on `NaiveTime::format` with `%-I` (twelve-hour clock, unpadded),
/// `%H`, `%M` (two digits) and `%p` (`AM` or `PM`).
#[verifier::external_body]
fn format_time(t: &Time, fmt: &str) -> (r: String)
    requires
        valid_time(t@),
        fmt@ == "%-I:%M %p"@ || fmt@ == "%H:%M"@,
    ensures
        r@ == time_format_result(t@, fmt@),
{
    NaiveTime::from_hms_opt(t.hour, t.minute, t.second).unwrap().format(fmt).to_string()
}

/// Relies on `NaiveDate::parse_from_str(s, "%Y-%m-%d")`: the result depends on
/// `s` alone, and the text that `%Y-%m-%d` writes for a date is read back to
/// that date (a year outside `0..=9999` is written and read with its sign).
#[verifier::external_body]
pub(crate) fn parse_date(s: &str) -> (r: Option<Date>)
    ensures
        date_opt_view(r) == chrono_date_of(s@),
        forall|v: DateView| valid_date(v) && s@ == date_input(v) ==> date_opt_view(r) == Some(v),
{
    NaiveDate::parse_from_str(s, "%Y-%m-%d").ok().map(|d| Date { year: d.year(), month: d.month(), day: d.day() })
}

/// Relies on `NaiveTime::parse_from_str(s, "%H:%M")`: the result depends on
/// `s` alone, has no seconds, and the text that `%H:%M` writes is read back
/// to its time.
#[verifier::external_body]
pub(crate) fn parse_time(s: &str) -> (r: Option<Time>)
    ensures
        time_opt_view(r) == chrono_time_of(s@),
        r matches Some(t) ==> t@.second == 0,
        forall|v: TimeView| valid_time(v) && v.second == 0 && s@ == time_input(v) ==> time_opt_view(r) == Some(v),
{
    NaiveTime::parse_from_str(s, "%H:%M").ok().map(|t| Time { hour: t.hour(), minute: t.minute(), second: t.second() })
}

} // verus!
