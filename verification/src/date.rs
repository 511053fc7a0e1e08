//! Calendar days as plain day numbers.
use chrono::{Datelike, NaiveDate};
use vstd::prelude::*;

verus! {

/// Day number of chrono's earliest representable date (January 1, 262144 BCE),
/// counted like `Datelike::num_days_from_ce` (January 1, 1 CE is day 1).
pub const MIN_DAY: i32 = -95746129;

/// Day number of chrono's latest representable date (December 31, 262142 CE).
pub const MAX_DAY: i32 = 95745399;

/// A calendar date, held as its day number in the proleptic Gregorian calendar
/// (January 1, 1 CE is day 1). Every value lies in chrono's representable range.
#[derive(Clone, Copy, Debug, PartialEq, Eq, Structural, Hash)]
pub struct Date {
    day: i32,
}

impl View for Date {
    type V = int;

    closed spec fn view(&self) -> int {
        self.day as int
    }
}

impl Date {
    #[verifier::type_invariant]
    spec fn in_range(self) -> bool {
        MIN_DAY <= self.day <= MAX_DAY
    }

    /// The day number of this date.
    pub fn day_number(self) -> (r: i32)
        ensures
            r == self@,
            MIN_DAY <= r <= MAX_DAY,
    {
        proof { use_type_invariant(&self); }
        self.day
    }

    /// The date with the given day number, if chrono can represent it.
    pub fn from_day_number(n: i32) -> (r: Option<Date>)
        ensures
            r matches Some(d) ==> d@ == n,
            r is Some <==> MIN_DAY <= n <= MAX_DAY,
    {
        if MIN_DAY <= n && n <= MAX_DAY {
            Some(Date { day: n })
        } else {
            None
        }
    }
}

/// The day number chrono gives the calendar date `year`-`month`-`day`, or `None`
/// when that triple is no date it can represent.
pub uninterp spec fn civil_day_number(year: i32, month: u32, day: u32) -> Option<i32>;

/// The text chrono's `Display` gives the date with day number `day` (`YYYY-MM-DD`).
pub uninterp spec fn iso_date_text(day: int) -> Seq<char>;

/// Calls chrono's `NaiveDate::from_ymd_opt` and `Datelike::num_days_from_ce`.
/// Claimed: the result is the named day number of the triple, and a date chrono
/// accepts lies in its representable range.
#[verifier::external_body]
fn ymd_day_number(year: i32, month: u32, day: u32) -> (r: Option<i32>)
    ensures
        r == civil_day_number(year, month, day),
        r matches Some(n) ==> MIN_DAY <= n <= MAX_DAY,
{
    match NaiveDate::from_ymd_opt(year, month, day) {
        Some(d) => Some(d.num_days_from_ce()),
        None => None,
    }
}

/// Calls chrono's `Local::now().date_naive()` and `Datelike::num_days_from_ce`.
/// Claimed only: the day lies in chrono's representable range. Which day it
/// is depends on the clock and the time zone, so nothing more is stated.
#[verifier::external_body]
fn local_today_day_number() -> (r: i32)
    ensures
        MIN_DAY <= r <= MAX_DAY,
{
    chrono::Local::now().date_naive().num_days_from_ce()
}

/// Calls chrono's `NaiveDate::from_num_days_from_ce_opt` and the `Display` of
/// `NaiveDate`. Claimed: a day in the representable range has a date (so the
/// call does not panic) and its text is the named one.
#[verifier::external_body]
fn day_number_text(day: i32) -> (r: String)
    requires
        MIN_DAY <= day <= MAX_DAY,
    ensures
        r@ == iso_date_text(day as int),
{
    NaiveDate::from_num_days_from_ce_opt(day).unwrap().to_string()
}

/// The calendar date (year, month, day) chrono gives the day number `day`.
pub uninterp spec fn civil_date(day: int) -> (i32, u32, u32);

/// Calls chrono's `NaiveDate::from_num_days_from_ce_opt` and the `Datelike`
/// accessors `year`, `month` and `day`. Claimed: a day in the representable
/// range has a date, its (year, month, day) is the named one, and the month
/// and day lie in 1..=12 and 1..=31 as chrono documents.
#[verifier::external_body]
fn day_number_ymd(day: i32) -> (r: (i32, u32, u32))
    requires
        MIN_DAY <= day <= MAX_DAY,
    ensures
        r == civil_date(day as int),
        1 <= r.1 <= 12,
        1 <= r.2 <= 31,
{
    let d = NaiveDate::from_num_days_from_ce_opt(day).unwrap();
    (d.year(), d.month(), d.day())
}

/// The weekday of the day with number `day`, counted from Monday (0) to
/// Sunday (6): day 1, January 1 of 1 CE in the proleptic Gregorian calendar,
/// was a Monday, and the weekdays repeat every seven days.
pub open spec fn weekday_from_monday(day: int) -> u32 {
    ((day - 1) % 7) as u32
}

/// Calls chrono's `NaiveDate::from_num_days_from_ce_opt`, `Datelike::weekday`
/// and `Weekday::num_days_from_monday`. Claimed: a day in the representable
/// range has a date, and its weekday, counted from Monday, is the one the
/// proleptic Gregorian calendar gives (day 1 a Monday).
#[verifier::external_body]
fn day_number_weekday(day: i32) -> (r: u32)
    requires
        MIN_DAY <= day <= MAX_DAY,
    ensures
        r == weekday_from_monday(day as int),
        r < 7,
{
    NaiveDate::from_num_days_from_ce_opt(day).unwrap().weekday().num_days_from_monday()
}

/// The text chrono's `format("%d %b")` gives the date with day number `day`
/// (such as `05 Jan`).
pub uninterp spec fn day_month_text(day: int) -> Seq<char>;

/// Calls chrono's `NaiveDate::from_num_days_from_ce_opt` and
/// `NaiveDate::format` with `%d %b`. Claimed: a day in the representable range
/// has a date, and its text is the named one.
#[verifier::external_body]
fn day_number_day_month(day: i32) -> (r: String)
    requires
        MIN_DAY <= day <= MAX_DAY,
    ensures
        r@ == day_month_text(day as int),
{
    NaiveDate::from_num_days_from_ce_opt(day).unwrap().format("%d %b").to_string()
}

/// The number of days of `month` in `year`, read off the day before the first
/// of the next month; 28 when chrono cannot represent those dates.
pub open spec fn month_length(year: i32, month: u32) -> u32 {
    let (ny, nm) = if month == 12 {
        ((year + 1) as i32, 1u32)
    } else {
        (year, (month + 1) as u32)
    };
    match civil_day_number(ny, nm, 1) {
        Some(n) => if MIN_DAY <= n - 1 {
            civil_date(n - 1).2
        } else {
            28
        },
        None => 28,
    }
}

/// Number of days in the given month.
pub fn days_in_month(year: i32, month: u32) -> (r: u32)
    requires
        month == 12 ==> year < i32::MAX,
        month < u32::MAX,
    ensures
        r == month_length(year, month),
        1 <= r <= 31,
{
    let (ny, nm) = if month == 12 {
        (year + 1, 1)
    } else {
        (year, month + 1)
    };
    match Date::from_ymd(ny, nm, 1) {
        Some(first_of_next) => match first_of_next.checked_add_days(-1) {
            Some(last) => last.ymd().2,
            None => 28,
        },
        None => 28,
    }
}

impl Date {
    /// This date's (year, month, day).
    pub fn ymd(self) -> (r: (i32, u32, u32))
        ensures
            r == civil_date(self@),
            1 <= r.1 <= 12,
            1 <= r.2 <= 31,
    {
        proof { use_type_invariant(&self); }
        day_number_ymd(self.day)
    }

    /// The date `year`-`month`-`day` with the day clamped into the month
    /// (so the 31st of a 30-day month is its 30th), if chrono can represent it.
    pub fn from_ymd_clamped(year: i32, month: u32, day: u32) -> (r: Option<Date>)
        requires
            month == 12 ==> year < i32::MAX,
            month < u32::MAX,
        ensures
            ({
                let dim = month_length(year, month);
                let d = if day < 1 { 1 } else if day > dim { dim } else { day };
                &&& r matches Some(x) ==> civil_day_number(year, month, d) == Some(x@ as i32)
                &&& r is None ==> civil_day_number(year, month, d) is None
            }),
    {
        let dim = days_in_month(year, month);
        let d = if day < 1 {
            1
        } else if day > dim {
            dim
        } else {
            day
        };
        Date::from_ymd(year, month, d)
    }

    /// Two dates are equal exactly when their day numbers are.
    pub proof fn lemma_view_injective(a: Date, b: Date)
        ensures
            (a@ == b@) <==> (a == b),
    {
    }

    /// The calendar date `year`-`month`-`day`, if it exists and chrono can
    /// represent it.
    pub fn from_ymd(year: i32, month: u32, day: u32) -> (r: Option<Date>)
        ensures
            r matches Some(d) ==> civil_day_number(year, month, day) == Some(d@ as i32),
            r is None ==> civil_day_number(year, month, day) is None,
    {
        match ymd_day_number(year, month, day) {
            Some(n) => Some(Date { day: n }),
            None => None,
        }
    }

    /// Today's date on the local clock.
    pub fn today() -> (r: Date) {
        Date { day: local_today_day_number() }
    }

    /// The date `days` days after this one (before it, for a negative count),
    /// if chrono can represent it.
    pub fn checked_add_days(self, days: i64) -> (r: Option<Date>)
        ensures
            r matches Some(d) ==> d@ == self@ + days,
            r is Some <==> MIN_DAY <= self@ + days <= MAX_DAY,
            MIN_DAY <= self@ <= MAX_DAY,
    {
        proof { use_type_invariant(&self); }
        let base: i64 = self.day as i64;
        if days < MIN_DAY as i64 - base || days > MAX_DAY as i64 - base {
            None
        } else {
            Some(Date { day: (base + days) as i32 })
        }
    }

    /// True if this date comes strictly before `other`.
    pub fn is_before(self, other: Date) -> (r: bool)
        ensures
            r == (self@ < other@),
    {
        self.day < other.day
    }

    /// The number of days from `self` to `other` (negative when `other` is earlier).
    pub fn days_until(self, other: Date) -> (r: i64)
        ensures
            r == other@ - self@,
    {
        other.day as i64 - self.day as i64
    }

    /// True on Saturdays and Sundays (the timeline shades those columns).
    pub fn is_weekend(self) -> (r: bool)
        ensures
            r == (weekday_from_monday(self@) >= 5),
    {
        proof { use_type_invariant(&self); }
        day_number_weekday(self.day) >= 5
    }

    /// The timeline's column label for this date: day of month and abbreviated
    /// month, such as `05 Jan`.
    pub fn day_month_label(self) -> (r: String)
        ensures
            r@ == day_month_text(self@),
    {
        proof { use_type_invariant(&self); }
        day_number_day_month(self.day)
    }

    /// This date as `YYYY-MM-DD`, the way chrono displays it.
    pub fn text(self) -> (r: String)
        ensures
            r@ == iso_date_text(self@),
    {
        proof { use_type_invariant(&self); }
        day_number_text(self.day)
    }
}

} // verus!
