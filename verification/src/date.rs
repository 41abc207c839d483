//! Calendar days as day numbers, and the day on which a month begins.

use crate::month::YearAndMonth;
use chrono::{Datelike, NaiveDate};
use vstd::prelude::*;

verus! {

/// The earliest year whose days chrono's `NaiveDate` can hold.
pub const MIN_YEAR: i32 = -262_143;

/// The latest year whose days chrono's `NaiveDate` can hold.
pub const MAX_YEAR: i32 = 262_142;

/// A day of the proleptic Gregorian calendar, held as its day number:
/// 1 January of year 1 is day 1, and each day is one more than the day
/// before it.
#[derive(Clone, Copy, Debug, PartialEq, Eq, Structural)]
pub struct Date {
    pub days: i64,
}

impl View for Date {
    type V = int;

    open spec fn view(&self) -> int {
        self.days as int
    }
}

/// How many days after a Monday the day with this number falls: 0 for a
/// Monday, 6 for a Sunday. Day 1 is a Monday, and the weekdays repeat every
/// seven days.
pub open spec fn days_from_monday(day_number: int) -> int {
    (day_number - 1) % 7
}

/// chrono has days for this month of this year.
pub open spec fn representable(year: int, month: int) -> bool {
    MIN_YEAR <= year <= MAX_YEAR && 1 <= month <= 12
}

/// The day number of the first day of a month, as chrono counts it.
pub uninterp spec fn month_start(year: int, month: int) -> int;

impl Date {
    /// How many days after a Monday this day falls.
    pub open spec fn weekday(self) -> int {
        days_from_monday(self@)
    }

    /// This day is a Monday.
    pub open spec fn is_monday(self) -> bool {
        self.weekday() == 0
    }

    /// The day before this one, as a value.
    pub open spec fn spec_pred(&self) -> Date {
        Date { days: (self.days - 1) as i64 }
    }

    /// The day after this one, as a value.
    pub open spec fn spec_succ(&self) -> Date {
        Date { days: (self.days + 1) as i64 }
    }

    /// The previous calendar day.
    #[verifier::when_used_as_spec(spec_pred)]
    pub fn pred(&self) -> (r: Date)
        requires
            self.days > i64::MIN,
        ensures
            r == self.spec_pred(),
            r@ == self@ - 1,
    {
        Date { days: self.days - 1 }
    }

    /// The next calendar day.
    #[verifier::when_used_as_spec(spec_succ)]
    pub fn succ(&self) -> (r: Date)
        requires
            self.days < i64::MAX,
        ensures
            r == self.spec_succ(),
            r@ == self@ + 1,
    {
        Date { days: self.days + 1 }
    }
}

/// Calls chrono's `NaiveDate::from_ymd_opt` for the first day of a month and
/// hands back that day's number (`Datelike::num_days_from_ce`).
///
/// Believed of chrono, not proved: there is such a day exactly when the
/// month is one of the twelve and the year lies within `MIN_YEAR` and
/// `MAX_YEAR`; the number that comes back is the one named `month_start`.
#[verifier::external_body]
fn first_day_number(year: i32, month: u32) -> (found: Option<i32>)
    ensures
        found.is_some() == representable(year as int, month as int),
        found.is_some() ==> found.unwrap() == month_start(year as int, month as int),
{
    match NaiveDate::from_ymd_opt(year, month, 1) {
        Some(date) => Some(date.num_days_from_ce()),
        None => None,
    }
}

/// Calls chrono's `Datelike::weekday` on the first day of a month and hands
/// back `Weekday::num_days_from_monday` of it.
///
/// Believed of chrono, not proved: there is such a day on the inputs on
/// which `first_day_number` finds one; the number that comes back is 0 for a
/// Monday up to 6 for a Sunday, and it is the weekday that the day's number
/// gives, day 1 being a Monday.
#[verifier::external_body]
fn first_weekday(year: i32, month: u32) -> (found: Option<u32>)
    ensures
        found.is_some() == representable(year as int, month as int),
        found.is_some() ==> found.unwrap() == days_from_monday(
            month_start(year as int, month as int),
        ),
{
    match NaiveDate::from_ymd_opt(year, month, 1) {
        Some(date) => Some(date.weekday().num_days_from_monday()),
        None => None,
    }
}

impl YearAndMonth {
    /// chrono has a first day for this month.
    pub open spec fn has_first(self) -> bool {
        representable(self.year as int, self.month as int)
    }

    /// The first day of this month, where chrono has one.
    pub fn checked_first(&self) -> (r: Option<Date>)
        ensures
            r.is_some() <==> self.has_first(),
            r matches Some(date) ==> date@ == month_start(self.year as int, self.month as int),
            r matches Some(date) ==> i32::MIN <= date@ <= i32::MAX,
    {
        match first_day_number(self.year, self.month) {
            Some(n) => Some(Date { days: n as i64 }),
            None => None,
        }
    }

    /// The first day of this month.
    pub fn first(&self) -> (r: Date)
        requires
            self.has_first(),
        ensures
            r@ == month_start(self.year as int, self.month as int),
            i32::MIN <= r@ <= i32::MAX,
    {
        self.checked_first().unwrap()
    }

    /// How many days after a Monday this month begins.
    pub fn first_days_from_monday(&self) -> (r: u32)
        requires
            self.has_first(),
        ensures
            r == days_from_monday(month_start(self.year as int, self.month as int)),
            r < 7,
    {
        first_weekday(self.year, self.month).unwrap()
    }
}

} // verus!
