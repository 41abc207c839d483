//! A year and a month, with the months before and after it.

use std::cmp::Ordering;
use vstd::std_specs::cmp::PartialOrdSpec;
use vstd::prelude::*;

verus! {

/// A month of a year. January is month 1.
#[derive(Clone, Copy, Debug, PartialEq, Eq, Ord, Structural)]
pub struct YearAndMonth {
    pub year: i32,
    pub month: u32,
}

impl YearAndMonth {
    /// The month number names one of the twelve months.
    pub open spec fn wf(self) -> bool {
        1 <= self.month <= 12
    }

    /// Months counted from January of year 0, which is month 0.
    pub open spec fn ordinal(self) -> int {
        self.year * 12 + self.month - 1
    }

    /// The month before this one, as a value.
    pub open spec fn spec_pred(&self) -> YearAndMonth {
        if self.month == 1 {
            YearAndMonth { year: (self.year - 1) as i32, month: 12 }
        } else {
            YearAndMonth { year: self.year, month: (self.month - 1) as u32 }
        }
    }

    /// The month after this one, as a value.
    pub open spec fn spec_succ(&self) -> YearAndMonth {
        if self.month == 12 {
            YearAndMonth { year: (self.year + 1) as i32, month: 1 }
        } else {
            YearAndMonth { year: self.year, month: (self.month + 1) as u32 }
        }
    }

    /// This month has a predecessor whose year still fits.
    pub open spec fn has_pred(self) -> bool {
        self.wf() && (self.month == 1 ==> self.year > i32::MIN)
    }

    /// This month has a successor whose year still fits.
    pub open spec fn has_succ(self) -> bool {
        self.wf() && (self.month == 12 ==> self.year < i32::MAX)
    }

    /// The previous month; January rolls back to December of the year before.
    #[verifier::when_used_as_spec(spec_pred)]
    pub fn pred(&self) -> (r: Self)
        requires
            self.has_pred(),
        ensures
            r == self.spec_pred(),
            r.wf(),
            r.ordinal() == self.ordinal() - 1,
            self.month == 1 ==> r.year == self.year - 1 && r.month == 12,
            self.month != 1 ==> r.year == self.year && r.month == self.month - 1,
    {
        let mut year_and_month = *self;
        if year_and_month.month == 1 {
            year_and_month.year -= 1;
            year_and_month.month = 12;
        } else {
            year_and_month.month -= 1;
        }
        year_and_month
    }

    /// The next month; December rolls forward to January of the year after.
    #[verifier::when_used_as_spec(spec_succ)]
    pub fn succ(&self) -> (r: Self)
        requires
            self.has_succ(),
        ensures
            r == self.spec_succ(),
            r.wf(),
            r.ordinal() == self.ordinal() + 1,
            self.month == 12 ==> r.year == self.year + 1 && r.month == 1,
            self.month != 12 ==> r.year == self.year && r.month == self.month + 1,
    {
        let mut year_and_month = *self;
        if year_and_month.month == 12 {
            year_and_month.year += 1;
            year_and_month.month = 1;
        } else {
            year_and_month.month += 1;
        }
        year_and_month
    }
}

impl PartialOrd for YearAndMonth {
    /// Earlier years come first, and within a year earlier months.
    fn partial_cmp(&self, other: &Self) -> (r: Option<Ordering>) {
        if self.year < other.year {
            Some(Ordering::Less)
        } else if self.year > other.year {
            Some(Ordering::Greater)
        } else if self.month < other.month {
            Some(Ordering::Less)
        } else if self.month > other.month {
            Some(Ordering::Greater)
        } else {
            Some(Ordering::Equal)
        }
    }
}

impl vstd::std_specs::cmp::PartialOrdSpecImpl for YearAndMonth {
    open spec fn obeys_partial_cmp_spec() -> bool {
        true
    }

    open spec fn partial_cmp_spec(&self, other: &Self) -> Option<Ordering> {
        if self.year < other.year || (self.year == other.year && self.month < other.month) {
            Some(Ordering::Less)
        } else if self.year == other.year && self.month == other.month {
            Some(Ordering::Equal)
        } else {
            Some(Ordering::Greater)
        }
    }
}

impl From<(i32, u32)> for YearAndMonth {
    /// The month of a year, from the year's number and the month's.
    fn from(parts: (i32, u32)) -> (r: Self) {
        YearAndMonth { year: parts.0, month: parts.1 }
    }
}

impl vstd::std_specs::convert::FromSpecImpl<(i32, u32)> for YearAndMonth {
    open spec fn obeys_from_spec() -> bool {
        true
    }

    open spec fn from_spec(parts: (i32, u32)) -> Self {
        YearAndMonth { year: parts.0, month: parts.1 }
    }
}

/// Two months are equal exactly when they are the same month of the same
/// year, and among the months of the calendar the earlier one is the lesser.
pub proof fn lemma_order_follows_calendar(a: YearAndMonth, b: YearAndMonth)
    requires
        a.wf(),
        b.wf(),
    ensures
        a == b <==> a.ordinal() == b.ordinal(),
        a.partial_cmp_spec(&b) == Some(Ordering::Less) <==> a.ordinal() < b.ordinal(),
        a.partial_cmp_spec(&b) == Some(Ordering::Equal) <==> a == b,
        a.partial_cmp_spec(&b) == Some(Ordering::Greater) <==> a.ordinal() > b.ordinal(),
{
}

/// Going back one month and then forward one month, or the other way
/// round, returns to the month one started from.
pub proof fn lemma_pred_succ_round_trip(m: YearAndMonth)
    requires
        m.wf(),
    ensures
        m.has_pred() ==> m.pred().has_succ() && m.pred().succ() == m,
        m.has_succ() ==> m.succ().has_pred() && m.succ().pred() == m,
{
}

/// Both neighbours of a month are months of the calendar, and the year
/// moves, by exactly one, only between December and January.
pub proof fn lemma_neighbours_stay_in_calendar(m: YearAndMonth)
    requires
        m.wf(),
    ensures
        m.has_pred() ==> 1 <= m.pred().month <= 12,
        m.has_succ() ==> 1 <= m.succ().month <= 12,
        m.has_pred() ==> (m.pred().year != m.year <==> m.month == 1),
        m.has_pred() && m.month == 1 ==> m.pred().year == m.year - 1,
        m.has_succ() ==> (m.succ().year != m.year <==> m.month == 12),
        m.has_succ() && m.month == 12 ==> m.succ().year == m.year + 1,
{
}

} // verus!
