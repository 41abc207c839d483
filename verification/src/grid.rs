//! The thirty-five days that a month's grid shows, and the grid that keeps
//! one cell for each of them.

use crate::date::{days_from_monday, month_start, Date};
use crate::month::YearAndMonth;
use vstd::prelude::*;

verus! {

/// Days in a week, and columns in the grid.
pub const WEEK_LENGTH: usize = 7;

/// Weeks, and rows, in the grid.
pub const WEEK_COUNT: usize = 5;

/// Cells in the grid: five weeks of seven days.
pub const DAY_COUNT: usize = 35;

/// The day number of the grid's first cell: the Monday on or before the
/// first day of the month.
pub open spec fn grid_start(month: YearAndMonth) -> int {
    let first = month_start(month.year as int, month.month as int);
    first - days_from_monday(first)
}

/// The day number of the grid's cell `i`, counted from 0 along the rows.
pub open spec fn grid_day(month: YearAndMonth, i: int) -> int {
    grid_start(month) + i
}

/// `dates` are the days that the grid of `month` shows, in order.
pub open spec fn is_grid_of(dates: Seq<Date>, month: YearAndMonth) -> bool {
    &&& dates.len() == DAY_COUNT
    &&& forall|i: int| 0 <= i < DAY_COUNT ==> (#[trigger] dates[i])@ == grid_day(month, i)
}

/// `dates` are five weeks, day after day, from a Monday to a Sunday.
pub open spec fn is_five_weeks(dates: Seq<Date>) -> bool {
    &&& dates.len() == DAY_COUNT
    &&& dates[0].is_monday()
    &&& forall|i: int| 0 <= i < DAY_COUNT - 1 ==> (#[trigger] dates[i + 1])@ == dates[i]@ + 1
}

/// `dates` are thirty-five days in a row, the first of them `start`.
pub open spec fn is_run_from(dates: Seq<Date>, start: int) -> bool {
    &&& dates.len() == DAY_COUNT
    &&& forall|i: int| 0 <= i < DAY_COUNT ==> (#[trigger] dates[i])@ == start + i
}

/// Thirty-five days in a row, the first of them `back` days before `first`.
pub fn dates_around(first: Date, back: u32) -> (dates: Vec<Date>)
    requires
        i64::MIN <= first@ - back,
        first@ - back + DAY_COUNT <= i64::MAX,
    ensures
        is_run_from(dates@, first@ - back),
{
    let mut date = first;
    let mut walked: u32 = 0;
    while walked < back
        invariant
            walked <= back,
            date@ == first@ - walked,
            i64::MIN <= first@ - back,
        decreases back - walked,
    {
        date = date.pred();
        walked += 1;
    }
    let mut dates: Vec<Date> = Vec::new();
    let mut i: usize = 0;
    while i < DAY_COUNT
        invariant
            i <= DAY_COUNT,
            dates.len() == i,
            date@ == first@ - back + i,
            first@ - back + DAY_COUNT <= i64::MAX,
            forall|j: int| 0 <= j < i ==> (#[trigger] dates[j])@ == first@ - back + j,
        decreases DAY_COUNT - i,
    {
        dates.push(date);
        date = date.succ();
        i += 1;
    }
    dates
}

/// The days that the grid of a month shows: thirty-five days in a row,
/// the first of them the Monday on or before the first of the month.
pub fn month_dates(month: &YearAndMonth) -> (dates: Vec<Date>)
    requires
        month.has_first(),
    ensures
        is_grid_of(dates@, *month),
        is_five_weeks(dates@),
{
    let first = month.first();
    let back = month.first_days_from_monday();
    let dates = dates_around(first, back);
    proof {
        lemma_grid_of(dates@, *month);
    }
    dates
}

/// The place in the row of cells of the cell in week `week`, on day `day`
/// of that week, both counted from 0: the weeks follow one another, each
/// from its Monday to its Sunday.
pub fn cell_index(week: usize, day: usize) -> (index: usize)
    requires
        week < WEEK_COUNT,
        day < WEEK_LENGTH,
    ensures
        index == week * WEEK_LENGTH + day,
        index < DAY_COUNT,
        index / WEEK_LENGTH == week,
        index % WEEK_LENGTH == day,
{
    week * WEEK_LENGTH + day
}

/// What a grid holds, as plain values.
pub struct GridView<C> {
    /// The month whose days the grid shows; none before it is first filled.
    pub month: Option<YearAndMonth>,
    /// The day that each cell shows.
    pub dates: Seq<Date>,
    /// The child that stands in each cell.
    pub children: Seq<C>,
}

impl<C> GridView<C> {
    /// No month, no cells: the grid before it is first filled.
    pub open spec fn is_empty(self) -> bool {
        self.month.is_none() && self.dates.len() == 0 && self.children.len() == 0
    }

    /// One child for each of the thirty-five days of `month`.
    pub open spec fn shows(self, month: YearAndMonth) -> bool {
        &&& self.month == Some(month)
        &&& is_grid_of(self.dates, month)
        &&& self.children.len() == DAY_COUNT
    }

    /// Each child is one that `build` gave for the day of its cell.
    pub open spec fn built_by<F: Fn(Date) -> C>(self, build: F) -> bool {
        forall|i: int|
            0 <= i < self.children.len() ==> call_ensures(
                build,
                (self.dates[i],),
                #[trigger] self.children[i],
            )
    }
}

/// `build` may be called on every day.
pub open spec fn builds_any_day<C, F: Fn(Date) -> C>(build: F) -> bool {
    forall|date: Date| call_requires(build, (date,))
}

/// A month's grid of children: empty until it is first filled, and from then
/// on one child for each of the thirty-five days of the month it shows.
pub struct CalendarGrid<C> {
    month: Option<YearAndMonth>,
    dates: Vec<Date>,
    children: Vec<C>,
}

impl<C> View for CalendarGrid<C> {
    type V = GridView<C>;

    closed spec fn view(&self) -> GridView<C> {
        GridView { month: self.month, dates: self.dates@, children: self.children@ }
    }
}

impl<C> CalendarGrid<C> {
    /// The grid is empty, or it shows a month.
    pub open spec fn wf(&self) -> bool {
        match self@.month {
            None => self@.is_empty(),
            Some(month) => self@.shows(month),
        }
    }

    /// A grid without children.
    pub fn new() -> (grid: Self)
        ensures
            grid.wf(),
            grid@.is_empty(),
    {
        CalendarGrid { month: None, dates: Vec::new(), children: Vec::new() }
    }

    /// The month that the grid shows, if it has been filled.
    pub fn month(&self) -> (month: Option<YearAndMonth>)
        ensures
            month == self@.month,
    {
        self.month
    }

    /// The days that the cells show, in order.
    pub fn dates(&self) -> (dates: &[Date])
        ensures
            dates@ == self@.dates,
    {
        self.dates.as_slice()
    }

    /// The children, in the order of their cells.
    pub fn children(&self) -> (children: &[C])
        ensures
            children@ == self@.children,
    {
        self.children.as_slice()
    }

    /// How many children the grid holds: none, or thirty-five.
    pub fn len(&self) -> (len: usize)
        ensures
            len == self@.children.len(),
            self.wf() ==> len == 0 || len == DAY_COUNT,
            self.wf() ==> (len == DAY_COUNT <==> self@.month.is_some()),
    {
        self.children.len()
    }

    /// The child at place `index`, open to change; the other children, the
    /// days and the month stay as they are.
    pub fn child_mut(&mut self, index: usize) -> (child: &mut C)
        requires
            index < old(self)@.children.len(),
        ensures
            *child == old(self)@.children[index as int],
            final(self)@.children == old(self)@.children.update(index as int, *final(child)),
            final(self)@.month == old(self)@.month,
            final(self)@.dates == old(self)@.dates,
            old(self).wf() ==> final(self).wf(),
    {
        &mut self.children[index]
    }

    /// Discards the children and builds one for each day of `month`'s grid,
    /// in order, each by one call of `build` on its day.
    pub fn create_children<F: Fn(Date) -> C>(&mut self, month: &YearAndMonth, build: F)
        requires
            month.has_first(),
            builds_any_day(build),
        ensures
            final(self).wf(),
            final(self)@.shows(*month),
            final(self)@.built_by(build),
            is_five_weeks(final(self)@.dates),
    {
        let dates = month_dates(month);
        let mut children: Vec<C> = Vec::new();
        let mut i: usize = 0;
        while i < DAY_COUNT
            invariant
                i <= DAY_COUNT,
                children.len() == i,
                is_grid_of(dates@, *month),
                builds_any_day(build),
                forall|j: int|
                    0 <= j < i ==> call_ensures(build, (dates@[j],), #[trigger] children@[j]),
            decreases DAY_COUNT - i,
        {
            let date = dates[i];
            children.push(build(date));
            i += 1;
        }
        self.month = Some(*month);
        self.dates = dates;
        self.children = children;
    }

    /// Takes a notice from the tree that holds the grid. When the notice
    /// says that the grid was added to the tree, asks `pick` for the month
    /// and builds the children for it; on any other notice `pick` is not
    /// called and the grid stays as it is. Gives back the month picked.
    pub fn lifecycle<P: FnOnce() -> YearAndMonth, F: Fn(Date) -> C>(
        &mut self,
        added: bool,
        pick: P,
        build: F,
    ) -> (picked: Option<YearAndMonth>)
        requires
            old(self).wf(),
            added ==> call_requires(pick, ()),
            added ==> builds_any_day(build),
            forall|month: YearAndMonth|
                added && call_ensures(pick, (), month) ==> month.has_first(),
        ensures
            final(self).wf(),
            picked.is_some() <==> added,
            !added ==> *final(self) == *old(self),
            picked matches Some(month) ==> call_ensures(pick, (), month) && final(self)@.shows(
                month,
            ) && final(self)@.built_by(build),
    {
        if added {
            let month = pick();
            self.create_children(&month, build);
            Some(month)
        } else {
            None
        }
    }

    /// Rebuilds the children when the month has changed, and leaves the
    /// grid as it is when it has not. Says whether it rebuilt them.
    pub fn update<F: Fn(Date) -> C>(
        &mut self,
        old_month: &YearAndMonth,
        month: &YearAndMonth,
        build: F,
    ) -> (changed: bool)
        requires
            old(self).wf(),
            *old_month != *month ==> month.has_first() && builds_any_day(build),
        ensures
            final(self).wf(),
            changed <==> *old_month != *month,
            !changed ==> *final(self) == *old(self),
            changed ==> final(self)@.shows(*month) && final(self)@.built_by(build),
    {
        if *old_month != *month {
            self.create_children(month, build);
            true
        } else {
            false
        }
    }
}

/// Whatever the month, its grid begins on a Monday, that Monday is the last
/// one not after the first of the month, and each cell is the day after the
/// cell before it.
pub proof fn lemma_grid_days(month: YearAndMonth)
    ensures
        days_from_monday(grid_day(month, 0)) == 0,
        grid_day(month, 0) <= month_start(month.year as int, month.month as int) < grid_day(
            month,
            0,
        ) + 7,
        forall|i: int| #[trigger] grid_day(month, i + 1) == grid_day(month, i) + 1,
{
}

/// In a month's grid the cell of week `week` and day `day` shows the day
/// that lies `week` weeks and `day` days after the grid's first day, and
/// that day falls `day` days after a Monday: each column holds one weekday.
pub proof fn lemma_cell_day(month: YearAndMonth, week: int, day: int)
    requires
        0 <= week < WEEK_COUNT,
        0 <= day < WEEK_LENGTH,
    ensures
        0 <= week * WEEK_LENGTH + day < DAY_COUNT,
        grid_day(month, week * WEEK_LENGTH + day) == grid_start(month) + 7 * week + day,
        days_from_monday(grid_day(month, week * WEEK_LENGTH + day)) == day,
{
}

/// Two cells stand at the same place in the row only if they are the same
/// cell: every place belongs to one week and one day of it.
pub proof fn lemma_cell_index_is_one_to_one(week: int, day: int, other_week: int, other_day: int)
    requires
        0 <= week < WEEK_COUNT,
        0 <= day < WEEK_LENGTH,
        0 <= other_week < WEEK_COUNT,
        0 <= other_day < WEEK_LENGTH,
        week * WEEK_LENGTH + day == other_week * WEEK_LENGTH + other_day,
    ensures
        week == other_week,
        day == other_day,
{
}

/// The days of a month's grid are thirty-five, begin on a Monday, and follow
/// one another day by day.
pub proof fn lemma_grid_of(dates: Seq<Date>, month: YearAndMonth)
    requires
        is_grid_of(dates, month),
    ensures
        is_five_weeks(dates),
{
    lemma_grid_days(month);
    assert(dates[0]@ == grid_day(month, 0));
    assert forall|i: int| 0 <= i < 34 implies (#[trigger] dates[i + 1])@ == dates[i]@ + 1 by {
        assert(dates[i]@ == grid_day(month, i));
        assert(dates[i + 1]@ == grid_day(month, i + 1));
    }
}

} // verus!
