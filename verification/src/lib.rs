//! A calendar-month grid: the month shown, the thirty-five days it covers,
//! and the rules by which the grid rebuilds and places its cells.

pub mod date;
pub mod grid;
pub mod month;
