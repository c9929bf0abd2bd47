//! The steps of time that a run walks through.

use vstd::prelude::*;

verus! {

/// The calendar fields of a day. The kernel reads them and computes none.
#[derive(Clone, Copy, Debug, PartialEq, Eq, Structural)]
pub struct Date {
    pub year: i32,
    /// The month, from 1 to 12.
    pub month: u8,
    /// The day of the month, from 1.
    pub day: u8,
    /// The day of the year, from 1 to 366.
    pub day_of_year: u16,
    /// Whether the year has a 29 February.
    pub leap_year: bool,
}

impl Date {
    /// Whether the fields lie in their ranges.
    pub open spec fn wf(&self) -> bool {
        &&& 1 <= self.month <= 12
        &&& 1 <= self.day <= 31
        &&& 1 <= self.day_of_year <= 366
        &&& !self.leap_year ==> self.day_of_year <= 365
    }

    /// A date from its fields, if they lie in their ranges.
    pub fn new(year: i32, month: u8, day: u8, day_of_year: u16, leap_year: bool) -> (r: Option<
        Self,
    >)
        ensures
            r.is_some() <==> (Date { year, month, day, day_of_year, leap_year }).wf(),
            r.is_some() ==> r.unwrap() == (Date { year, month, day, day_of_year, leap_year }),
    {
        let date = Date { year, month, day, day_of_year, leap_year };
        if 1 <= month && month <= 12 && 1 <= day && day <= 31 && 1 <= day_of_year && day_of_year
            <= 366 && (leap_year || day_of_year <= 365) {
            Some(date)
        } else {
            None
        }
    }
}

/// Whether a year has a 29 February.
pub open spec fn leap(year: int) -> bool {
    year % 4 == 0 && (year % 100 != 0 || year % 400 == 0)
}

/// Whether a year has a 29 February.
pub fn is_leap(year: i32) -> (r: bool)
    ensures
        r == leap(year as int),
{
    let shifted: i64 = year as i64 + 2_147_484_000;
    shifted % 4 == 0 && (shifted % 100 != 0 || shifted % 400 == 0)
}

/// The number of days of a year.
pub open spec fn days_in_year(year: int) -> int {
    if leap(year) {
        366
    } else {
        365
    }
}

/// The number of days of a year that lie before the first of a month.
pub open spec fn days_before_month(month: int, leap_year: bool) -> int {
    let plain: int = if month <= 1 {
        0
    } else if month == 2 {
        31
    } else if month == 3 {
        59
    } else if month == 4 {
        90
    } else if month == 5 {
        120
    } else if month == 6 {
        151
    } else if month == 7 {
        181
    } else if month == 8 {
        212
    } else if month == 9 {
        243
    } else if month == 10 {
        273
    } else if month == 11 {
        304
    } else {
        334
    };
    if leap_year && month > 2 {
        plain + 1
    } else {
        plain
    }
}

/// The number of days of a year that lie before the first of a month.
pub fn days_before(month: u8, leap_year: bool) -> (r: u16)
    ensures
        r == days_before_month(month as int, leap_year),
{
    let plain: u16 = if month <= 1 {
        0
    } else if month == 2 {
        31
    } else if month == 3 {
        59
    } else if month == 4 {
        90
    } else if month == 5 {
        120
    } else if month == 6 {
        151
    } else if month == 7 {
        181
    } else if month == 8 {
        212
    } else if month == 9 {
        243
    } else if month == 10 {
        273
    } else if month == 11 {
        304
    } else {
        334
    };
    if leap_year && month > 2 {
        plain + 1
    } else {
        plain
    }
}

/// One step of a run.
#[derive(Clone, Copy, Debug, PartialEq, Eq, Structural)]
pub struct Timestep {
    /// The position of the step in the run, from zero.
    pub index: usize,
    /// The first day of the step.
    pub date: Date,
    /// The length of the step in days.
    pub days: u32,
}

impl Timestep {
    pub fn new(index: usize, date: Date, days: u32) -> (r: Self)
        ensures
            r == (Timestep { index, date, days }),
    {
        Timestep { index, date, days }
    }
}

} // verus!
