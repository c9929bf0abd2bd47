//! Profiles: amounts that depend on the calendar alone.

use vstd::prelude::*;
use crate::error::{ErrorView, PywrError};
use crate::network::Network;
use crate::parameters::{Parameter, ParameterMeta};
use crate::scenario::ScenarioIndex;
use crate::state::State;
use crate::parameters::control_curves::lemma_quotient_bound;
use crate::timestep::{days_before, days_before_month, days_in_year, leap, Date, Timestep};
use crate::value::{clamp, divide, narrow, quotient, Value, UNIT};

verus! {

/// A parameter that gives one amount for each month of the year.
#[derive(Clone, Debug, PartialEq, Eq)]
pub struct MonthlyProfileParameter {
    pub meta: ParameterMeta,
    pub values: [Value; 12],
}

impl MonthlyProfileParameter {
    pub fn new(name: &str, values: [Value; 12]) -> (r: Self)
        ensures
            r.meta.name@ == name@,
            r.values == values,
    {
        Self { meta: ParameterMeta::new(name), values }
    }
}

impl Parameter for MonthlyProfileParameter {
    /// The amount of the month of the step: the first for January, the twelfth
    /// for December. A month outside the year fails.
    open spec fn value(
        &self,
        timestep: Timestep,
        scenario_index: ScenarioIndex,
        network: Network,
        state: State,
    ) -> Result<Value, ErrorView> {
        if 1 <= timestep.date.month <= 12 {
            Ok(self.values[timestep.date.month - 1])
        } else {
            Err(ErrorView::TimestepIndexOutOfRange)
        }
    }

    open spec fn meta_of(&self) -> ParameterMeta {
        self.meta
    }

    fn meta(&self) -> (r: &ParameterMeta) {
        &self.meta
    }

    fn compute(
        &self,
        timestep: &Timestep,
        scenario_index: &ScenarioIndex,
        network: &Network,
        state: &State,
    ) -> (r: Result<Value, PywrError>) {
        let month = timestep.date.month;
        if 1 <= month && month <= 12 {
            Ok(self.values[(month - 1) as usize])
        } else {
            Err(PywrError::TimestepIndexOutOfRange)
        }
    }
}

/// The place of a day in a profile of 366 days, counted from zero: the day of
/// the year less one, and in a year without a 29 February one more from the
/// 1 March on, so that the place of the 29 February, 59, is passed over.
pub open spec fn daily_position(date: Date) -> int {
    if date.leap_year || date.day_of_year <= 59 {
        date.day_of_year - 1
    } else {
        date.day_of_year as int
    }
}

/// A parameter that gives one amount for each day of a year of 366 days.
#[derive(Clone, Debug, PartialEq, Eq)]
pub struct DailyProfileParameter {
    pub meta: ParameterMeta,
    pub values: Vec<Value>,
}

impl DailyProfileParameter {
    pub fn new(name: &str, values: Vec<Value>) -> (r: Self)
        ensures
            r.meta.name@ == name@,
            r.values == values,
    {
        Self { meta: ParameterMeta::new(name), values }
    }
}

impl Parameter for DailyProfileParameter {
    /// The amount at the place of the day of the step. A day before the first of
    /// the year, or a place that the amounts do not reach, fails.
    open spec fn value(
        &self,
        timestep: Timestep,
        scenario_index: ScenarioIndex,
        network: Network,
        state: State,
    ) -> Result<Value, ErrorView> {
        if timestep.date.day_of_year >= 1 && daily_position(timestep.date) < self.values.len() {
            Ok(self.values[daily_position(timestep.date)])
        } else {
            Err(ErrorView::TimestepIndexOutOfRange)
        }
    }

    open spec fn meta_of(&self) -> ParameterMeta {
        self.meta
    }

    fn meta(&self) -> (r: &ParameterMeta) {
        &self.meta
    }

    fn compute(
        &self,
        timestep: &Timestep,
        scenario_index: &ScenarioIndex,
        network: &Network,
        state: &State,
    ) -> (r: Result<Value, PywrError>) {
        let day = timestep.date.day_of_year;
        if day < 1 {
            return Err(PywrError::TimestepIndexOutOfRange);
        }
        let position: usize = if timestep.date.leap_year || day <= 59 {
            (day - 1) as usize
        } else {
            day as usize
        };
        if position < self.values.len() {
            Ok(self.values[position])
        } else {
            Err(PywrError::TimestepIndexOutOfRange)
        }
    }
}

/// What is left of one after `days_into` days of a period of `total` days that
/// falls evenly and would, at its end, leave the share of `residual` days in
/// the period.
pub open spec fn drawn_down(days_into: int, total: int, residual: int) -> Value {
    clamp(UNIT - quotient((total - residual) * days_into * UNIT, total * total)) as i64
}

/// A parameter that falls evenly from one, on the day of the year on which it
/// is reset, over the days until it is reset again.
#[derive(Clone, Debug, PartialEq, Eq)]
pub struct UniformDrawdownProfileParameter {
    pub meta: ParameterMeta,
    /// The day of the month on which the profile is reset to one.
    pub reset_day: u8,
    /// The month, from 1 to 12, in which the profile is reset to one.
    pub reset_month: u8,
    /// The number of days whose share of the period would be left at its end.
    pub residual_days: u16,
}

impl UniformDrawdownProfileParameter {
    pub fn new(name: &str, reset_day: u8, reset_month: u8, residual_days: u16) -> (r: Self)
        ensures
            r.meta.name@ == name@,
            r.reset_day == reset_day,
            r.reset_month == reset_month,
            r.residual_days == residual_days,
    {
        Self { meta: ParameterMeta::new(name), reset_day, reset_month, residual_days }
    }

    /// Whether the day of the reset is a day of a month.
    pub open spec fn wf(&self) -> bool {
        1 <= self.reset_month <= 12 && 1 <= self.reset_day <= 31
    }

    /// The day of a year on which the profile is reset, counted from one. A
    /// 29 February stands for the 1 March in a year that has none.
    pub open spec fn reset_in(&self, year: int) -> int {
        days_before_month(self.reset_month as int, leap(year)) + self.reset_day
    }

    /// The days that have gone by since the profile was last reset, and the
    /// days from that reset to the next.
    pub open spec fn period(&self, date: Date) -> (int, int) {
        let this = self.reset_in(date.year as int);
        if date.day_of_year >= this {
            (
                date.day_of_year - this,
                days_in_year(date.year as int) - this + self.reset_in(date.year + 1),
            )
        } else {
            let last = self.reset_in(date.year - 1);
            (
                date.day_of_year + days_in_year(date.year - 1) - last,
                days_in_year(date.year - 1) - last + this,
            )
        }
    }

    fn reset_day_of(&self, year: i64) -> (r: i64)
        requires
            self.wf(),
            -0x8000_0001 <= year <= 0x8000_0000,
        ensures
            r == self.reset_in(year as int),
            1 <= r <= 366,
    {
        let shifted: i64 = year + 2_147_484_000;
        let leap_year = shifted % 4 == 0 && (shifted % 100 != 0 || shifted % 400 == 0);
        days_before(self.reset_month, leap_year) as i64 + self.reset_day as i64
    }
}

fn year_length(year: i64) -> (r: i64)
    requires
        -0x8000_0001 <= year <= 0x8000_0000,
    ensures
        r == days_in_year(year as int),
{
    let shifted: i64 = year + 2_147_484_000;
    if shifted % 4 == 0 && (shifted % 100 != 0 || shifted % 400 == 0) {
        366
    } else {
        365
    }
}

impl Parameter for UniformDrawdownProfileParameter {
    /// One on the day of the reset, and from then on less by the same amount
    /// for each day, so that at the end of the period the share of the residual
    /// days would be left. A day that the year of the step does not have, or a
    /// reset on a day that no month has, fails.
    open spec fn value(
        &self,
        timestep: Timestep,
        scenario_index: ScenarioIndex,
        network: Network,
        state: State,
    ) -> Result<Value, ErrorView> {
        let date = timestep.date;
        if self.wf() && 1 <= date.day_of_year <= days_in_year(date.year as int) {
            let (days_into, total) = self.period(date);
            Ok(drawn_down(days_into, total, self.residual_days as int))
        } else {
            Err(ErrorView::TimestepIndexOutOfRange)
        }
    }

    open spec fn meta_of(&self) -> ParameterMeta {
        self.meta
    }

    fn meta(&self) -> (r: &ParameterMeta) {
        &self.meta
    }

    fn compute(
        &self,
        timestep: &Timestep,
        scenario_index: &ScenarioIndex,
        network: &Network,
        state: &State,
    ) -> (r: Result<Value, PywrError>) {
        let date = timestep.date;
        let year: i64 = date.year as i64;
        let today: i64 = date.day_of_year as i64;
        if !(1 <= self.reset_month && self.reset_month <= 12 && 1 <= self.reset_day
            && self.reset_day <= 31) || today < 1 || today > year_length(year) {
            return Err(PywrError::TimestepIndexOutOfRange);
        }
        let this = self.reset_day_of(year);
        let (days_into, total): (i64, i64) = if today >= this {
            (today - this, year_length(year) - this + self.reset_day_of(year + 1))
        } else {
            let last = self.reset_day_of(year - 1);
            (today + year_length(year - 1) - last, year_length(year - 1) - last + this)
        };
        assert(0 <= days_into <= 400 && 300 <= total <= 400);
        let short: i128 = total as i128 - self.residual_days as i128;
        let gone: i128 = days_into as i128;
        assert(-0x1000_0000 <= short * gone <= 0x1000_0000) by (nonlinear_arith)
            requires
                -0xffff <= short <= 400,
                0 <= gone <= 400,
        ;
        let fall: i128 = short * gone;
        let wide: i128 = total as i128;
        assert(0 < wide * wide <= 160_000) by (nonlinear_arith)
            requires
                300 <= wide <= 400,
        ;
        let span: i128 = wide * wide;
        let scaled: i128 = fall * (UNIT as i128);
        proof {
            lemma_quotient_bound(scaled as int, span as int);
        }
        let share: i128 = divide(scaled, span);
        Ok(narrow(UNIT as i128 - share))
    }
}

} // verus!
