//! Time series: columns of amounts, one amount per step, that parameters are
//! made of.

use vstd::prelude::*;
use crate::error::{outcome, EntityKind, ErrorView, PywrError};
use crate::network::{Network, Part};
use crate::parameters::array::{laid_out, Array1, Array2};
use crate::parameters::{Array1Parameter, Array2Parameter, ParameterIndex, ParameterKind};
use crate::schema::parameters::ParameterMeta;
use crate::value::Value;

verus! {

/// Where the amounts of a time series come from.
#[derive(Clone, Debug, PartialEq, Eq)]
pub enum TimeseriesProvider {
    Pandas,
    /// A file that is read as a table, with the name of its time column.
    Polars { url: String, time_col: Option<String> },
}

/// The definition of a time series.
#[derive(Clone, Debug, PartialEq, Eq)]
pub struct Timeseries {
    pub meta: ParameterMeta,
    pub provider: TimeseriesProvider,
}

/// A time series that has been read: named columns of amounts, one amount per
/// step.
#[derive(Clone, Debug, PartialEq, Eq)]
pub struct LoadedTimeseries {
    pub name: String,
    pub columns: Vec<(String, Vec<Value>)>,
}

/// The time series that have been read.
#[derive(Clone, Debug, PartialEq, Eq)]
pub struct LoadedTimeseriesCollection {
    pub timeseries: Vec<LoadedTimeseries>,
}

/// The position of the last time series with this name: one that is read
/// later stands for those of its name that were read before.
pub open spec fn series_position(all: Seq<LoadedTimeseries>, name: Seq<char>) -> Option<int>
    decreases all.len(),
{
    if all.len() == 0 {
        None
    } else if all.last().name@ == name {
        Some(all.len() - 1)
    } else {
        series_position(all.drop_last(), name)
    }
}

/// The position of the first column with this name.
pub open spec fn column_position(columns: Seq<(String, Vec<Value>)>, name: Seq<char>) -> Option<int>
    decreases columns.len(),
{
    if columns.len() == 0 {
        None
    } else {
        match column_position(columns.drop_last(), name) {
            Some(i) => Some(i),
            None => if columns.last().0@ == name {
                Some(columns.len() - 1)
            } else {
                None
            },
        }
    }
}

/// The position of the first group with this name.
pub open spec fn group_position(groups: Seq<String>, name: Seq<char>) -> Option<int>
    decreases groups.len(),
{
    if groups.len() == 0 {
        None
    } else {
        match group_position(groups.drop_last(), name) {
            Some(i) => Some(i),
            None => if groups.last()@ == name {
                Some(groups.len() - 1)
            } else {
                None
            },
        }
    }
}

/// The amounts of the columns step by step: first those of the first step in
/// the order of the columns, then those of the second, and so on. A column that
/// ends before a step gives zero for it.
pub open spec fn row_major(columns: Seq<(String, Vec<Value>)>, rows: int) -> Seq<Value> {
    Seq::new(
        (rows * columns.len()) as nat,
        |k: int|
            {
                let column = columns[k % (columns.len() as int)].1@;
                let row = k / (columns.len() as int);
                if row < column.len() {
                    column[row]
                } else {
                    0
                }
            },
    )
}

/// Two names joined by an underscore.
pub fn joined(first: &str, second: &str) -> (r: String)
    ensures
        r@ == first@ + "_"@ + second@,
{
    let mut out = first.to_string();
    out.append("_");
    out.append(second);
    out
}

/// The position of the first column with this name.
pub fn find_column(columns: &Vec<(String, Vec<Value>)>, name: &str) -> (r: Option<usize>)
    ensures
        match r {
            Some(i) => column_position(columns@, name@) == Some(i as int) && i < columns.len(),
            None => column_position(columns@, name@).is_none(),
        },
{
    let wanted = name.to_string();
    let mut k: usize = 0;
    while k < columns.len()
        invariant
            k <= columns.len(),
            wanted@ == name@,
            column_position(columns@.take(k as int), name@).is_none(),
        decreases columns.len() - k,
    {
        proof {
            assert(columns@.take(k + 1).drop_last() =~= columns@.take(k as int));
        }
        if columns[k].0 == wanted {
            proof {
                lemma_column_in_prefix(columns@, name@, k + 1);
            }
            return Some(k);
        }
        k += 1;
    }
    assert(columns@.take(k as int) =~= columns@);
    None
}

/// The position of the first group with this name.
pub fn find_group(groups: &Vec<String>, name: &str) -> (r: Option<usize>)
    ensures
        match r {
            Some(i) => group_position(groups@, name@) == Some(i as int) && i < groups.len(),
            None => group_position(groups@, name@).is_none(),
        },
{
    let wanted = name.to_string();
    let mut g: usize = 0;
    while g < groups.len()
        invariant
            g <= groups.len(),
            wanted@ == name@,
            group_position(groups@.take(g as int), name@).is_none(),
        decreases groups.len() - g,
    {
        proof {
            assert(groups@.take(g + 1).drop_last() =~= groups@.take(g as int));
        }
        if groups[g] == wanted {
            proof {
                lemma_group_in_prefix(groups@, name@, g + 1);
            }
            return Some(g);
        }
        g += 1;
    }
    assert(groups@.take(g as int) =~= groups@);
    None
}

/// A copy of a list of amounts.
pub fn copy_values(source: &Vec<Value>) -> (r: Vec<Value>)
    ensures
        r@ == source@,
{
    let mut values: Vec<Value> = Vec::new();
    let mut j: usize = 0;
    while j < source.len()
        invariant
            j <= source.len(),
            values@ == source@.take(j as int),
        decreases source.len() - j,
    {
        values.push(source[j]);
        j += 1;
        assert(values@ =~= source@.take(j as int));
    }
    assert(source@.take(j as int) =~= source@);
    values
}

/// The amounts of the columns step by step, for as many steps as the first
/// column has amounts.
pub(crate) fn flatten(columns: &Vec<(String, Vec<Value>)>) -> (r: Vec<Value>)
    requires
        columns.len() > 0,
    ensures
        r@ == row_major(columns@, columns[0].1.len() as int),
        r.len() == columns[0].1.len() * columns.len(),
{
    let rows = columns[0].1.len();
    let width = columns.len();
    let mut flat: Vec<Value> = Vec::new();
    let mut row: usize = 0;
    assert(flat@ =~= row_major(columns@, 0));
    while row < rows
        invariant
            row <= rows,
            width == columns.len(),
            width > 0,
            flat.len() == row * width,
            flat@ == row_major(columns@, row as int),
        decreases rows - row,
    {
        let mut c: usize = 0;
        let ghost target = row_major(columns@, row + 1);
        proof {
            assert((row + 1) * width == row * width + width) by (nonlinear_arith);
            assert forall|k: int| 0 <= k < row * width implies #[trigger] flat[k] == target[k] by {
                assert(flat[k] == row_major(columns@, row as int)[k]);
            }
        }
        while c < width
            invariant
                c <= width,
                row < rows,
                width == columns.len(),
                width > 0,
                flat.len() == row * width + c,
                target == row_major(columns@, row + 1),
                target.len() == row * width + width,
                forall|k: int| 0 <= k < row * width + c ==> #[trigger] flat[k] == target[k],
            decreases width - c,
        {
            let column = &columns[c].1;
            let v: Value = if row < column.len() {
                column[row]
            } else {
                0
            };
            proof {
                let k = (row * width + c) as int;
                assert(k % (width as int) == c && k / (width as int) == row) by (nonlinear_arith)
                    requires
                        k == row * width + c,
                        0 <= c < width,
                        row >= 0,
                ;
                assert(target[k] == v);
            }
            flat.push(v);
            c += 1;
        }
        proof {
            assert(flat@ =~= target);
        }
        row += 1;
    }
    flat
}

impl LoadedTimeseriesCollection {
    /// The collection of the time series that have been read, in the order in
    /// which they were read.
    pub fn from_schema(loaded: Vec<LoadedTimeseries>) -> (r: Self)
        ensures
            r.timeseries == loaded,
    {
        Self { timeseries: loaded }
    }

    /// The last time series with this name.
    fn find(&self, name: &str) -> (r: Option<usize>)
        ensures
            match r {
                Some(i) => series_position(self.timeseries@, name@) == Some(i as int) && i
                    < self.timeseries.len(),
                None => series_position(self.timeseries@, name@).is_none(),
            },
    {
        let wanted = name.to_string();
        let mut i: usize = self.timeseries.len();
        assert(self.timeseries@.take(i as int) =~= self.timeseries@);
        while i > 0
            invariant
                i <= self.timeseries.len(),
                wanted@ == name@,
                series_position(self.timeseries@, name@) == series_position(
                    self.timeseries@.take(i as int),
                    name@,
                ),
            decreases i,
        {
            assert(self.timeseries@.take(i as int).last() == self.timeseries@[i - 1]);
            if self.timeseries[i - 1].name == wanted {
                return Some(i - 1);
            }
            assert(self.timeseries@.take(i as int).drop_last() =~= self.timeseries@.take(i - 1));
            i -= 1;
        }
        None
    }

    /// What adding a parameter made of a time series does to a network: it
    /// fails with `failure` where there is one, else with `DuplicateName` where
    /// the name is taken, and then the network stays as it is; else the
    /// parameter is added after those that are there.
    pub open spec fn parameter_added(
        before: Network,
        after: Network,
        r: Result<ParameterIndex, PywrError>,
        failure: Option<ErrorView>,
        name: Seq<char>,
    ) -> bool {
        &&& after.same_but(&before, Part::Parameters)
        &&& match failure {
            Some(e) => outcome(r) == Err::<ParameterIndex, ErrorView>(e) && after.parameters@
                == before.parameters@,
            None => if before.parameter_names().contains(name) {
                outcome(r) == Err::<ParameterIndex, ErrorView>(ErrorView::DuplicateName)
                    && after.parameters@ == before.parameters@
            } else {
                &&& r == Ok::<ParameterIndex, PywrError>(ParameterIndex(before.parameters.len()))
                &&& after.parameters.len() == before.parameters.len() + 1
                &&& after.parameters@.drop_last() == before.parameters@
                &&& after.parameters@.last().meta_of().name@ == name
            },
        }
    }

    /// Why a column cannot be made into a parameter, if it cannot: there is no
    /// such time series, or it has no such column.
    pub open spec fn column_failure(&self, name: Seq<char>, col: Seq<char>) -> Option<ErrorView> {
        match series_position(self.timeseries@, name) {
            None => Some(ErrorView::NotFound(EntityKind::Timeseries, name)),
            Some(i) => match column_position(self.timeseries[i].columns@, col) {
                None => Some(ErrorView::NotFound(EntityKind::Column, col)),
                Some(_) => None,
            },
        }
    }

    /// Adds to a network the parameter that gives, at each step, the amount of
    /// one column of a time series. Its name is that of the time series and
    /// that of the column, joined by an underscore.
    pub fn load_column(&self, network: &mut Network, name: &str, col: &str) -> (r: Result<
        ParameterIndex,
        PywrError,
    >)
        ensures
            Self::parameter_added(
                *old(network),
                *final(network),
                r,
                self.column_failure(name@, col@),
                name@ + "_"@ + col@,
            ),
            r.is_ok() ==> (final(network).parameters@.last() matches ParameterKind::Array1(p)
                && p.array@ == self.timeseries[series_position(
                self.timeseries@,
                name@,
            ).unwrap()].columns[column_position(
                self.timeseries[series_position(self.timeseries@, name@).unwrap()].columns@,
                col@,
            ).unwrap()].1@),
            old(network).wf() ==> final(network).wf(),
    {
        let at = match self.find(name) {
            None => {
                return Err(PywrError::NotFound(EntityKind::Timeseries, name.to_string()));
            },
            Some(i) => i,
        };
        let columns = &self.timeseries[at].columns;
        let k = match find_column(columns, col) {
            None => {
                return Err(PywrError::NotFound(EntityKind::Column, col.to_string()));
            },
            Some(k) => k,
        };
        let array = Array1::from_vec(copy_values(&columns[k].1));
        let label = joined(name, col);
        let p = Array1Parameter::new(label.as_str(), array);
        let r = network.add_parameter(ParameterKind::Array1(p));
        proof {
            if r.is_ok() {
                assert(network.parameters@.drop_last() =~= old(network).parameters@);
            }
        }
        r
    }

    /// Why a time series cannot be made into a parameter for a scenario group,
    /// if it cannot: there is no such group, no such time series, or the time
    /// series has no column or no step.
    pub open spec fn table_failure(
        &self,
        name: Seq<char>,
        groups: Seq<String>,
        scenario: Seq<char>,
    ) -> Option<ErrorView> {
        match group_position(groups, scenario) {
            None => Some(ErrorView::NotFound(EntityKind::ScenarioGroup, scenario)),
            Some(_) => match series_position(self.timeseries@, name) {
                None => Some(ErrorView::NotFound(EntityKind::Timeseries, name)),
                Some(i) => if self.timeseries[i].columns.len() == 0
                    || self.timeseries[i].columns[0].1.len() == 0 {
                    Some(ErrorView::NotFound(EntityKind::Column, name))
                } else {
                    None
                },
            },
        }
    }

    /// Adds to a network the parameter that gives, at each step, the amount of
    /// the column of a time series that belongs to the scenario within one
    /// scenario group. The time series has as many steps as its first column
    /// has amounts. The name of the parameter is that of the time series and
    /// that of the scenario group, joined by an underscore.
    pub fn load_df(
        &self,
        network: &mut Network,
        name: &str,
        scenario_groups: &Vec<String>,
        scenario: &str,
    ) -> (r: Result<ParameterIndex, PywrError>)
        ensures
            Self::parameter_added(
                *old(network),
                *final(network),
                r,
                self.table_failure(name@, scenario_groups@, scenario@),
                name@ + "_"@ + scenario@,
            ),
            r.is_ok() ==> ({
                let series = self.timeseries[series_position(self.timeseries@, name@).unwrap()];
                final(network).parameters@.last() matches ParameterKind::Array2(p) && p.array@
                    == laid_out(
                    series.columns[0].1.len(),
                    series.columns.len(),
                    row_major(series.columns@, series.columns[0].1.len() as int),
                ) && group_position(scenario_groups@, scenario@) == Some(
                    p.scenario_group_index as int,
                )
            }),
            old(network).wf() ==> final(network).wf(),
    {
        let scenario_group_index = match find_group(scenario_groups, scenario) {
            None => {
                return Err(PywrError::NotFound(EntityKind::ScenarioGroup, scenario.to_string()));
            },
            Some(i) => i,
        };
        let at = match self.find(name) {
            None => {
                return Err(PywrError::NotFound(EntityKind::Timeseries, name.to_string()));
            },
            Some(i) => i,
        };
        let columns = &self.timeseries[at].columns;
        if columns.len() == 0 || columns[0].1.len() == 0 {
            return Err(PywrError::NotFound(EntityKind::Column, name.to_string()));
        }
        let rows = columns[0].1.len();
        let width = columns.len();
        let flat = flatten(columns);
        let array = match Array2::from_shape_vec(rows, width, flat) {
            None => {
                return Err(PywrError::NotFound(EntityKind::Column, name.to_string()));
            },
            Some(a) => a,
        };
        let label = joined(name, scenario);
        let p = Array2Parameter::new(label.as_str(), array, scenario_group_index);
        let r = network.add_parameter(ParameterKind::Array2(p));
        proof {
            if r.is_ok() {
                assert(network.parameters@.drop_last() =~= old(network).parameters@);
            }
        }
        r
    }
}

/// A column that is found among the first `n` is found there among all.
pub proof fn lemma_column_in_prefix(columns: Seq<(String, Vec<Value>)>, name: Seq<char>, n: int)
    requires
        0 <= n <= columns.len(),
        column_position(columns.take(n), name).is_some(),
    ensures
        column_position(columns, name) == column_position(columns.take(n), name),
    decreases columns.len() - n,
{
    if n < columns.len() {
        assert(columns.take(n + 1).drop_last() =~= columns.take(n));
        lemma_column_in_prefix(columns, name, n + 1);
    } else {
        assert(columns.take(n) =~= columns);
    }
}

/// A group that is found among the first `n` is found there among all.
pub proof fn lemma_group_in_prefix(groups: Seq<String>, name: Seq<char>, n: int)
    requires
        0 <= n <= groups.len(),
        group_position(groups.take(n), name).is_some(),
    ensures
        group_position(groups, name) == group_position(groups.take(n), name),
    decreases groups.len() - n,
{
    if n < groups.len() {
        assert(groups.take(n + 1).drop_last() =~= groups.take(n));
        lemma_group_in_prefix(groups, name, n + 1);
    } else {
        assert(groups.take(n) =~= groups);
    }
}

} // verus!
