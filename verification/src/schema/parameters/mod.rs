//! Definitions of parameters, and the values that definitions hold.

pub mod asymmetric_switch;
pub mod control_curves;

use vstd::prelude::*;
use crate::error::{outcome, EntityKind, ErrorView, PywrError};
use crate::metric::Metric;
use crate::network::{first_named, Network};
use crate::parameters::asymmetric::IndexValue;
use crate::parameters::{IndexParameterIndex, ParameterIndex};
use crate::schema::data_tables::{table_lookup, LoadedTableCollection};
use crate::value::Value;

verus! {

/// What is common to the definitions of all parameters.
#[derive(Clone, Debug, PartialEq, Eq)]
pub struct ParameterMeta {
    pub name: String,
    pub comment: Option<String>,
}

/// An amount in a definition: written out, kept in a table, or given by a
/// named parameter.
#[derive(Clone, Debug, PartialEq, Eq)]
pub enum DynamicFloatValue {
    Constant(Value),
    Table { table: String, index: String },
    Parameter { name: String },
}

/// One amount of a definition, or a list of them.
#[derive(Clone, Copy, Debug, PartialEq, Eq)]
pub enum DynamicFloatValueType<'a> {
    Single(&'a DynamicFloatValue),
    List(&'a Vec<DynamicFloatValue>),
}

/// A whole number in a definition: written out, or given by a named index
/// parameter.
#[derive(Clone, Debug, PartialEq, Eq)]
pub enum DynamicIndexValue {
    Constant(usize),
    Parameter { name: String },
}

impl DynamicFloatValue {
    /// An amount that is written out.
    pub fn from_value(value: Value) -> (r: Self)
        ensures
            r == DynamicFloatValue::Constant(value),
    {
        DynamicFloatValue::Constant(value)
    }

    /// The metric that reads the amount: a constant for an amount that is
    /// written out or kept in a table, the value of the parameter for a
    /// parameter. A table, a key or a parameter that is not there fails with
    /// `NotFound`.
    pub open spec fn loaded(&self, network: Network, tables: LoadedTableCollection) -> Result<
        Metric,
        ErrorView,
    > {
        match self {
            DynamicFloatValue::Constant(v) => Ok(Metric::Constant(*v)),
            DynamicFloatValue::Table { table, index } => match table_lookup(
                tables.tables@,
                table@,
                index@,
            ) {
                Ok(v) => Ok(Metric::Constant(v)),
                Err(e) => Err(e),
            },
            DynamicFloatValue::Parameter { name } => match first_named(
                network.parameter_names(),
                name@,
            ) {
                Some(i) => Ok(Metric::ParameterValue(ParameterIndex(i as usize))),
                None => Err(ErrorView::NotFound(EntityKind::Parameter, name@)),
            },
        }
    }

    /// The metric that reads the amount.
    pub fn load(&self, network: &Network, tables: &LoadedTableCollection) -> (r: Result<
        Metric,
        PywrError,
    >)
        ensures
            outcome(r) == self.loaded(*network, *tables),
    {
        match self {
            DynamicFloatValue::Constant(v) => Ok(Metric::Constant(*v)),
            DynamicFloatValue::Table { table, index } => {
                match tables.get_scalar(table.as_str(), index.as_str()) {
                    Ok(v) => Ok(Metric::Constant(v)),
                    Err(e) => Err(e),
                }
            },
            DynamicFloatValue::Parameter { name } => {
                match network.get_parameter_index_by_name(name.as_str()) {
                    Ok(idx) => Ok(Metric::ParameterValue(idx)),
                    Err(e) => Err(e),
                }
            },
        }
    }
}

/// The metrics that read the amounts, in their order, or the first failure to
/// load one.
pub open spec fn loaded_all(
    values: Seq<DynamicFloatValue>,
    network: Network,
    tables: LoadedTableCollection,
) -> Result<Seq<Metric>, ErrorView>
    decreases values.len(),
{
    if values.len() == 0 {
        Ok(Seq::empty())
    } else {
        match loaded_all(values.drop_last(), network, tables) {
            Err(e) => Err(e),
            Ok(head) => match values.last().loaded(network, tables) {
                Err(e) => Err(e),
                Ok(m) => Ok(head.push(m)),
            },
        }
    }
}

/// A failure among the first `n` amounts is the failure of all.
pub proof fn lemma_load_fails_in_prefix(
    values: Seq<DynamicFloatValue>,
    network: Network,
    tables: LoadedTableCollection,
    n: int,
)
    requires
        0 <= n <= values.len(),
        loaded_all(values.take(n), network, tables).is_err(),
    ensures
        loaded_all(values, network, tables) == loaded_all(values.take(n), network, tables),
    decreases values.len() - n,
{
    if n < values.len() {
        assert(values.take(n + 1).drop_last() =~= values.take(n));
        lemma_load_fails_in_prefix(values, network, tables, n + 1);
    } else {
        assert(values.take(n) =~= values);
    }
}

/// The metrics that read the amounts, in their order.
pub fn load_all(
    values: &Vec<DynamicFloatValue>,
    network: &Network,
    tables: &LoadedTableCollection,
) -> (r:
    Result<Vec<Metric>, PywrError>)
    ensures
        match r {
            Ok(metrics) => loaded_all(values@, *network, *tables) == Ok::<Seq<Metric>, ErrorView>(
                metrics@,
            ),
            Err(e) => loaded_all(values@, *network, *tables) == Err::<Seq<Metric>, ErrorView>(e@),
        },
{
    let mut out: Vec<Metric> = Vec::new();
    let mut i: usize = 0;
    while i < values.len()
        invariant
            i <= values.len(),
            loaded_all(values@.take(i as int), *network, *tables) == Ok::<Seq<Metric>, ErrorView>(
                out@,
            ),
        decreases values.len() - i,
    {
        proof {
            assert(values@.take(i + 1).drop_last() =~= values@.take(i as int));
        }
        match values[i].load(network, tables) {
            Err(e) => {
                proof {
                    lemma_load_fails_in_prefix(values@, *network, *tables, i + 1);
                }
                return Err(e);
            },
            Ok(m) => {
                out.push(m);
            },
        }
        i += 1;
    }
    assert(values@.take(i as int) =~= values@);
    Ok(out)
}

impl DynamicIndexValue {
    /// The whole number, or the index parameter that gives it. An index
    /// parameter that is not there fails with `NotFound`.
    pub open spec fn loaded(&self, network: Network) -> Result<IndexValue, ErrorView> {
        match self {
            DynamicIndexValue::Constant(v) => Ok(IndexValue::Constant(*v)),
            DynamicIndexValue::Parameter { name } => match first_named(
                network.index_parameter_names(),
                name@,
            ) {
                Some(i) => Ok(IndexValue::Dynamic(IndexParameterIndex(i as usize))),
                None => Err(ErrorView::NotFound(EntityKind::IndexParameter, name@)),
            },
        }
    }

    /// The whole number, or the index parameter that gives it.
    pub fn load(&self, network: &Network) -> (r: Result<IndexValue, PywrError>)
        ensures
            outcome(r) == self.loaded(*network),
    {
        match self {
            DynamicIndexValue::Constant(v) => Ok(IndexValue::Constant(*v)),
            DynamicIndexValue::Parameter { name } => {
                match network.get_index_parameter_index_by_name(name.as_str()) {
                    Ok(idx) => Ok(IndexValue::Dynamic(idx)),
                    Err(e) => Err(e),
                }
            },
        }
    }
}

} // verus!
