//! The parameters that a network can hold, and what each depends on.

use vstd::prelude::*;
use crate::error::{outcome, ErrorView, PywrError};
use crate::metric::Metric;
use crate::network::Network;
use crate::parameters::aggregated::AggregatedParameter;
use crate::parameters::aggregated_index::AggregatedIndexParameter;
use crate::parameters::asymmetric::{AsymmetricSwitchIndexParameter, IndexValue};
use crate::parameters::control_curves::{
    ControlCurveIndexParameter, ControlCurveParameter, InterpolatedParameter,
    PiecewiseInterpolatedParameter,
};
use crate::parameters::indexed_array::IndexedArrayParameter;
use crate::parameters::max::MaxParameter;
use crate::parameters::negative::NegativeParameter;
use crate::parameters::polynomial::Polynomial1DParameter;
use crate::parameters::profiles::{
    DailyProfileParameter,
    MonthlyProfileParameter,
    UniformDrawdownProfileParameter,
};
use crate::parameters::simple_wasm::SimpleWasmParameter;
use crate::parameters::threshold::ThresholdParameter;
use crate::parameters::{
    Array1Parameter, Array2Parameter, ConstantParameter, IndexParameterIndex, Internal, Parameter,
    ParameterIndex, ParameterMeta, ParameterType, VectorParameter,
};
use crate::parameters::IndexParameter;
use crate::scenario::ScenarioIndex;
use crate::state::State;
use crate::timestep::Timestep;
use crate::value::Value;

verus! {

/// A parameter that gives an amount.
pub enum ParameterKind {
    Constant(ConstantParameter),
    Vector(VectorParameter),
    Array1(Array1Parameter),
    Array2(Array2Parameter),
    Negative(NegativeParameter),
    MonthlyProfile(MonthlyProfileParameter),
    DailyProfile(DailyProfileParameter),
    UniformDrawdownProfile(UniformDrawdownProfileParameter),
    Polynomial1D(Polynomial1DParameter),
    Aggregated(AggregatedParameter),
    Max(MaxParameter),
    Threshold(ThresholdParameter),
    IndexedArray(IndexedArrayParameter),
    ControlCurve(ControlCurveParameter),
    Interpolated(InterpolatedParameter),
    PiecewiseInterpolated(PiecewiseInterpolatedParameter),
    SimpleWasm(SimpleWasmParameter),
}

/// A parameter that gives a whole number.
pub enum IndexParameterKind {
    AggregatedIndex(AggregatedIndexParameter),
    ControlCurveIndex(ControlCurveIndexParameter),
    AsymmetricSwitch(AsymmetricSwitchIndexParameter),
}

/// The parameters that a metric reads, in the order in which it names them.
pub open spec fn metric_dependencies(metric: Metric) -> Seq<ParameterType>
    decreases metric,
{
    match metric {
        Metric::ParameterValue(idx) => seq![ParameterType::Parameter(idx)],
        Metric::MultiParameterValue(idx, key) => seq![ParameterType::Multi(idx)],
        Metric::VolumeBetweenControlCurves(vol) => metric_dependencies(*vol.max_volume) + (
        match vol.upper {
            Some(m) => metric_dependencies(*m),
            None => Seq::empty(),
        }) + (match vol.lower {
            Some(m) => metric_dependencies(*m),
            None => Seq::empty(),
        }),
        _ => Seq::empty(),
    }
}

/// The parameters that the metrics read, metric by metric.
pub open spec fn metrics_dependencies(metrics: Seq<Metric>) -> Seq<ParameterType>
    decreases metrics.len(),
{
    if metrics.len() == 0 {
        Seq::empty()
    } else {
        metrics_dependencies(metrics.drop_last()) + metric_dependencies(metrics.last())
    }
}

/// The handles of parameters that give amounts, as handles of any kind.
pub open spec fn as_parameters(indices: Seq<ParameterIndex>) -> Seq<ParameterType> {
    Seq::new(indices.len(), |i: int| ParameterType::Parameter(indices[i]))
}

/// The handles of index parameters, as handles of any kind.
pub open spec fn as_index_parameters(indices: Seq<IndexParameterIndex>) -> Seq<ParameterType> {
    Seq::new(indices.len(), |i: int| ParameterType::Index(indices[i]))
}

/// The index parameter that a whole number is read from, if any.
pub open spec fn index_value_dependencies(value: IndexValue) -> Seq<ParameterType> {
    match value {
        IndexValue::Constant(_) => Seq::empty(),
        IndexValue::Dynamic(idx) => seq![ParameterType::Index(idx)],
    }
}

/// Appends the parameters that a metric reads.
pub fn collect_metric(metric: &Metric, out: &mut Vec<ParameterType>)
    ensures
        final(out)@ == old(out)@ + metric_dependencies(*metric),
    decreases metric,
{
    match metric {
        Metric::ParameterValue(idx) => {
            out.push(ParameterType::Parameter(*idx));
            assert(out@ =~= old(out)@ + metric_dependencies(*metric));
        },
        Metric::MultiParameterValue(idx, _) => {
            out.push(ParameterType::Multi(*idx));
            assert(out@ =~= old(out)@ + metric_dependencies(*metric));
        },
        Metric::VolumeBetweenControlCurves(vol) => {
            collect_metric(&*vol.max_volume, out);
            match &vol.upper {
                Some(m) => {
                    collect_metric(&**m, out);
                },
                None => {},
            }
            match &vol.lower {
                Some(m) => {
                    collect_metric(&**m, out);
                },
                None => {},
            }
            assert(out@ =~= old(out)@ + metric_dependencies(*metric));
        },
        _ => {
            assert(out@ =~= old(out)@ + metric_dependencies(*metric));
        },
    }
}

/// Appends the parameters that the metrics read.
pub fn collect_metrics(metrics: &Vec<Metric>, out: &mut Vec<ParameterType>)
    ensures
        final(out)@ == old(out)@ + metrics_dependencies(metrics@),
{
    let mut i: usize = 0;
    assert(out@ =~= old(out)@ + metrics_dependencies(metrics@.take(0)));
    while i < metrics.len()
        invariant
            i <= metrics.len(),
            out@ == old(out)@ + metrics_dependencies(metrics@.take(i as int)),
        decreases metrics.len() - i,
    {
        proof {
            assert(metrics@.take(i + 1).drop_last() =~= metrics@.take(i as int));
        }
        let ghost before = out@;
        collect_metric(&metrics[i], out);
        i += 1;
        assert(out@ =~= old(out)@ + metrics_dependencies(metrics@.take(i as int)));
    }
    assert(metrics@.take(i as int) =~= metrics@);
}

/// Appends handles of parameters that give amounts.
pub fn collect_parameters(indices: &Vec<ParameterIndex>, out: &mut Vec<ParameterType>)
    ensures
        final(out)@ == old(out)@ + as_parameters(indices@),
{
    let mut i: usize = 0;
    assert(out@ =~= old(out)@ + as_parameters(indices@.take(0)));
    while i < indices.len()
        invariant
            i <= indices.len(),
            out@ == old(out)@ + as_parameters(indices@.take(i as int)),
        decreases indices.len() - i,
    {
        out.push(ParameterType::Parameter(indices[i]));
        i += 1;
        assert(out@ =~= old(out)@ + as_parameters(indices@.take(i as int)));
    }
    assert(indices@.take(i as int) =~= indices@);
}

/// Appends handles of index parameters.
pub fn collect_index_parameters(indices: &Vec<IndexParameterIndex>, out: &mut Vec<ParameterType>)
    ensures
        final(out)@ == old(out)@ + as_index_parameters(indices@),
{
    let mut i: usize = 0;
    assert(out@ =~= old(out)@ + as_index_parameters(indices@.take(0)));
    while i < indices.len()
        invariant
            i <= indices.len(),
            out@ == old(out)@ + as_index_parameters(indices@.take(i as int)),
        decreases indices.len() - i,
    {
        out.push(ParameterType::Index(indices[i]));
        i += 1;
        assert(out@ =~= old(out)@ + as_index_parameters(indices@.take(i as int)));
    }
    assert(indices@.take(i as int) =~= indices@);
}

/// Appends the index parameter that a whole number is read from, if any.
pub fn collect_index_value(value: &IndexValue, out: &mut Vec<ParameterType>)
    ensures
        final(out)@ == old(out)@ + index_value_dependencies(*value),
{
    match value {
        IndexValue::Constant(_) => {
            assert(out@ =~= old(out)@ + index_value_dependencies(*value));
        },
        IndexValue::Dynamic(idx) => {
            out.push(ParameterType::Index(*idx));
            assert(out@ =~= old(out)@ + index_value_dependencies(*value));
        },
    }
}

impl ParameterKind {
    /// What is common to all parameters.
    pub open spec fn meta_of(&self) -> ParameterMeta {
        match self {
            ParameterKind::Constant(p) => p.meta,
            ParameterKind::Vector(p) => p.meta,
            ParameterKind::Array1(p) => p.meta,
            ParameterKind::Array2(p) => p.meta,
            ParameterKind::Negative(p) => p.meta,
            ParameterKind::MonthlyProfile(p) => p.meta,
            ParameterKind::DailyProfile(p) => p.meta,
            ParameterKind::UniformDrawdownProfile(p) => p.meta,
            ParameterKind::Polynomial1D(p) => p.meta,
            ParameterKind::Aggregated(p) => p.meta,
            ParameterKind::Max(p) => p.meta,
            ParameterKind::Threshold(p) => p.meta,
            ParameterKind::IndexedArray(p) => p.meta,
            ParameterKind::ControlCurve(p) => p.meta,
            ParameterKind::Interpolated(p) => p.meta,
            ParameterKind::PiecewiseInterpolated(p) => p.meta,
            ParameterKind::SimpleWasm(p) => p.meta,
        }
    }

    pub fn meta(&self) -> (r: &ParameterMeta)
        ensures
            *r == self.meta_of(),
    {
        match self {
            ParameterKind::Constant(p) => &p.meta,
            ParameterKind::Vector(p) => &p.meta,
            ParameterKind::Array1(p) => &p.meta,
            ParameterKind::Array2(p) => &p.meta,
            ParameterKind::Negative(p) => &p.meta,
            ParameterKind::MonthlyProfile(p) => &p.meta,
            ParameterKind::DailyProfile(p) => &p.meta,
            ParameterKind::UniformDrawdownProfile(p) => &p.meta,
            ParameterKind::Polynomial1D(p) => &p.meta,
            ParameterKind::Aggregated(p) => &p.meta,
            ParameterKind::Max(p) => &p.meta,
            ParameterKind::Threshold(p) => &p.meta,
            ParameterKind::IndexedArray(p) => &p.meta,
            ParameterKind::ControlCurve(p) => &p.meta,
            ParameterKind::Interpolated(p) => &p.meta,
            ParameterKind::PiecewiseInterpolated(p) => &p.meta,
            ParameterKind::SimpleWasm(p) => &p.meta,
        }
    }

    pub fn name(&self) -> (r: &str)
        ensures
            r@ == self.meta_of().name@,
    {
        self.meta().name.as_str()
    }

    /// The amount of the parameter at this step, or nothing where it is
    /// computed outside this library.
    pub open spec fn value(
        &self,
        timestep: Timestep,
        scenario_index: ScenarioIndex,
        network: Network,
        state: State,
    ) -> Result<Option<Value>, ErrorView> {
        let computed = match self {
            ParameterKind::Constant(p) => p.value(timestep, scenario_index, network, state),
            ParameterKind::Vector(p) => p.value(timestep, scenario_index, network, state),
            ParameterKind::Array1(p) => p.value(timestep, scenario_index, network, state),
            ParameterKind::Array2(p) => p.value(timestep, scenario_index, network, state),
            ParameterKind::Negative(p) => p.value(timestep, scenario_index, network, state),
            ParameterKind::MonthlyProfile(p) => p.value(timestep, scenario_index, network, state),
            ParameterKind::DailyProfile(p) => p.value(timestep, scenario_index, network, state),
            ParameterKind::UniformDrawdownProfile(p) => p.value(
                timestep,
                scenario_index,
                network,
                state,
            ),
            ParameterKind::Polynomial1D(p) => p.value(timestep, scenario_index, network, state),
            ParameterKind::Aggregated(p) => p.value(timestep, scenario_index, network, state),
            ParameterKind::Max(p) => p.value(timestep, scenario_index, network, state),
            ParameterKind::Threshold(p) => p.value(timestep, scenario_index, network, state),
            ParameterKind::IndexedArray(p) => p.value(timestep, scenario_index, network, state),
            ParameterKind::ControlCurve(p) => p.value(timestep, scenario_index, network, state),
            ParameterKind::Interpolated(p) => p.value(timestep, scenario_index, network, state),
            ParameterKind::PiecewiseInterpolated(p) => p.value(
                timestep,
                scenario_index,
                network,
                state,
            ),
            ParameterKind::SimpleWasm(p) => Ok(0i64),
        };
        if self is SimpleWasm {
            Ok(None)
        } else {
            match computed {
                Ok(v) => Ok(Some(v)),
                Err(e) => Err(e),
            }
        }
    }

    /// The amount of the parameter at this step, or nothing where it is
    /// computed outside this library.
    pub fn compute(
        &self,
        timestep: &Timestep,
        scenario_index: &ScenarioIndex,
        network: &Network,
        state: &State,
    ) -> (r: Result<Option<Value>, PywrError>)
        ensures
            outcome(r) == self.value(*timestep, *scenario_index, *network, *state),
    {
        let computed = match self {
            ParameterKind::Constant(p) => p.compute(timestep, scenario_index, network, state),
            ParameterKind::Vector(p) => p.compute(timestep, scenario_index, network, state),
            ParameterKind::Array1(p) => p.compute(timestep, scenario_index, network, state),
            ParameterKind::Array2(p) => p.compute(timestep, scenario_index, network, state),
            ParameterKind::Negative(p) => p.compute(timestep, scenario_index, network, state),
            ParameterKind::MonthlyProfile(p) => p.compute(timestep, scenario_index, network, state),
            ParameterKind::DailyProfile(p) => p.compute(timestep, scenario_index, network, state),
            ParameterKind::UniformDrawdownProfile(p) => p.compute(
                timestep,
                scenario_index,
                network,
                state,
            ),
            ParameterKind::Polynomial1D(p) => p.compute(timestep, scenario_index, network, state),
            ParameterKind::Aggregated(p) => p.compute(timestep, scenario_index, network, state),
            ParameterKind::Max(p) => p.compute(timestep, scenario_index, network, state),
            ParameterKind::Threshold(p) => p.compute(timestep, scenario_index, network, state),
            ParameterKind::IndexedArray(p) => p.compute(timestep, scenario_index, network, state),
            ParameterKind::ControlCurve(p) => p.compute(timestep, scenario_index, network, state),
            ParameterKind::Interpolated(p) => p.compute(timestep, scenario_index, network, state),
            ParameterKind::PiecewiseInterpolated(p) => p.compute(
                timestep,
                scenario_index,
                network,
                state,
            ),
            ParameterKind::SimpleWasm(_) => {
                return Ok(None);
            },
        };
        match computed {
            Ok(v) => Ok(Some(v)),
            Err(e) => Err(e),
        }
    }

    /// The parameters whose amounts this one reads when it is computed.
    pub open spec fn dependencies_of(&self) -> Seq<ParameterType> {
        match self {
            ParameterKind::Negative(p) => metric_dependencies(p.metric),
            ParameterKind::Polynomial1D(p) => metric_dependencies(p.metric),
            ParameterKind::Aggregated(p) => as_parameters(p.parameters@),
            ParameterKind::Max(p) => metric_dependencies(p.metric),
            ParameterKind::Threshold(p) => metric_dependencies(p.metric),
            ParameterKind::IndexedArray(p) => seq![ParameterType::Index(p.index_parameter)]
                + as_parameters(p.parameters@),
            ParameterKind::ControlCurve(p) => metric_dependencies(p.metric) + metrics_dependencies(
                p.control_curves@,
            ) + metrics_dependencies(p.values@),
            ParameterKind::Interpolated(p) => metric_dependencies(p.metric) + metrics_dependencies(
                p.control_curves@,
            ) + metrics_dependencies(p.values@),
            ParameterKind::PiecewiseInterpolated(p) => metric_dependencies(p.metric)
                + metrics_dependencies(p.control_curves@),
            ParameterKind::SimpleWasm(p) => as_parameters(p.parameters@),
            _ => Seq::empty(),
        }
    }

    /// The parameters whose amounts this one reads when it is computed.
    pub fn dependencies(&self) -> (r: Vec<ParameterType>)
        ensures
            r@ == self.dependencies_of(),
    {
        let mut out: Vec<ParameterType> = Vec::new();
        match self {
            ParameterKind::Negative(p) => {
                collect_metric(&p.metric, &mut out);
            },
            ParameterKind::Polynomial1D(p) => {
                collect_metric(&p.metric, &mut out);
            },
            ParameterKind::Aggregated(p) => {
                collect_parameters(&p.parameters, &mut out);
            },
            ParameterKind::Max(p) => {
                collect_metric(&p.metric, &mut out);
            },
            ParameterKind::Threshold(p) => {
                collect_metric(&p.metric, &mut out);
            },
            ParameterKind::IndexedArray(p) => {
                out.push(ParameterType::Index(p.index_parameter));
                collect_parameters(&p.parameters, &mut out);
            },
            ParameterKind::ControlCurve(p) => {
                collect_metric(&p.metric, &mut out);
                collect_metrics(&p.control_curves, &mut out);
                collect_metrics(&p.values, &mut out);
            },
            ParameterKind::Interpolated(p) => {
                collect_metric(&p.metric, &mut out);
                collect_metrics(&p.control_curves, &mut out);
                collect_metrics(&p.values, &mut out);
            },
            ParameterKind::PiecewiseInterpolated(p) => {
                collect_metric(&p.metric, &mut out);
                collect_metrics(&p.control_curves, &mut out);
            },
            ParameterKind::SimpleWasm(p) => {
                collect_parameters(&p.parameters, &mut out);
            },
            _ => {},
        }
        assert(out@ =~= self.dependencies_of());
        out
    }
}

impl IndexParameterKind {
    /// What is common to all parameters.
    pub open spec fn meta_of(&self) -> ParameterMeta {
        match self {
            IndexParameterKind::AggregatedIndex(p) => p.meta,
            IndexParameterKind::ControlCurveIndex(p) => p.meta,
            IndexParameterKind::AsymmetricSwitch(p) => p.meta,
        }
    }

    pub fn meta(&self) -> (r: &ParameterMeta)
        ensures
            *r == self.meta_of(),
    {
        match self {
            IndexParameterKind::AggregatedIndex(p) => &p.meta,
            IndexParameterKind::ControlCurveIndex(p) => &p.meta,
            IndexParameterKind::AsymmetricSwitch(p) => &p.meta,
        }
    }

    pub fn name(&self) -> (r: &str)
        ensures
            r@ == self.meta_of().name@,
    {
        self.meta().name.as_str()
    }

    /// What the parameter keeps at the start of a run.
    pub open spec fn initial(&self) -> Option<Internal> {
        match self {
            IndexParameterKind::AggregatedIndex(p) => p.initial(),
            IndexParameterKind::ControlCurveIndex(p) => p.initial(),
            IndexParameterKind::AsymmetricSwitch(p) => p.initial(),
        }
    }

    /// What the parameter keeps at the start of a run.
    pub fn starting(&self) -> (r: Option<Internal>)
        ensures
            r == self.initial(),
    {
        match self {
            IndexParameterKind::AggregatedIndex(_) => None,
            IndexParameterKind::ControlCurveIndex(_) => None,
            IndexParameterKind::AsymmetricSwitch(_) => Some(0),
        }
    }

    /// What the parameter keeps at the start of a run.
    pub fn setup(&self, timesteps: &Vec<Timestep>, scenario_index: &ScenarioIndex) -> (r: Result<
        Option<Internal>,
        PywrError,
    >)
        ensures
            r == Ok::<Option<Internal>, PywrError>(self.initial()),
    {
        match self {
            IndexParameterKind::AggregatedIndex(p) => p.setup(timesteps, scenario_index),
            IndexParameterKind::ControlCurveIndex(p) => p.setup(timesteps, scenario_index),
            IndexParameterKind::AsymmetricSwitch(p) => p.setup(timesteps, scenario_index),
        }
    }

    /// The number of the parameter at this step, and what it keeps afterwards.
    pub open spec fn value(
        &self,
        timestep: Timestep,
        scenario_index: ScenarioIndex,
        network: Network,
        state: State,
        internal_state: Option<Internal>,
    ) -> (Result<usize, ErrorView>, Option<Internal>) {
        match self {
            IndexParameterKind::AggregatedIndex(p) => p.value(
                timestep,
                scenario_index,
                network,
                state,
                internal_state,
            ),
            IndexParameterKind::ControlCurveIndex(p) => p.value(
                timestep,
                scenario_index,
                network,
                state,
                internal_state,
            ),
            IndexParameterKind::AsymmetricSwitch(p) => p.value(
                timestep,
                scenario_index,
                network,
                state,
                internal_state,
            ),
        }
    }

    /// The number of the parameter at this step.
    pub fn compute(
        &self,
        timestep: &Timestep,
        scenario_index: &ScenarioIndex,
        network: &Network,
        state: &State,
        internal_state: &mut Option<Internal>,
    ) -> (r: Result<usize, PywrError>)
        ensures
            (outcome(r), *final(internal_state)) == self.value(
                *timestep,
                *scenario_index,
                *network,
                *state,
                *old(internal_state),
            ),
    {
        match self {
            IndexParameterKind::AggregatedIndex(p) => p.compute(
                timestep,
                scenario_index,
                network,
                state,
                internal_state,
            ),
            IndexParameterKind::ControlCurveIndex(p) => p.compute(
                timestep,
                scenario_index,
                network,
                state,
                internal_state,
            ),
            IndexParameterKind::AsymmetricSwitch(p) => p.compute(
                timestep,
                scenario_index,
                network,
                state,
                internal_state,
            ),
        }
    }

    /// The parameters whose amounts or numbers this one reads when it is
    /// computed.
    pub open spec fn dependencies_of(&self) -> Seq<ParameterType> {
        match self {
            IndexParameterKind::AggregatedIndex(p) => as_index_parameters(p.parameters@),
            IndexParameterKind::ControlCurveIndex(p) => metric_dependencies(p.metric)
                + metrics_dependencies(p.control_curves@),
            IndexParameterKind::AsymmetricSwitch(p) => index_value_dependencies(p.on_parameter)
                + index_value_dependencies(p.off_parameter),
        }
    }

    /// The parameters whose amounts or numbers this one reads when it is
    /// computed.
    pub fn dependencies(&self) -> (r: Vec<ParameterType>)
        ensures
            r@ == self.dependencies_of(),
    {
        let mut out: Vec<ParameterType> = Vec::new();
        match self {
            IndexParameterKind::AggregatedIndex(p) => {
                collect_index_parameters(&p.parameters, &mut out);
            },
            IndexParameterKind::ControlCurveIndex(p) => {
                collect_metric(&p.metric, &mut out);
                collect_metrics(&p.control_curves, &mut out);
            },
            IndexParameterKind::AsymmetricSwitch(p) => {
                collect_index_value(&p.on_parameter, &mut out);
                collect_index_value(&p.off_parameter, &mut out);
            },
        }
        assert(out@ =~= self.dependencies_of());
        out
    }
}

} // verus!
