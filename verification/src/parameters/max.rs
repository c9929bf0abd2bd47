//! The greater of a metric and a threshold.

use vstd::prelude::*;
use crate::error::{ErrorView, PywrError};
use crate::metric::{metric_value, Metric};
use crate::network::Network;
use crate::parameters::{Parameter, ParameterMeta};
use crate::scenario::ScenarioIndex;
use crate::state::State;
use crate::timestep::Timestep;
use crate::value::Value;

verus! {

/// A parameter that gives a metric, or a threshold where the metric is below
/// it.
#[derive(Clone, Debug, PartialEq, Eq)]
pub struct MaxParameter {
    pub meta: ParameterMeta,
    pub metric: Metric,
    pub threshold: Value,
}

impl MaxParameter {
    pub fn new(name: &str, metric: Metric, threshold: Value) -> (r: Self)
        ensures
            r.meta.name@ == name@,
            r.metric == metric,
            r.threshold == threshold,
    {
        Self { meta: ParameterMeta::new(name), metric, threshold }
    }
}

impl Parameter for MaxParameter {
    open spec fn value(
        &self,
        timestep: Timestep,
        scenario_index: ScenarioIndex,
        network: Network,
        state: State,
    ) -> Result<Value, ErrorView> {
        match metric_value(self.metric, network, state, network.evaluation_depth()) {
            Ok(x) => Ok(
                if x >= self.threshold {
                    x
                } else {
                    self.threshold
                },
            ),
            Err(e) => Err(e),
        }
    }

    open spec fn meta_of(&self) -> ParameterMeta {
        self.meta
    }

    fn meta(&self) -> (r: &ParameterMeta) {
        &self.meta
    }

    fn compute(
        &self,
        timestep: &Timestep,
        scenario_index: &ScenarioIndex,
        network: &Network,
        state: &State,
    ) -> (r: Result<Value, PywrError>) {
        match self.metric.get_value(network, state) {
            Ok(x) => Ok(
                if x >= self.threshold {
                    x
                } else {
                    self.threshold
                },
            ),
            Err(e) => Err(e),
        }
    }
}

} // verus!
