//! The negation of a metric.

use vstd::prelude::*;
use crate::error::{ErrorView, PywrError};
use crate::metric::{metric_value, Metric};
use crate::network::Network;
use crate::parameters::{Parameter, ParameterMeta};
use crate::scenario::ScenarioIndex;
use crate::state::State;
use crate::timestep::Timestep;
use crate::value::{clamp, negate, Value};

verus! {

/// A parameter that gives a metric with its sign turned.
#[derive(Clone, Debug, PartialEq, Eq)]
pub struct NegativeParameter {
    pub meta: ParameterMeta,
    pub metric: Metric,
}

impl NegativeParameter {
    pub fn new(name: &str, metric: Metric) -> (r: Self)
        ensures
            r.meta.name@ == name@,
            r.metric == metric,
    {
        Self { meta: ParameterMeta::new(name), metric }
    }
}

impl Parameter for NegativeParameter {
    open spec fn value(
        &self,
        timestep: Timestep,
        scenario_index: ScenarioIndex,
        network: Network,
        state: State,
    ) -> Result<Value, ErrorView> {
        match metric_value(self.metric, network, state, network.evaluation_depth()) {
            Ok(x) => Ok(clamp(-x) as i64),
            Err(e) => Err(e),
        }
    }

    open spec fn meta_of(&self) -> ParameterMeta {
        self.meta
    }

    fn meta(&self) -> (r: &ParameterMeta) {
        &self.meta
    }

    fn compute(
        &self,
        timestep: &Timestep,
        scenario_index: &ScenarioIndex,
        network: &Network,
        state: &State,
    ) -> (r: Result<Value, PywrError>) {
        match self.metric.get_value(network, state) {
            Ok(x) => Ok(negate(x)),
            Err(e) => Err(e),
        }
    }
}

} // verus!
