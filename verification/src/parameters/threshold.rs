//! One of two amounts, chosen by comparing a metric with a threshold.

use vstd::prelude::*;
use crate::error::{ErrorView, PywrError};
use crate::metric::{metric_value, Metric};
use crate::network::Network;
use crate::parameters::{Parameter, ParameterMeta};
use crate::scenario::ScenarioIndex;
use crate::state::State;
use crate::timestep::Timestep;
use crate::value::Value;

verus! {

/// How a metric is compared with a threshold.
#[derive(Clone, Copy, Debug, PartialEq, Eq, Structural)]
pub enum Predicate {
    LT,
    LE,
    EQ,
    GE,
    GT,
}

impl Predicate {
    /// Whether `x` stands to `threshold` as the predicate says.
    pub open spec fn holds(&self, x: Value, threshold: Value) -> bool {
        match self {
            Predicate::LT => x < threshold,
            Predicate::LE => x <= threshold,
            Predicate::EQ => x == threshold,
            Predicate::GE => x >= threshold,
            Predicate::GT => x > threshold,
        }
    }

    /// Whether `x` stands to `threshold` as the predicate says.
    pub fn test(&self, x: Value, threshold: Value) -> (r: bool)
        ensures
            r == self.holds(x, threshold),
    {
        match self {
            Predicate::LT => x < threshold,
            Predicate::LE => x <= threshold,
            Predicate::EQ => x == threshold,
            Predicate::GE => x >= threshold,
            Predicate::GT => x > threshold,
        }
    }
}

/// A parameter that gives the second of its two amounts where the metric
/// stands to the threshold as the predicate says, and the first where it does
/// not.
#[derive(Clone, Debug, PartialEq, Eq)]
pub struct ThresholdParameter {
    pub meta: ParameterMeta,
    pub metric: Metric,
    pub threshold: Value,
    pub predicate: Predicate,
    pub values: [Value; 2],
}

impl ThresholdParameter {
    pub fn new(name: &str, metric: Metric, threshold: Value, predicate: Predicate, values: [Value;
        2]) -> (r: Self)
        ensures
            r.meta.name@ == name@,
            r.metric == metric,
            r.threshold == threshold,
            r.predicate == predicate,
            r.values == values,
    {
        Self { meta: ParameterMeta::new(name), metric, threshold, predicate, values }
    }
}

impl Parameter for ThresholdParameter {
    open spec fn value(
        &self,
        timestep: Timestep,
        scenario_index: ScenarioIndex,
        network: Network,
        state: State,
    ) -> Result<Value, ErrorView> {
        match metric_value(self.metric, network, state, network.evaluation_depth()) {
            Ok(x) => Ok(
                if self.predicate.holds(x, self.threshold) {
                    self.values[1]
                } else {
                    self.values[0]
                },
            ),
            Err(e) => Err(e),
        }
    }

    open spec fn meta_of(&self) -> ParameterMeta {
        self.meta
    }

    fn meta(&self) -> (r: &ParameterMeta) {
        &self.meta
    }

    fn compute(
        &self,
        timestep: &Timestep,
        scenario_index: &ScenarioIndex,
        network: &Network,
        state: &State,
    ) -> (r: Result<Value, PywrError>) {
        match self.metric.get_value(network, state) {
            Ok(x) => Ok(
                if self.predicate.test(x, self.threshold) {
                    self.values[1]
                } else {
                    self.values[0]
                },
            ),
            Err(e) => Err(e),
        }
    }
}

} // verus!
