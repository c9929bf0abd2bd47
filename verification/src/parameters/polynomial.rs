//! A polynomial of a metric.

use vstd::prelude::*;
use crate::error::{ErrorView, PywrError};
use crate::metric::{metric_value, Metric};
use crate::network::Network;
use crate::parameters::{Parameter, ParameterMeta};
use crate::scenario::ScenarioIndex;
use crate::state::State;
use crate::timestep::Timestep;
use crate::value::{clamp, plus, product, times, Value};

verus! {

/// The polynomial with the coefficients from `from` on, the first of them the
/// constant, at `x`, by Horner's scheme: each step is a fixed-point product and
/// a sum.
pub open spec fn horner(coefficients: Seq<Value>, from: int, x: Value) -> Value
    decreases coefficients.len() - from,
{
    if from < 0 || from >= coefficients.len() {
        0
    } else {
        clamp(product(horner(coefficients, from + 1, x) as int, x as int) + coefficients[from]) as i64
    }
}

/// A parameter that gives a polynomial of a metric. The coefficients start
/// with the constant and rise in degree.
#[derive(Clone, Debug, PartialEq, Eq)]
pub struct Polynomial1DParameter {
    pub meta: ParameterMeta,
    pub metric: Metric,
    pub coefficients: Vec<Value>,
}

impl Polynomial1DParameter {
    pub fn new(name: &str, metric: Metric, coefficients: Vec<Value>) -> (r: Self)
        ensures
            r.meta.name@ == name@,
            r.metric == metric,
            r.coefficients == coefficients,
    {
        Self { meta: ParameterMeta::new(name), metric, coefficients }
    }
}

/// The polynomial with these coefficients at `x`.
pub fn evaluate(coefficients: &Vec<Value>, x: Value) -> (r: Value)
    ensures
        r == horner(coefficients@, 0, x),
{
    let mut acc: Value = 0;
    let mut i: usize = coefficients.len();
    while i > 0
        invariant
            i <= coefficients.len(),
            acc == horner(coefficients@, i as int, x),
        decreases i,
    {
        i -= 1;
        acc = plus(times(acc, x), coefficients[i]);
    }
    acc
}

impl Parameter for Polynomial1DParameter {
    open spec fn value(
        &self,
        timestep: Timestep,
        scenario_index: ScenarioIndex,
        network: Network,
        state: State,
    ) -> Result<Value, ErrorView> {
        match metric_value(self.metric, network, state, network.evaluation_depth()) {
            Ok(x) => Ok(horner(self.coefficients@, 0, x)),
            Err(e) => Err(e),
        }
    }

    open spec fn meta_of(&self) -> ParameterMeta {
        self.meta
    }

    fn meta(&self) -> (r: &ParameterMeta) {
        &self.meta
    }

    fn compute(
        &self,
        timestep: &Timestep,
        scenario_index: &ScenarioIndex,
        network: &Network,
        state: &State,
    ) -> (r: Result<Value, PywrError>) {
        match self.metric.get_value(network, state) {
            Ok(x) => Ok(evaluate(&self.coefficients, x)),
            Err(e) => Err(e),
        }
    }
}

} // verus!
