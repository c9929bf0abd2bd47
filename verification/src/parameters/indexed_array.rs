//! One of several parameters, picked by an index parameter.

use vstd::prelude::*;
use crate::error::{EntityKind, ErrorView, PywrError};
use crate::network::Network;
use crate::parameters::asymmetric::index_lookup;
use crate::parameters::{IndexParameterIndex, Parameter, ParameterIndex, ParameterMeta};
use crate::scenario::ScenarioIndex;
use crate::state::{lookup, State};
use crate::timestep::Timestep;
use crate::value::Value;

verus! {

/// A parameter that gives the amount of the parameter at the position that an
/// index parameter gives.
#[derive(Clone, Debug, PartialEq, Eq)]
pub struct IndexedArrayParameter {
    pub meta: ParameterMeta,
    pub index_parameter: IndexParameterIndex,
    pub parameters: Vec<ParameterIndex>,
}

impl IndexedArrayParameter {
    pub fn new(
        name: &str,
        index_parameter: IndexParameterIndex,
        parameters: Vec<ParameterIndex>,
    ) -> (r:
        Self)
        ensures
            r.meta.name@ == name@,
            r.index_parameter == index_parameter,
            r.parameters == parameters,
    {
        Self { meta: ParameterMeta::new(name), index_parameter, parameters }
    }
}

impl Parameter for IndexedArrayParameter {
    /// Fails with `NotFoundAt` where the state does not hold the index
    /// parameter, where its number is no position among the parameters (a
    /// `Choice`), or where the state does not hold the parameter picked.
    open spec fn value(
        &self,
        timestep: Timestep,
        scenario_index: ScenarioIndex,
        network: Network,
        state: State,
    ) -> Result<Value, ErrorView> {
        match index_lookup(state.index_parameter_values@, self.index_parameter.0) {
            Err(e) => Err(e),
            Ok(position) => if position >= self.parameters.len() {
                Err(ErrorView::NotFoundAt(EntityKind::Choice, position))
            } else {
                lookup(
                    state.parameter_values@,
                    self.parameters[position as int].0,
                    EntityKind::Parameter,
                )
            },
        }
    }

    open spec fn meta_of(&self) -> ParameterMeta {
        self.meta
    }

    fn meta(&self) -> (r: &ParameterMeta) {
        &self.meta
    }

    fn compute(
        &self,
        timestep: &Timestep,
        scenario_index: &ScenarioIndex,
        network: &Network,
        state: &State,
    ) -> (r: Result<Value, PywrError>) {
        match state.get_index_parameter_value(self.index_parameter) {
            Err(e) => Err(e),
            Ok(position) => {
                if position >= self.parameters.len() {
                    Err(PywrError::NotFoundAt(EntityKind::Choice, position))
                } else {
                    state.get_parameter_value(self.parameters[position])
                }
            },
        }
    }
}

} // verus!
