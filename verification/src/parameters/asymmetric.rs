//! A switch that one index parameter turns on and another turns off.

use vstd::prelude::*;
use crate::error::{outcome, EntityKind, ErrorView, PywrError};
use crate::network::Network;
use crate::parameters::{IndexParameter, IndexParameterIndex, Internal, ParameterMeta};
use crate::scenario::ScenarioIndex;
use crate::state::State;
use crate::timestep::Timestep;

verus! {

/// The position of a switch after a step: one that is off goes on where `on` is
/// not zero, one that is on goes off where `off` is not zero, and otherwise it
/// stays as it is.
pub open spec fn switched(current: usize, on: usize, off: usize) -> usize {
    if current == 0 {
        if on != 0 {
            1
        } else {
            0
        }
    } else {
        if off != 0 {
            0
        } else {
            1
        }
    }
}

/// A whole number that the state holds for an index parameter.
pub open spec fn index_lookup(values: Seq<usize>, at: usize) -> Result<usize, ErrorView> {
    if at < values.len() {
        Ok(values[at as int])
    } else {
        Err(ErrorView::NotFoundAt(EntityKind::IndexParameter, at))
    }
}

/// A whole number that is fixed or that an index parameter gives.
#[derive(Clone, Copy, Debug, PartialEq, Eq, Structural)]
pub enum IndexValue {
    Constant(usize),
    Dynamic(IndexParameterIndex),
}

impl IndexValue {
    /// The number at the current state.
    pub open spec fn value(&self, state: State) -> Result<usize, ErrorView> {
        match self {
            IndexValue::Constant(v) => Ok(*v),
            IndexValue::Dynamic(idx) => index_lookup(state.index_parameter_values@, idx.0),
        }
    }

    /// The number at the current state.
    pub fn get_index(&self, state: &State) -> (r: Result<usize, PywrError>)
        ensures
            outcome(r) == self.value(*state),
    {
        match self {
            IndexValue::Constant(v) => Ok(*v),
            IndexValue::Dynamic(idx) => state.get_index_parameter_value(*idx),
        }
    }
}

/// A parameter that is zero or one. It starts at zero, and each step moves it as
/// `switched` says from its two numbers.
#[derive(Clone, Debug, PartialEq, Eq)]
pub struct AsymmetricSwitchIndexParameter {
    pub meta: ParameterMeta,
    pub on_parameter: IndexValue,
    pub off_parameter: IndexValue,
}

impl AsymmetricSwitchIndexParameter {
    pub fn new(name: &str, on_parameter: IndexValue, off_parameter: IndexValue) -> (r: Self)
        ensures
            r.meta.name@ == name@,
            r.on_parameter == on_parameter,
            r.off_parameter == off_parameter,
    {
        Self { meta: ParameterMeta::new(name), on_parameter, off_parameter }
    }
}

impl IndexParameter for AsymmetricSwitchIndexParameter {
    open spec fn initial(&self) -> Option<Internal> {
        Some(0usize)
    }

    /// The new position, which the parameter also keeps. Where the state does
    /// not hold one of the two numbers, the one that turns the switch on
    /// first, that fails and the parameter keeps what it kept. A parameter that
    /// was not set up counts as off.
    open spec fn value(
        &self,
        timestep: Timestep,
        scenario_index: ScenarioIndex,
        network: Network,
        state: State,
        internal_state: Option<Internal>,
    ) -> (Result<usize, ErrorView>, Option<Internal>) {
        let current = match internal_state {
            Some(c) => c,
            None => 0,
        };
        match self.on_parameter.value(state) {
            Err(e) => (Err(e), internal_state),
            Ok(on) => match self.off_parameter.value(state) {
                Err(e) => (Err(e), internal_state),
                Ok(off) => (Ok(switched(current, on, off)), Some(switched(current, on, off))),
            },
        }
    }

    open spec fn meta_of(&self) -> ParameterMeta {
        self.meta
    }

    fn meta(&self) -> (r: &ParameterMeta) {
        &self.meta
    }

    fn setup(&self, timesteps: &Vec<Timestep>, scenario_index: &ScenarioIndex) -> (r: Result<
        Option<Internal>,
        PywrError,
    >) {
        Ok(Some(0))
    }

    fn compute(
        &self,
        timestep: &Timestep,
        scenario_index: &ScenarioIndex,
        network: &Network,
        state: &State,
        internal_state: &mut Option<Internal>,
    ) -> (r: Result<usize, PywrError>) {
        let current: usize = match *internal_state {
            Some(c) => c,
            None => 0,
        };
        let on = match self.on_parameter.get_index(state) {
            Err(e) => {
                return Err(e);
            },
            Ok(v) => v,
        };
        let off = match self.off_parameter.get_index(state) {
            Err(e) => {
                return Err(e);
            },
            Ok(v) => v,
        };
        let next: usize = if current == 0 {
            if on != 0 {
                1
            } else {
                0
            }
        } else {
            if off != 0 {
                0
            } else {
                1
            }
        };
        *internal_state = Some(next);
        Ok(next)
    }
}

} // verus!
