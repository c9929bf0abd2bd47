//! A parameter whose amount a WebAssembly module computes.

use vstd::prelude::*;
use crate::error::{ErrorView, PywrError};
use crate::parameters::{gather, values_of, ParameterIndex, ParameterMeta};
use crate::state::State;
use crate::value::Value;

verus! {

/// A parameter that hands the amounts of other parameters to a function of a
/// WebAssembly module and gives what the function returns. The module is run
/// outside this library: here the parameter says what the function is handed.
#[derive(Clone, Debug, PartialEq, Eq)]
pub struct SimpleWasmParameter {
    pub meta: ParameterMeta,
    /// The module, as bytes.
    pub src: Vec<u8>,
    /// The parameters whose amounts the function is handed, in this order.
    pub parameters: Vec<ParameterIndex>,
}

impl SimpleWasmParameter {
    pub fn new(name: &str, src: Vec<u8>, parameters: Vec<ParameterIndex>) -> (r: Self)
        ensures
            r.meta.name@ == name@,
            r.src == src,
            r.parameters == parameters,
    {
        Self { meta: ParameterMeta::new(name), src, parameters }
    }

    pub fn meta(&self) -> (r: &ParameterMeta)
        ensures
            *r == self.meta,
    {
        &self.meta
    }

    /// The amounts that the function is handed at this step: those that the
    /// state holds for the parameters, in their order.
    pub fn arguments(&self, state: &State) -> (r: Result<Vec<Value>, PywrError>)
        ensures
            match r {
                Ok(v) => gather(state.parameter_values@, self.parameters@) == Ok::<
                    Seq<Value>,
                    ErrorView,
                >(v@),
                Err(e) => gather(state.parameter_values@, self.parameters@) == Err::<
                    Seq<Value>,
                    ErrorView,
                >(e@),
            },
    {
        values_of(state, &self.parameters)
    }
}

} // verus!
