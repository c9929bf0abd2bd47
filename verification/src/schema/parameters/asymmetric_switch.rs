//! The definition of an asymmetric switch.

use vstd::prelude::*;
use crate::error::{outcome, ErrorView, PywrError};
use crate::network::{Network, Part};
use crate::parameters::asymmetric::{
    AsymmetricSwitchIndexParameter as CoreAsymmetricSwitchIndexParameter, IndexValue,
};
use crate::parameters::{IndexParameterIndex, IndexParameterKind};
use crate::schema::parameters::{DynamicFloatValueType, DynamicIndexValue, ParameterMeta};

verus! {

/// The definition of a switch that one whole number turns on and another
/// turns off.
#[derive(Clone, Debug, PartialEq, Eq)]
pub struct AsymmetricSwitchIndexParameter {
    pub meta: ParameterMeta,
    pub on_index_parameter: DynamicIndexValue,
    pub off_index_parameter: DynamicIndexValue,
}

impl AsymmetricSwitchIndexParameter {
    /// The definition refers to no node.
    pub fn node_references(&self) -> (r: Vec<(&'static str, &str)>)
        ensures
            r.len() == 0,
    {
        Vec::new()
    }

    /// The definition holds no amounts: what turns the switch are whole
    /// numbers.
    pub fn parameters(&self) -> (r: Vec<(&'static str, DynamicFloatValueType<'_>)>)
        ensures
            r.len() == 0,
    {
        Vec::new()
    }

    /// The two numbers of the switch, or the first failure to load one: the one
    /// that turns it on first.
    pub open spec fn loaded(
        &self,
        network: Network,
    ) -> Result<(IndexValue, IndexValue), ErrorView> {
        match self.on_index_parameter.loaded(network) {
            Err(e) => Err(e),
            Ok(on) => match self.off_index_parameter.loaded(network) {
                Err(e) => Err(e),
                Ok(off) => Ok((on, off)),
            },
        }
    }

    /// Adds the switch to a network. It fails with the first failure to load
    /// one of its numbers, else with `DuplicateName` where the name is taken,
    /// and then the network stays as it is; else the switch is added after the
    /// index parameters that are there and its handle is its position.
    pub fn add_to_model(&self, network: &mut Network) -> (r: Result<IndexParameterIndex, PywrError>)
        ensures
            final(network).same_but(old(network), Part::IndexParameters),
            match self.loaded(*old(network)) {
                Err(e) => outcome(r) == Err::<IndexParameterIndex, ErrorView>(e)
                    && final(network).index_parameters@ == old(network).index_parameters@,
                Ok((on, off)) => if old(network).index_parameter_names().contains(
                    self.meta.name@,
                ) {
                    outcome(r) == Err::<IndexParameterIndex, ErrorView>(ErrorView::DuplicateName)
                        && final(network).index_parameters@ == old(network).index_parameters@
                } else {
                    &&& r == Ok::<IndexParameterIndex, PywrError>(
                        IndexParameterIndex(old(network).index_parameters.len()),
                    )
                    &&& final(network).index_parameters.len()
                        == old(network).index_parameters.len() + 1
                    &&& final(network).index_parameters@.drop_last()
                        == old(network).index_parameters@
                    &&& final(network).index_parameters@.last() matches IndexParameterKind::AsymmetricSwitch(
                        p,
                    ) && p.meta.name@ == self.meta.name@ && p.on_parameter == on
                        && p.off_parameter == off
                },
            },
            old(network).wf() ==> final(network).wf(),
    {
        let on_index_parameter = match self.on_index_parameter.load(network) {
            Err(e) => {
                return Err(e);
            },
            Ok(v) => v,
        };
        let off_index_parameter = match self.off_index_parameter.load(network) {
            Err(e) => {
                return Err(e);
            },
            Ok(v) => v,
        };
        let p = CoreAsymmetricSwitchIndexParameter::new(
            self.meta.name.as_str(),
            on_index_parameter,
            off_index_parameter,
        );
        network.add_index_parameter(IndexParameterKind::AsymmetricSwitch(p))
    }
}

} // verus!
