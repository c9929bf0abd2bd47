//! Parameters: named amounts that are computed afresh at each step.

pub mod aggregated;
pub mod aggregated_index;
pub mod array;
pub mod asymmetric;
pub mod control_curves;
pub mod indexed_array;
pub mod kind;
pub mod max;
pub mod negative;
pub mod polynomial;
pub mod profiles;
pub mod simple_wasm;
pub mod threshold;

pub use aggregated::{AggFunc, AggregatedParameter};
pub use aggregated_index::{AggIndexFunc, AggregatedIndexParameter};
pub use kind::{IndexParameterKind, ParameterKind};
pub use max::MaxParameter;
pub use negative::NegativeParameter;
pub use polynomial::Polynomial1DParameter;
pub use profiles::{
    DailyProfileParameter,
    MonthlyProfileParameter,
    UniformDrawdownProfileParameter,
};
pub use threshold::{Predicate, ThresholdParameter};

use vstd::prelude::*;
use crate::error::{outcome, EntityKind, ErrorView, PywrError};
use crate::network::Network;
use crate::parameters::array::{Array1, Array2};
use crate::scenario::ScenarioIndex;
use crate::state::State;
use crate::timestep::Timestep;
use crate::value::Value;

verus! {

/// The handle of a parameter that gives an amount.
#[derive(Debug, Copy, Clone, Eq, PartialEq, Structural)]
pub struct ParameterIndex(pub usize);

/// The handle of a parameter that gives a whole number.
#[derive(Debug, Copy, Clone, Eq, PartialEq, Structural)]
pub struct IndexParameterIndex(pub usize);

/// The handle of a parameter that gives several keyed amounts.
#[derive(Debug, Copy, Clone, Eq, PartialEq, Structural)]
pub struct MultiValueParameterIndex(pub usize);

impl ParameterIndex {
    pub fn new(idx: usize) -> (r: Self)
        ensures
            r.0 == idx,
    {
        Self(idx)
    }
}

impl IndexParameterIndex {
    pub fn new(idx: usize) -> (r: Self)
        ensures
            r.0 == idx,
    {
        Self(idx)
    }
}

impl MultiValueParameterIndex {
    pub fn new(idx: usize) -> (r: Self)
        ensures
            r.0 == idx,
    {
        Self(idx)
    }
}

/// What is common to all parameters.
#[derive(Debug, Clone, PartialEq, Eq)]
pub struct ParameterMeta {
    pub name: String,
    pub comment: String,
}

impl ParameterMeta {
    /// The meta data of a parameter with this name and no comment.
    pub fn new(name: &str) -> (r: Self)
        ensures
            r.name@ == name@,
            r.comment@ == Seq::<char>::empty(),
    {
        Self { name: name.to_string(), comment: String::new() }
    }
}

/// What a parameter keeps from one step to the next, for one scenario.
pub type Internal = usize;

/// A named amount that is computed at each step from the time, the scenario,
/// the network and the state.
pub trait Parameter {
    /// What `compute` gives.
    spec fn value(
        &self,
        timestep: Timestep,
        scenario_index: ScenarioIndex,
        network: Network,
        state: State,
    ) -> Result<Value, ErrorView>;

    /// What is common to all parameters.
    spec fn meta_of(&self) -> ParameterMeta;

    fn meta(&self) -> (r: &ParameterMeta)
        ensures
            *r == self.meta_of(),
    ;

    fn name(&self) -> (r: &str)
        ensures
            r@ == self.meta_of().name@,
    {
        self.meta().name.as_str()
    }

    /// What the parameter keeps at the start of a run: nothing.
    fn setup(&self, timesteps: &Vec<Timestep>, scenario_index: &ScenarioIndex) -> (r: Result<
        Option<Internal>,
        PywrError,
    >)
        ensures
            r == Ok::<Option<Internal>, PywrError>(None),
    {
        Ok(None)
    }

    /// Called at the start of each step, before any parameter is computed.
    fn before(&self) {
    }

    /// The amount at this step. It changes neither the network nor the state.
    fn compute(
        &self,
        timestep: &Timestep,
        scenario_index: &ScenarioIndex,
        network: &Network,
        state: &State,
    ) -> (r: Result<Value, PywrError>)
        ensures
            outcome(r) == self.value(*timestep, *scenario_index, *network, *state),
    ;
}

/// A named whole number that is computed at each step; it may keep a number of
/// its own from one step to the next.
pub trait IndexParameter {
    /// What `setup` gives: what the parameter keeps at the start of a run.
    spec fn initial(&self) -> Option<Internal>;

    /// What `compute` gives, and what the parameter keeps afterwards.
    spec fn value(
        &self,
        timestep: Timestep,
        scenario_index: ScenarioIndex,
        network: Network,
        state: State,
        internal_state: Option<Internal>,
    ) -> (Result<usize, ErrorView>, Option<Internal>);

    /// What is common to all parameters.
    spec fn meta_of(&self) -> ParameterMeta;

    fn meta(&self) -> (r: &ParameterMeta)
        ensures
            *r == self.meta_of(),
    ;

    fn name(&self) -> (r: &str)
        ensures
            r@ == self.meta_of().name@,
    {
        self.meta().name.as_str()
    }

    /// Called at the start of each step, before any parameter is computed.
    fn before(&self) {
    }

    /// What the parameter keeps at the start of a run.
    fn setup(&self, timesteps: &Vec<Timestep>, scenario_index: &ScenarioIndex) -> (r: Result<
        Option<Internal>,
        PywrError,
    >)
        ensures
            r == Ok::<Option<Internal>, PywrError>(self.initial()),
    ;

    /// The number at this step.
    fn compute(
        &self,
        timestep: &Timestep,
        scenario_index: &ScenarioIndex,
        network: &Network,
        state: &State,
        internal_state: &mut Option<Internal>,
    ) -> (r: Result<usize, PywrError>)
        ensures
            (outcome(r), *final(internal_state)) == self.value(
                *timestep,
                *scenario_index,
                *network,
                *state,
                *old(internal_state),
            ),
    ;
}

/// The handle of a parameter of any kind.
#[derive(Debug, Copy, Clone, Eq, PartialEq, Structural)]
pub enum ParameterType {
    Parameter(ParameterIndex),
    Index(IndexParameterIndex),
    Multi(MultiValueParameterIndex),
}

/// One value per scenario, kept by a parameter from one step to the next.
#[derive(Clone, Debug, PartialEq, Eq)]
pub struct InternalParameterState<T: Copy> {
    pub state: Vec<T>,
}

impl<T: Copy> InternalParameterState<T> {
    /// A state that holds nothing yet.
    pub fn new() -> (r: Self)
        ensures
            r.state@ == Seq::<T>::empty(),
    {
        Self { state: Vec::new() }
    }

    /// Makes the state hold `size` times `fill_with`.
    pub fn setup(&mut self, size: usize, fill_with: T)
        ensures
            final(self).state@ == Seq::new(size as nat, |i: int| fill_with),
    {
        let mut filled: Vec<T> = Vec::new();
        let mut i: usize = 0;
        while i < size
            invariant
                i <= size,
                filled@ == Seq::new(i as nat, |k: int| fill_with),
            decreases size - i,
        {
            filled.push(fill_with);
            i += 1;
            assert(filled@ =~= Seq::new(i as nat, |k: int| fill_with));
        }
        self.state = filled;
    }

    /// Replaces the value at `index`.
    pub fn set(&mut self, index: usize, value: T)
        requires
            index < old(self).state.len(),
        ensures
            final(self).state@ == old(self).state@.update(index as int, value),
    {
        self.state.set(index, value);
    }

    /// The value at `index`.
    pub fn get(&self, index: usize) -> (r: &T)
        requires
            index < self.state.len(),
        ensures
            *r == self.state[index as int],
    {
        &self.state[index]
    }
}

/// The amounts that the state holds for the parameters, in their order, or the
/// failure to find the first parameter that the state does not hold.
pub open spec fn gather(values: Seq<Value>, indices: Seq<ParameterIndex>) -> Result<
    Seq<Value>,
    ErrorView,
>
    decreases indices.len(),
{
    if indices.len() == 0 {
        Ok(Seq::empty())
    } else {
        match gather(values, indices.drop_last()) {
            Err(e) => Err(e),
            Ok(head) => if indices.last().0 < values.len() {
                Ok(head.push(values[indices.last().0 as int]))
            } else {
                Err(ErrorView::NotFoundAt(EntityKind::Parameter, indices.last().0))
            },
        }
    }
}

/// A failure among the first `n` parameters is the failure of all.
pub proof fn lemma_gather_fails_in_prefix(values: Seq<Value>, indices: Seq<ParameterIndex>, n: int)
    requires
        0 <= n <= indices.len(),
        gather(values, indices.take(n)).is_err(),
    ensures
        gather(values, indices) == gather(values, indices.take(n)),
    decreases indices.len() - n,
{
    if n < indices.len() {
        assert(indices.take(n + 1).drop_last() =~= indices.take(n));
        lemma_gather_fails_in_prefix(values, indices, n + 1);
    } else {
        assert(indices.take(n) =~= indices);
    }
}

/// The amounts that the state holds for the parameters, in their order.
pub fn values_of(state: &State, indices: &Vec<ParameterIndex>) -> (r: Result<Vec<Value>, PywrError>)
    ensures
        match r {
            Ok(v) => gather(state.parameter_values@, indices@) == Ok::<Seq<Value>, ErrorView>(v@),
            Err(e) => gather(state.parameter_values@, indices@) == Err::<Seq<Value>, ErrorView>(
                e@,
            ),
        },
{
    let mut out: Vec<Value> = Vec::new();
    let mut i: usize = 0;
    while i < indices.len()
        invariant
            i <= indices.len(),
            gather(state.parameter_values@, indices@.take(i as int)) == Ok::<
                Seq<Value>,
                ErrorView,
            >(out@),
        decreases indices.len() - i,
    {
        proof {
            assert(indices@.take(i + 1).drop_last() =~= indices@.take(i as int));
        }
        match state.get_parameter_value(indices[i]) {
            Err(e) => {
                proof {
                    lemma_gather_fails_in_prefix(state.parameter_values@, indices@, i + 1);
                }
                return Err(e);
            },
            Ok(v) => {
                out.push(v);
            },
        }
        i += 1;
    }
    assert(indices@.take(i as int) =~= indices@);
    Ok(out)
}

/// A parameter that gives the same amount at every step.
#[derive(Clone, Debug, PartialEq, Eq)]
pub struct ConstantParameter {
    pub meta: ParameterMeta,
    pub value: Value,
}

impl ConstantParameter {
    pub fn new(name: &str, value: Value) -> (r: Self)
        ensures
            r.meta.name@ == name@,
            r.value == value,
    {
        Self { meta: ParameterMeta::new(name), value }
    }
}

impl Parameter for ConstantParameter {
    open spec fn value(
        &self,
        timestep: Timestep,
        scenario_index: ScenarioIndex,
        network: Network,
        state: State,
    ) -> Result<Value, ErrorView> {
        Ok(self.value)
    }

    open spec fn meta_of(&self) -> ParameterMeta {
        self.meta
    }

    fn meta(&self) -> (r: &ParameterMeta) {
        &self.meta
    }

    fn compute(
        &self,
        timestep: &Timestep,
        scenario_index: &ScenarioIndex,
        network: &Network,
        state: &State,
    ) -> (r: Result<Value, PywrError>) {
        Ok(self.value)
    }
}

/// A parameter that gives the amount at the position of the step in a list.
#[derive(Clone, Debug, PartialEq, Eq)]
pub struct VectorParameter {
    pub meta: ParameterMeta,
    pub values: Vec<Value>,
}

impl VectorParameter {
    pub fn new(name: &str, values: Vec<Value>) -> (r: Self)
        ensures
            r.meta.name@ == name@,
            r.values == values,
    {
        Self { meta: ParameterMeta::new(name), values }
    }
}

/// The amount for the step numbered `index`, or the failure where the amounts
/// end before it.
pub open spec fn at_timestep(values: Seq<Value>, index: usize) -> Result<Value, ErrorView> {
    if index < values.len() {
        Ok(values[index as int])
    } else {
        Err(ErrorView::TimestepIndexOutOfRange)
    }
}

impl Parameter for VectorParameter {
    open spec fn value(
        &self,
        timestep: Timestep,
        scenario_index: ScenarioIndex,
        network: Network,
        state: State,
    ) -> Result<Value, ErrorView> {
        at_timestep(self.values@, timestep.index)
    }

    open spec fn meta_of(&self) -> ParameterMeta {
        self.meta
    }

    fn meta(&self) -> (r: &ParameterMeta) {
        &self.meta
    }

    fn compute(
        &self,
        timestep: &Timestep,
        scenario_index: &ScenarioIndex,
        network: &Network,
        state: &State,
    ) -> (r: Result<Value, PywrError>) {
        if timestep.index < self.values.len() {
            Ok(self.values[timestep.index])
        } else {
            Err(PywrError::TimestepIndexOutOfRange)
        }
    }
}

/// A parameter that gives the amount at the position of the step in an array.
pub struct Array1Parameter {
    pub meta: ParameterMeta,
    pub array: Array1,
}

impl Array1Parameter {
    pub fn new(name: &str, array: Array1) -> (r: Self)
        ensures
            r.meta.name@ == name@,
            r.array == array,
    {
        Self { meta: ParameterMeta::new(name), array }
    }
}

impl Parameter for Array1Parameter {
    open spec fn value(
        &self,
        timestep: Timestep,
        scenario_index: ScenarioIndex,
        network: Network,
        state: State,
    ) -> Result<Value, ErrorView> {
        at_timestep(self.array@, timestep.index)
    }

    open spec fn meta_of(&self) -> ParameterMeta {
        self.meta
    }

    fn meta(&self) -> (r: &ParameterMeta) {
        &self.meta
    }

    fn compute(
        &self,
        timestep: &Timestep,
        scenario_index: &ScenarioIndex,
        network: &Network,
        state: &State,
    ) -> (r: Result<Value, PywrError>) {
        match self.array.get(timestep.index) {
            Some(v) => Ok(v),
            None => Err(PywrError::TimestepIndexOutOfRange),
        }
    }
}

/// A parameter that gives the amount in the row of the step and the column of
/// the scenario within one scenario group.
pub struct Array2Parameter {
    pub meta: ParameterMeta,
    pub array: Array2,
    /// The scenario group whose position picks the column.
    pub scenario_group_index: usize,
}

impl Array2Parameter {
    pub fn new(name: &str, array: Array2, scenario_group_index: usize) -> (r: Self)
        ensures
            r.meta.name@ == name@,
            r.array == array,
            r.scenario_group_index == scenario_group_index,
    {
        Self { meta: ParameterMeta::new(name), array, scenario_group_index }
    }
}

/// The amount in the row of the step and the column of the scenario.
///
/// Fails with `NotFoundAt` where the scenario has no position in the group, and
/// with `TimestepIndexOutOfRange` where the array has no such row or the row no
/// such column.
pub open spec fn at_timestep_and_scenario(
    rows: Seq<Seq<Value>>,
    index: usize,
    positions: Seq<usize>,
    group: usize,
) -> Result<Value, ErrorView> {
    if group >= positions.len() {
        Err(ErrorView::NotFoundAt(EntityKind::ScenarioGroup, group))
    } else if index < rows.len() && positions[group as int] < rows[index as int].len() {
        Ok(rows[index as int][positions[group as int] as int])
    } else {
        Err(ErrorView::TimestepIndexOutOfRange)
    }
}

impl Parameter for Array2Parameter {
    open spec fn value(
        &self,
        timestep: Timestep,
        scenario_index: ScenarioIndex,
        network: Network,
        state: State,
    ) -> Result<Value, ErrorView> {
        at_timestep_and_scenario(
            self.array@,
            timestep.index,
            scenario_index.indices@,
            self.scenario_group_index,
        )
    }

    open spec fn meta_of(&self) -> ParameterMeta {
        self.meta
    }

    fn meta(&self) -> (r: &ParameterMeta) {
        &self.meta
    }

    fn compute(
        &self,
        timestep: &Timestep,
        scenario_index: &ScenarioIndex,
        network: &Network,
        state: &State,
    ) -> (r: Result<Value, PywrError>) {
        if self.scenario_group_index >= scenario_index.indices.len() {
            return Err(
                PywrError::NotFoundAt(EntityKind::ScenarioGroup, self.scenario_group_index),
            );
        }
        let column = scenario_index.indices[self.scenario_group_index];
        match self.array.get(timestep.index, column) {
            Some(v) => Ok(v),
            None => Err(PywrError::TimestepIndexOutOfRange),
        }
    }
}

} // verus!
