//! The start of a step: the parameters are computed, one after another, into
//! the state.

use vstd::prelude::*;
use crate::error::{EntityKind, ErrorView, PywrError};
use crate::network::Network;
use crate::parameters::{gather, Internal, ParameterKind, ParameterType};
use crate::scenario::ScenarioIndex;
use crate::state::State;
use crate::timestep::Timestep;
use crate::value::Value;

verus! {

/// How far the parameters have been computed.
#[derive(Clone, Debug, PartialEq, Eq)]
pub enum Progress {
    /// Every parameter of the order has been computed.
    Done,
    /// The parameter at `position` of the order is computed outside this
    /// library, from `arguments`. Its value is to be put into the state, and the
    /// computing taken up again after `position`.
    Pending { position: usize, parameter: ParameterType, arguments: Vec<Value> },
}

/// What computing one parameter gives: nothing where its value was put into
/// the state, what it is to be computed from where it is computed outside this
/// library, or a failure.
#[verifier::opaque]
pub open spec fn step_outcome(
    network: Network,
    entry: ParameterType,
    timestep: Timestep,
    scenario_index: ScenarioIndex,
    before: State,
) -> Result<Option<Seq<Value>>, ErrorView> {
    match entry {
        ParameterType::Parameter(idx) => if idx.0 >= network.parameters.len() || idx.0
            >= before.parameter_values.len() {
            Err(ErrorView::NotFoundAt(EntityKind::Parameter, idx.0))
        } else {
            match network.parameters[idx.0 as int] {
                ParameterKind::SimpleWasm(p) => match gather(
                    before.parameter_values@,
                    p.parameters@,
                ) {
                    Ok(arguments) => Ok(Some(arguments)),
                    Err(e) => Err(e),
                },
                other => match other.value(timestep, scenario_index, network, before) {
                    Ok(_) => Ok(None),
                    Err(e) => Err(e),
                },
            }
        },
        ParameterType::Index(idx) => if idx.0 >= network.index_parameters.len() || idx.0
            >= before.index_parameter_values.len() || idx.0
            >= before.index_parameter_internal.len() {
            Err(ErrorView::NotFoundAt(EntityKind::IndexParameter, idx.0))
        } else {
            match network.index_parameters[idx.0 as int].value(
                timestep,
                scenario_index,
                network,
                before,
                before.index_parameter_internal[idx.0 as int],
            ).0 {
                Ok(_) => Ok(None),
                Err(e) => Err(e),
            }
        },
        ParameterType::Multi(idx) => if idx.0 >= network.multi_parameters.len() {
            Err(ErrorView::NotFoundAt(EntityKind::MultiValueParameter, idx.0))
        } else {
            Ok(Some(Seq::empty()))
        },
    }
}

/// What computing one parameter does to a state. Where the parameter is
/// computed here, the state holds its value afterwards, and, for an index
/// parameter, what the parameter keeps; all else is as it was. Where the
/// parameter is computed outside this library, or the computing fails, the
/// state is as it was.
#[verifier::opaque]
pub open spec fn step_state(
    network: Network,
    entry: ParameterType,
    timestep: Timestep,
    scenario_index: ScenarioIndex,
    before: State,
    after: State,
) -> bool {
    match step_outcome(network, entry, timestep, scenario_index, before) {
        Ok(None) => match entry {
            ParameterType::Parameter(idx) => {
                &&& network.parameters[idx.0 as int].value(
                    timestep,
                    scenario_index,
                    network,
                    before,
                ) matches Ok(Some(v)) && after.parameter_values@
                    == before.parameter_values@.update(idx.0 as int, v)
                &&& after.network_state == before.network_state
                &&& after.index_parameter_values == before.index_parameter_values
                &&& after.multi_parameter_values == before.multi_parameter_values
                &&& after.index_parameter_internal == before.index_parameter_internal
            },
            ParameterType::Index(idx) => {
                let computed = network.index_parameters[idx.0 as int].value(
                    timestep,
                    scenario_index,
                    network,
                    before,
                    before.index_parameter_internal[idx.0 as int],
                );
                &&& computed.0 matches Ok(v) && after.index_parameter_values@
                    == before.index_parameter_values@.update(idx.0 as int, v)
                &&& after.index_parameter_internal@ == before.index_parameter_internal@.update(
                    idx.0 as int,
                    computed.1,
                )
                &&& after.network_state == before.network_state
                &&& after.parameter_values == before.parameter_values
                &&& after.multi_parameter_values == before.multi_parameter_values
            },
            ParameterType::Multi(_) => after == before,
        },
        _ => after == before,
    }
}

/// What computing one parameter gives, with its failure by its view and what
/// it is to be computed from as a sequence.
pub open spec fn shown(r: Result<Option<Vec<Value>>, PywrError>) -> Result<
    Option<Seq<Value>>,
    ErrorView,
> {
    match r {
        Ok(None) => Ok(None),
        Ok(Some(arguments)) => Ok(Some(arguments@)),
        Err(e) => Err(e@),
    }
}

/// Computes one parameter into the state.
pub fn compute_parameter(
    network: &Network,
    entry: ParameterType,
    timestep: &Timestep,
    scenario_index: &ScenarioIndex,
    state: &mut State,
) -> (r: Result<Option<Vec<Value>>, PywrError>)
    ensures
        shown(r) == step_outcome(*network, entry, *timestep, *scenario_index, *old(state)),
        step_state(*network, entry, *timestep, *scenario_index, *old(state), *final(state)),
        !(r matches Ok(None)) ==> *final(state) == *old(state),
{
    reveal(step_outcome);
    reveal(step_state);
    match entry {
        ParameterType::Parameter(idx) => {
            if idx.0 >= network.parameters.len() || idx.0 >= state.parameter_values.len() {
                return Err(PywrError::NotFoundAt(EntityKind::Parameter, idx.0));
            }
            match &network.parameters[idx.0] {
                ParameterKind::SimpleWasm(p) => {
                    match p.arguments(state) {
                        Ok(arguments) => Ok(Some(arguments)),
                        Err(e) => Err(e),
                    }
                },
                other => {
                    match other.compute(timestep, scenario_index, network, state) {
                        Err(e) => Err(e),
                        Ok(None) => Ok(None),
                        Ok(Some(v)) => {
                            state.parameter_values.set(idx.0, v);
                            Ok(None)
                        },
                    }
                },
            }
        },
        ParameterType::Index(idx) => {
            if idx.0 >= network.index_parameters.len() || idx.0
                >= state.index_parameter_values.len() || idx.0
                >= state.index_parameter_internal.len() {
                return Err(PywrError::NotFoundAt(EntityKind::IndexParameter, idx.0));
            }
            let mut internal: Option<Internal> = state.index_parameter_internal[idx.0];
            match network.index_parameters[idx.0].compute(
                timestep,
                scenario_index,
                network,
                state,
                &mut internal,
            ) {
                Err(e) => Err(e),
                Ok(v) => {
                    state.index_parameter_values.set(idx.0, v);
                    state.index_parameter_internal.set(idx.0, internal);
                    Ok(None)
                },
            }
        },
        ParameterType::Multi(idx) => {
            if idx.0 >= network.multi_parameters.len() {
                return Err(PywrError::NotFoundAt(EntityKind::MultiValueParameter, idx.0));
            }
            Ok(Some(Vec::new()))
        },
    }
}

/// Whether computing the parameter at the position `from + k` of an order,
/// here and without failure, leads from the state `k` of a trace to the next.
pub open spec fn linked(
    network: Network,
    order: Seq<ParameterType>,
    from: int,
    timestep: Timestep,
    scenario_index: ScenarioIndex,
    trace: Seq<State>,
    k: int,
) -> bool {
    &&& step_outcome(network, order[from + k], timestep, scenario_index, trace[k]) == Ok::<
        Option<Seq<Value>>,
        ErrorView,
    >(None)
    &&& step_state(network, order[from + k], timestep, scenario_index, trace[k], trace[k + 1])
}

/// Whether a trace holds the states that computing the parameters of an order
/// leads through, one after another from the position `from` on.
pub open spec fn is_trace(
    network: Network,
    order: Seq<ParameterType>,
    from: int,
    timestep: Timestep,
    scenario_index: ScenarioIndex,
    trace: Seq<State>,
) -> bool {
    forall|k: int|
        0 <= k < trace.len() - 1 ==> #[trigger] linked(
            network,
            order,
            from,
            timestep,
            scenario_index,
            trace,
            k,
        )
}

/// Whether `after` is what computing the parameters of an order from the
/// position `from` up to, but not at, the position `to` makes of `before`, each
/// of them computed here and without failure.
pub open spec fn computed_through(
    network: Network,
    order: Seq<ParameterType>,
    from: int,
    to: int,
    timestep: Timestep,
    scenario_index: ScenarioIndex,
    before: State,
    after: State,
) -> bool {
    exists|trace: Seq<State>|
        #![trigger is_trace(network, order, from, timestep, scenario_index, trace)]
        is_trace(network, order, from, timestep, scenario_index, trace) && trace.len() == to
            - from + 1 && trace[0] == before && trace.last() == after
}

/// Computes the parameters of an order into the state, from the position
/// `from` on, until all are computed, one is met that is computed outside this
/// library, or one fails.
///
/// Every parameter before the position at which the computing stops has its
/// value in the state. A parameter that is computed outside this library, or
/// that fails, leaves the state as the parameters before it made it.
pub fn compute_parameters(
    network: &Network,
    order: &Vec<ParameterType>,
    from: usize,
    timestep: &Timestep,
    scenario_index: &ScenarioIndex,
    state: &mut State,
) -> (r: Result<Progress, PywrError>)
    ensures
        match r {
            Ok(Progress::Done) => if from <= order.len() {
                computed_through(
                    *network,
                    order@,
                    from as int,
                    order.len() as int,
                    *timestep,
                    *scenario_index,
                    *old(state),
                    *final(state),
                )
            } else {
                *final(state) == *old(state)
            },
            Ok(Progress::Pending { position, parameter, arguments }) => {
                &&& from <= position < order.len()
                &&& parameter == order[position as int]
                &&& computed_through(
                    *network,
                    order@,
                    from as int,
                    position as int,
                    *timestep,
                    *scenario_index,
                    *old(state),
                    *final(state),
                )
                &&& step_outcome(
                    *network,
                    order[position as int],
                    *timestep,
                    *scenario_index,
                    *final(state),
                ) == Ok::<Option<Seq<Value>>, ErrorView>(Some(arguments@))
            },
            Err(e) => exists|position: int|
                #![trigger order[position]]
                from <= position < order.len() && computed_through(
                    *network,
                    order@,
                    from as int,
                    position,
                    *timestep,
                    *scenario_index,
                    *old(state),
                    *final(state),
                ) && step_outcome(
                    *network,
                    order[position],
                    *timestep,
                    *scenario_index,
                    *final(state),
                ) == Err::<Option<Seq<Value>>, ErrorView>(e@),
        },
{
    if from > order.len() {
        return Ok(Progress::Done);
    }
    let mut i: usize = from;
    let ghost mut trace: Seq<State> = seq![*state];
    while i < order.len()
        invariant
            from <= i <= order.len(),
            is_trace(*network, order@, from as int, *timestep, *scenario_index, trace),
            trace.len() == i - from + 1,
            trace[0] == *old(state),
            trace.last() == *state,
        decreases order.len() - i,
    {
        let ghost mid = *state;
        match compute_parameter(network, order[i], timestep, scenario_index, state) {
            Err(e) => {
                assert(order[i as int] == order@[i as int]);
                return Err(e);
            },
            Ok(Some(arguments)) => {
                return Ok(Progress::Pending { position: i, parameter: order[i], arguments });
            },
            Ok(None) => {
                proof {
                    let longer = trace.push(*state);
                    assert forall|k: int| 0 <= k < longer.len() - 1 implies #[trigger] linked(
                        *network,
                        order@,
                        from as int,
                        *timestep,
                        *scenario_index,
                        longer,
                        k,
                    ) by {
                        if k < trace.len() - 1 {
                            assert(linked(
                                *network,
                                order@,
                                from as int,
                                *timestep,
                                *scenario_index,
                                trace,
                                k,
                            ));
                            assert(longer[k] == trace[k]);
                            assert(longer[k + 1] == trace[k + 1]);
                        } else {
                            assert(longer[k] == mid);
                            assert(longer[k + 1] == *state);
                        }
                    }
                    trace = longer;
                }
            },
        }
        i += 1;
    }
    Ok(Progress::Done)
}

} // verus!
