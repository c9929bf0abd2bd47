//! Nothing that is read from a state depends on more than the amounts and
//! numbers it holds: two states that hold the same are read alike, and
//! computing the parameters leads them to states that again hold the same.

use vstd::prelude::*;
use crate::error::{outcome, ErrorView, PywrError};
use crate::evaluation::{is_trace, linked, step_outcome, step_state};
use crate::metric::{
    constraint_value,
    metric_value,
    metric_values,
    node_max_volume,
    total_max_volume,
    Metric,
};
use crate::network::Network;
use crate::node::{ConstraintValue, NodeIndex};
use crate::parameters::control_curves::curve_region;
use crate::parameters::kind::{IndexParameterKind, ParameterKind};
use crate::parameters::{Internal, ParameterType};
use crate::run::{
    drawn,
    finished,
    lemma_accepted_reads_flows_by_view,
    lemma_drawn_reads_flows_by_view,
};
use crate::scenario::ScenarioIndex;
use crate::solvers::bounds::{aggregated_bounds, node_bounds, virtual_storage_bounds, StepBounds};
use crate::solvers::builder::{edge_cost, row_of, Lp};
use crate::solvers::feasibility::accepted;
use crate::state::{NetworkState, State};
use crate::timestep::Timestep;
use crate::value::Value;

verus! {

/// Whether two states hold the same flows, volumes, amounts and numbers.
pub open spec fn alike(a: State, b: State) -> bool {
    &&& a.network_state.node_in_flows@ == b.network_state.node_in_flows@
    &&& a.network_state.node_out_flows@ == b.network_state.node_out_flows@
    &&& a.network_state.node_volumes@ == b.network_state.node_volumes@
    &&& a.network_state.edge_flows@ == b.network_state.edge_flows@
    &&& a.network_state.virtual_storage_volumes@ == b.network_state.virtual_storage_volumes@
    &&& a.parameter_values@ == b.parameter_values@
    &&& a.index_parameter_values@ == b.index_parameter_values@
    &&& a.multi_parameter_values == b.multi_parameter_values
    &&& a.index_parameter_internal@ == b.index_parameter_internal@
}

/// A bound or a cost is the same at two states that hold the same.
pub proof fn lemma_constraint_reads_what_is_held(
    constraint: ConstraintValue,
    unbounded: Value,
    owner: Seq<char>,
    network: Network,
    a: State,
    b: State,
    depth: nat,
)
    requires
        alike(a, b),
    ensures
        constraint_value(constraint, unbounded, owner, network, a, depth) == constraint_value(
            constraint,
            unbounded,
            owner,
            network,
            b,
            depth,
        ),
    decreases depth, 0nat, 0nat, constraint,
{
    match constraint {
        ConstraintValue::Metric(m) => {
            if depth > 0 {
                lemma_metric_reads_what_is_held(m, network, a, b, (depth - 1) as nat);
            }
        },
        _ => {},
    }
}

/// The greatest volume of a node is the same at two states that hold the same.
pub proof fn lemma_max_volume_reads_what_is_held(
    idx: usize,
    network: Network,
    a: State,
    b: State,
    depth: nat,
)
    requires
        alike(a, b),
    ensures
        node_max_volume(idx, network, a, depth) == node_max_volume(idx, network, b, depth),
    decreases depth, 1nat, 0nat, network,
{
    if idx < network.nodes.len() {
        lemma_constraint_reads_what_is_held(
            network.nodes[idx as int].max_volume,
            i64::MAX,
            network.nodes[idx as int].name@,
            network,
            a,
            b,
            depth,
        );
    }
}

/// The sum of the greatest volumes of some nodes is the same at two states
/// that hold the same.
pub proof fn lemma_total_max_volume_reads_what_is_held(
    members: Seq<NodeIndex>,
    network: Network,
    a: State,
    b: State,
    depth: nat,
)
    requires
        alike(a, b),
    ensures
        total_max_volume(members, network, a, depth) == total_max_volume(
            members,
            network,
            b,
            depth,
        ),
    decreases depth, 1nat, members.len() + 1, network,
{
    if members.len() > 0 {
        lemma_total_max_volume_reads_what_is_held(members.drop_last(), network, a, b, depth);
        lemma_max_volume_reads_what_is_held(members.last().0, network, a, b, depth);
    }
}

/// A metric has the same value at two states that hold the same.
pub proof fn lemma_metric_reads_what_is_held(
    metric: Metric,
    network: Network,
    a: State,
    b: State,
    depth: nat,
)
    requires
        alike(a, b),
    ensures
        metric_value(metric, network, a, depth) == metric_value(metric, network, b, depth),
    decreases depth, 2nat, 0nat, metric,
{
    match metric {
        Metric::NodeProportionalVolume(idx) => {
            lemma_max_volume_reads_what_is_held(idx.0, network, a, b, depth);
        },
        Metric::VirtualStorageProportionalVolume(idx) => {
            if idx.0 < network.virtual_storage_nodes.len() {
                lemma_constraint_reads_what_is_held(
                    network.virtual_storage_nodes[idx.0 as int].max_volume,
                    i64::MAX,
                    network.virtual_storage_nodes[idx.0 as int].name@,
                    network,
                    a,
                    b,
                    depth,
                );
            }
        },
        Metric::AggregatedNodeProportionalVolume(idx) => {
            if idx.0 < network.aggregated_storage_nodes.len() {
                lemma_total_max_volume_reads_what_is_held(
                    network.aggregated_storage_nodes[idx.0 as int].nodes@,
                    network,
                    a,
                    b,
                    depth,
                );
            }
        },
        Metric::NodeInFlowDeficit(idx) => {
            if idx.0 < network.nodes.len() {
                lemma_constraint_reads_what_is_held(
                    network.nodes[idx.0 as int].max_flow,
                    i64::MAX,
                    network.nodes[idx.0 as int].name@,
                    network,
                    a,
                    b,
                    depth,
                );
            }
        },
        Metric::VolumeBetweenControlCurves(vol) => {
            lemma_metric_reads_what_is_held(*vol.max_volume, network, a, b, depth);
            match vol.lower {
                Some(m) => {
                    lemma_metric_reads_what_is_held(*m, network, a, b, depth);
                },
                None => {},
            }
            match vol.upper {
                Some(m) => {
                    lemma_metric_reads_what_is_held(*m, network, a, b, depth);
                },
                None => {},
            }
        },
        _ => {},
    }
}

/// Some metrics have the same values at two states that hold the same.
pub proof fn lemma_metrics_read_what_is_held(
    metrics: Seq<Metric>,
    network: Network,
    a: State,
    b: State,
)
    requires
        alike(a, b),
    ensures
        metric_values(metrics, network, a) == metric_values(metrics, network, b),
    decreases metrics.len(),
{
    if metrics.len() > 0 {
        lemma_metrics_read_what_is_held(metrics.drop_last(), network, a, b);
        lemma_metric_reads_what_is_held(
            metrics.last(),
            network,
            a,
            b,
            network.evaluation_depth(),
        );
    }
}

/// The value that is held against control curves, the values of the curves and
/// the region are the same at two states that hold the same.
pub proof fn lemma_region_reads_what_is_held(
    metric: Metric,
    control_curves: Seq<Metric>,
    network: Network,
    a: State,
    b: State,
)
    requires
        alike(a, b),
    ensures
        curve_region(metric, control_curves, network, a) == curve_region(
            metric,
            control_curves,
            network,
            b,
        ),
{
    lemma_metric_reads_what_is_held(metric, network, a, b, network.evaluation_depth());
    lemma_metrics_read_what_is_held(control_curves, network, a, b);
}

/// A parameter gives the same amount at two states that hold the same.
pub proof fn lemma_parameter_reads_what_is_held(
    parameter: ParameterKind,
    timestep: Timestep,
    scenario_index: ScenarioIndex,
    network: Network,
    a: State,
    b: State,
)
    requires
        alike(a, b),
    ensures
        parameter.value(timestep, scenario_index, network, a) == parameter.value(
            timestep,
            scenario_index,
            network,
            b,
        ),
{
    let depth = network.evaluation_depth();
    match parameter {
        ParameterKind::Negative(p) => {
            lemma_metric_reads_what_is_held(p.metric, network, a, b, depth);
        },
        ParameterKind::Polynomial1D(p) => {
            lemma_metric_reads_what_is_held(p.metric, network, a, b, depth);
        },
        ParameterKind::Max(p) => {
            lemma_metric_reads_what_is_held(p.metric, network, a, b, depth);
        },
        ParameterKind::Threshold(p) => {
            lemma_metric_reads_what_is_held(p.metric, network, a, b, depth);
        },
        ParameterKind::ControlCurve(p) => {
            lemma_region_reads_what_is_held(p.metric, p.control_curves@, network, a, b);
            match curve_region(p.metric, p.control_curves@, network, a) {
                Ok((x, curves, at)) => {
                    if at < p.values.len() {
                        lemma_metric_reads_what_is_held(p.values[at], network, a, b, depth);
                    }
                },
                Err(_) => {},
            }
        },
        ParameterKind::Interpolated(p) => {
            lemma_region_reads_what_is_held(p.metric, p.control_curves@, network, a, b);
            match curve_region(p.metric, p.control_curves@, network, a) {
                Ok((x, curves, at)) => {
                    if at + 1 < p.values.len() {
                        lemma_metric_reads_what_is_held(p.values[at], network, a, b, depth);
                        lemma_metric_reads_what_is_held(p.values[at + 1], network, a, b, depth);
                    }
                },
                Err(_) => {},
            }
        },
        ParameterKind::PiecewiseInterpolated(p) => {
            lemma_region_reads_what_is_held(p.metric, p.control_curves@, network, a, b);
        },
        _ => {},
    }
}

/// An index parameter gives the same number, and keeps the same, at two states
/// that hold the same.
pub proof fn lemma_index_parameter_reads_what_is_held(
    parameter: IndexParameterKind,
    timestep: Timestep,
    scenario_index: ScenarioIndex,
    network: Network,
    a: State,
    b: State,
    internal_state: Option<Internal>,
)
    requires
        alike(a, b),
    ensures
        parameter.value(timestep, scenario_index, network, a, internal_state) == parameter.value(
            timestep,
            scenario_index,
            network,
            b,
            internal_state,
        ),
{
    match parameter {
        IndexParameterKind::ControlCurveIndex(p) => {
            lemma_region_reads_what_is_held(p.metric, p.control_curves@, network, a, b);
        },
        _ => {},
    }
}

/// Computing one parameter at two states that hold the same gives the same,
/// and leaves two states that hold the same.
pub proof fn lemma_parameter_step_reads_what_is_held(
    network: Network,
    entry: ParameterType,
    timestep: Timestep,
    scenario_index: ScenarioIndex,
    a: State,
    b: State,
    after_a: State,
    after_b: State,
)
    requires
        alike(a, b),
        step_state(network, entry, timestep, scenario_index, a, after_a),
        step_state(network, entry, timestep, scenario_index, b, after_b),
    ensures
        step_outcome(network, entry, timestep, scenario_index, a) == step_outcome(
            network,
            entry,
            timestep,
            scenario_index,
            b,
        ),
        alike(after_a, after_b),
{
    reveal(step_outcome);
    reveal(step_state);
    match entry {
        ParameterType::Parameter(idx) => {
            if idx.0 < network.parameters.len() {
                lemma_parameter_reads_what_is_held(
                    network.parameters[idx.0 as int],
                    timestep,
                    scenario_index,
                    network,
                    a,
                    b,
                );
            }
        },
        ParameterType::Index(idx) => {
            if idx.0 < network.index_parameters.len() && idx.0
                < a.index_parameter_internal.len() {
                lemma_index_parameter_reads_what_is_held(
                    network.index_parameters[idx.0 as int],
                    timestep,
                    scenario_index,
                    network,
                    a,
                    b,
                    a.index_parameter_internal[idx.0 as int],
                );
            }
        },
        ParameterType::Multi(_) => {},
    }
}

/// The parameters are determined by what goes into them: computing the
/// parameters of the same order, over the same positions, from two states
/// that hold the same leads to two states that hold the same.
pub proof fn lemma_parameters_are_determined(
    network: Network,
    order: Seq<ParameterType>,
    from: int,
    timestep: Timestep,
    scenario_index: ScenarioIndex,
    first: Seq<State>,
    second: Seq<State>,
)
    requires
        is_trace(network, order, from, timestep, scenario_index, first),
        is_trace(network, order, from, timestep, scenario_index, second),
        first.len() == second.len(),
        first.len() > 0,
        alike(first[0], second[0]),
    ensures
        alike(first.last(), second.last()),
    decreases first.len(),
{
    if first.len() > 1 {
        let shorter_first = first.drop_last();
        let shorter_second = second.drop_last();
        assert forall|k: int| 0 <= k < shorter_first.len() - 1 implies #[trigger] linked(
            network,
            order,
            from,
            timestep,
            scenario_index,
            shorter_first,
            k,
        ) by {
            assert(linked(network, order, from, timestep, scenario_index, first, k));
        }
        assert forall|k: int| 0 <= k < shorter_second.len() - 1 implies #[trigger] linked(
            network,
            order,
            from,
            timestep,
            scenario_index,
            shorter_second,
            k,
        ) by {
            assert(linked(network, order, from, timestep, scenario_index, second, k));
        }
        lemma_parameters_are_determined(
            network,
            order,
            from,
            timestep,
            scenario_index,
            shorter_first,
            shorter_second,
        );
        let k = first.len() - 2;
        assert(linked(network, order, from, timestep, scenario_index, first, k));
        assert(linked(network, order, from, timestep, scenario_index, second, k));
        lemma_parameter_step_reads_what_is_held(
            network,
            order[from + k],
            timestep,
            scenario_index,
            first[k],
            second[k],
            first[k + 1],
            second[k + 1],
        );
    }
}

/// Whether two sets of bounds and costs hold the same.
pub open spec fn same_bounds(a: StepBounds, b: StepBounds) -> bool {
    &&& a.nodes@ == b.nodes@
    &&& a.virtual_storages@ == b.virtual_storages@
    &&& a.aggregated_nodes.len() == b.aggregated_nodes.len()
    &&& forall|i: int|
        #![trigger a.aggregated_nodes[i]]
        #![trigger b.aggregated_nodes[i]]
        0 <= i < a.aggregated_nodes.len() ==> a.aggregated_nodes[i].parts()
            == b.aggregated_nodes[i].parts()
}

/// The bounds and costs of every node, aggregated node and virtual storage
/// are read alike at two states that hold the same.
pub proof fn lemma_bounds_read_what_is_held(network: Network, a: State, b: State)
    requires
        alike(a, b),
    ensures
        forall|n: int|
            0 <= n < network.nodes.len() ==> node_bounds(#[trigger] network.nodes[n], network, a)
                == node_bounds(network.nodes[n], network, b),
        forall|i: int|
            0 <= i < network.aggregated_nodes.len() ==> aggregated_bounds(
                #[trigger] network.aggregated_nodes[i],
                network,
                a,
            ) == aggregated_bounds(network.aggregated_nodes[i], network, b),
        forall|v: int|
            0 <= v < network.virtual_storage_nodes.len() ==> virtual_storage_bounds(
                #[trigger] network.virtual_storage_nodes[v],
                network,
                a,
            ) == virtual_storage_bounds(network.virtual_storage_nodes[v], network, b),
{
    let depth = network.evaluation_depth();
    assert forall|n: int| 0 <= n < network.nodes.len() implies node_bounds(
        #[trigger] network.nodes[n],
        network,
        a,
    ) == node_bounds(network.nodes[n], network, b) by {
        let node = network.nodes[n];
        let name = node.name@;
        lemma_constraint_reads_what_is_held(node.min_flow, i64::MIN, name, network, a, b, depth);
        lemma_constraint_reads_what_is_held(node.max_flow, i64::MAX, name, network, a, b, depth);
        lemma_constraint_reads_what_is_held(node.cost, 0, name, network, a, b, depth);
        lemma_constraint_reads_what_is_held(node.min_volume, i64::MIN, name, network, a, b, depth);
        lemma_constraint_reads_what_is_held(node.max_volume, i64::MAX, name, network, a, b, depth);
    }
    assert forall|i: int| 0 <= i < network.aggregated_nodes.len() implies aggregated_bounds(
        #[trigger] network.aggregated_nodes[i],
        network,
        a,
    ) == aggregated_bounds(network.aggregated_nodes[i], network, b) by {
        let node = network.aggregated_nodes[i];
        let name = node.name@;
        lemma_constraint_reads_what_is_held(node.min_flow, i64::MIN, name, network, a, b, depth);
        lemma_constraint_reads_what_is_held(node.max_flow, i64::MAX, name, network, a, b, depth);
        match node.factors {
            Some(f) => {
                lemma_metrics_read_what_is_held(f.metrics(), network, a, b);
            },
            None => {},
        }
    }
    assert forall|v: int| 0 <= v < network.virtual_storage_nodes.len() implies
        virtual_storage_bounds(#[trigger] network.virtual_storage_nodes[v], network, a)
        == virtual_storage_bounds(network.virtual_storage_nodes[v], network, b) by {
        let node = network.virtual_storage_nodes[v];
        let name = node.name@;
        lemma_constraint_reads_what_is_held(node.min_volume, i64::MIN, name, network, a, b, depth);
        lemma_constraint_reads_what_is_held(node.max_volume, i64::MAX, name, network, a, b, depth);
        lemma_constraint_reads_what_is_held(node.cost, 0, name, network, a, b, depth);
    }
}

/// The bounds and costs of a step are determined by the state it starts from:
/// read at two states that hold the same, they are the same.
pub proof fn lemma_bounds_are_determined(
    network: Network,
    a: State,
    b: State,
    first: StepBounds,
    second: StepBounds,
)
    requires
        alike(a, b),
        first.of(network, a),
        second.of(network, b),
    ensures
        same_bounds(first, second),
{
    lemma_bounds_read_what_is_held(network, a, b);
    assert forall|n: int| 0 <= n < network.nodes.len() implies first.nodes[n]
        == second.nodes[n] by {
        let _ = network.nodes[n];
    }
    assert(first.nodes@ =~= second.nodes@);
    assert forall|v: int| 0 <= v < network.virtual_storage_nodes.len() implies
        first.virtual_storages[v] == second.virtual_storages[v] by {
        let _ = network.virtual_storage_nodes[v];
    }
    assert(first.virtual_storages@ =~= second.virtual_storages@);
    assert forall|i: int| 0 <= i < first.aggregated_nodes.len() implies
        first.aggregated_nodes[i].parts() == second.aggregated_nodes[i].parts() by {
        let _ = network.aggregated_nodes[i];
    }
}

/// Reading the bounds and costs of a step fails alike at two states that hold
/// the same: it fails at both or at neither, and with the same failure.
pub proof fn lemma_bounds_fail_alike(
    network: Network,
    a: State,
    b: State,
    first: Result<StepBounds, ErrorView>,
    second: Result<StepBounds, ErrorView>,
)
    requires
        alike(a, b),
        match first {
            Ok(bounds) => bounds.of(network, a),
            Err(e) => StepBounds::fails_with(network, a, e),
        },
        match second {
            Ok(bounds) => bounds.of(network, b),
            Err(e) => StepBounds::fails_with(network, b, e),
        },
    ensures
        first.is_ok() == second.is_ok(),
        first.is_err() ==> first->Err_0 == second->Err_0,
{
    lemma_bounds_read_what_is_held(network, a, b);
}

/// Whether flows meet the constraints depends on what the bounds are, not on
/// where they are kept.
pub proof fn lemma_accepted_reads_bounds(
    network: Network,
    a: StepBounds,
    b: StepBounds,
    state: NetworkState,
)
    requires
        same_bounds(a, b),
    ensures
        accepted(network, a, state) == accepted(network, b, state),
{
    assert forall|n: int| 0 <= n < a.nodes.len() implies a.nodes[n] == b.nodes[n] by {
        assert(a.nodes@[n] == b.nodes@[n]);
    }
}

/// The end of a step is determined by what goes into it: from two states that
/// hold the same, with bounds that hold the same and the same solution, it
/// succeeds or fails alike and leaves two states that hold the same.
pub proof fn lemma_step_end_is_determined(
    network: Network,
    bounds: (StepBounds, StepBounds),
    before: (State, State),
    timestep: Timestep,
    solution: Seq<Value>,
    first: (Result<(), PywrError>, State),
    second: (Result<(), PywrError>, State),
)
    requires
        same_bounds(bounds.0, bounds.1),
        alike(before.0, before.1),
        finished(network, bounds.0, before.0, timestep, solution, first.0, first.1),
        finished(network, bounds.1, before.1, timestep, solution, second.0, second.1),
    ensures
        outcome(first.0) == outcome(second.0),
        alike(first.1, second.1),
{
    let a = first.1.network_state;
    let b = second.1.network_state;
    assert(a.node_in_flows@ =~= b.node_in_flows@);
    assert(a.node_out_flows@ =~= b.node_out_flows@);
    lemma_accepted_reads_flows_by_view(network, bounds.0, a, b);
    lemma_accepted_reads_bounds(network, bounds.0, bounds.1, b);
    if first.0.is_ok() {
        let shown_a = NetworkState {
            node_volumes: before.0.network_state.node_volumes,
            virtual_storage_volumes: before.0.network_state.virtual_storage_volumes,
            ..a
        };
        let shown_b = NetworkState {
            node_volumes: before.1.network_state.node_volumes,
            virtual_storage_volumes: before.1.network_state.virtual_storage_volumes,
            ..b
        };
        assert(a.node_volumes@ =~= b.node_volumes@);
        assert forall|v: int|
            0 <= v < network.virtual_storage_nodes.len() implies drawn(
            network,
            shown_a,
            #[trigger] network.virtual_storage_nodes[v],
            timestep.days,
        ) == drawn(network, shown_b, network.virtual_storage_nodes[v], timestep.days) by {
            lemma_drawn_reads_flows_by_view(
                network,
                shown_a,
                shown_b,
                network.virtual_storage_nodes[v],
                timestep.days,
            );
        }
        assert(a.virtual_storage_volumes@ =~= b.virtual_storage_volumes@);
    } else {
        assert(a.node_volumes@ =~= b.node_volumes@);
        assert(a.virtual_storage_volumes@ =~= b.virtual_storage_volumes@);
    }
}

/// The linear program of a step is determined by what goes into it: made
/// from two states that hold the same, with bounds that hold the same, two
/// programs have the same columns, costs and rows.
pub proof fn lemma_program_is_determined(
    network: Network,
    bounds: (StepBounds, StepBounds),
    state: (State, State),
    timestep: Timestep,
    first: Lp,
    second: Lp,
)
    requires
        same_bounds(bounds.0, bounds.1),
        alike(state.0, state.1),
        first.describes(network, bounds.0, state.0, timestep),
        second.describes(network, bounds.1, state.1, timestep),
    ensures
        first.columns == second.columns,
        first.objective@ == second.objective@,
        first.kinds@ == second.kinds@,
        first.rows.len() == second.rows.len(),
        forall|r: int|
            0 <= r < first.rows.len() ==> {
                &&& (#[trigger] first.rows[r]).entries@ == second.rows[r].entries@
                &&& first.rows[r].lower == second.rows[r].lower
                &&& first.rows[r].upper == second.rows[r].upper
            },
{
    assert forall|n: int| 0 <= n < bounds.0.nodes.len() implies bounds.0.nodes[n]
        == bounds.1.nodes[n] by {
        assert(bounds.0.nodes@[n] == bounds.1.nodes@[n]);
    }
    assert forall|e: int| 0 <= e < network.edges.len() implies first.objective[e]
        == second.objective[e] by {
        assert(edge_cost(network, bounds.0, e) == edge_cost(network, bounds.1, e));
    }
    assert(first.objective@ =~= second.objective@);
    assert forall|r: int| 0 <= r < first.rows.len() implies {
        &&& (#[trigger] first.rows[r]).entries@ == second.rows[r].entries@
        &&& first.rows[r].lower == second.rows[r].lower
        &&& first.rows[r].upper == second.rows[r].upper
    } by {
        let kind = first.kinds[r];
        assert(second.kinds[r] == kind);
        let _ = second.rows[r];
        assert(row_of(network, bounds.0, state.0, timestep, kind) == row_of(
            network,
            bounds.1,
            state.1,
            timestep,
            kind,
        ));
    }
}

/// A step is determined by what goes into it. Let the parameters of an order
/// be computed from two states that hold the same, the bounds and costs be
/// read at the states that this leaves, and the step be ended with the same
/// solution: the two steps succeed or fail alike, and leave two states that
/// hold the same.
pub proof fn lemma_step_is_determined(
    network: Network,
    order: Seq<ParameterType>,
    timestep: Timestep,
    scenario_index: ScenarioIndex,
    computed: (Seq<State>, Seq<State>),
    bounds: (StepBounds, StepBounds),
    solution: Seq<Value>,
    first: (Result<(), PywrError>, State),
    second: (Result<(), PywrError>, State),
)
    requires
        is_trace(network, order, 0, timestep, scenario_index, computed.0),
        is_trace(network, order, 0, timestep, scenario_index, computed.1),
        computed.0.len() == order.len() + 1,
        computed.1.len() == order.len() + 1,
        alike(computed.0[0], computed.1[0]),
        bounds.0.of(network, computed.0.last()),
        bounds.1.of(network, computed.1.last()),
        finished(network, bounds.0, computed.0.last(), timestep, solution, first.0, first.1),
        finished(network, bounds.1, computed.1.last(), timestep, solution, second.0, second.1),
    ensures
        outcome(first.0) == outcome(second.0),
        alike(first.1, second.1),
{
    lemma_parameters_are_determined(
        network,
        order,
        0,
        timestep,
        scenario_index,
        computed.0,
        computed.1,
    );
    lemma_bounds_are_determined(
        network,
        computed.0.last(),
        computed.1.last(),
        bounds.0,
        bounds.1,
    );
    lemma_step_end_is_determined(
        network,
        bounds,
        (computed.0.last(), computed.1.last()),
        timestep,
        solution,
        first,
        second,
    );
}

} // verus!
