//! What holds of every state that the end of a step leaves behind.

use vstd::prelude::*;
use crate::network::Network;
use crate::node::NodeKind;
use crate::run::{drawdown, drawn, factor_of, finished, integrated};
use crate::solvers::bounds::StepBounds;
use crate::solvers::feasibility::{member_flow, proportional, through, TOLERANCE};
use crate::state::{lemma_node_totals_nonnegative, NetworkState, State};
use crate::timestep::Timestep;
use crate::value::{clamp, product, Value};
use crate::virtual_storage::{VirtualStorage, VirtualStorageReset};

verus! {

/// Mass is conserved: after a step that succeeds, what flows into a link and
/// what flows out of it differ by no more than a millionth.
pub proof fn lemma_mass_conservation(
    network: Network,
    bounds: StepBounds,
    before: State,
    timestep: Timestep,
    solution: Seq<Value>,
    after: State,
    node: int,
)
    requires
        finished(network, bounds, before, timestep, solution, Ok(()), after),
        0 <= node < network.nodes.len(),
        network.nodes[node].kind == NodeKind::Link,
    ensures
        -TOLERANCE <= after.network_state.node_in_flows[node]
            - after.network_state.node_out_flows[node] <= TOLERANCE,
{
}

/// No flow is negative: after a step that succeeds, every edge carries a flow
/// of at least zero.
pub proof fn lemma_flows_nonnegative(
    network: Network,
    bounds: StepBounds,
    before: State,
    timestep: Timestep,
    solution: Seq<Value>,
    after: State,
    edge: int,
)
    requires
        finished(network, bounds, before, timestep, solution, Ok(()), after),
        0 <= edge < network.edges.len(),
    ensures
        after.network_state.edge_flows[edge] >= 0,
{
}

/// Bounds are respected: after a step that succeeds, the flow through a node
/// that stores nothing lies between its least and its greatest flow at the
/// bounds of the step, give or take a millionth.
pub proof fn lemma_bounds_respected(
    network: Network,
    bounds: StepBounds,
    before: State,
    timestep: Timestep,
    solution: Seq<Value>,
    after: State,
    node: int,
)
    requires
        finished(network, bounds, before, timestep, solution, Ok(()), after),
        0 <= node < network.nodes.len(),
        network.nodes[node].kind != NodeKind::Storage,
    ensures
        bounds.nodes[node].min_flow - TOLERANCE <= through(
            network.nodes[node].kind,
            after.network_state.node_in_flows[node],
            after.network_state.node_out_flows[node],
        ) <= bounds.nodes[node].max_flow + TOLERANCE,
{
}

/// Storage follows its recurrence: after a step that succeeds, the volume of a
/// storage is its volume before plus what flowed in less what flowed out, for
/// each day of the step, and exactly so where that is an amount that can be
/// held.
pub proof fn lemma_storage_recurrence(
    network: Network,
    bounds: StepBounds,
    before: State,
    timestep: Timestep,
    solution: Seq<Value>,
    after: State,
    node: int,
)
    requires
        finished(network, bounds, before, timestep, solution, Ok(()), after),
        0 <= node < network.nodes.len(),
        node < before.network_state.node_volumes.len(),
        network.nodes[node].kind == NodeKind::Storage,
    ensures
        after.network_state.node_volumes[node] == integrated(
            before.network_state.node_volumes[node],
            after.network_state.node_in_flows[node],
            after.network_state.node_out_flows[node],
            timestep.days,
        ),
        ({
            let exact = before.network_state.node_volumes[node] + (
            after.network_state.node_in_flows[node] - after.network_state.node_out_flows[node])
                * timestep.days;
            i64::MIN <= exact <= i64::MAX ==> after.network_state.node_volumes[node] == exact
        }),
{
}

/// Factors are kept: after a step that succeeds, the flows through any two
/// members of an aggregated node with factors stand to each other as their
/// factors do, to within a millionth of the greater flow, and of one where both
/// flows are smaller than one.
pub proof fn lemma_factor_ratios(
    network: Network,
    bounds: StepBounds,
    before: State,
    timestep: Timestep,
    solution: Seq<Value>,
    after: State,
    aggregated_node: int,
    i: int,
    j: int,
)
    requires
        finished(network, bounds, before, timestep, solution, Ok(()), after),
        0 <= aggregated_node < network.aggregated_nodes.len(),
        bounds.aggregated_nodes[aggregated_node].factors.is_some(),
        0 <= i < j < network.aggregated_nodes[aggregated_node].nodes.len(),
        j < bounds.aggregated_nodes[aggregated_node].factors.unwrap().len(),
    ensures
        proportional(
            member_flow(
                network,
                after.network_state,
                network.aggregated_nodes[aggregated_node].nodes[i],
            ),
            bounds.aggregated_nodes[aggregated_node].factors.unwrap()[i],
            member_flow(
                network,
                after.network_state,
                network.aggregated_nodes[aggregated_node].nodes[j],
            ),
            bounds.aggregated_nodes[aggregated_node].factors.unwrap()[j],
        ),
{
    let members = network.aggregated_nodes[aggregated_node].nodes@;
    let factors = bounds.aggregated_nodes[aggregated_node].factors.unwrap()@;
    assert(crate::solvers::feasibility::set_in_proportion(
        network,
        after.network_state,
        members,
        factors,
    ));
    assert(members[i] == network.aggregated_nodes[aggregated_node].nodes[i]);
    assert(members[j] == network.aggregated_nodes[aggregated_node].nodes[j]);
}

/// Whether no factor of a virtual storage is negative.
pub open spec fn factors_nonnegative(node: VirtualStorage) -> bool {
    match node.factors {
        Some(f) => forall|i: int| 0 <= i < f.len() ==> f[i] >= 0,
        None => true,
    }
}

/// A virtual storage that never resets and has no negative factor never
/// rises: after a step that succeeds its volume is no greater than before.
pub proof fn lemma_virtual_storage_never_rises(
    network: Network,
    bounds: StepBounds,
    before: State,
    timestep: Timestep,
    solution: Seq<Value>,
    after: State,
    virtual_storage: int,
)
    requires
        finished(network, bounds, before, timestep, solution, Ok(()), after),
        0 <= virtual_storage < network.virtual_storage_nodes.len(),
        virtual_storage < before.network_state.virtual_storage_volumes.len(),
        network.virtual_storage_nodes[virtual_storage].reset == VirtualStorageReset::Never,
        factors_nonnegative(network.virtual_storage_nodes[virtual_storage]),
    ensures
        after.network_state.virtual_storage_volumes[virtual_storage]
            <= before.network_state.virtual_storage_volumes[virtual_storage],
{
    let flows = after.network_state;
    let committed = NetworkState {
        node_volumes: before.network_state.node_volumes,
        virtual_storage_volumes: before.network_state.virtual_storage_volumes,
        ..flows
    };
    let node = network.virtual_storage_nodes[virtual_storage];
    assert forall|n: int| 0 <= n < network.nodes.len() implies flows.node_in_flows[n] >= 0
        && flows.node_out_flows[n] >= 0 by {
        lemma_node_totals_nonnegative(network.edges@, flows.edge_flows@, n);
    }
    lemma_drawdown_nonnegative(network, committed, node, node.nodes.len() as int);
    assert(clamp(drawdown(network, committed, node, node.nodes.len() as int)) * timestep.days >= 0)
        by (nonlinear_arith)
        requires
            clamp(drawdown(network, committed, node, node.nodes.len() as int)) >= 0,
            timestep.days >= 0,
    ;
    if virtual_storage < bounds.virtual_storages.len() {
        assert(flows.virtual_storage_volumes[virtual_storage] == crate::run::next_virtual_volume(
            network,
            committed,
            node,
            bounds.virtual_storages[virtual_storage].max_volume,
            timestep,
            committed.virtual_storage_volumes[virtual_storage],
        ));
    }
}

/// Where no flow through a node is negative and no factor is, nothing negative
/// is drawn from a virtual storage.
pub proof fn lemma_drawdown_nonnegative(
    network: Network,
    state: NetworkState,
    node: VirtualStorage,
    upto: int,
)
    requires
        factors_nonnegative(node),
        state.node_in_flows.len() == network.nodes.len(),
        state.node_out_flows.len() == network.nodes.len(),
        forall|n: int|
            0 <= n < network.nodes.len() ==> state.node_in_flows[n] >= 0
                && state.node_out_flows[n] >= 0,
        upto <= node.nodes.len(),
    ensures
        drawdown(network, state, node, upto) >= 0,
    decreases upto,
{
    if upto > 0 {
        lemma_drawdown_nonnegative(network, state, node, upto - 1);
        let factor = factor_of(node, upto - 1);
        let flow = member_flow(network, state, node.nodes[upto - 1]);
        assert(factor >= 0);
        assert(flow >= 0);
        assert(factor * flow >= 0) by (nonlinear_arith)
            requires
                factor >= 0,
                flow >= 0,
        ;
        assert((factor * flow) / 1_000_000_000 >= 0) by (nonlinear_arith)
            requires
                factor * flow >= 0,
        ;
        assert(product(factor as int, flow as int) >= 0);
    }
}

} // verus!
