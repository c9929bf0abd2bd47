//! The end of a step: the flows of a solution are taken into the state, held
//! against the constraints, and carried into the volumes.

use vstd::prelude::*;
use crate::error::{ErrorView, PywrError};
use crate::metric::constraint_value;
use crate::network::Network;
use crate::parameters::Internal;
use crate::node::{NodeKind, StorageInitialVolume};
use crate::solvers::bounds::StepBounds;
use crate::solvers::feasibility::{accepted, check_flows, member_flow};
use crate::state::{flows_summed, NetworkState, State};
use crate::timestep::Timestep;
use crate::value::{clamp, minus, narrow, product, times, Value, UNIT};
use crate::virtual_storage::VirtualStorage;

verus! {

/// The volume that a storage starts with: the absolute volume, or the
/// proportional volume as a share of the greatest volume.
pub open spec fn initial_volume_of(initial: StorageInitialVolume, max_volume: Value) -> Value {
    match initial {
        StorageInitialVolume::Absolute(v) => v,
        StorageInitialVolume::Proportional(p) => product(p as int, max_volume as int) as i64,
    }
}

/// The volume that a storage starts with.
pub fn starting_volume(initial: StorageInitialVolume, max_volume: Value) -> (r: Value)
    ensures
        r == initial_volume_of(initial, max_volume),
{
    match initial {
        StorageInitialVolume::Absolute(v) => v,
        StorageInitialVolume::Proportional(p) => times(p, max_volume),
    }
}

/// The volume of a storage after a step of `days` days: the volume before,
/// plus what flowed in less what flowed out, for each day.
pub open spec fn integrated(volume: Value, in_flow: Value, out_flow: Value, days: u32) -> Value {
    clamp(volume + (in_flow - out_flow) * days) as i64
}

/// Whether the volumes of `after` are those of `before` carried over a step:
/// every storage has taken in what flowed into it less what flowed out of it,
/// and every other volume is as it was.
pub open spec fn volumes_integrated(
    network: Network,
    before: NetworkState,
    after: NetworkState,
    timestep: Timestep,
) -> bool {
    &&& after.node_volumes.len() == before.node_volumes.len()
    &&& forall|n: int|
        0 <= n < before.node_volumes.len() ==> #[trigger] after.node_volumes[n] == if n
            < network.nodes.len() && network.nodes[n].kind == NodeKind::Storage && n
            < before.node_in_flows.len() && n < before.node_out_flows.len() {
            integrated(
                before.node_volumes[n],
                before.node_in_flows[n],
                before.node_out_flows[n],
                timestep.days,
            )
        } else {
            before.node_volumes[n]
        }
}

/// Carries the flows of a step into the volumes of the storages.
pub fn integrate_storage(network: &Network, state: &mut NetworkState, timestep: &Timestep)
    ensures
        volumes_integrated(*network, *old(state), *final(state), *timestep),
        final(state).node_in_flows == old(state).node_in_flows,
        final(state).node_out_flows == old(state).node_out_flows,
        final(state).edge_flows == old(state).edge_flows,
        final(state).virtual_storage_volumes == old(state).virtual_storage_volumes,
{
    let mut n: usize = 0;
    while n < state.node_volumes.len()
        invariant
            n <= state.node_volumes.len(),
            state.node_volumes.len() == old(state).node_volumes.len(),
            state.node_in_flows == old(state).node_in_flows,
            state.node_out_flows == old(state).node_out_flows,
            state.edge_flows == old(state).edge_flows,
            state.virtual_storage_volumes == old(state).virtual_storage_volumes,
            forall|k: int|
                n <= k < state.node_volumes.len()
                    ==> #[trigger] state.node_volumes[k] == old(state).node_volumes[k],
            forall|k: int|
                0 <= k < n ==> #[trigger] state.node_volumes[k] == if k < network.nodes.len()
                    && network.nodes[k].kind == NodeKind::Storage
                    && k < old(state).node_in_flows.len() && k < old(state).node_out_flows.len() {
                    integrated(
                        old(state).node_volumes[k],
                        old(state).node_in_flows[k],
                        old(state).node_out_flows[k],
                        timestep.days,
                    )
                } else {
                    old(state).node_volumes[k]
                },
        decreases state.node_volumes.len() - n,
    {
        if n < network.nodes.len() && network.nodes[n].kind == NodeKind::Storage && n
            < state.node_in_flows.len() && n < state.node_out_flows.len() {
            let net: i128 = state.node_in_flows[n] as i128 - state.node_out_flows[n] as i128;
            let days: i128 = timestep.days as i128;
            assert(-0x1_0000_0000_0000_0000_0000_0000 <= net * days
                <= 0x1_0000_0000_0000_0000_0000_0000) by (nonlinear_arith)
                requires
                    -0x1_0000_0000_0000_0000 <= net <= 0x1_0000_0000_0000_0000,
                    0 <= days <= 0xffff_ffff,
            ;
            let volume = narrow(state.node_volumes[n] as i128 + net * days);
            state.node_volumes.set(n, volume);
        }
        n += 1;
    }
}

/// The factor of the node at a position of a virtual storage: its own, or one
/// where the virtual storage has no factor for it.
pub open spec fn factor_of(node: VirtualStorage, position: int) -> Value {
    match node.factors {
        Some(f) => if 0 <= position < f.len() {
            f[position]
        } else {
            UNIT
        },
        None => UNIT,
    }
}

/// What the first `upto` nodes of a virtual storage draw from it in a day: the
/// exact sum of the fixed-point products of each factor with the flow through
/// its node.
pub open spec fn drawdown(
    network: Network,
    state: NetworkState,
    node: VirtualStorage,
    upto: int,
) -> int
    decreases upto,
{
    if upto <= 0 {
        0
    } else {
        drawdown(network, state, node, upto - 1) + product(
            factor_of(node, upto - 1) as int,
            member_flow(network, state, node.nodes[upto - 1]) as int,
        )
    }
}

/// What the nodes of a virtual storage draw from it in a step of `days` days.
pub open spec fn drawn(
    network: Network,
    state: NetworkState,
    node: VirtualStorage,
    days: u32,
) -> Value {
    clamp(clamp(drawdown(network, state, node, node.nodes.len() as int)) * days) as i64
}

/// The volume of a virtual storage after a step. Where the step is one at
/// which the virtual storage resets, it starts the step with its initial
/// volume, else with the volume it has; what its nodes draw in the step is
/// taken from that.
pub open spec fn next_virtual_volume(
    network: Network,
    state: NetworkState,
    node: VirtualStorage,
    max_volume: Value,
    timestep: Timestep,
    volume: Value,
) -> Value {
    let start = if node.reset.triggers(timestep) {
        initial_volume_of(node.initial_volume, max_volume)
    } else {
        volume
    };
    clamp(start - drawn(network, state, node, timestep.days)) as i64
}

/// Whether the volumes of the virtual storages of `after` are those of
/// `before` after a step. A volume without a virtual storage or without bounds
/// is as it was.
pub open spec fn virtual_volumes_updated(
    network: Network,
    bounds: StepBounds,
    before: NetworkState,
    after: NetworkState,
    timestep: Timestep,
) -> bool {
    &&& after.virtual_storage_volumes.len() == before.virtual_storage_volumes.len()
    &&& forall|v: int|
        0 <= v < before.virtual_storage_volumes.len()
            ==> #[trigger] after.virtual_storage_volumes[v]
            == if v < network.virtual_storage_nodes.len() && v < bounds.virtual_storages.len() {
            next_virtual_volume(
                network,
                before,
                network.virtual_storage_nodes[v],
                bounds.virtual_storages[v].max_volume,
                timestep,
                before.virtual_storage_volumes[v],
            )
        } else {
            before.virtual_storage_volumes[v]
        }
}

/// What the nodes of a virtual storage draw from it in a step.
fn draw(network: &Network, state: &NetworkState, node: &VirtualStorage, days: u32) -> (r: Value)
    ensures
        r == drawn(*network, *state, *node, days),
{
    let mut acc: i128 = 0;
    let mut i: usize = 0;
    while i < node.nodes.len()
        invariant
            i <= node.nodes.len(),
            acc == drawdown(*network, *state, *node, i as int),
            -(i * 0x8000_0000_0000_0000) <= acc <= i * 0x7fff_ffff_ffff_ffff,
        decreases node.nodes.len() - i,
    {
        let factor: Value = match &node.factors {
            Some(f) => if i < f.len() {
                f[i]
            } else {
                UNIT
            },
            None => UNIT,
        };
        let idx = node.nodes[i];
        let flow: Value = if idx.0 < network.nodes.len() && idx.0 < state.node_in_flows.len()
            && idx.0 < state.node_out_flows.len() {
            if network.nodes[idx.0].kind == NodeKind::Input {
                state.node_out_flows[idx.0]
            } else {
                state.node_in_flows[idx.0]
            }
        } else {
            0
        };
        acc = acc + times(factor, flow) as i128;
        i += 1;
    }
    let per_day: i128 = narrow(acc) as i128;
    let days_wide: i128 = days as i128;
    assert(-0x8000_0000_0000_0000_0000_0000 <= per_day * days_wide
        <= 0x8000_0000_0000_0000_0000_0000) by (nonlinear_arith)
        requires
            -0x8000_0000_0000_0000 <= per_day <= 0x7fff_ffff_ffff_ffff,
            0 <= days_wide <= 0xffff_ffff,
    ;
    narrow(per_day * days_wide)
}

/// Carries the flows of a step into the volumes of the virtual storages.
pub fn update_virtual_storages(
    network: &Network,
    bounds: &StepBounds,
    state: &mut NetworkState,
    timestep: &Timestep,
)
    ensures
        virtual_volumes_updated(*network, *bounds, *old(state), *final(state), *timestep),
        final(state).node_in_flows == old(state).node_in_flows,
        final(state).node_out_flows == old(state).node_out_flows,
        final(state).edge_flows == old(state).edge_flows,
        final(state).node_volumes == old(state).node_volumes,
{
    let mut v: usize = 0;
    while v < state.virtual_storage_volumes.len()
        invariant
            v <= state.virtual_storage_volumes.len(),
            state.virtual_storage_volumes.len() == old(state).virtual_storage_volumes.len(),
            state.node_in_flows == old(state).node_in_flows,
            state.node_out_flows == old(state).node_out_flows,
            state.edge_flows == old(state).edge_flows,
            state.node_volumes == old(state).node_volumes,
            forall|k: int|
                v <= k < state.virtual_storage_volumes.len()
                    ==> #[trigger] state.virtual_storage_volumes[k]
                    == old(state).virtual_storage_volumes[k],
            forall|k: int|
                0 <= k < v ==> #[trigger] state.virtual_storage_volumes[k] == if k
                    < network.virtual_storage_nodes.len() && k < bounds.virtual_storages.len() {
                    next_virtual_volume(
                        *network,
                        *old(state),
                        network.virtual_storage_nodes[k],
                        bounds.virtual_storages[k].max_volume,
                        *timestep,
                        old(state).virtual_storage_volumes[k],
                    )
                } else {
                    old(state).virtual_storage_volumes[k]
                },
        decreases state.virtual_storage_volumes.len() - v,
    {
        if v < network.virtual_storage_nodes.len() && v < bounds.virtual_storages.len() {
            let node = &network.virtual_storage_nodes[v];
            let start = if node.reset.is_due(timestep) {
                starting_volume(node.initial_volume, bounds.virtual_storages[v].max_volume)
            } else {
                state.virtual_storage_volumes[v]
            };
            proof {
                lemma_drawn_reads_flows(*network, *state, *old(state), *node, timestep.days);
            }
            let taken = draw(network, state, node, timestep.days);
            state.virtual_storage_volumes.set(v, minus(start, taken));
        }
        v += 1;
    }
}

/// What is drawn from a virtual storage depends on the flows of the nodes
/// alone.
pub proof fn lemma_drawn_reads_flows(
    network: Network,
    a: NetworkState,
    b: NetworkState,
    node: VirtualStorage,
    days: u32,
)
    requires
        a.node_in_flows == b.node_in_flows,
        a.node_out_flows == b.node_out_flows,
    ensures
        drawn(network, a, node, days) == drawn(network, b, node, days),
{
    lemma_drawdown_reads_flows(network, a, b, node, node.nodes.len() as int);
}

/// What is drawn from a virtual storage in a day depends on the flows of the
/// nodes alone.
pub proof fn lemma_drawdown_reads_flows(
    network: Network,
    a: NetworkState,
    b: NetworkState,
    node: VirtualStorage,
    upto: int,
)
    requires
        a.node_in_flows == b.node_in_flows,
        a.node_out_flows == b.node_out_flows,
    ensures
        drawdown(network, a, node, upto) == drawdown(network, b, node, upto),
    decreases upto,
{
    if upto > 0 {
        lemma_drawdown_reads_flows(network, a, b, node, upto - 1);
    }
}

/// What the end of a step does to a state.
///
/// The flows on the edges become those of the solution, and the flows into and
/// out of each node the sums over its edges. The step succeeds exactly where
/// these flows meet the constraints of the network at the bounds of the step;
/// then the volumes of the storages and of the virtual storages are carried
/// over the step. Where the flows do not meet the constraints the step fails as
/// a failure of the solver and the volumes stay as they are. What the
/// parameters gave stays as it is.
pub open spec fn finished(
    network: Network,
    bounds: StepBounds,
    before: State,
    timestep: Timestep,
    solution: Seq<Value>,
    r: Result<(), PywrError>,
    after: State,
) -> bool {
    let flows = after.network_state;
    let committed = NetworkState {
        node_volumes: before.network_state.node_volumes,
        virtual_storage_volumes: before.network_state.virtual_storage_volumes,
        ..flows
    };
    &&& after.parameter_values == before.parameter_values
    &&& after.index_parameter_values == before.index_parameter_values
    &&& after.multi_parameter_values == before.multi_parameter_values
    &&& after.index_parameter_internal == before.index_parameter_internal
    &&& flows.edge_flows@ == solution
    &&& flows_summed(network.edges@, network.nodes.len() as nat, flows)
    &&& r.is_ok() == accepted(network, bounds, flows)
    &&& match r {
        Ok(()) => volumes_integrated(network, committed, flows, timestep)
            && virtual_volumes_updated(network, bounds, committed, flows, timestep),
        Err(e) => e@ == ErrorView::SolverBackendError(REJECTED@) && flows.node_volumes
            == before.network_state.node_volumes && flows.virtual_storage_volumes
            == before.network_state.virtual_storage_volumes,
    }
}

/// What the failure says where the flows of a solution do not meet the
/// constraints.
pub const REJECTED: &'static str = "the flows of the solution do not meet the constraints";

/// Ends a step with the flows that the solver found.
pub fn finish_step(
    network: &Network,
    bounds: &StepBounds,
    state: &mut State,
    timestep: &Timestep,
    solution: &[Value],
) -> (r: Result<(), PywrError>)
    ensures
        finished(*network, *bounds, *old(state), *timestep, solution@, r, *final(state)),
{
    state.network_state.commit_lp_result(&network.edges, network.nodes.len(), solution);
    let ghost committed = state.network_state;
    if !check_flows(network, bounds, &state.network_state) {
        return Err(PywrError::SolverBackendError(REJECTED.to_string()));
    }
    integrate_storage(network, &mut state.network_state, timestep);
    let ghost mid = state.network_state;
    update_virtual_storages(network, bounds, &mut state.network_state, timestep);
    proof {
        let flows = state.network_state;
        lemma_accepted_reads_flows(*network, *bounds, committed, flows);
        assert forall|v: int|
            0 <= v < network.virtual_storage_nodes.len() implies drawn(
            *network,
            mid,
            #[trigger] network.virtual_storage_nodes[v],
            timestep.days,
        ) == drawn(*network, committed, network.virtual_storage_nodes[v], timestep.days) by {
            lemma_drawn_reads_flows(
                *network,
                mid,
                committed,
                network.virtual_storage_nodes[v],
                timestep.days,
            );
        }
        assert(virtual_volumes_updated(*network, *bounds, mid, flows, *timestep));
        assert(virtual_volumes_updated(*network, *bounds, committed, flows, *timestep));
        assert(volumes_integrated(*network, committed, flows, *timestep));
        let shown = NetworkState {
            node_volumes: old(state).network_state.node_volumes,
            virtual_storage_volumes: old(state).network_state.virtual_storage_volumes,
            ..flows
        };
        assert(shown.node_in_flows == committed.node_in_flows);
        assert(shown == committed);
    }
    Ok(())
}

/// Whether flows meet the constraints depends on the flows alone, not on the
/// volumes.
pub proof fn lemma_accepted_reads_flows(
    network: Network,
    bounds: StepBounds,
    a: NetworkState,
    b: NetworkState,
)
    requires
        a.edge_flows == b.edge_flows,
        a.node_in_flows == b.node_in_flows,
        a.node_out_flows == b.node_out_flows,
    ensures
        accepted(network, bounds, a) == accepted(network, bounds, b),
{
    assert forall|members: Seq<crate::node::NodeIndex>|
        crate::solvers::feasibility::members_flow(network, a, members)
            == crate::solvers::feasibility::members_flow(network, b, members) by {
        lemma_members_flow_reads_flows(network, a, b, members);
    }
}

/// Whether flows meet the constraints depends on what the flows are, not on
/// where they are kept.
pub proof fn lemma_accepted_reads_flows_by_view(
    network: Network,
    bounds: StepBounds,
    a: NetworkState,
    b: NetworkState,
)
    requires
        a.edge_flows@ == b.edge_flows@,
        a.node_in_flows@ == b.node_in_flows@,
        a.node_out_flows@ == b.node_out_flows@,
    ensures
        accepted(network, bounds, a) == accepted(network, bounds, b),
{
    assert forall|members: Seq<crate::node::NodeIndex>|
        crate::solvers::feasibility::members_flow(network, a, members)
            == crate::solvers::feasibility::members_flow(network, b, members) by {
        lemma_members_flow_by_view(network, a, b, members);
    }
    assert(forall|idx: crate::node::NodeIndex|
        member_flow(network, a, idx) == member_flow(network, b, idx));
}

/// The flow through the members of a set depends on what the flows of the
/// nodes are.
pub proof fn lemma_members_flow_by_view(
    network: Network,
    a: NetworkState,
    b: NetworkState,
    members: Seq<crate::node::NodeIndex>,
)
    requires
        a.node_in_flows@ == b.node_in_flows@,
        a.node_out_flows@ == b.node_out_flows@,
    ensures
        crate::solvers::feasibility::members_flow(network, a, members)
            == crate::solvers::feasibility::members_flow(network, b, members),
    decreases members.len(),
{
    if members.len() > 0 {
        lemma_members_flow_by_view(network, a, b, members.drop_last());
    }
}

/// What is drawn from a virtual storage depends on what the flows of the nodes
/// are.
pub proof fn lemma_drawn_reads_flows_by_view(
    network: Network,
    a: NetworkState,
    b: NetworkState,
    node: VirtualStorage,
    days: u32,
)
    requires
        a.node_in_flows@ == b.node_in_flows@,
        a.node_out_flows@ == b.node_out_flows@,
    ensures
        drawn(network, a, node, days) == drawn(network, b, node, days),
{
    lemma_drawdown_by_view(network, a, b, node, node.nodes.len() as int);
}

/// What is drawn from a virtual storage in a day depends on what the flows of
/// the nodes are.
pub proof fn lemma_drawdown_by_view(
    network: Network,
    a: NetworkState,
    b: NetworkState,
    node: VirtualStorage,
    upto: int,
)
    requires
        a.node_in_flows@ == b.node_in_flows@,
        a.node_out_flows@ == b.node_out_flows@,
    ensures
        drawdown(network, a, node, upto) == drawdown(network, b, node, upto),
    decreases upto,
{
    if upto > 0 {
        lemma_drawdown_by_view(network, a, b, node, upto - 1);
    }
}

/// The flow through the members of a set depends on the flows of the nodes
/// alone.
pub proof fn lemma_members_flow_reads_flows(
    network: Network,
    a: NetworkState,
    b: NetworkState,
    members: Seq<crate::node::NodeIndex>,
)
    requires
        a.node_in_flows == b.node_in_flows,
        a.node_out_flows == b.node_out_flows,
    ensures
        crate::solvers::feasibility::members_flow(network, a, members)
            == crate::solvers::feasibility::members_flow(network, b, members),
    decreases members.len(),
{
    if members.len() > 0 {
        lemma_members_flow_reads_flows(network, a, b, members.drop_last());
    }
}

/// The volume that a storage starts a run with, or the failure to read its
/// greatest volume where the initial volume is a share of that. The greatest
/// volume is read at the state that the run starts from.
pub open spec fn first_volume(
    initial: StorageInitialVolume,
    max_volume: crate::node::ConstraintValue,
    owner: Seq<char>,
    network: Network,
    state: State,
) -> Result<Value, ErrorView> {
    match initial {
        StorageInitialVolume::Absolute(v) => Ok(v),
        StorageInitialVolume::Proportional(p) => match constraint_value(
            max_volume,
            i64::MAX,
            owner,
            network,
            state,
            network.evaluation_depth(),
        ) {
            Ok(max) => Ok(product(p as int, max as int) as i64),
            Err(e) => Err(e),
        },
    }
}

/// What the start of a run makes of a state: every storage and every virtual
/// storage has the volume that it starts with, and every index parameter keeps
/// what it keeps at the start. A volume or a parameter that the network does
/// not hold, and all else, is as it was.
pub open spec fn initialised(network: Network, before: State, after: State) -> bool {
    &&& after.parameter_values == before.parameter_values
    &&& after.index_parameter_values == before.index_parameter_values
    &&& after.multi_parameter_values == before.multi_parameter_values
    &&& after.network_state.node_in_flows == before.network_state.node_in_flows
    &&& after.network_state.node_out_flows == before.network_state.node_out_flows
    &&& after.network_state.edge_flows == before.network_state.edge_flows
    &&& after.network_state.node_volumes.len() == before.network_state.node_volumes.len()
    &&& forall|n: int|
        0 <= n < before.network_state.node_volumes.len()
            ==> if n < network.nodes.len() && network.nodes[n].initial_volume.is_some() {
            first_volume(
                network.nodes[n].initial_volume.unwrap(),
                network.nodes[n].max_volume,
                network.nodes[n].name@,
                network,
                before,
            ) == Ok::<Value, ErrorView>(#[trigger] after.network_state.node_volumes[n])
        } else {
            after.network_state.node_volumes[n] == before.network_state.node_volumes[n]
        }
    &&& after.network_state.virtual_storage_volumes.len()
        == before.network_state.virtual_storage_volumes.len()
    &&& forall|v: int|
        0 <= v < before.network_state.virtual_storage_volumes.len() ==> if v
            < network.virtual_storage_nodes.len() {
            first_volume(
                network.virtual_storage_nodes[v].initial_volume,
                network.virtual_storage_nodes[v].max_volume,
                network.virtual_storage_nodes[v].name@,
                network,
                before,
            ) == Ok::<Value, ErrorView>(#[trigger] after.network_state.virtual_storage_volumes[v])
        } else {
            after.network_state.virtual_storage_volumes[v]
                == before.network_state.virtual_storage_volumes[v]
        }
    &&& after.index_parameter_internal.len() == before.index_parameter_internal.len()
    &&& forall|i: int|
        0 <= i < before.index_parameter_internal.len()
            ==> #[trigger] after.index_parameter_internal[i] == if i
            < network.index_parameters.len() {
            network.index_parameters[i].initial()
        } else {
            before.index_parameter_internal[i]
        }
}

/// Whether the volumes that the first `upto` storages start a run with can be
/// read.
pub open spec fn storages_start(network: Network, before: State, upto: int) -> bool {
    forall|k: int|
        0 <= k < upto && k < network.nodes.len() && k < before.network_state.node_volumes.len() && (
        #[trigger] network.nodes[k]).initial_volume.is_some() ==> first_volume(
            network.nodes[k].initial_volume.unwrap(),
            network.nodes[k].max_volume,
            network.nodes[k].name@,
            network,
            before,
        ).is_ok()
}

/// Whether the volumes that the first `upto` virtual storages start a run with
/// can be read.
pub open spec fn virtual_storages_start(network: Network, before: State, upto: int) -> bool {
    forall|k: int|
        0 <= k < upto && k < network.virtual_storage_nodes.len() && k
            < before.network_state.virtual_storage_volumes.len() ==> first_volume(
            (#[trigger] network.virtual_storage_nodes[k]).initial_volume,
            network.virtual_storage_nodes[k].max_volume,
            network.virtual_storage_nodes[k].name@,
            network,
            before,
        ).is_ok()
}

/// Whether this is the first failure of the start of a run: the greatest
/// volume of a storage or a virtual storage whose initial volume is a share of
/// it cannot be read. The storages come before the virtual storages, each in
/// the order of their handles.
pub open spec fn start_fails_with(network: Network, before: State, e: ErrorView) -> bool {
    ||| exists|n: int|
        0 <= n < network.nodes.len() && n < before.network_state.node_volumes.len()
            && storages_start(network, before, n) && (
        #[trigger] network.nodes[n]).initial_volume.is_some() && first_volume(
            network.nodes[n].initial_volume.unwrap(),
            network.nodes[n].max_volume,
            network.nodes[n].name@,
            network,
            before,
        ) == Err::<Value, ErrorView>(e)
    ||| storages_start(network, before, network.nodes.len() as int) && exists|v: int|
        0 <= v < network.virtual_storage_nodes.len() && v
            < before.network_state.virtual_storage_volumes.len() && virtual_storages_start(
            network,
            before,
            v,
        ) && first_volume(
            (#[trigger] network.virtual_storage_nodes[v]).initial_volume,
            network.virtual_storage_nodes[v].max_volume,
            network.virtual_storage_nodes[v].name@,
            network,
            before,
        ) == Err::<Value, ErrorView>(e)
}

/// The volume that a storage starts a run with.
fn read_first_volume(
    initial: StorageInitialVolume,
    max_volume: &crate::node::ConstraintValue,
    owner: &String,
    network: &Network,
    state: &State,
) -> (r: Result<Value, PywrError>)
    ensures
        crate::error::outcome(r) == first_volume(initial, *max_volume, owner@, *network, *state),
{
    match initial {
        StorageInitialVolume::Absolute(v) => Ok(v),
        StorageInitialVolume::Proportional(p) => {
            match crate::metric::current_constraint(max_volume, i64::MAX, owner, network, state) {
                Ok(max) => Ok(times(p, max)),
                Err(e) => Err(e),
            }
        },
    }
}

/// Makes a state the one that a run starts from. It fails with the first
/// failure to read a volume, and a failure leaves the state as it is.
pub fn initialise(network: &Network, state: &mut State) -> (r: Result<(), PywrError>)
    ensures
        match r {
            Ok(()) => initialised(*network, *old(state), *final(state)),
            Err(e) => start_fails_with(*network, *old(state), e@) && *final(state) == *old(state),
        },
{
    let mut volumes: Vec<Value> = Vec::new();
    let mut n: usize = 0;
    while n < state.network_state.node_volumes.len()
        invariant
            n <= state.network_state.node_volumes.len(),
            *state == *old(state),
            volumes.len() == n,
            storages_start(*network, *state, n as int),
            forall|k: int|
                0 <= k < n ==> if k < network.nodes.len()
                    && network.nodes[k].initial_volume.is_some() {
                    first_volume(
                        network.nodes[k].initial_volume.unwrap(),
                        network.nodes[k].max_volume,
                        network.nodes[k].name@,
                        *network,
                        *state,
                    ) == Ok::<Value, ErrorView>(#[trigger] volumes[k])
                } else {
                    volumes[k] == state.network_state.node_volumes[k]
                },
        decreases state.network_state.node_volumes.len() - n,
    {
        let mut volume = state.network_state.node_volumes[n];
        if n < network.nodes.len() {
            let node = &network.nodes[n];
            match node.initial_volume {
                None => {},
                Some(initial) => {
                    match read_first_volume(initial, &node.max_volume, &node.name, network, state) {
                        Err(e) => {
                            return Err(e);
                        },
                        Ok(v) => {
                            volume = v;
                        },
                    }
                },
            }
        }
        volumes.push(volume);
        n += 1;
    }
    let mut virtual_volumes: Vec<Value> = Vec::new();
    let mut v: usize = 0;
    while v < state.network_state.virtual_storage_volumes.len()
        invariant
            v <= state.network_state.virtual_storage_volumes.len(),
            *state == *old(state),
            virtual_volumes.len() == v,
            storages_start(*network, *state, network.nodes.len() as int),
            virtual_storages_start(*network, *state, v as int),
            forall|k: int|
                0 <= k < v ==> if k < network.virtual_storage_nodes.len() {
                    first_volume(
                        network.virtual_storage_nodes[k].initial_volume,
                        network.virtual_storage_nodes[k].max_volume,
                        network.virtual_storage_nodes[k].name@,
                        *network,
                        *state,
                    ) == Ok::<Value, ErrorView>(#[trigger] virtual_volumes[k])
                } else {
                    virtual_volumes[k] == state.network_state.virtual_storage_volumes[k]
                },
        decreases state.network_state.virtual_storage_volumes.len() - v,
    {
        let mut volume = state.network_state.virtual_storage_volumes[v];
        if v < network.virtual_storage_nodes.len() {
            let node = &network.virtual_storage_nodes[v];
            match read_first_volume(
                node.initial_volume,
                &node.max_volume,
                &node.name,
                network,
                state,
            ) {
                Err(e) => {
                    return Err(e);
                },
                Ok(x) => {
                    volume = x;
                },
            }
        }
        virtual_volumes.push(volume);
        v += 1;
    }
    let mut internal: Vec<Option<Internal>> = Vec::new();
    let mut i: usize = 0;
    while i < state.index_parameter_internal.len()
        invariant
            i <= state.index_parameter_internal.len(),
            *state == *old(state),
            internal.len() == i,
            forall|k: int|
                0 <= k < i ==> #[trigger] internal[k] == if k < network.index_parameters.len() {
                    network.index_parameters[k].initial()
                } else {
                    state.index_parameter_internal[k]
                },
        decreases state.index_parameter_internal.len() - i,
    {
        if i < network.index_parameters.len() {
            internal.push(network.index_parameters[i].starting());
        } else {
            internal.push(state.index_parameter_internal[i]);
        }
        i += 1;
    }
    state.network_state.node_volumes = volumes;
    state.network_state.virtual_storage_volumes = virtual_volumes;
    state.index_parameter_internal = internal;
    Ok(())
}

/// A state with room for everything that a network holds: nothing flows,
/// nothing is stored, every parameter is at zero and keeps nothing.
pub fn blank_state(network: &Network) -> (r: State)
    ensures
        is_blank(r, *network),
{
    State::new(
        network.nodes.len(),
        network.edges.len(),
        network.virtual_storage_nodes.len(),
        network.parameters.len(),
        network.index_parameters.len(),
        network.multi_parameters.len(),
    )
}

/// Whether a state has room for everything that a network holds, with nothing
/// flowing, nothing stored, every parameter at zero and keeping nothing.
pub open spec fn is_blank(state: State, network: Network) -> bool {
    &&& state.network_state.node_in_flows@ == Seq::new(network.nodes.len() as nat, |i: int| 0i64)
    &&& state.network_state.node_out_flows@ == Seq::new(network.nodes.len() as nat, |i: int| 0i64)
    &&& state.network_state.node_volumes@ == Seq::new(network.nodes.len() as nat, |i: int| 0i64)
    &&& state.network_state.edge_flows@ == Seq::new(network.edges.len() as nat, |i: int| 0i64)
    &&& state.network_state.virtual_storage_volumes@ == Seq::new(
        network.virtual_storage_nodes.len() as nat,
        |i: int| 0i64,
    )
    &&& state.parameter_values@ == Seq::new(network.parameters.len() as nat, |i: int| 0i64)
    &&& state.index_parameter_values@ == Seq::new(
        network.index_parameters.len() as nat,
        |i: int| 0usize,
    )
    &&& state.multi_parameter_values.len() == network.multi_parameters.len()
    &&& forall|i: int|
        0 <= i < network.multi_parameters.len() ==> (
        #[trigger] state.multi_parameter_values[i]).len() == 0
    &&& state.index_parameter_internal@ == Seq::new(
        network.index_parameters.len() as nat,
        |i: int| None::<Internal>,
    )
}

/// The state that a run of a network starts from: a blank state with the
/// volumes and what the index parameters keep at the start.
pub fn initial_state(network: &Network) -> (r: Result<State, PywrError>)
    ensures
        exists|blank: State|
            #![trigger is_blank(blank, *network)]
            is_blank(blank, *network) && match r {
                Ok(state) => initialised(*network, blank, state),
                Err(e) => start_fails_with(*network, blank, e@),
            },
{
    let mut state = blank_state(network);
    let ghost blank = state;
    match initialise(network, &mut state) {
        Ok(()) => {
            assert(is_blank(blank, *network));
            Ok(state)
        },
        Err(e) => {
            assert(is_blank(blank, *network));
            Err(e)
        },
    }
}

/// Readies a step for the solver: reads the bounds and costs at the state in
/// which the step starts, and makes the linear program of the step from them.
pub fn prepare_step(network: &Network, state: &State, timestep: &Timestep) -> (r: Result<
    (StepBounds, crate::solvers::builder::Lp),
    PywrError,
>)
    ensures
        match r {
            Ok((bounds, lp)) => bounds.of(*network, *state) && lp.describes(
                *network,
                bounds,
                *state,
                *timestep,
            ),
            Err(e) => StepBounds::fails_with(*network, *state, e@),
        },
{
    match StepBounds::evaluate(network, state) {
        Err(e) => Err(e),
        Ok(bounds) => {
            let lp = crate::solvers::builder::build_lp(network, &bounds, state, timestep);
            Ok((bounds, lp))
        },
    }
}

} // verus!
