//! Whether flows meet the constraints of a network.

use vstd::prelude::*;
use crate::network::Network;
use crate::node::{NodeIndex, NodeKind};
use crate::solvers::bounds::StepBounds;
use crate::state::NetworkState;
use crate::value::{magnitude, Value, UNIT};

verus! {

/// How far a flow may lie beyond a bound, and the flows into and out of a link
/// apart: a millionth.
pub const TOLERANCE: i64 = 1_000;

/// The flow through a node: what leaves it for an input, what enters it for
/// every other node.
pub open spec fn through(kind: NodeKind, in_flow: Value, out_flow: Value) -> Value {
    if kind == NodeKind::Input {
        out_flow
    } else {
        in_flow
    }
}

/// The flow through the node with this handle; zero for a handle that the
/// network or the state does not hold.
pub open spec fn member_flow(network: Network, state: NetworkState, idx: NodeIndex) -> Value {
    if idx.0 < network.nodes.len() && idx.0 < state.node_in_flows.len() && idx.0
        < state.node_out_flows.len() {
        through(
            network.nodes[idx.0 as int].kind,
            state.node_in_flows[idx.0 as int],
            state.node_out_flows[idx.0 as int],
        )
    } else {
        0
    }
}

/// The exact sum of the flows through the members.
pub open spec fn members_flow(network: Network, state: NetworkState, members: Seq<NodeIndex>) -> int
    decreases members.len(),
{
    if members.len() == 0 {
        0
    } else {
        members_flow(network, state, members.drop_last()) + member_flow(
            network,
            state,
            members.last(),
        )
    }
}

/// Whether the state holds a flow for every edge and the two flows of every
/// node of the network.
pub open spec fn fits(network: Network, bounds: StepBounds, state: NetworkState) -> bool {
    &&& state.edge_flows.len() == network.edges.len()
    &&& state.node_in_flows.len() == network.nodes.len()
    &&& state.node_out_flows.len() == network.nodes.len()
    &&& bounds.nodes.len() == network.nodes.len()
    &&& bounds.aggregated_nodes.len() == network.aggregated_nodes.len()
}

/// No edge carries a negative flow.
pub open spec fn flows_nonnegative(state: NetworkState) -> bool {
    forall|e: int| 0 <= e < state.edge_flows.len() ==> #[trigger] state.edge_flows[e] >= 0
}

/// At every link, what flows in and what flows out differ by no more than the
/// tolerance.
pub open spec fn mass_balanced(network: Network, state: NetworkState) -> bool {
    forall|n: int|
        0 <= n < network.nodes.len() && (#[trigger] network.nodes[n]).kind == NodeKind::Link
            ==> -TOLERANCE <= state.node_in_flows[n] - state.node_out_flows[n] <= TOLERANCE
}

/// At every node that stores nothing, the flow through it lies between its
/// least and its greatest flow, give or take the tolerance.
pub open spec fn within_bounds(network: Network, bounds: StepBounds, state: NetworkState) -> bool {
    forall|n: int|
        0 <= n < network.nodes.len() && (#[trigger] network.nodes[n]).kind != NodeKind::Storage
            ==> bounds.nodes[n].min_flow - TOLERANCE <= through(
            network.nodes[n].kind,
            state.node_in_flows[n],
            state.node_out_flows[n],
        ) <= bounds.nodes[n].max_flow + TOLERANCE
}

/// At every aggregated node, the sum of the flows through its members lies
/// between its least and its greatest flow, give or take the tolerance.
pub open spec fn aggregates_within_bounds(
    network: Network,
    bounds: StepBounds,
    state: NetworkState,
) -> bool {
    forall|a: int|
        0 <= a < network.aggregated_nodes.len() ==> (#[trigger] bounds.aggregated_nodes[a]).min_flow
            - TOLERANCE <= members_flow(network, state, network.aggregated_nodes[a].nodes@)
            <= bounds.aggregated_nodes[a].max_flow + TOLERANCE
}

/// How far the products of two flows with each other's factor may lie apart:
/// the tolerance times the greater of the two flows in size, and at least
/// times one.
pub open spec fn proportion_slack(flow_i: Value, flow_j: Value) -> int {
    let greater = if magnitude(flow_i as int) >= magnitude(flow_j as int) {
        magnitude(flow_i as int)
    } else {
        magnitude(flow_j as int)
    };
    TOLERANCE * if greater >= UNIT {
        greater
    } else {
        UNIT as int
    }
}

/// Whether two flows stand to each other as their factors do, within the
/// slack.
pub open spec fn proportional(
    flow_i: Value,
    factor_i: Value,
    flow_j: Value,
    factor_j: Value,
) -> bool {
    magnitude(flow_i * factor_j - flow_j * factor_i) <= proportion_slack(flow_i, flow_j)
}

/// Whether the flows through the members of one set stand to each other as
/// the factors do.
pub open spec fn set_in_proportion(
    network: Network,
    state: NetworkState,
    members: Seq<NodeIndex>,
    factors: Seq<Value>,
) -> bool {
    forall|i: int, j: int|
        0 <= i < j < members.len() && j < factors.len() ==> proportional(
            member_flow(network, state, #[trigger] members[i]),
            factors[i],
            member_flow(network, state, #[trigger] members[j]),
            factors[j],
        )
}

/// At every aggregated node with factors, the flows through any two members
/// stand to each other as their factors do.
pub open spec fn in_proportion(network: Network, bounds: StepBounds, state: NetworkState) -> bool {
    forall|a: int|
        0 <= a < network.aggregated_nodes.len() && (
        #[trigger] bounds.aggregated_nodes[a]).factors.is_some() ==> set_in_proportion(
            network,
            state,
            network.aggregated_nodes[a].nodes@,
            bounds.aggregated_nodes[a].factors.unwrap()@,
        )
}

/// Whether flows meet the constraints of a network at the bounds of a step.
pub open spec fn accepted(network: Network, bounds: StepBounds, state: NetworkState) -> bool {
    &&& fits(network, bounds, state)
    &&& flows_nonnegative(state)
    &&& mass_balanced(network, state)
    &&& within_bounds(network, bounds, state)
    &&& aggregates_within_bounds(network, bounds, state)
    &&& in_proportion(network, bounds, state)
}

/// The flow through the node with this handle.
fn flow_of(network: &Network, state: &NetworkState, idx: NodeIndex) -> (r: Value)
    ensures
        r == member_flow(*network, *state, idx),
{
    if idx.0 < network.nodes.len() && idx.0 < state.node_in_flows.len() && idx.0
        < state.node_out_flows.len() {
        if network.nodes[idx.0].kind == NodeKind::Input {
            state.node_out_flows[idx.0]
        } else {
            state.node_in_flows[idx.0]
        }
    } else {
        0
    }
}

/// The size of an amount.
fn size_of(x: Value) -> (r: i128)
    ensures
        r == magnitude(x as int),
{
    if x < 0 {
        -(x as i128)
    } else {
        x as i128
    }
}

/// Whether two flows stand to each other as their factors do.
fn is_proportional(flow_i: Value, factor_i: Value, flow_j: Value, factor_j: Value) -> (r: bool)
    ensures
        r == proportional(flow_i, factor_i, flow_j, factor_j),
{
    let a: i128 = flow_i as i128;
    let b: i128 = factor_j as i128;
    let c: i128 = flow_j as i128;
    let d: i128 = factor_i as i128;
    assert(-0x4000_0000_0000_0000_0000_0000_0000_0000 + 0x8000_0000_0000_0000 <= a * b
        <= 0x4000_0000_0000_0000_0000_0000_0000_0000) by (nonlinear_arith)
        requires
            -0x8000_0000_0000_0000 <= a <= 0x7fff_ffff_ffff_ffff,
            -0x8000_0000_0000_0000 <= b <= 0x7fff_ffff_ffff_ffff,
    ;
    assert(-0x4000_0000_0000_0000_0000_0000_0000_0000 + 0x8000_0000_0000_0000 <= c * d
        <= 0x4000_0000_0000_0000_0000_0000_0000_0000) by (nonlinear_arith)
        requires
            -0x8000_0000_0000_0000 <= c <= 0x7fff_ffff_ffff_ffff,
            -0x8000_0000_0000_0000 <= d <= 0x7fff_ffff_ffff_ffff,
    ;
    let difference: i128 = a * b - c * d;
    let apart: i128 = if difference < 0 {
        -difference
    } else {
        difference
    };
    let size_i = size_of(flow_i);
    let size_j = size_of(flow_j);
    let greater: i128 = if size_i >= size_j {
        size_i
    } else {
        size_j
    };
    let slack: i128 = (TOLERANCE as i128) * if greater >= UNIT as i128 {
        greater
    } else {
        UNIT as i128
    };
    apart <= slack
}

/// Whether the flows through the members of one set stand to each other as the
/// factors do.
fn set_is_in_proportion(
    network: &Network,
    state: &NetworkState,
    members: &Vec<NodeIndex>,
    factors: &Vec<Value>,
) -> (r: bool)
    ensures
        r == set_in_proportion(*network, *state, members@, factors@),
{
    let mut j: usize = 0;
    while j < members.len() && j < factors.len()
        invariant
            forall|i: int, k: int|
                0 <= i < k < j && k < members.len() && k < factors.len() ==> proportional(
                    member_flow(*network, *state, #[trigger] members[i]),
                    factors[i],
                    member_flow(*network, *state, #[trigger] members[k]),
                    factors[k],
                ),
        decreases members.len() - j,
    {
        let flow_j = flow_of(network, state, members[j]);
        let mut i: usize = 0;
        while i < j
            invariant
                i <= j,
                j < members.len(),
                j < factors.len(),
                flow_j == member_flow(*network, *state, members[j as int]),
                forall|h: int|
                    0 <= h < i ==> proportional(
                        member_flow(*network, *state, #[trigger] members[h]),
                        factors[h],
                        flow_j,
                        factors[j as int],
                    ),
            decreases j - i,
        {
            let flow_i = flow_of(network, state, members[i]);
            if !is_proportional(flow_i, factors[i], flow_j, factors[j]) {
                return false;
            }
            i += 1;
        }
        j += 1;
    }
    true
}

/// The exact sum of the flows through the members, held to the range of
/// amounts summed over any number of members.
fn flow_of_members(network: &Network, state: &NetworkState, members: &Vec<NodeIndex>) -> (r: i128)
    ensures
        r == members_flow(*network, *state, members@),
{
    let mut acc: i128 = 0;
    let mut i: usize = 0;
    while i < members.len()
        invariant
            i <= members.len(),
            acc == members_flow(*network, *state, members@.take(i as int)),
            -(i * 0x8000_0000_0000_0000) <= acc <= i * 0x7fff_ffff_ffff_ffff,
        decreases members.len() - i,
    {
        proof {
            assert(members@.take(i + 1).drop_last() =~= members@.take(i as int));
        }
        acc = acc + flow_of(network, state, members[i]) as i128;
        i += 1;
    }
    assert(members@.take(i as int) =~= members@);
    acc
}

/// Whether flows meet the constraints of a network at the bounds of a step.
pub fn check_flows(network: &Network, bounds: &StepBounds, state: &NetworkState) -> (r: bool)
    ensures
        r == accepted(*network, *bounds, *state),
{
    if state.edge_flows.len() != network.edges.len() || state.node_in_flows.len()
        != network.nodes.len() || state.node_out_flows.len() != network.nodes.len()
        || bounds.nodes.len() != network.nodes.len() || bounds.aggregated_nodes.len()
        != network.aggregated_nodes.len() {
        return false;
    }
    let mut e: usize = 0;
    while e < state.edge_flows.len()
        invariant
            e <= state.edge_flows.len(),
            forall|k: int| 0 <= k < e ==> #[trigger] state.edge_flows[k] >= 0,
        decreases state.edge_flows.len() - e,
    {
        if state.edge_flows[e] < 0 {
            return false;
        }
        e += 1;
    }
    let mut n: usize = 0;
    while n < network.nodes.len()
        invariant
            n <= network.nodes.len(),
            fits(*network, *bounds, *state),
            forall|k: int|
                0 <= k < n && (#[trigger] network.nodes[k]).kind == NodeKind::Link ==> -TOLERANCE
                    <= state.node_in_flows[k] - state.node_out_flows[k] <= TOLERANCE,
            forall|k: int|
                0 <= k < n && (#[trigger] network.nodes[k]).kind != NodeKind::Storage
                    ==> bounds.nodes[k].min_flow - TOLERANCE <= through(
                    network.nodes[k].kind,
                    state.node_in_flows[k],
                    state.node_out_flows[k],
                ) <= bounds.nodes[k].max_flow + TOLERANCE,
        decreases network.nodes.len() - n,
    {
        let kind = network.nodes[n].kind;
        let in_flow: i128 = state.node_in_flows[n] as i128;
        let out_flow: i128 = state.node_out_flows[n] as i128;
        if kind == NodeKind::Link {
            let apart = in_flow - out_flow;
            if apart < -(TOLERANCE as i128) || apart > TOLERANCE as i128 {
                return false;
            }
        }
        if kind != NodeKind::Storage {
            let flow = if kind == NodeKind::Input {
                out_flow
            } else {
                in_flow
            };
            if flow < bounds.nodes[n].min_flow as i128 - TOLERANCE as i128 || flow
                > bounds.nodes[n].max_flow as i128 + TOLERANCE as i128 {
                return false;
            }
        }
        n += 1;
    }
    let mut a: usize = 0;
    while a < network.aggregated_nodes.len()
        invariant
            a <= network.aggregated_nodes.len(),
            fits(*network, *bounds, *state),
            forall|k: int|
                0 <= k < a ==> (#[trigger] bounds.aggregated_nodes[k]).min_flow - TOLERANCE
                    <= members_flow(*network, *state, network.aggregated_nodes[k].nodes@)
                    <= bounds.aggregated_nodes[k].max_flow + TOLERANCE,
            forall|k: int|
                0 <= k < a && (#[trigger] bounds.aggregated_nodes[k]).factors.is_some()
                    ==> set_in_proportion(
                    *network,
                    *state,
                    network.aggregated_nodes[k].nodes@,
                    bounds.aggregated_nodes[k].factors.unwrap()@,
                ),
        decreases network.aggregated_nodes.len() - a,
    {
        let members = &network.aggregated_nodes[a].nodes;
        let total = flow_of_members(network, state, members);
        if total < bounds.aggregated_nodes[a].min_flow as i128 - TOLERANCE as i128 || total
            > bounds.aggregated_nodes[a].max_flow as i128 + TOLERANCE as i128 {
            return false;
        }
        match &bounds.aggregated_nodes[a].factors {
            None => {},
            Some(factors) => {
                if !set_is_in_proportion(network, state, members, factors) {
                    return false;
                }
            },
        }
        a += 1;
    }
    true
}

} // verus!
