//! Metrics: the amounts that can be read from a network and its state.

use vstd::prelude::*;
use crate::aggregated_node::AggregatedNodeIndex;
use crate::aggregated_storage_node::AggregatedStorageNodeIndex;
use crate::edge::EdgeIndex;
use crate::node::NodeIndex;
use crate::parameters::{MultiValueParameterIndex, ParameterIndex};
use crate::error::{outcome, EntityKind, ErrorView, PywrError};
use crate::network::Network;
use crate::node::{ConstraintValue, Node};
use crate::state::{lookup, multi_lookup, sum_over, total_over, State};
use crate::value::{clamp, minus, narrow, product, proportion, ratio, times, Value, UNIT};
use crate::virtual_storage::{VirtualStorage, VirtualStorageIndex};

verus! {

/// The volume that lies between two control curves of a storage.
#[derive(Debug, PartialEq, Eq)]
pub struct VolumeBetweenControlCurves {
    pub max_volume: Box<Metric>,
    pub upper: Option<Box<Metric>>,
    pub lower: Option<Box<Metric>>,
}

impl VolumeBetweenControlCurves {
    pub fn new(max_volume: Metric, upper: Option<Metric>, lower: Option<Metric>) -> (r: Self)
        ensures
            *r.max_volume == max_volume,
            r.upper.is_some() == upper.is_some(),
            r.upper.is_some() ==> *r.upper.unwrap() == upper.unwrap(),
            r.lower.is_some() == lower.is_some(),
            r.lower.is_some() ==> *r.lower.unwrap() == lower.unwrap(),
    {
        Self {
            max_volume: Box::new(max_volume),
            upper: match upper {
                Some(m) => Some(Box::new(m)),
                None => None,
            },
            lower: match lower {
                Some(m) => Some(Box::new(m)),
                None => None,
            },
        }
    }
}

/// An amount that is read from the network and the state; reading changes
/// neither.
#[derive(Debug, PartialEq, Eq)]
pub enum Metric {
    NodeInFlow(NodeIndex),
    NodeOutFlow(NodeIndex),
    NodeVolume(NodeIndex),
    NodeInFlowDeficit(NodeIndex),
    NodeProportionalVolume(NodeIndex),
    AggregatedNodeInFlow(AggregatedNodeIndex),
    AggregatedNodeOutFlow(AggregatedNodeIndex),
    AggregatedNodeVolume(AggregatedStorageNodeIndex),
    AggregatedNodeProportionalVolume(AggregatedStorageNodeIndex),
    EdgeFlow(EdgeIndex),
    ParameterValue(ParameterIndex),
    MultiParameterValue(MultiValueParameterIndex, String),
    VirtualStorageVolume(VirtualStorageIndex),
    VirtualStorageProportionalVolume(VirtualStorageIndex),
    VolumeBetweenControlCurves(VolumeBetweenControlCurves),
    MultiNodeInFlow { indices: Vec<NodeIndex>, name: String, sub_name: Option<String> },
    Constant(Value),
}

/// The value of a bound or a cost that belongs to `owner`: `unbounded` where
/// there is none, the scalar where it is fixed, and the value of the metric
/// where it is read from the state. A metric is followed only while `depth`
/// lasts; beyond that the constraints lead into each other and the owner is
/// reported.
pub open spec fn constraint_value(
    constraint: ConstraintValue,
    unbounded: Value,
    owner: Seq<char>,
    network: Network,
    state: State,
    depth: nat,
) -> Result<Value, ErrorView>
    decreases depth, 0nat, 0nat, constraint,
{
    match constraint {
        ConstraintValue::Unbounded => Ok(unbounded),
        ConstraintValue::Scalar(v) => Ok(v),
        ConstraintValue::Metric(m) => if depth == 0 {
            Err(ErrorView::CyclicDependency(owner))
        } else {
            metric_value(m, network, state, (depth - 1) as nat)
        },
    }
}

/// The greatest volume of the node with this handle at the current state.
pub open spec fn node_max_volume(
    idx: usize,
    network: Network,
    state: State,
    depth: nat,
) -> Result<Value, ErrorView>
    decreases depth, 1nat, 0nat, network,
{
    if idx >= network.nodes.len() {
        Err(ErrorView::NotFoundAt(EntityKind::Node, idx))
    } else {
        constraint_value(
            network.nodes[idx as int].max_volume,
            i64::MAX,
            network.nodes[idx as int].name@,
            network,
            state,
            depth,
        )
    }
}

/// The exact sum of the greatest volumes of the members, or the first failure
/// to compute one.
pub open spec fn total_max_volume(
    members: Seq<crate::node::NodeIndex>,
    network: Network,
    state: State,
    depth: nat,
) -> Result<int, ErrorView>
    decreases depth, 1nat, members.len() + 1, network,
{
    if members.len() == 0 {
        Ok(0int)
    } else {
        match total_max_volume(members.drop_last(), network, state, depth) {
            Err(e) => Err(e),
            Ok(t) => match node_max_volume(members.last().0, network, state, depth) {
                Err(e) => Err(e),
                Ok(v) => Ok(t + v),
            },
        }
    }
}

/// The value of a metric over a network and a state.
///
/// A flow, a volume or a parameter's value is what the state holds for the
/// handle. The flow or volume of a set is the sum over its members. A
/// proportional volume is the volume as a share of the greatest volume, zero
/// where that is zero; for a set of storages it is the sum of the volumes as a
/// share of the sum of the greatest volumes, and fails with `DivisionByZero`
/// where that sum is zero. The deficit of a node is its greatest flow less its
/// inflow, below zero where the inflow is greater. The volume between control
/// curves is the greatest volume times the difference of the upper curve, one
/// where there is none, and the lower curve, zero where there is none.
///
/// A handle that the network or the state does not hold fails with `NotFoundAt`.
pub open spec fn metric_value(metric: Metric, network: Network, state: State, depth: nat) -> Result<
    Value,
    ErrorView,
>
    decreases depth, 2nat, 0nat, metric,
{
    let flows = state.network_state;
    match metric {
        Metric::NodeInFlow(idx) => lookup(flows.node_in_flows@, idx.0, EntityKind::Node),
        Metric::NodeOutFlow(idx) => lookup(flows.node_out_flows@, idx.0, EntityKind::Node),
        Metric::NodeVolume(idx) => lookup(flows.node_volumes@, idx.0, EntityKind::Node),
        Metric::AggregatedNodeInFlow(idx) => if idx.0 >= network.aggregated_nodes.len() {
            Err(ErrorView::NotFoundAt(EntityKind::AggregatedNode, idx.0))
        } else {
            total_over(flows.node_in_flows@, network.aggregated_nodes[idx.0 as int].nodes@)
        },
        Metric::AggregatedNodeOutFlow(idx) => if idx.0 >= network.aggregated_nodes.len() {
            Err(ErrorView::NotFoundAt(EntityKind::AggregatedNode, idx.0))
        } else {
            total_over(flows.node_out_flows@, network.aggregated_nodes[idx.0 as int].nodes@)
        },
        Metric::NodeProportionalVolume(idx) => match node_max_volume(
            idx.0,
            network,
            state,
            depth,
        ) {
            Err(e) => Err(e),
            Ok(max_volume) => match lookup(flows.node_volumes@, idx.0, EntityKind::Node) {
                Err(e) => Err(e),
                Ok(volume) => Ok(proportion(volume as int, max_volume as int) as i64),
            },
        },
        Metric::EdgeFlow(idx) => lookup(flows.edge_flows@, idx.0, EntityKind::Edge),
        Metric::ParameterValue(idx) => lookup(
            state.parameter_values@,
            idx.0,
            EntityKind::Parameter,
        ),
        Metric::MultiParameterValue(idx, key) => multi_lookup(
            state.multi_parameter_values@,
            idx.0,
            key@,
        ),
        Metric::VirtualStorageVolume(idx) => lookup(
            flows.virtual_storage_volumes@,
            idx.0,
            EntityKind::VirtualStorage,
        ),
        Metric::VirtualStorageProportionalVolume(idx) => if idx.0
            >= network.virtual_storage_nodes.len() {
            Err(ErrorView::NotFoundAt(EntityKind::VirtualStorage, idx.0))
        } else {
            match constraint_value(
                network.virtual_storage_nodes[idx.0 as int].max_volume,
                i64::MAX,
                network.virtual_storage_nodes[idx.0 as int].name@,
                network,
                state,
                depth,
            ) {
                Err(e) => Err(e),
                Ok(max_volume) => match lookup(
                    flows.virtual_storage_volumes@,
                    idx.0,
                    EntityKind::VirtualStorage,
                ) {
                    Err(e) => Err(e),
                    Ok(volume) => Ok(proportion(volume as int, max_volume as int) as i64),
                },
            }
        },
        Metric::Constant(v) => Ok(v),
        Metric::AggregatedNodeVolume(idx) => if idx.0 >= network.aggregated_storage_nodes.len() {
            Err(ErrorView::NotFoundAt(EntityKind::AggregatedStorageNode, idx.0))
        } else {
            total_over(flows.node_volumes@, network.aggregated_storage_nodes[idx.0 as int].nodes@)
        },
        Metric::AggregatedNodeProportionalVolume(idx) => if idx.0
            >= network.aggregated_storage_nodes.len() {
            Err(ErrorView::NotFoundAt(EntityKind::AggregatedStorageNode, idx.0))
        } else {
            let members = network.aggregated_storage_nodes[idx.0 as int].nodes@;
            match total_over(flows.node_volumes@, members) {
                Err(e) => Err(e),
                Ok(volume) => match total_max_volume(members, network, state, depth) {
                    Err(e) => Err(e),
                    Ok(max_volume) => if clamp(max_volume) == 0 {
                        Err(ErrorView::DivisionByZero)
                    } else {
                        Ok(proportion(volume as int, clamp(max_volume)) as i64)
                    },
                },
            }
        },
        Metric::MultiNodeInFlow { indices, name, sub_name } => total_over(
            flows.node_in_flows@,
            indices@,
        ),
        Metric::NodeInFlowDeficit(idx) => if idx.0 >= network.nodes.len() {
            Err(ErrorView::NotFoundAt(EntityKind::Node, idx.0))
        } else {
            match lookup(flows.node_in_flows@, idx.0, EntityKind::Node) {
                Err(e) => Err(e),
                Ok(flow) => match constraint_value(
                    network.nodes[idx.0 as int].max_flow,
                    i64::MAX,
                    network.nodes[idx.0 as int].name@,
                    network,
                    state,
                    depth,
                ) {
                    Err(e) => Err(e),
                    Ok(max_flow) => Ok(clamp(max_flow - flow) as i64),
                },
            }
        },
        Metric::VolumeBetweenControlCurves(vol) => match metric_value(
            *vol.max_volume,
            network,
            state,
            depth,
        ) {
            Err(e) => Err(e),
            Ok(max_volume) => match (match vol.lower {
                None => Ok(0i64),
                Some(m) => metric_value(*m, network, state, depth),
            }) {
                Err(e) => Err(e),
                Ok(lower) => match (match vol.upper {
                    None => Ok(UNIT),
                    Some(m) => metric_value(*m, network, state, depth),
                }) {
                    Err(e) => Err(e),
                    Ok(upper) => Ok(product(max_volume as int, clamp(upper - lower)) as i64),
                },
            },
        },
    }
}

impl Network {
    /// How many constraints given as metrics may be followed one into the next:
    /// one more than the bounds on flow and volume of all nodes and on the volume
    /// of all virtual storages, which no chain without a cycle exceeds.
    pub open spec fn evaluation_depth(&self) -> nat {
        let chain = 2 * self.nodes.len() + self.virtual_storage_nodes.len() + 1;
        if chain > usize::MAX {
            usize::MAX as nat
        } else {
            chain as nat
        }
    }

    /// How many constraints given as metrics may be followed one into the next.
    pub fn depth_limit(&self) -> (r: usize)
        ensures
            r == self.evaluation_depth(),
    {
        let chain: u128 = 2 * (self.nodes.len() as u128) + (
        self.virtual_storage_nodes.len() as u128) + 1;
        if chain > usize::MAX as u128 {
            usize::MAX
        } else {
            chain as usize
        }
    }
}

/// The value of a bound or a cost, following metrics while `depth` lasts.
fn constraint_within(
    constraint: &ConstraintValue,
    unbounded: Value,
    owner: &String,
    network: &Network,
    state: &State,
    depth: usize,
) -> (r: Result<Value, PywrError>)
    ensures
        outcome(r) == constraint_value(
            *constraint,
            unbounded,
            owner@,
            *network,
            *state,
            depth as nat,
        ),
    decreases depth, 0nat, 0nat, constraint,
{
    match constraint {
        ConstraintValue::Unbounded => Ok(unbounded),
        ConstraintValue::Scalar(v) => Ok(*v),
        ConstraintValue::Metric(m) => {
            if depth == 0 {
                Err(PywrError::CyclicDependency(owner.clone()))
            } else {
                m.get_value_within(network, state, depth - 1)
            }
        },
    }
}

/// The value of a bound or a cost at the current state.
pub fn current_constraint(
    constraint: &ConstraintValue,
    unbounded: Value,
    owner: &String,
    network: &Network,
    state: &State,
) -> (r: Result<Value, PywrError>)
    ensures
        outcome(r) == constraint_value(
            *constraint,
            unbounded,
            owner@,
            *network,
            *state,
            network.evaluation_depth(),
        ),
{
    constraint_within(constraint, unbounded, owner, network, state, network.depth_limit())
}

/// The greatest volume of a node, following metrics while `depth` lasts.
fn node_max_volume_within(idx: usize, network: &Network, state: &State, depth: usize) -> (r:
    Result<Value, PywrError>)
    ensures
        outcome(r) == node_max_volume(idx, *network, *state, depth as nat),
    decreases depth, 1nat, 0nat, network,
{
    if idx >= network.nodes.len() {
        Err(PywrError::NotFoundAt(EntityKind::Node, idx))
    } else {
        let node = &network.nodes[idx];
        constraint_within(&node.max_volume, i64::MAX, &node.name, network, state, depth)
    }
}

/// A failure among the first `n` members is the failure of all.
proof fn lemma_max_volume_fails_in_prefix(
    members: Seq<crate::node::NodeIndex>,
    network: Network,
    state: State,
    depth: nat,
    n: int,
)
    requires
        0 <= n <= members.len(),
        total_max_volume(members.take(n), network, state, depth).is_err(),
    ensures
        total_max_volume(members, network, state, depth) == total_max_volume(
            members.take(n),
            network,
            state,
            depth,
        ),
    decreases members.len() - n,
{
    if n < members.len() {
        assert(members.take(n + 1).drop_last() =~= members.take(n));
        lemma_max_volume_fails_in_prefix(members, network, state, depth, n + 1);
    } else {
        assert(members.take(n) =~= members);
    }
}

/// The sum of the greatest volumes of the members.
fn total_max_volume_within(
    members: &Vec<crate::node::NodeIndex>,
    network: &Network,
    state: &State,
    depth: usize,
) -> (r: Result<Value, PywrError>)
    ensures
        outcome(r) == match total_max_volume(members@, *network, *state, depth as nat) {
            Ok(t) => Ok::<Value, ErrorView>(clamp(t) as i64),
            Err(e) => Err(e),
        },
    decreases depth, 1nat, members.len() + 1, network,
{
    let mut acc: i128 = 0;
    let mut i: usize = 0;
    while i < members.len()
        invariant
            i <= members.len(),
            total_max_volume(members@.take(i as int), *network, *state, depth as nat) == Ok::<
                int,
                ErrorView,
            >(acc as int),
            -(i * 0x8000_0000_0000_0000) <= acc <= i * 0x7fff_ffff_ffff_ffff,
        decreases members.len() - i,
    {
        proof {
            assert(members@.take(i + 1).drop_last() =~= members@.take(i as int));
        }
        match node_max_volume_within(members[i].0, network, state, depth) {
            Err(e) => {
                proof {
                    lemma_max_volume_fails_in_prefix(
                        members@,
                        *network,
                        *state,
                        depth as nat,
                        i + 1,
                    );
                }
                return Err(e);
            },
            Ok(v) => {
                acc = acc + v as i128;
            },
        }
        i += 1;
    }
    assert(members@.take(i as int) =~= members@);
    Ok(narrow(acc))
}

impl Metric {
    /// The value of the metric at the current state.
    pub fn get_value(&self, network: &Network, state: &State) -> (r: Result<Value, PywrError>)
        ensures
            outcome(r) == metric_value(*self, *network, *state, network.evaluation_depth()),
    {
        self.get_value_within(network, state, network.depth_limit())
    }

    /// The value of the metric, following constraints while `depth` lasts.
    fn get_value_within(&self, network: &Network, state: &State, depth: usize) -> (r: Result<
        Value,
        PywrError,
    >)
        ensures
            outcome(r) == metric_value(*self, *network, *state, depth as nat),
        decreases depth, 2nat, 0nat, self,
    {
        let flows = state.get_network_state();
        match self {
            Metric::NodeInFlow(idx) => flows.get_node_in_flow(idx),
            Metric::NodeOutFlow(idx) => flows.get_node_out_flow(idx),
            Metric::NodeVolume(idx) => flows.get_node_volume(idx),
            Metric::AggregatedNodeInFlow(idx) => {
                match network.get_aggregated_node(idx) {
                    Err(e) => Err(e),
                    Ok(node) => sum_over(&flows.node_in_flows, node.get_nodes()),
                }
            },
            Metric::AggregatedNodeOutFlow(idx) => {
                match network.get_aggregated_node(idx) {
                    Err(e) => Err(e),
                    Ok(node) => sum_over(&flows.node_out_flows, node.get_nodes()),
                }
            },
            Metric::NodeProportionalVolume(idx) => {
                match node_max_volume_within(idx.0, network, state, depth) {
                    Err(e) => Err(e),
                    Ok(max_volume) => flows.get_node_proportional_volume(idx, max_volume),
                }
            },
            Metric::EdgeFlow(idx) => flows.get_edge_flow(idx),
            Metric::ParameterValue(idx) => state.get_parameter_value(*idx),
            Metric::MultiParameterValue(idx, key) => state.get_multi_parameter_value(
                *idx,
                key.as_str(),
            ),
            Metric::VirtualStorageVolume(idx) => flows.get_virtual_storage_volume(idx),
            Metric::VirtualStorageProportionalVolume(idx) => {
                match network.get_virtual_storage_node(idx) {
                    Err(e) => Err(e),
                    Ok(node) => {
                        match constraint_within(
                            &node.max_volume,
                            i64::MAX,
                            &node.name,
                            network,
                            state,
                            depth,
                        ) {
                            Err(e) => Err(e),
                            Ok(max_volume) => flows.get_virtual_storage_proportional_volume(
                                idx,
                                max_volume,
                            ),
                        }
                    },
                }
            },
            Metric::Constant(v) => Ok(*v),
            Metric::AggregatedNodeVolume(idx) => {
                match network.get_aggregated_storage_node(idx) {
                    Err(e) => Err(e),
                    Ok(node) => sum_over(&flows.node_volumes, &node.nodes),
                }
            },
            Metric::AggregatedNodeProportionalVolume(idx) => {
                match network.get_aggregated_storage_node(idx) {
                    Err(e) => Err(e),
                    Ok(node) => {
                        match sum_over(&flows.node_volumes, &node.nodes) {
                            Err(e) => Err(e),
                            Ok(volume) => {
                                match total_max_volume_within(&node.nodes, network, state, depth) {
                                    Err(e) => Err(e),
                                    Ok(max_volume) => {
                                        if max_volume == 0 {
                                            Err(PywrError::DivisionByZero)
                                        } else {
                                            Ok(ratio(volume, max_volume))
                                        }
                                    },
                                }
                            },
                        }
                    },
                }
            },
            Metric::MultiNodeInFlow { indices, .. } => sum_over(&flows.node_in_flows, indices),
            Metric::NodeInFlowDeficit(idx) => {
                match network.get_node(idx) {
                    Err(e) => Err(e),
                    Ok(node) => {
                        match flows.get_node_in_flow(idx) {
                            Err(e) => Err(e),
                            Ok(flow) => {
                                match constraint_within(
                                    &node.max_flow,
                                    i64::MAX,
                                    &node.name,
                                    network,
                                    state,
                                    depth,
                                ) {
                                    Err(e) => Err(e),
                                    Ok(max_flow) => Ok(minus(max_flow, flow)),
                                }
                            },
                        }
                    },
                }
            },
            Metric::VolumeBetweenControlCurves(vol) => {
                match (&*vol.max_volume).get_value_within(network, state, depth) {
                    Err(e) => Err(e),
                    Ok(max_volume) => {
                        let lower = match &vol.lower {
                            None => 0,
                            Some(m) => match (&**m).get_value_within(network, state, depth) {
                                Err(e) => {
                                    return Err(e);
                                },
                                Ok(v) => v,
                            },
                        };
                        let upper = match &vol.upper {
                            None => UNIT,
                            Some(m) => match (&**m).get_value_within(network, state, depth) {
                                Err(e) => {
                                    return Err(e);
                                },
                                Ok(v) => v,
                            },
                        };
                        Ok(times(max_volume, minus(upper, lower)))
                    },
                }
            },
        }
    }
}

impl Node {
    /// The least flow of the node at the current state; without a bound, the
    /// least amount there is.
    pub fn get_current_min_flow(&self, network: &Network, state: &State) -> (r: Result<
        Value,
        PywrError,
    >)
        ensures
            outcome(r) == constraint_value(
                self.min_flow,
                i64::MIN,
                self.name@,
                *network,
                *state,
                network.evaluation_depth(),
            ),
    {
        constraint_within(
            &self.min_flow,
            i64::MIN,
            &self.name,
            network,
            state,
            network.depth_limit(),
        )
    }

    /// The greatest flow of the node at the current state; without a bound, the
    /// greatest amount there is.
    pub fn get_current_max_flow(&self, network: &Network, state: &State) -> (r: Result<
        Value,
        PywrError,
    >)
        ensures
            outcome(r) == constraint_value(
                self.max_flow,
                i64::MAX,
                self.name@,
                *network,
                *state,
                network.evaluation_depth(),
            ),
    {
        constraint_within(
            &self.max_flow,
            i64::MAX,
            &self.name,
            network,
            state,
            network.depth_limit(),
        )
    }

    /// The cost of a unit of flow through the node at the current state; without
    /// a cost, zero.
    pub fn get_current_cost(&self, network: &Network, state: &State) -> (r: Result<
        Value,
        PywrError,
    >)
        ensures
            outcome(r) == constraint_value(
                self.cost,
                0,
                self.name@,
                *network,
                *state,
                network.evaluation_depth(),
            ),
    {
        constraint_within(&self.cost, 0, &self.name, network, state, network.depth_limit())
    }

    /// The least volume of the node at the current state; without a bound, the
    /// least amount there is.
    pub fn get_current_min_volume(&self, network: &Network, state: &State) -> (r: Result<
        Value,
        PywrError,
    >)
        ensures
            outcome(r) == constraint_value(
                self.min_volume,
                i64::MIN,
                self.name@,
                *network,
                *state,
                network.evaluation_depth(),
            ),
    {
        constraint_within(
            &self.min_volume,
            i64::MIN,
            &self.name,
            network,
            state,
            network.depth_limit(),
        )
    }

    /// The greatest volume of the node at the current state; without a bound,
    /// the greatest amount there is.
    pub fn get_current_max_volume(&self, network: &Network, state: &State) -> (r: Result<
        Value,
        PywrError,
    >)
        ensures
            outcome(r) == constraint_value(
                self.max_volume,
                i64::MAX,
                self.name@,
                *network,
                *state,
                network.evaluation_depth(),
            ),
    {
        constraint_within(
            &self.max_volume,
            i64::MAX,
            &self.name,
            network,
            state,
            network.depth_limit(),
        )
    }
}

impl crate::aggregated_node::AggregatedNode {
    /// The least total flow of the aggregated node at the current state;
    /// without a bound, the least amount there is.
    pub fn get_current_min_flow(&self, network: &Network, state: &State) -> (r: Result<
        Value,
        PywrError,
    >)
        ensures
            outcome(r) == constraint_value(
                self.min_flow,
                i64::MIN,
                self.name@,
                *network,
                *state,
                network.evaluation_depth(),
            ),
    {
        constraint_within(
            &self.min_flow,
            i64::MIN,
            &self.name,
            network,
            state,
            network.depth_limit(),
        )
    }

    /// The greatest total flow of the aggregated node at the current state;
    /// without a bound, the greatest amount there is.
    pub fn get_current_max_flow(&self, network: &Network, state: &State) -> (r: Result<
        Value,
        PywrError,
    >)
        ensures
            outcome(r) == constraint_value(
                self.max_flow,
                i64::MAX,
                self.name@,
                *network,
                *state,
                network.evaluation_depth(),
            ),
    {
        constraint_within(
            &self.max_flow,
            i64::MAX,
            &self.name,
            network,
            state,
            network.depth_limit(),
        )
    }
}

impl VirtualStorage {
    /// The cost of the virtual storage at the current state; without a cost,
    /// zero.
    pub fn get_cost(&self, network: &Network, state: &State) -> (r: Result<Value, PywrError>)
        ensures
            outcome(r) == constraint_value(
                self.cost,
                0,
                self.name@,
                *network,
                *state,
                network.evaluation_depth(),
            ),
    {
        constraint_within(&self.cost, 0, &self.name, network, state, network.depth_limit())
    }

    /// The greatest volume of the virtual storage at the current state; without
    /// a bound, the greatest amount there is.
    pub fn get_max_volume(&self, network: &Network, state: &State) -> (r: Result<Value, PywrError>)
        ensures
            outcome(r) == constraint_value(
                self.max_volume,
                i64::MAX,
                self.name@,
                *network,
                *state,
                network.evaluation_depth(),
            ),
    {
        constraint_within(
            &self.max_volume,
            i64::MAX,
            &self.name,
            network,
            state,
            network.depth_limit(),
        )
    }

    /// The least volume of the virtual storage at the current state; without a
    /// bound, the least amount there is.
    pub fn get_min_volume(&self, network: &Network, state: &State) -> (r: Result<Value, PywrError>)
        ensures
            outcome(r) == constraint_value(
                self.min_volume,
                i64::MIN,
                self.name@,
                *network,
                *state,
                network.evaluation_depth(),
            ),
    {
        constraint_within(
            &self.min_volume,
            i64::MIN,
            &self.name,
            network,
            state,
            network.depth_limit(),
        )
    }
}

/// The values of the metrics, in their order, or the first failure to read
/// one.
pub open spec fn metric_values(metrics: Seq<Metric>, network: Network, state: State) -> Result<
    Seq<Value>,
    ErrorView,
>
    decreases metrics.len(),
{
    if metrics.len() == 0 {
        Ok(Seq::empty())
    } else {
        match metric_values(metrics.drop_last(), network, state) {
            Err(e) => Err(e),
            Ok(head) => match metric_value(
                metrics.last(),
                network,
                state,
                network.evaluation_depth(),
            ) {
                Err(e) => Err(e),
                Ok(v) => Ok(head.push(v)),
            },
        }
    }
}

/// A failure among the first `n` metrics is the failure of all.
pub proof fn lemma_metric_values_fail_in_prefix(
    metrics: Seq<Metric>,
    network: Network,
    state: State,
    n: int,
)
    requires
        0 <= n <= metrics.len(),
        metric_values(metrics.take(n), network, state).is_err(),
    ensures
        metric_values(metrics, network, state) == metric_values(metrics.take(n), network, state),
    decreases metrics.len() - n,
{
    if n < metrics.len() {
        assert(metrics.take(n + 1).drop_last() =~= metrics.take(n));
        lemma_metric_values_fail_in_prefix(metrics, network, state, n + 1);
    } else {
        assert(metrics.take(n) =~= metrics);
    }
}

/// The values of the metrics at the current state, in their order.
pub fn get_values(metrics: &Vec<Metric>, network: &Network, state: &State) -> (r: Result<
    Vec<Value>,
    PywrError,
>)
    ensures
        match r {
            Ok(v) => metric_values(metrics@, *network, *state) == Ok::<Seq<Value>, ErrorView>(v@)
                && v.len() == metrics.len(),
            Err(e) => metric_values(metrics@, *network, *state) == Err::<Seq<Value>, ErrorView>(
                e@,
            ),
        },
{
    let mut out: Vec<Value> = Vec::new();
    let mut i: usize = 0;
    while i < metrics.len()
        invariant
            i <= metrics.len(),
            out.len() == i,
            metric_values(metrics@.take(i as int), *network, *state) == Ok::<
                Seq<Value>,
                ErrorView,
            >(out@),
        decreases metrics.len() - i,
    {
        proof {
            assert(metrics@.take(i + 1).drop_last() =~= metrics@.take(i as int));
        }
        match metrics[i].get_value(network, state) {
            Err(e) => {
                proof {
                    lemma_metric_values_fail_in_prefix(metrics@, *network, *state, i + 1);
                }
                return Err(e);
            },
            Ok(v) => {
                out.push(v);
            },
        }
        i += 1;
    }
    assert(metrics@.take(i as int) =~= metrics@);
    Ok(out)
}

/// An owned copy of an optional string.
pub fn clone_optional_string(s: &Option<String>) -> (r: Option<String>)
    ensures
        r == *s,
{
    match s {
        Some(text) => Some(text.clone()),
        None => None,
    }
}

/// Whether two metrics read the same: at every network and state they have
/// the same value.
pub open spec fn reads_alike(a: Metric, b: Metric) -> bool {
    forall|network: Network, state: State, depth: nat|
        #[trigger] metric_value(a, network, state, depth) == metric_value(
            b,
            network,
            state,
            depth,
        )
}

impl Clone for Metric {
    /// A copy that reads as the metric does.
    fn clone(&self) -> (r: Self)
        ensures
            reads_alike(r, *self),
        decreases self,
    {
        let r = match self {
            Metric::NodeInFlow(i) => Metric::NodeInFlow(*i),
            Metric::NodeOutFlow(i) => Metric::NodeOutFlow(*i),
            Metric::NodeVolume(i) => Metric::NodeVolume(*i),
            Metric::NodeInFlowDeficit(i) => Metric::NodeInFlowDeficit(*i),
            Metric::NodeProportionalVolume(i) => Metric::NodeProportionalVolume(*i),
            Metric::AggregatedNodeInFlow(i) => Metric::AggregatedNodeInFlow(*i),
            Metric::AggregatedNodeOutFlow(i) => Metric::AggregatedNodeOutFlow(*i),
            Metric::AggregatedNodeVolume(i) => Metric::AggregatedNodeVolume(*i),
            Metric::AggregatedNodeProportionalVolume(i) => {
                Metric::AggregatedNodeProportionalVolume(*i)
            },
            Metric::EdgeFlow(i) => Metric::EdgeFlow(*i),
            Metric::ParameterValue(i) => Metric::ParameterValue(*i),
            Metric::MultiParameterValue(i, key) => Metric::MultiParameterValue(*i, key.clone()),
            Metric::VirtualStorageVolume(i) => Metric::VirtualStorageVolume(*i),
            Metric::VirtualStorageProportionalVolume(i) => {
                Metric::VirtualStorageProportionalVolume(*i)
            },
            Metric::VolumeBetweenControlCurves(v) => Metric::VolumeBetweenControlCurves(
                VolumeBetweenControlCurves {
                    max_volume: Box::new((&*v.max_volume).clone()),
                    upper: match &v.upper {
                        Some(m) => Some(Box::new((&**m).clone())),
                        None => None,
                    },
                    lower: match &v.lower {
                        Some(m) => Some(Box::new((&**m).clone())),
                        None => None,
                    },
                },
            ),
            Metric::MultiNodeInFlow { indices, name, sub_name } => Metric::MultiNodeInFlow {
                indices: indices.clone(),
                name: name.clone(),
                sub_name: clone_optional_string(sub_name),
            },
            Metric::Constant(v) => Metric::Constant(*v),
        };
        assert forall|network: Network, state: State, depth: nat|
            #[trigger] metric_value(r, network, state, depth) == metric_value(
                *self,
                network,
                state,
                depth,
            ) by {
            match self {
                Metric::VolumeBetweenControlCurves(v) => {
                    let copy = r->VolumeBetweenControlCurves_0;
                    assert(metric_value(*copy.max_volume, network, state, depth) == metric_value(
                        *v.max_volume,
                        network,
                        state,
                        depth,
                    ));
                    if v.lower.is_some() {
                        assert(metric_value(*copy.lower.unwrap(), network, state, depth)
                            == metric_value(*v.lower.unwrap(), network, state, depth));
                    }
                    if v.upper.is_some() {
                        assert(metric_value(*copy.upper.unwrap(), network, state, depth)
                            == metric_value(*v.upper.unwrap(), network, state, depth));
                    }
                },
                _ => {},
            }
        }
        r
    }
}

impl Clone for VolumeBetweenControlCurves {
    /// A copy whose parts read as the parts do.
    fn clone(&self) -> (r: Self)
        ensures
            reads_alike(*r.max_volume, *self.max_volume),
            r.upper.is_some() == self.upper.is_some(),
            r.upper.is_some() ==> reads_alike(*r.upper.unwrap(), *self.upper.unwrap()),
            r.lower.is_some() == self.lower.is_some(),
            r.lower.is_some() ==> reads_alike(*r.lower.unwrap(), *self.lower.unwrap()),
    {
        VolumeBetweenControlCurves {
            max_volume: Box::new((&*self.max_volume).clone()),
            upper: match &self.upper {
                Some(m) => Some(Box::new((&**m).clone())),
                None => None,
            },
            lower: match &self.lower {
                Some(m) => Some(Box::new((&**m).clone())),
                None => None,
            },
        }
    }
}

} // verus!
