//! The bounds and costs of one step: what the constraints of a network come to
//! at the state in which the step starts.

use vstd::prelude::*;
use crate::aggregated_node::AggregatedNode;
use crate::error::{ErrorView, PywrError};
use crate::metric::{constraint_value, get_values, metric_values};
use crate::network::Network;
use crate::node::Node;
use crate::state::State;
use crate::value::Value;
use crate::virtual_storage::VirtualStorage;

verus! {

/// The bounds and the cost of a node at one step.
#[derive(Clone, Copy, Debug, PartialEq, Eq)]
pub struct NodeBounds {
    pub min_flow: Value,
    pub max_flow: Value,
    pub cost: Value,
    pub min_volume: Value,
    pub max_volume: Value,
}

/// The bounds and the factors of an aggregated node at one step.
#[derive(Clone, Debug, PartialEq, Eq)]
pub struct AggregatedBounds {
    pub min_flow: Value,
    pub max_flow: Value,
    /// One factor per member, where the aggregated node has factors.
    pub factors: Option<Vec<Value>>,
}

/// The bounds and the cost of a virtual storage at one step.
#[derive(Clone, Copy, Debug, PartialEq, Eq)]
pub struct VirtualStorageBounds {
    pub min_volume: Value,
    pub max_volume: Value,
    pub cost: Value,
}

/// The bounds and costs of everything in a network at one step.
#[derive(Clone, Debug, PartialEq, Eq)]
pub struct StepBounds {
    pub nodes: Vec<NodeBounds>,
    pub aggregated_nodes: Vec<AggregatedBounds>,
    pub virtual_storages: Vec<VirtualStorageBounds>,
}

/// The bounds and the cost of a node at a state, or the first failure to read
/// one, in the order: least flow, greatest flow, cost, least volume, greatest
/// volume. Without a bound below it is the least amount there is, without a
/// bound above the greatest, and without a cost the cost is zero.
pub open spec fn node_bounds(node: Node, network: Network, state: State) -> Result<
    NodeBounds,
    ErrorView,
> {
    let depth = network.evaluation_depth();
    match constraint_value(node.min_flow, i64::MIN, node.name@, network, state, depth) {
        Err(e) => Err(e),
        Ok(min_flow) => match constraint_value(
            node.max_flow,
            i64::MAX,
            node.name@,
            network,
            state,
            depth,
        ) {
            Err(e) => Err(e),
            Ok(max_flow) => match constraint_value(
                node.cost,
                0,
                node.name@,
                network,
                state,
                depth,
            ) {
                Err(e) => Err(e),
                Ok(cost) => match constraint_value(
                    node.min_volume,
                    i64::MIN,
                    node.name@,
                    network,
                    state,
                    depth,
                ) {
                    Err(e) => Err(e),
                    Ok(min_volume) => match constraint_value(
                        node.max_volume,
                        i64::MAX,
                        node.name@,
                        network,
                        state,
                        depth,
                    ) {
                        Err(e) => Err(e),
                        Ok(max_volume) => Ok(
                            NodeBounds { min_flow, max_flow, cost, min_volume, max_volume },
                        ),
                    },
                },
            },
        },
    }
}

/// The bounds and the factors of an aggregated node at a state, or the first
/// failure to read one, in the order: least flow, greatest flow, factors.
pub open spec fn aggregated_bounds(node: AggregatedNode, network: Network, state: State) -> Result<
    (Value, Value, Option<Seq<Value>>),
    ErrorView,
> {
    let depth = network.evaluation_depth();
    match constraint_value(node.min_flow, i64::MIN, node.name@, network, state, depth) {
        Err(e) => Err(e),
        Ok(min_flow) => match constraint_value(
            node.max_flow,
            i64::MAX,
            node.name@,
            network,
            state,
            depth,
        ) {
            Err(e) => Err(e),
            Ok(max_flow) => match node.factors {
                None => Ok((min_flow, max_flow, None)),
                Some(f) => match metric_values(f.metrics(), network, state) {
                    Err(e) => Err(e),
                    Ok(values) => Ok((min_flow, max_flow, Some(values))),
                },
            },
        },
    }
}

/// The bounds and the cost of a virtual storage at a state, or the first
/// failure to read one, in the order: least volume, greatest volume, cost.
pub open spec fn virtual_storage_bounds(
    node: VirtualStorage,
    network: Network,
    state: State,
) -> Result<
    VirtualStorageBounds,
    ErrorView,
> {
    let depth = network.evaluation_depth();
    match constraint_value(node.min_volume, i64::MIN, node.name@, network, state, depth) {
        Err(e) => Err(e),
        Ok(min_volume) => match constraint_value(
            node.max_volume,
            i64::MAX,
            node.name@,
            network,
            state,
            depth,
        ) {
            Err(e) => Err(e),
            Ok(max_volume) => match constraint_value(
                node.cost,
                0,
                node.name@,
                network,
                state,
                depth,
            ) {
                Err(e) => Err(e),
                Ok(cost) => Ok(VirtualStorageBounds { min_volume, max_volume, cost }),
            },
        },
    }
}

impl AggregatedBounds {
    /// The bounds and the factors, with the factors as a sequence.
    pub open spec fn parts(&self) -> (Value, Value, Option<Seq<Value>>) {
        (
            self.min_flow,
            self.max_flow,
            match self.factors {
                Some(f) => Some(f@),
                None => None,
            },
        )
    }
}

impl StepBounds {
    /// Whether these are the bounds and costs of a network at a state.
    pub open spec fn of(&self, network: Network, state: State) -> bool {
        &&& self.nodes.len() == network.nodes.len()
        &&& forall|n: int|
            0 <= n < network.nodes.len() ==> node_bounds(
                #[trigger] network.nodes[n],
                network,
                state,
            ) == Ok::<NodeBounds, ErrorView>(self.nodes[n])
        &&& self.aggregated_nodes.len() == network.aggregated_nodes.len()
        &&& forall|a: int|
            0 <= a < network.aggregated_nodes.len() ==> aggregated_bounds(
                #[trigger] network.aggregated_nodes[a],
                network,
                state,
            ) == Ok::<(Value, Value, Option<Seq<Value>>), ErrorView>(
                self.aggregated_nodes[a].parts(),
            )
        &&& self.virtual_storages.len() == network.virtual_storage_nodes.len()
        &&& forall|v: int|
            0 <= v < network.virtual_storage_nodes.len() ==> virtual_storage_bounds(
                #[trigger] network.virtual_storage_nodes[v],
                network,
                state,
            ) == Ok::<VirtualStorageBounds, ErrorView>(self.virtual_storages[v])
    }

    /// Whether the bounds and costs of the first `upto` nodes can be read.
    pub open spec fn nodes_read(network: Network, state: State, upto: int) -> bool {
        forall|k: int|
            0 <= k < upto && k < network.nodes.len() ==> node_bounds(
                #[trigger] network.nodes[k],
                network,
                state,
            ).is_ok()
    }

    /// Whether the bounds and factors of the first `upto` aggregated nodes can
    /// be read.
    pub open spec fn aggregated_nodes_read(network: Network, state: State, upto: int) -> bool {
        forall|k: int|
            0 <= k < upto && k < network.aggregated_nodes.len() ==> aggregated_bounds(
                #[trigger] network.aggregated_nodes[k],
                network,
                state,
            ).is_ok()
    }

    /// Whether the bounds and costs of the first `upto` virtual storages can be
    /// read.
    pub open spec fn virtual_storages_read(network: Network, state: State, upto: int) -> bool {
        forall|k: int|
            0 <= k < upto && k < network.virtual_storage_nodes.len() ==> virtual_storage_bounds(
                #[trigger] network.virtual_storage_nodes[k],
                network,
                state,
            ).is_ok()
    }

    /// Whether this is the first failure to read the bounds and costs of a
    /// network at a state, in the order: the nodes, the aggregated nodes, the
    /// virtual storages, each in the order of their handles.
    pub open spec fn fails_with(network: Network, state: State, e: ErrorView) -> bool {
        ||| exists|n: int|
            0 <= n < network.nodes.len() && Self::nodes_read(network, state, n) && node_bounds(
                #[trigger] network.nodes[n],
                network,
                state,
            ) == Err::<NodeBounds, ErrorView>(e)
        ||| Self::nodes_read(network, state, network.nodes.len() as int) && exists|a: int|
            0 <= a < network.aggregated_nodes.len() && Self::aggregated_nodes_read(
                network,
                state,
                a,
            ) && aggregated_bounds(#[trigger] network.aggregated_nodes[a], network, state) == Err::<
                (Value, Value, Option<Seq<Value>>),
                ErrorView,
            >(e)
        ||| Self::nodes_read(network, state, network.nodes.len() as int)
            && Self::aggregated_nodes_read(
            network,
            state,
            network.aggregated_nodes.len() as int,
        ) && exists|v: int|
            0 <= v < network.virtual_storage_nodes.len() && Self::virtual_storages_read(
                network,
                state,
                v,
            ) && virtual_storage_bounds(#[trigger] network.virtual_storage_nodes[v], network, state)
                == Err::<VirtualStorageBounds, ErrorView>(e)
    }

    /// Reads the bounds and costs of a network at a state: of the nodes, then of
    /// the aggregated nodes, then of the virtual storages. It succeeds exactly
    /// where every one of them can be read, and else fails with the first
    /// failure to read one of them.
    pub fn evaluate(network: &Network, state: &State) -> (r: Result<StepBounds, PywrError>)
        ensures
            match r {
                Ok(bounds) => bounds.of(*network, *state),
                Err(e) => Self::fails_with(*network, *state, e@),
            },
    {
        let mut nodes: Vec<NodeBounds> = Vec::new();
        let mut n: usize = 0;
        while n < network.nodes.len()
            invariant
                n <= network.nodes.len(),
                nodes.len() == n,
                forall|k: int|
                    0 <= k < n ==> node_bounds(#[trigger] network.nodes[k], *network, *state)
                        == Ok::<NodeBounds, ErrorView>(nodes[k]),
            decreases network.nodes.len() - n,
        {
            let node = &network.nodes[n];
            let min_flow = match node.get_current_min_flow(network, state) {
                Err(e) => {
                    return Err(e);
                },
                Ok(v) => v,
            };
            let max_flow = match node.get_current_max_flow(network, state) {
                Err(e) => {
                    return Err(e);
                },
                Ok(v) => v,
            };
            let cost = match node.get_current_cost(network, state) {
                Err(e) => {
                    return Err(e);
                },
                Ok(v) => v,
            };
            let min_volume = match node.get_current_min_volume(network, state) {
                Err(e) => {
                    return Err(e);
                },
                Ok(v) => v,
            };
            let max_volume = match node.get_current_max_volume(network, state) {
                Err(e) => {
                    return Err(e);
                },
                Ok(v) => v,
            };
            nodes.push(NodeBounds { min_flow, max_flow, cost, min_volume, max_volume });
            n += 1;
        }
        let mut aggregated_nodes: Vec<AggregatedBounds> = Vec::new();
        let mut a: usize = 0;
        while a < network.aggregated_nodes.len()
            invariant
                a <= network.aggregated_nodes.len(),
                aggregated_nodes.len() == a,
                Self::nodes_read(*network, *state, network.nodes.len() as int),
                forall|k: int|
                    0 <= k < a ==> aggregated_bounds(
                        #[trigger] network.aggregated_nodes[k],
                        *network,
                        *state,
                    ) == Ok::<(Value, Value, Option<Seq<Value>>), ErrorView>(
                        aggregated_nodes[k].parts(),
                    ),
            decreases network.aggregated_nodes.len() - a,
        {
            let node = &network.aggregated_nodes[a];
            let min_flow = match node.get_current_min_flow(network, state) {
                Err(e) => {
                    return Err(e);
                },
                Ok(v) => v,
            };
            let max_flow = match node.get_current_max_flow(network, state) {
                Err(e) => {
                    return Err(e);
                },
                Ok(v) => v,
            };
            let factors = match &node.factors {
                None => None,
                Some(f) => {
                    let metrics = match f {
                        crate::aggregated_node::Factors::Proportion(m) => m,
                        crate::aggregated_node::Factors::Ratio(m) => m,
                    };
                    match get_values(metrics, network, state) {
                        Err(e) => {
                            return Err(e);
                        },
                        Ok(values) => Some(values),
                    }
                },
            };
            aggregated_nodes.push(AggregatedBounds { min_flow, max_flow, factors });
            a += 1;
        }
        let mut virtual_storages: Vec<VirtualStorageBounds> = Vec::new();
        let mut v: usize = 0;
        while v < network.virtual_storage_nodes.len()
            invariant
                v <= network.virtual_storage_nodes.len(),
                virtual_storages.len() == v,
                Self::nodes_read(*network, *state, network.nodes.len() as int),
                Self::aggregated_nodes_read(
                    *network,
                    *state,
                    network.aggregated_nodes.len() as int,
                ),
                forall|k: int|
                    0 <= k < v ==> virtual_storage_bounds(
                        #[trigger] network.virtual_storage_nodes[k],
                        *network,
                        *state,
                    ) == Ok::<VirtualStorageBounds, ErrorView>(virtual_storages[k]),
            decreases network.virtual_storage_nodes.len() - v,
        {
            let node = &network.virtual_storage_nodes[v];
            let min_volume = match node.get_min_volume(network, state) {
                Err(e) => {
                    return Err(e);
                },
                Ok(x) => x,
            };
            let max_volume = match node.get_max_volume(network, state) {
                Err(e) => {
                    return Err(e);
                },
                Ok(x) => x,
            };
            let cost = match node.get_cost(network, state) {
                Err(e) => {
                    return Err(e);
                },
                Ok(x) => x,
            };
            virtual_storages.push(VirtualStorageBounds { min_volume, max_volume, cost });
            v += 1;
        }
        Ok(StepBounds { nodes, aggregated_nodes, virtual_storages })
    }
}

} // verus!
