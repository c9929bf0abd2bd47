//! The linear program of one step.
//!
//! There is one column for each edge: the flow on it, which is at least zero.
//! The rows follow the nodes and then the aggregated nodes, in the order of
//! their handles. A link has a row that balances what flows in against what
//! flows out, and a row that bounds the flow through it; an input and an output
//! have the row that bounds their flow; a storage has a row that keeps its
//! volume within its bounds over the step. An aggregated node has a row that
//! bounds the flow through its members and, with factors, one row for each
//! member but the first, which ties the flow through it to the flow through the
//! first. The rows and their columns depend on the network alone; the bounds
//! and the coefficients of the factors are those of the step.

use vstd::prelude::*;
use crate::edge::Edge;
use crate::network::Network;
use crate::node::NodeKind;
use crate::solvers::bounds::StepBounds;
use crate::state::State;
use crate::timestep::Timestep;
use crate::value::{clamp, narrow, negate, plus, Value, UNIT};

verus! {

/// What a row of the linear program is about.
#[derive(Clone, Copy, Debug, PartialEq, Eq, Structural)]
pub enum RowKind {
    /// What flows into the link less what flows out of it is zero.
    Balance(usize),
    /// The flow through the node lies between its least and greatest flow.
    Flow(usize),
    /// What flows into the storage less what flows out of it keeps the volume
    /// between the least and the greatest volume.
    Storage(usize),
    /// The flow through the members of the aggregated node lies between its
    /// least and greatest flow.
    AggregatedFlow(usize),
    /// The flow through the first member of the aggregated node times the
    /// factor of the member at the position, less the flow through that member
    /// times the factor of the first, is zero.
    Factor(usize, usize),
}

/// A row of a linear program: the sum of the columns, each times its
/// coefficient, lies between the bounds. A bound that is absent does not bind.
#[derive(Clone, Debug, PartialEq, Eq)]
pub struct Row {
    pub entries: Vec<(usize, Value)>,
    pub lower: Option<Value>,
    pub upper: Option<Value>,
}

/// A linear program: the sum of the columns, each times its cost, is to be as
/// small as the rows allow, with no column below zero.
#[derive(Clone, Debug, PartialEq, Eq)]
pub struct Lp {
    pub columns: usize,
    pub objective: Vec<Value>,
    pub kinds: Vec<RowKind>,
    pub rows: Vec<Row>,
}

/// The rows of one node.
pub open spec fn node_rows(kind: NodeKind, node: usize) -> Seq<RowKind> {
    match kind {
        NodeKind::Link => seq![RowKind::Balance(node), RowKind::Flow(node)],
        NodeKind::Input => seq![RowKind::Flow(node)],
        NodeKind::Output => seq![RowKind::Flow(node)],
        NodeKind::Storage => seq![RowKind::Storage(node)],
    }
}

/// The rows of the first `upto` nodes.
pub open spec fn rows_of_nodes(network: Network, upto: int) -> Seq<RowKind>
    decreases upto,
{
    if upto <= 0 {
        Seq::empty()
    } else {
        rows_of_nodes(network, upto - 1) + node_rows(
            network.nodes[upto - 1].kind,
            (upto - 1) as usize,
        )
    }
}

/// The number of members of an aggregated node that have a factor.
pub open spec fn tied(network: Network, aggregated_node: int) -> int {
    let node = network.aggregated_nodes[aggregated_node];
    match node.factors {
        None => 0,
        Some(f) => if f.metrics().len() <= node.nodes.len() {
            f.metrics().len() as int
        } else {
            node.nodes.len() as int
        },
    }
}

/// The rows of one aggregated node: the row of its flow and, up to the
/// position `upto`, the rows of its factors.
pub open spec fn aggregated_rows(aggregated_node: usize, upto: int) -> Seq<RowKind>
    decreases upto,
{
    if upto <= 1 {
        seq![RowKind::AggregatedFlow(aggregated_node)]
    } else {
        aggregated_rows(aggregated_node, upto - 1).push(
            RowKind::Factor(aggregated_node, (upto - 1) as usize),
        )
    }
}

/// The rows of the first `upto` aggregated nodes.
pub open spec fn rows_of_aggregated_nodes(network: Network, upto: int) -> Seq<RowKind>
    decreases upto,
{
    if upto <= 0 {
        Seq::empty()
    } else {
        rows_of_aggregated_nodes(network, upto - 1) + aggregated_rows(
            (upto - 1) as usize,
            tied(network, upto - 1),
        )
    }
}

/// The rows of a network, in their order.
pub open spec fn layout(network: Network) -> Seq<RowKind> {
    rows_of_nodes(network, network.nodes.len() as int) + rows_of_aggregated_nodes(
        network,
        network.aggregated_nodes.len() as int,
    )
}

/// Whether an edge carries flow through a node: out of an input, into every
/// other node.
pub open spec fn carries(network: Network, edge: Edge, node: usize) -> bool {
    if node < network.nodes.len() && network.nodes[node as int].kind == NodeKind::Input {
        edge.from_node.0 == node
    } else {
        edge.to_node.0 == node
    }
}

/// The columns of the first `upto` edges that carry flow through a node, each
/// with the coefficient.
pub open spec fn through_entries(
    network: Network,
    node: usize,
    coefficient: Value,
    upto: int,
) -> Seq<
    (usize, Value),
>
    decreases upto,
{
    if upto <= 0 {
        Seq::empty()
    } else {
        through_entries(network, node, coefficient, upto - 1) + if carries(
            network,
            network.edges[upto - 1],
            node,
        ) {
            seq![((upto - 1) as usize, coefficient)]
        } else {
            Seq::empty()
        }
    }
}

/// The columns of the first `upto` edges that enter or leave a node: with one
/// for an edge that enters it, with minus one for an edge that leaves it.
pub open spec fn balance_entries(network: Network, node: usize, upto: int) -> Seq<(usize, Value)>
    decreases upto,
{
    if upto <= 0 {
        Seq::empty()
    } else {
        balance_entries(network, node, upto - 1) + (if network.edges[upto - 1].to_node.0 == node {
            seq![((upto - 1) as usize, UNIT)]
        } else {
            Seq::empty()
        }) + (if network.edges[upto - 1].from_node.0 == node {
            seq![((upto - 1) as usize, (-UNIT) as i64)]
        } else {
            Seq::empty()
        })
    }
}

/// The columns of the edges that carry flow through the first `upto` members
/// of an aggregated node, member by member, each with the coefficient.
pub open spec fn members_entries(
    network: Network,
    aggregated_node: usize,
    coefficient: Value,
    upto: int,
) -> Seq<(usize, Value)>
    decreases upto,
{
    if upto <= 0 {
        Seq::empty()
    } else {
        members_entries(network, aggregated_node, coefficient, upto - 1) + through_entries(
            network,
            network.aggregated_nodes[aggregated_node as int].nodes[upto - 1].0,
            coefficient,
            network.edges.len() as int,
        )
    }
}

/// A bound below, or nothing where the bound is the least amount there is.
pub open spec fn lower_of(bound: Value) -> Option<Value> {
    if bound == i64::MIN {
        None
    } else {
        Some(bound)
    }
}

/// A bound above, or nothing where the bound is the greatest amount there is.
pub open spec fn upper_of(bound: Value) -> Option<Value> {
    if bound == i64::MAX {
        None
    } else {
        Some(bound)
    }
}

/// The least whole number of units that is not below `a / b`, for a positive
/// `b`.
pub open spec fn rounded_up(a: int, b: int) -> int {
    if a >= 0 {
        (a + b - 1) / b
    } else {
        -((-a) / b)
    }
}

/// The greatest whole number of units that is not above `a / b`, for a positive
/// `b`.
pub open spec fn rounded_down(a: int, b: int) -> int {
    if a >= 0 {
        a / b
    } else {
        -((-a + b - 1) / b)
    }
}

/// The least net inflow per day that keeps a volume at or above its least
/// volume over a step; nothing where the volume has no bound below or the step
/// has no length.
pub open spec fn least_net_inflow(min_volume: Value, volume: Value, days: u32) -> Option<Value> {
    if min_volume == i64::MIN || days == 0 {
        None
    } else {
        Some(clamp(rounded_up(min_volume - volume, days as int)) as i64)
    }
}

/// The greatest net inflow per day that keeps a volume at or below its
/// greatest volume over a step; nothing where the volume has no bound above or
/// the step has no length.
pub open spec fn greatest_net_inflow(max_volume: Value, volume: Value, days: u32) -> Option<Value> {
    if max_volume == i64::MAX || days == 0 {
        None
    } else {
        Some(clamp(rounded_down(max_volume - volume, days as int)) as i64)
    }
}

/// The factor of the member at a position of an aggregated node at the bounds
/// of a step; zero where the bounds hold none.
pub open spec fn factor_at(bounds: StepBounds, aggregated_node: usize, position: usize) -> Value {
    if aggregated_node < bounds.aggregated_nodes.len() {
        match bounds.aggregated_nodes[aggregated_node as int].factors {
            Some(f) => if position < f.len() {
                f[position as int]
            } else {
                0
            },
            None => 0,
        }
    } else {
        0
    }
}

/// The volume that the state holds for a node; zero where it holds none.
pub open spec fn volume_of(state: State, node: usize) -> Value {
    if node < state.network_state.node_volumes.len() {
        state.network_state.node_volumes[node as int]
    } else {
        0
    }
}

/// What a row of a kind holds for a network at the bounds and the state of a
/// step: its columns with their coefficients, and its two bounds. A row of a
/// node or an aggregated node that the bounds do not hold does not bind.
pub open spec fn row_of(
    network: Network,
    bounds: StepBounds,
    state: State,
    timestep: Timestep,
    kind: RowKind,
) -> (Seq<(usize, Value)>, Option<Value>, Option<Value>) {
    let edges = network.edges.len() as int;
    match kind {
        RowKind::Balance(node) => (balance_entries(network, node, edges), Some(0i64), Some(0i64)),
        RowKind::Flow(node) => (
            through_entries(network, node, UNIT, edges),
            if node < bounds.nodes.len() {
                lower_of(bounds.nodes[node as int].min_flow)
            } else {
                None
            },
            if node < bounds.nodes.len() {
                upper_of(bounds.nodes[node as int].max_flow)
            } else {
                None
            },
        ),
        RowKind::Storage(node) => (
            balance_entries(network, node, edges),
            if node < bounds.nodes.len() {
                least_net_inflow(
                    bounds.nodes[node as int].min_volume,
                    volume_of(state, node),
                    timestep.days,
                )
            } else {
                None
            },
            if node < bounds.nodes.len() {
                greatest_net_inflow(
                    bounds.nodes[node as int].max_volume,
                    volume_of(state, node),
                    timestep.days,
                )
            } else {
                None
            },
        ),
        RowKind::AggregatedFlow(a) => (
            members_entries(
                network,
                a,
                UNIT,
                network.aggregated_nodes[a as int].nodes.len() as int,
            ),
            if a < bounds.aggregated_nodes.len() {
                lower_of(bounds.aggregated_nodes[a as int].min_flow)
            } else {
                None
            },
            if a < bounds.aggregated_nodes.len() {
                upper_of(bounds.aggregated_nodes[a as int].max_flow)
            } else {
                None
            },
        ),
        RowKind::Factor(a, position) => (
            through_entries(
                network,
                network.aggregated_nodes[a as int].nodes[0].0,
                factor_at(bounds, a, position),
                edges,
            ) + through_entries(
                network,
                network.aggregated_nodes[a as int].nodes[position as int].0,
                clamp(-factor_at(bounds, a, 0)) as i64,
                edges,
            ),
            Some(0i64),
            Some(0i64),
        ),
    }
}

/// The cost of a unit of flow on an edge: the cost of the node it leaves,
/// where that is an input or a storage, and the cost of the node it enters,
/// where that is a link or an output.
pub open spec fn edge_cost(network: Network, bounds: StepBounds, edge: int) -> Value {
    let from = network.edges[edge].from_node.0;
    let to = network.edges[edge].to_node.0;
    let leaving: int = if from < network.nodes.len() && from < bounds.nodes.len() && (
    network.nodes[from as int].kind == NodeKind::Input || network.nodes[from as int].kind
        == NodeKind::Storage) {
        bounds.nodes[from as int].cost as int
    } else {
        0
    };
    let entering: int = if to < network.nodes.len() && to < bounds.nodes.len() && (
    network.nodes[to as int].kind == NodeKind::Link || network.nodes[to as int].kind
        == NodeKind::Output) {
        bounds.nodes[to as int].cost as int
    } else {
        0
    };
    clamp(leaving + entering) as i64
}

impl Lp {
    /// Whether this is the linear program of a network at the bounds and the
    /// state of a step.
    pub open spec fn describes(
        &self,
        network: Network,
        bounds: StepBounds,
        state: State,
        timestep: Timestep,
    ) -> bool {
        &&& self.columns == network.edges.len()
        &&& self.objective.len() == network.edges.len()
        &&& forall|e: int|
            0 <= e < network.edges.len() ==> #[trigger] self.objective[e] == edge_cost(
                network,
                bounds,
                e,
            )
        &&& self.kinds@ == layout(network)
        &&& self.rows.len() == self.kinds.len()
        &&& forall|r: int|
            0 <= r < self.rows.len() ==> (
                (#[trigger] self.rows[r]).entries@,
                self.rows[r].lower,
                self.rows[r].upper,
            ) == row_of(network, bounds, state, timestep, self.kinds[r])
    }
}

/// The columns of the edges that carry flow through a node, appended to
/// `entries`.
fn push_through(
    network: &Network,
    node: usize,
    coefficient: Value,
    entries: &mut Vec<(usize, Value)>,
)
    ensures
        final(entries)@ == old(entries)@ + through_entries(
            *network,
            node,
            coefficient,
            network.edges.len() as int,
        ),
{
    let leaving = node < network.nodes.len() && network.nodes[node].kind == NodeKind::Input;
    let mut e: usize = 0;
    assert(entries@ =~= old(entries)@ + through_entries(*network, node, coefficient, 0));
    while e < network.edges.len()
        invariant
            e <= network.edges.len(),
            leaving == (node < network.nodes.len() && network.nodes[node as int].kind
                == NodeKind::Input),
            entries@ == old(entries)@ + through_entries(*network, node, coefficient, e as int),
        decreases network.edges.len() - e,
    {
        let edge = network.edges[e];
        let through = if leaving {
            edge.from_node.0 == node
        } else {
            edge.to_node.0 == node
        };
        if through {
            entries.push((e, coefficient));
        }
        e += 1;
        assert(entries@ =~= old(entries)@ + through_entries(*network, node, coefficient, e as int));
    }
}

/// The columns of the edges that enter or leave a node.
fn balance_of(network: &Network, node: usize) -> (entries: Vec<(usize, Value)>)
    ensures
        entries@ == balance_entries(*network, node, network.edges.len() as int),
{
    let mut entries: Vec<(usize, Value)> = Vec::new();
    let mut e: usize = 0;
    while e < network.edges.len()
        invariant
            e <= network.edges.len(),
            entries@ == balance_entries(*network, node, e as int),
        decreases network.edges.len() - e,
    {
        let edge = network.edges[e];
        if edge.to_node.0 == node {
            entries.push((e, UNIT));
        }
        if edge.from_node.0 == node {
            entries.push((e, -UNIT));
        }
        e += 1;
        assert(entries@ =~= balance_entries(*network, node, e as int));
    }
    entries
}

/// A bound below, or nothing where the bound is the least amount there is.
fn as_lower(bound: Value) -> (r: Option<Value>)
    ensures
        r == lower_of(bound),
{
    if bound == i64::MIN {
        None
    } else {
        Some(bound)
    }
}

/// A bound above, or nothing where the bound is the greatest amount there is.
fn as_upper(bound: Value) -> (r: Option<Value>)
    ensures
        r == upper_of(bound),
{
    if bound == i64::MAX {
        None
    } else {
        Some(bound)
    }
}

/// The bounds on the net inflow per day of a storage over a step.
fn net_inflow_bounds(min_volume: Value, max_volume: Value, volume: Value, days: u32) -> (r: (
    Option<Value>,
    Option<Value>,
))
    ensures
        r.0 == least_net_inflow(min_volume, volume, days),
        r.1 == greatest_net_inflow(max_volume, volume, days),
{
    if days == 0 {
        return (None, None);
    }
    let d: i128 = days as i128;
    let lower = if min_volume == i64::MIN {
        None
    } else {
        let room: i128 = min_volume as i128 - volume as i128;
        let per_day: i128 = if room >= 0 {
            (room + d - 1) / d
        } else {
            -((-room) / d)
        };
        Some(narrow(per_day))
    };
    let upper = if max_volume == i64::MAX {
        None
    } else {
        let room: i128 = max_volume as i128 - volume as i128;
        let per_day: i128 = if room >= 0 {
            room / d
        } else {
            -((-room + d - 1) / d)
        };
        Some(narrow(per_day))
    };
    (lower, upper)
}

/// The row of a kind.
fn make_row(
    network: &Network,
    bounds: &StepBounds,
    state: &State,
    timestep: &Timestep,
    kind: RowKind,
) -> (row: Row)
    requires
        match kind {
            RowKind::AggregatedFlow(a) => a < network.aggregated_nodes.len(),
            RowKind::Factor(a, position) => a < network.aggregated_nodes.len() && position
                < network.aggregated_nodes[a as int].nodes.len(),
            _ => true,
        },
    ensures
        (row.entries@, row.lower, row.upper) == row_of(*network, *bounds, *state, *timestep, kind),
{
    match kind {
        RowKind::Balance(node) => Row {
            entries: balance_of(network, node),
            lower: Some(0),
            upper: Some(0),
        },
        RowKind::Flow(node) => {
            let mut entries: Vec<(usize, Value)> = Vec::new();
            push_through(network, node, UNIT, &mut entries);
            assert(entries@ =~= through_entries(*network, node, UNIT, network.edges.len() as int));
            if node < bounds.nodes.len() {
                Row {
                    entries,
                    lower: as_lower(bounds.nodes[node].min_flow),
                    upper: as_upper(bounds.nodes[node].max_flow),
                }
            } else {
                Row { entries, lower: None, upper: None }
            }
        },
        RowKind::Storage(node) => {
            let entries = balance_of(network, node);
            if node < bounds.nodes.len() {
                let volume = if node < state.network_state.node_volumes.len() {
                    state.network_state.node_volumes[node]
                } else {
                    0
                };
                let (lower, upper) = net_inflow_bounds(
                    bounds.nodes[node].min_volume,
                    bounds.nodes[node].max_volume,
                    volume,
                    timestep.days,
                );
                Row { entries, lower, upper }
            } else {
                Row { entries, lower: None, upper: None }
            }
        },
        RowKind::AggregatedFlow(a) => {
            let members = &network.aggregated_nodes[a].nodes;
            let mut entries: Vec<(usize, Value)> = Vec::new();
            let mut m: usize = 0;
            while m < members.len()
                invariant
                    m <= members.len(),
                    a < network.aggregated_nodes.len(),
                    members == network.aggregated_nodes[a as int].nodes,
                    entries@ == members_entries(*network, a, UNIT, m as int),
                decreases members.len() - m,
            {
                push_through(network, members[m].0, UNIT, &mut entries);
                m += 1;
            }
            if a < bounds.aggregated_nodes.len() {
                Row {
                    entries,
                    lower: as_lower(bounds.aggregated_nodes[a].min_flow),
                    upper: as_upper(bounds.aggregated_nodes[a].max_flow),
                }
            } else {
                Row { entries, lower: None, upper: None }
            }
        },
        RowKind::Factor(a, position) => {
            let members = &network.aggregated_nodes[a].nodes;
            let of_position = read_factor(bounds, a, position);
            let of_first = read_factor(bounds, a, 0);
            let mut entries: Vec<(usize, Value)> = Vec::new();
            push_through(network, members[0].0, of_position, &mut entries);
            push_through(network, members[position].0, negate(of_first), &mut entries);
            assert(entries@ =~= through_entries(
                *network,
                network.aggregated_nodes[a as int].nodes[0].0,
                factor_at(*bounds, a, position),
                network.edges.len() as int,
            ) + through_entries(
                *network,
                network.aggregated_nodes[a as int].nodes[position as int].0,
                clamp(-factor_at(*bounds, a, 0)) as i64,
                network.edges.len() as int,
            ));
            Row { entries, lower: Some(0), upper: Some(0) }
        },
    }
}

/// The factor of the member at a position of an aggregated node.
fn read_factor(bounds: &StepBounds, aggregated_node: usize, position: usize) -> (r: Value)
    ensures
        r == factor_at(*bounds, aggregated_node, position),
{
    if aggregated_node < bounds.aggregated_nodes.len() {
        match &bounds.aggregated_nodes[aggregated_node].factors {
            Some(f) => if position < f.len() {
                f[position]
            } else {
                0
            },
            None => 0,
        }
    } else {
        0
    }
}

/// The rows of a network, in their order.
pub fn row_layout(network: &Network) -> (kinds: Vec<RowKind>)
    ensures
        kinds@ == layout(*network),
        forall|r: int|
            0 <= r < kinds.len() ==> match #[trigger] kinds[r] {
                RowKind::AggregatedFlow(a) => a < network.aggregated_nodes.len(),
                RowKind::Factor(a, position) => a < network.aggregated_nodes.len() && position
                    < network.aggregated_nodes[a as int].nodes.len(),
                _ => true,
            },
{
    let mut kinds: Vec<RowKind> = Vec::new();
    let mut n: usize = 0;
    while n < network.nodes.len()
        invariant
            n <= network.nodes.len(),
            kinds@ == rows_of_nodes(*network, n as int),
            forall|r: int|
                0 <= r < kinds.len() ==> (#[trigger] kinds[r]) is Balance || kinds[r] is Flow
                    || kinds[r] is Storage,
        decreases network.nodes.len() - n,
    {
        match network.nodes[n].kind {
            NodeKind::Link => {
                kinds.push(RowKind::Balance(n));
                kinds.push(RowKind::Flow(n));
            },
            NodeKind::Input => {
                kinds.push(RowKind::Flow(n));
            },
            NodeKind::Output => {
                kinds.push(RowKind::Flow(n));
            },
            NodeKind::Storage => {
                kinds.push(RowKind::Storage(n));
            },
        }
        n += 1;
        assert(kinds@ =~= rows_of_nodes(*network, n as int));
    }
    let ghost of_nodes = kinds@;
    let mut a: usize = 0;
    assert(kinds@ =~= of_nodes + rows_of_aggregated_nodes(*network, 0));
    while a < network.aggregated_nodes.len()
        invariant
            a <= network.aggregated_nodes.len(),
            of_nodes == rows_of_nodes(*network, network.nodes.len() as int),
            kinds@ == of_nodes + rows_of_aggregated_nodes(*network, a as int),
            forall|r: int|
                0 <= r < kinds.len() ==> match #[trigger] kinds[r] {
                    RowKind::AggregatedFlow(x) => x < network.aggregated_nodes.len(),
                    RowKind::Factor(x, position) => x < network.aggregated_nodes.len() && position
                        < network.aggregated_nodes[x as int].nodes.len(),
                    _ => true,
                },
        decreases network.aggregated_nodes.len() - a,
    {
        let node = &network.aggregated_nodes[a];
        let count: usize = match &node.factors {
            None => 0,
            Some(f) => if f.len() <= node.nodes.len() {
                f.len()
            } else {
                node.nodes.len()
            },
        };
        let ghost before = kinds@;
        kinds.push(RowKind::AggregatedFlow(a));
        let mut position: usize = 1;
        assert(kinds@ =~= before + aggregated_rows(a, 1));
        while position < count
            invariant
                1 <= position,
                position <= count || position == 1,
                count <= network.aggregated_nodes[a as int].nodes.len(),
                a < network.aggregated_nodes.len(),
                kinds@ == before + aggregated_rows(a, position as int),
                forall|r: int|
                    0 <= r < kinds.len() ==> match #[trigger] kinds[r] {
                        RowKind::AggregatedFlow(x) => x < network.aggregated_nodes.len(),
                        RowKind::Factor(x, p) => x < network.aggregated_nodes.len() && p
                            < network.aggregated_nodes[x as int].nodes.len(),
                        _ => true,
                    },
            decreases count - position,
        {
            kinds.push(RowKind::Factor(a, position));
            position += 1;
            assert(kinds@ =~= before + aggregated_rows(a, position as int));
        }
        proof {
            assert(count == tied(*network, a as int));
            if count <= 1 {
                assert(aggregated_rows(a, count as int) =~= aggregated_rows(a, 1));
                assert(position == 1);
            } else {
                assert(position == count);
            }
            let added = aggregated_rows(a, count as int);
            assert(kinds@ == before + added);
            assert(rows_of_aggregated_nodes(*network, a + 1) == rows_of_aggregated_nodes(
                *network,
                a as int,
            ) + aggregated_rows(((a + 1) - 1) as usize, tied(*network, (a + 1) - 1)));
            assert((of_nodes + rows_of_aggregated_nodes(*network, a as int)) + added =~= of_nodes
                + (rows_of_aggregated_nodes(*network, a as int) + added));
            assert(kinds@ =~= of_nodes + rows_of_aggregated_nodes(*network, a + 1));
        }
        a += 1;
    }
    kinds
}

/// The linear program of a network at the bounds and the state of a step.
pub fn build_lp(network: &Network, bounds: &StepBounds, state: &State, timestep: &Timestep) -> (lp:
    Lp)
    ensures
        lp.describes(*network, *bounds, *state, *timestep),
{
    let mut objective: Vec<Value> = Vec::new();
    let mut e: usize = 0;
    while e < network.edges.len()
        invariant
            e <= network.edges.len(),
            objective.len() == e,
            forall|k: int| 0 <= k < e
                ==> #[trigger] objective[k] == edge_cost(*network, *bounds, k),
        decreases network.edges.len() - e,
    {
        let from = network.edges[e].from_node.0;
        let to = network.edges[e].to_node.0;
        let leaving: Value = if from < network.nodes.len() && from < bounds.nodes.len() && (
        network.nodes[from].kind == NodeKind::Input || network.nodes[from].kind
            == NodeKind::Storage) {
            bounds.nodes[from].cost
        } else {
            0
        };
        let entering: Value = if to < network.nodes.len() && to < bounds.nodes.len() && (
        network.nodes[to].kind == NodeKind::Link || network.nodes[to].kind == NodeKind::Output) {
            bounds.nodes[to].cost
        } else {
            0
        };
        objective.push(plus(leaving, entering));
        e += 1;
    }
    let kinds = row_layout(network);
    let mut rows: Vec<Row> = Vec::new();
    let mut r: usize = 0;
    while r < kinds.len()
        invariant
            r <= kinds.len(),
            rows.len() == r,
            kinds@ == layout(*network),
            forall|k: int|
                0 <= k < kinds.len() ==> match #[trigger] kinds[k] {
                    RowKind::AggregatedFlow(a) => a < network.aggregated_nodes.len(),
                    RowKind::Factor(a, position) => a < network.aggregated_nodes.len() && position
                        < network.aggregated_nodes[a as int].nodes.len(),
                    _ => true,
                },
            forall|k: int|
                0 <= k < r ==> ((#[trigger] rows[k]).entries@, rows[k].lower, rows[k].upper)
                    == row_of(*network, *bounds, *state, *timestep, kinds[k]),
        decreases kinds.len() - r,
    {
        let row = make_row(network, bounds, state, timestep, kinds[r]);
        rows.push(row);
        r += 1;
    }
    Lp { columns: network.edges.len(), objective, kinds, rows }
}

} // verus!
