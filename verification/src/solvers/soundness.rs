//! Flows that solve the linear program of a step meet the constraints of the
//! network.

use vstd::prelude::*;
use crate::network::Network;
use crate::node::{NodeIndex, NodeKind};
use crate::solvers::bounds::StepBounds;
use crate::solvers::builder::{
    aggregated_rows, balance_entries, carries, factor_at, layout, lower_of, members_entries,
    row_of, rows_of_aggregated_nodes, rows_of_nodes, through_entries, tied, upper_of, Lp, RowKind,
};
use crate::solvers::feasibility::{
    accepted, member_flow, members_flow, proportional, set_in_proportion, through,
};
use crate::state::{flows_summed, inflow_total, outflow_total, NetworkState, State};
use crate::timestep::Timestep;
use crate::value::{clamp, Value, UNIT};

verus! {

/// The flow of a column; zero for a column without a flow.
pub open spec fn flow_at(x: Seq<Value>, column: usize) -> int {
    if column < x.len() {
        x[column as int] as int
    } else {
        0
    }
}

/// What a row comes to at flows: the sum of the flows of its columns, each
/// times its coefficient.
pub open spec fn activity(entries: Seq<(usize, Value)>, x: Seq<Value>) -> int
    decreases entries.len(),
{
    if entries.len() == 0 {
        0
    } else {
        activity(entries.drop_last(), x) + entries.last().1 * flow_at(x, entries.last().0)
    }
}

/// Whether flows meet a row: what the row comes to lies between its bounds,
/// where it has them.
pub open spec fn row_met(
    row: (Seq<(usize, Value)>, Option<Value>, Option<Value>),
    x: Seq<Value>,
) -> bool {
    &&& row.1.is_some() ==> row.1.unwrap() * UNIT <= activity(row.0, x)
    &&& row.2.is_some() ==> activity(row.0, x) <= row.2.unwrap() * UNIT
}

/// Whether flows solve a linear program: there is one for each column, none
/// is negative, and every row is met.
pub open spec fn solves(lp: Lp, x: Seq<Value>) -> bool {
    &&& x.len() == lp.columns
    &&& forall|e: int| 0 <= e < x.len() ==> #[trigger] x[e] >= 0
    &&& forall|r: int|
        0 <= r < lp.rows.len() ==> row_met(
            ((#[trigger] lp.rows[r]).entries@, lp.rows[r].lower, lp.rows[r].upper),
            x,
        )
}

/// The exact sum of the flows on the first `upto` edges that carry flow through
/// a node.
pub open spec fn carried(network: Network, node: usize, x: Seq<Value>, upto: int) -> int
    decreases upto,
{
    if upto <= 0 {
        0
    } else {
        carried(network, node, x, upto - 1) + if carries(network, network.edges[upto - 1], node) {
            flow_at(x, (upto - 1) as usize)
        } else {
            0
        }
    }
}

/// The exact sum over the first `upto` members of an aggregated node of the
/// flows that are carried through each.
pub open spec fn carried_by_members(
    network: Network,
    aggregated_node: usize,
    x: Seq<Value>,
    upto: int,
) -> int
    decreases upto,
{
    if upto <= 0 {
        0
    } else {
        carried_by_members(network, aggregated_node, x, upto - 1) + carried(
            network,
            network.aggregated_nodes[aggregated_node as int].nodes[upto - 1].0,
            x,
            network.edges.len() as int,
        )
    }
}

/// Where no flow is negative, nothing negative is carried through a node.
pub proof fn lemma_carried_nonnegative(network: Network, node: usize, x: Seq<Value>, upto: int)
    requires
        forall|e: int| 0 <= e < x.len() ==> #[trigger] x[e] >= 0,
    ensures
        carried(network, node, x, upto) >= 0,
    decreases upto,
{
    if upto > 0 {
        lemma_carried_nonnegative(network, node, x, upto - 1);
    }
}

/// Where no flow is negative, nothing negative is carried through the members
/// of an aggregated node.
pub proof fn lemma_carried_by_members_nonnegative(
    network: Network,
    aggregated_node: usize,
    x: Seq<Value>,
    upto: int,
)
    requires
        forall|e: int| 0 <= e < x.len() ==> #[trigger] x[e] >= 0,
    ensures
        carried_by_members(network, aggregated_node, x, upto) >= 0,
    decreases upto,
{
    if upto > 0 {
        lemma_carried_by_members_nonnegative(network, aggregated_node, x, upto - 1);
        lemma_carried_nonnegative(
            network,
            network.aggregated_nodes[aggregated_node as int].nodes[upto - 1].0,
            x,
            network.edges.len() as int,
        );
    }
}

/// What two lists of columns come to together is the sum of what each comes
/// to.
pub proof fn lemma_activity_of_both(
    a: Seq<(usize, Value)>,
    b: Seq<(usize, Value)>,
    x: Seq<Value>,
)
    ensures
        activity(a + b, x) == activity(a, x) + activity(b, x),
    decreases b.len(),
{
    if b.len() == 0 {
        assert(a + b =~= a);
    } else {
        lemma_activity_of_both(a, b.drop_last(), x);
        assert((a + b).drop_last() =~= a + b.drop_last());
        assert((a + b).last() == b.last());
    }
}

/// What one column comes to.
pub proof fn lemma_activity_of_one(column: usize, coefficient: Value, x: Seq<Value>)
    ensures
        activity(seq![(column, coefficient)], x) == coefficient * flow_at(x, column),
{
    let one = seq![(column, coefficient)];
    assert(one.drop_last() =~= Seq::<(usize, Value)>::empty());
    assert(activity(one.drop_last(), x) == 0);
}

/// The columns of the edges that carry flow through a node come to the
/// coefficient times the flow that is carried through the node.
pub proof fn lemma_activity_through(
    network: Network,
    node: usize,
    coefficient: Value,
    x: Seq<Value>,
    upto: int,
)
    requires
        upto <= network.edges.len(),
        upto <= usize::MAX,
    ensures
        activity(through_entries(network, node, coefficient, upto), x) == coefficient * carried(
            network,
            node,
            x,
            upto,
        ),
    decreases upto,
{
    if upto > 0 {
        lemma_activity_through(network, node, coefficient, x, upto - 1);
        let before = through_entries(network, node, coefficient, upto - 1);
        let sum_before = carried(network, node, x, upto - 1);
        if carries(network, network.edges[upto - 1], node) {
            let one = seq![((upto - 1) as usize, coefficient)];
            lemma_activity_of_both(before, one, x);
            lemma_activity_of_one((upto - 1) as usize, coefficient, x);
            let f = flow_at(x, (upto - 1) as usize);
            assert(coefficient * (sum_before + f) == coefficient * sum_before + coefficient * f)
                by (nonlinear_arith);
        } else {
            assert(before + Seq::<(usize, Value)>::empty() =~= before);
        }
    } else {
        assert(coefficient * 0 == 0) by (nonlinear_arith);
    }
}

/// The exact sum of the flows on the first `upto` edges that enter a node.
pub open spec fn entering(network: Network, node: usize, x: Seq<Value>, upto: int) -> int
    decreases upto,
{
    if upto <= 0 {
        0
    } else {
        entering(network, node, x, upto - 1) + if network.edges[upto - 1].to_node.0 == node {
            flow_at(x, (upto - 1) as usize)
        } else {
            0
        }
    }
}

/// The exact sum of the flows on the first `upto` edges that leave a node.
pub open spec fn leaving(network: Network, node: usize, x: Seq<Value>, upto: int) -> int
    decreases upto,
{
    if upto <= 0 {
        0
    } else {
        leaving(network, node, x, upto - 1) + if network.edges[upto - 1].from_node.0 == node {
            flow_at(x, (upto - 1) as usize)
        } else {
            0
        }
    }
}

/// The columns of the edges that enter or leave a node come to what enters
/// the node less what leaves it.
pub proof fn lemma_activity_balance(network: Network, node: usize, x: Seq<Value>, upto: int)
    requires
        upto <= network.edges.len(),
        upto <= usize::MAX,
    ensures
        activity(balance_entries(network, node, upto), x) == UNIT * (entering(
            network,
            node,
            x,
            upto,
        ) - leaving(network, node, x, upto)),
    decreases upto,
{
    if upto > 0 {
        lemma_activity_balance(network, node, x, upto - 1);
        let before = balance_entries(network, node, upto - 1);
        let e = (upto - 1) as usize;
        let f = flow_at(x, e);
        let into: Seq<(usize, Value)> = if network.edges[upto - 1].to_node.0 == node {
            seq![(e, UNIT)]
        } else {
            Seq::empty()
        };
        let out_of: Seq<(usize, Value)> = if network.edges[upto - 1].from_node.0 == node {
            seq![(e, (-UNIT) as i64)]
        } else {
            Seq::empty()
        };
        lemma_activity_of_both(before + into, out_of, x);
        lemma_activity_of_both(before, into, x);
        lemma_activity_of_one(e, UNIT, x);
        lemma_activity_of_one(e, (-UNIT) as i64, x);
        assert(activity(Seq::<(usize, Value)>::empty(), x) == 0);
        let a = entering(network, node, x, upto - 1);
        let b = leaving(network, node, x, upto - 1);
        assert(UNIT * (a - b) + UNIT * f == UNIT * ((a + f) - b)) by (nonlinear_arith);
        assert(UNIT * (a - b) + ((-UNIT) as i64) * f == UNIT * (a - (b + f))) by (nonlinear_arith);
        assert(UNIT * (a - b) + UNIT * f + ((-UNIT) as i64) * f == UNIT * ((a + f) - (b + f)))
            by (nonlinear_arith);
    } else {
        assert(UNIT * (0int - 0int) == 0) by (nonlinear_arith);
    }
}

/// What enters and what leaves a node over the edges of a network are the
/// sums that the state of the network is made of.
pub proof fn lemma_totals(network: Network, node: usize, x: Seq<Value>, upto: int)
    requires
        0 <= upto <= network.edges.len(),
    ensures
        entering(network, node, x, upto) == inflow_total(network.edges@.take(upto), x, node as int),
        leaving(network, node, x, upto) == outflow_total(network.edges@.take(upto), x, node as int),
    decreases upto,
{
    if upto > 0 {
        lemma_totals(network, node, x, upto - 1);
        assert(network.edges@.take(upto).drop_last() =~= network.edges@.take(upto - 1));
        assert(network.edges@.take(upto).last() == network.edges[upto - 1]);
    }
}

/// What is carried through a node is what leaves it where it is an input, and
/// what enters it where it is not.
pub proof fn lemma_carried(network: Network, node: usize, x: Seq<Value>, upto: int)
    requires
        0 <= upto <= network.edges.len(),
    ensures
        carried(network, node, x, upto) == if node < network.nodes.len()
            && network.nodes[node as int].kind == NodeKind::Input {
            leaving(network, node, x, upto)
        } else {
            entering(network, node, x, upto)
        },
    decreases upto,
{
    if upto > 0 {
        lemma_carried(network, node, x, upto - 1);
    }
}

/// The columns of the edges through the members of an aggregated node come
/// to the coefficient times what is carried through the members.
pub proof fn lemma_activity_members(
    network: Network,
    aggregated_node: usize,
    coefficient: Value,
    x: Seq<Value>,
    upto: int,
)
    requires
        aggregated_node < network.aggregated_nodes.len(),
        0 <= upto <= network.aggregated_nodes[aggregated_node as int].nodes.len(),
    ensures
        activity(members_entries(network, aggregated_node, coefficient, upto), x) == coefficient
            * carried_by_members(network, aggregated_node, x, upto),
    decreases upto,
{
    if upto > 0 {
        lemma_activity_members(network, aggregated_node, coefficient, x, upto - 1);
        let member = network.aggregated_nodes[aggregated_node as int].nodes[upto - 1].0;
        lemma_activity_through(network, member, coefficient, x, network.edges.len() as int);
        lemma_activity_of_both(
            members_entries(network, aggregated_node, coefficient, upto - 1),
            through_entries(network, member, coefficient, network.edges.len() as int),
            x,
        );
        let a = carried_by_members(network, aggregated_node, x, upto - 1);
        let b = carried(network, member, x, network.edges.len() as int);
        assert(coefficient * (a + b) == coefficient * a + coefficient * b) by (nonlinear_arith);
    } else {
        assert(coefficient * 0 == 0) by (nonlinear_arith);
    }
}

/// The rows of the nodes hold the rows of every one of them.
pub proof fn lemma_node_rows_present(network: Network, node: int, upto: int)
    requires
        0 <= node < upto <= network.nodes.len(),
    ensures
        network.nodes[node].kind == NodeKind::Link ==> rows_of_nodes(network, upto).contains(
            RowKind::Balance(node as usize),
        ),
        network.nodes[node].kind != NodeKind::Storage ==> rows_of_nodes(network, upto).contains(
            RowKind::Flow(node as usize),
        ),
    decreases upto,
{
    let before = rows_of_nodes(network, upto - 1);
    let added = crate::solvers::builder::node_rows(
        network.nodes[upto - 1].kind,
        (upto - 1) as usize,
    );
    let all = rows_of_nodes(network, upto);
    if node < upto - 1 {
        lemma_node_rows_present(network, node, upto - 1);
        if network.nodes[node].kind == NodeKind::Link {
            let k = choose|k: int|
                0 <= k < before.len() && before[k] == RowKind::Balance(node as usize);
            assert(all[k] == before[k]);
        }
        if network.nodes[node].kind != NodeKind::Storage {
            let k = choose|k: int| 0 <= k < before.len()
                && before[k] == RowKind::Flow(node as usize);
            assert(all[k] == before[k]);
        }
    } else {
        match network.nodes[node].kind {
            NodeKind::Link => {
                assert(all[before.len() as int] == added[0]);
                assert(all[before.len() as int + 1] == added[1]);
            },
            NodeKind::Storage => {},
            _ => {
                assert(all[before.len() as int] == added[0]);
            },
        }
    }
}

/// The rows of an aggregated node hold the row of its flow and the rows of its
/// factors.
pub proof fn lemma_own_rows_present(aggregated_node: usize, position: int, upto: int)
    ensures
        aggregated_rows(aggregated_node, upto).contains(RowKind::AggregatedFlow(aggregated_node)),
        1 <= position < upto ==> aggregated_rows(aggregated_node, upto).contains(
            RowKind::Factor(aggregated_node, position as usize),
        ),
    decreases upto,
{
    let all = aggregated_rows(aggregated_node, upto);
    if upto <= 1 {
        assert(all[0] == RowKind::AggregatedFlow(aggregated_node));
    } else {
        lemma_own_rows_present(aggregated_node, position, upto - 1);
        let before = aggregated_rows(aggregated_node, upto - 1);
        let k = choose|k: int|
            0 <= k < before.len() && before[k] == RowKind::AggregatedFlow(aggregated_node);
        assert(all[k] == before[k]);
        if 1 <= position < upto - 1 {
            let j = choose|j: int|
                0 <= j < before.len() && before[j] == RowKind::Factor(
                    aggregated_node,
                    position as usize,
                );
            assert(all[j] == before[j]);
        } else if position == upto - 1 {
            assert(all[before.len() as int] == RowKind::Factor(aggregated_node, position as usize));
        }
    }
}

/// The rows of the aggregated nodes hold the rows of every one of them.
pub proof fn lemma_aggregated_rows_present(
    network: Network,
    aggregated_node: int,
    position: int,
    upto: int,
)
    requires
        0 <= aggregated_node < upto <= network.aggregated_nodes.len(),
    ensures
        rows_of_aggregated_nodes(network, upto).contains(
            RowKind::AggregatedFlow(aggregated_node as usize),
        ),
        1 <= position < tied(network, aggregated_node) ==> rows_of_aggregated_nodes(
            network,
            upto,
        ).contains(RowKind::Factor(aggregated_node as usize, position as usize)),
    decreases upto,
{
    let before = rows_of_aggregated_nodes(network, upto - 1);
    let added = aggregated_rows((upto - 1) as usize, tied(network, upto - 1));
    let all = rows_of_aggregated_nodes(network, upto);
    if aggregated_node < upto - 1 {
        lemma_aggregated_rows_present(network, aggregated_node, position, upto - 1);
        let k = choose|k: int|
            0 <= k < before.len() && before[k] == RowKind::AggregatedFlow(aggregated_node as usize);
        assert(all[k] == before[k]);
        if 1 <= position < tied(network, aggregated_node) {
            let j = choose|j: int|
                0 <= j < before.len() && before[j] == RowKind::Factor(
                    aggregated_node as usize,
                    position as usize,
                );
            assert(all[j] == before[j]);
        }
    } else {
        lemma_own_rows_present(aggregated_node as usize, position, tied(network, upto - 1));
        let k = choose|k: int|
            0 <= k < added.len() && added[k] == RowKind::AggregatedFlow(aggregated_node as usize);
        assert(all[before.len() as int + k] == added[k]);
        if 1 <= position < tied(network, aggregated_node) {
            let j = choose|j: int|
                0 <= j < added.len() && added[j] == RowKind::Factor(
                    aggregated_node as usize,
                    position as usize,
                );
            assert(all[before.len() as int + j] == added[j]);
        }
    }
}

/// Whether the flows of a state are amounts that can be held without loss: no
/// sum of flows into or out of a node, and no sum of flows through the members
/// of an aggregated node, lies beyond the greatest amount.
pub open spec fn held_exactly(network: Network, x: Seq<Value>) -> bool {
    &&& forall|n: int|
        0 <= n < network.nodes.len() ==> #[trigger] inflow_total(network.edges@, x, n) <= i64::MAX
            && outflow_total(network.edges@, x, n) <= i64::MAX
    &&& forall|a: int|
        0 <= a < network.aggregated_nodes.len() ==> #[trigger] carried_by_members(
            network,
            a as usize,
            x,
            network.aggregated_nodes[a].nodes.len() as int,
        ) <= i64::MAX
}

/// Whether the bounds of a step hold, for every aggregated node, as many
/// factors as the aggregated node has, and a first factor that is neither zero
/// nor the least amount there is.
pub open spec fn factors_usable(network: Network, bounds: StepBounds) -> bool {
    forall|a: int|
        0 <= a < network.aggregated_nodes.len() ==> match (
            #[trigger] network.aggregated_nodes[a]).factors {
            None => bounds.aggregated_nodes[a].factors.is_none(),
            Some(f) => bounds.aggregated_nodes[a].factors.is_some()
                && bounds.aggregated_nodes[a].factors.unwrap().len() == f.metrics().len() && (
            f.metrics().len() > 0 ==> bounds.aggregated_nodes[a].factors.unwrap()[0] != 0
                && bounds.aggregated_nodes[a].factors.unwrap()[0] > i64::MIN),
        }
}

/// The flow through a member of a well-formed network, in a state whose node
/// flows are the sums over the edges and can be held, is what is carried
/// through it.
pub proof fn lemma_member_flow(network: Network, state: NetworkState, member: NodeIndex)
    requires
        network.wf(),
        member.0 < network.nodes.len(),
        flows_summed(network.edges@, network.nodes.len() as nat, state),
        held_exactly(network, state.edge_flows@),
        forall|e: int| 0 <= e < state.edge_flows.len() ==> #[trigger] state.edge_flows[e] >= 0,
    ensures
        member_flow(network, state, member) == carried(
            network,
            member.0,
            state.edge_flows@,
            network.edges.len() as int,
        ),
{
    let x = state.edge_flows@;
    let n = member.0 as int;
    lemma_carried(network, member.0, x, network.edges.len() as int);
    lemma_totals(network, member.0, x, network.edges.len() as int);
    assert(network.edges@.take(network.edges.len() as int) =~= network.edges@);
    crate::state::lemma_node_totals_nonnegative(network.edges@, x, n);
    assert(inflow_total(network.edges@, x, n) <= i64::MAX);
    assert(state.node_in_flows[n] == clamp(inflow_total(network.edges@, x, n)));
    assert(state.node_out_flows[n] == clamp(outflow_total(network.edges@, x, n)));
}

/// The flow through the members of an aggregated node is what is carried
/// through them.
pub proof fn lemma_members_flow(network: Network, state: NetworkState, a: int, upto: int)
    requires
        network.wf(),
        0 <= a < network.aggregated_nodes.len(),
        0 <= upto <= network.aggregated_nodes[a].nodes.len(),
        flows_summed(network.edges@, network.nodes.len() as nat, state),
        held_exactly(network, state.edge_flows@),
        forall|e: int| 0 <= e < state.edge_flows.len() ==> #[trigger] state.edge_flows[e] >= 0,
    ensures
        members_flow(network, state, network.aggregated_nodes[a].nodes@.take(upto))
            == carried_by_members(network, a as usize, state.edge_flows@, upto),
    decreases upto,
{
    let members = network.aggregated_nodes[a].nodes@;
    if upto > 0 {
        lemma_members_flow(network, state, a, upto - 1);
        assert(members.take(upto).drop_last() =~= members.take(upto - 1));
        assert(members.take(upto).last() == members[upto - 1]);
        assert(network.aggregated_nodes[a].wf(network.nodes.len() as nat));
        assert(network.aggregated_nodes[a].nodes[upto - 1].0 < network.nodes.len());
        lemma_member_flow(network, state, members[upto - 1]);
    }
}

/// Two flows that are both tied to a third, whose factor is not zero, stand to
/// each other as their factors do.
pub proof fn lemma_tied_through_first(
    first: int,
    first_factor: int,
    flow_i: int,
    factor_i: int,
    flow_j: int,
    factor_j: int,
)
    requires
        first_factor != 0,
        factor_i * first - first_factor * flow_i == 0,
        factor_j * first - first_factor * flow_j == 0,
    ensures
        flow_i * factor_j - flow_j * factor_i == 0,
{
    assert(first_factor * (flow_i * factor_j - flow_j * factor_i) == (first_factor * flow_i)
        * factor_j - (first_factor * flow_j) * factor_i) by (nonlinear_arith);
    assert((factor_i * first) * factor_j - (factor_j * first) * factor_i == 0)
        by (nonlinear_arith);
    assert(first_factor * (flow_i * factor_j - flow_j * factor_i) == 0);
    assert(flow_i * factor_j - flow_j * factor_i == 0) by (nonlinear_arith)
        requires
            first_factor != 0,
            first_factor * (flow_i * factor_j - flow_j * factor_i) == 0,
    ;
}

/// Flows that solve the linear program of a step meet the constraints of the
/// network at the bounds of the step.
///
/// This holds of a well-formed network with bounds for all that it holds, with
/// factors that can be used, and of flows that can be held exactly.
pub proof fn lemma_solution_is_accepted(
    network: Network,
    bounds: StepBounds,
    state: State,
    timestep: Timestep,
    lp: Lp,
    flows: NetworkState,
)
    requires
        network.wf(),
        bounds.nodes.len() == network.nodes.len(),
        bounds.aggregated_nodes.len() == network.aggregated_nodes.len(),
        factors_usable(network, bounds),
        lp.describes(network, bounds, state, timestep),
        solves(lp, flows.edge_flows@),
        flows_summed(network.edges@, network.nodes.len() as nat, flows),
        held_exactly(network, flows.edge_flows@),
    ensures
        accepted(network, bounds, flows),
{
    let x = flows.edge_flows@;
    let edges = network.edges.len() as int;
    let kinds = layout(network);
    let node_part = rows_of_nodes(network, network.nodes.len() as int);
    let aggregated_part = rows_of_aggregated_nodes(network, network.aggregated_nodes.len() as int);
    assert(network.edges@.take(edges) =~= network.edges@);

    assert forall|n: int| 0 <= n < network.nodes.len() implies ((
    #[trigger] network.nodes[n]).kind == NodeKind::Link ==> -crate::solvers::feasibility::TOLERANCE
        <= flows.node_in_flows[n] - flows.node_out_flows[n]
        <= crate::solvers::feasibility::TOLERANCE) && (network.nodes[n].kind != NodeKind::Storage
        ==> bounds.nodes[n].min_flow - crate::solvers::feasibility::TOLERANCE <= through(
        network.nodes[n].kind,
        flows.node_in_flows[n],
        flows.node_out_flows[n],
    ) <= bounds.nodes[n].max_flow + crate::solvers::feasibility::TOLERANCE) by {
        lemma_node_rows_present(network, n, network.nodes.len() as int);
        lemma_totals(network, n as usize, x, edges);
        lemma_carried(network, n as usize, x, edges);
        crate::state::lemma_node_totals_nonnegative(network.edges@, x, n);
        let into = inflow_total(network.edges@, x, n);
        let out_of = outflow_total(network.edges@, x, n);
        if network.nodes[n].kind == NodeKind::Link {
            let k = choose|k: int|
                0 <= k < node_part.len() && node_part[k] == RowKind::Balance(n as usize);
            assert(kinds[k] == node_part[k]);
            assert(lp.kinds[k] == RowKind::Balance(n as usize));
            let row = lp.rows[k];
            assert((row.entries@, row.lower, row.upper) == row_of(
                network,
                bounds,
                state,
                timestep,
                lp.kinds[k],
            ));
            assert(row_met((row.entries@, row.lower, row.upper), x));
            lemma_activity_balance(network, n as usize, x, edges);
            assert(UNIT * (into - out_of) == 0 ==> into == out_of) by (nonlinear_arith);
            assert(0 * UNIT == 0);
        }
        if network.nodes[n].kind != NodeKind::Storage {
            let k = choose|k: int|
                0 <= k < node_part.len() && node_part[k] == RowKind::Flow(n as usize);
            assert(kinds[k] == node_part[k]);
            assert(lp.kinds[k] == RowKind::Flow(n as usize));
            let row = lp.rows[k];
            assert((row.entries@, row.lower, row.upper) == row_of(
                network,
                bounds,
                state,
                timestep,
                lp.kinds[k],
            ));
            assert(row_met((row.entries@, row.lower, row.upper), x));
            lemma_activity_through(network, n as usize, UNIT, x, edges);
            let t = carried(network, n as usize, x, edges);
            let low = bounds.nodes[n].min_flow;
            let high = bounds.nodes[n].max_flow;
            assert(low * UNIT <= UNIT * t ==> low <= t) by (nonlinear_arith);
            assert(UNIT * t <= high * UNIT ==> t <= high) by (nonlinear_arith);
        }
    }

    assert forall|a: int| 0 <= a < network.aggregated_nodes.len() implies ((
    #[trigger] bounds.aggregated_nodes[a]).min_flow - crate::solvers::feasibility::TOLERANCE
        <= members_flow(network, flows, network.aggregated_nodes[a].nodes@)
        <= bounds.aggregated_nodes[a].max_flow + crate::solvers::feasibility::TOLERANCE) && (
    bounds.aggregated_nodes[a].factors.is_some() ==> set_in_proportion(
        network,
        flows,
        network.aggregated_nodes[a].nodes@,
        bounds.aggregated_nodes[a].factors.unwrap()@,
    )) by {
        let node = network.aggregated_nodes[a];
        let members = node.nodes@;
        let count = members.len() as int;
        lemma_members_flow(network, flows, a, count);
        assert(members.take(count) =~= members);
        lemma_aggregated_rows_present(network, a, 0, network.aggregated_nodes.len() as int);
        let k = choose|k: int|
            0 <= k < aggregated_part.len() && aggregated_part[k] == RowKind::AggregatedFlow(
                a as usize,
            );
        assert(kinds[node_part.len() as int + k] == aggregated_part[k]);
        let at = node_part.len() as int + k;
        assert(lp.kinds[at] == RowKind::AggregatedFlow(a as usize));
        let row = lp.rows[at];
        assert((row.entries@, row.lower, row.upper) == row_of(
            network,
            bounds,
            state,
            timestep,
            lp.kinds[at],
        ));
        assert(row_met((row.entries@, row.lower, row.upper), x));
        lemma_activity_members(network, a as usize, UNIT, x, count);
        let total = carried_by_members(network, a as usize, x, count);
        let low = bounds.aggregated_nodes[a].min_flow;
        let high = bounds.aggregated_nodes[a].max_flow;
        assert(low * UNIT <= UNIT * total ==> low <= total) by (nonlinear_arith);
        assert(UNIT * total <= high * UNIT ==> total <= high) by (nonlinear_arith);
        assert(total <= i64::MAX);
        lemma_carried_by_members_nonnegative(network, a as usize, x, count);
        assert(members_flow(network, flows, members) == total);
        assert(row.lower == lower_of(low));
        assert(row.upper == upper_of(high));
        assert(activity(row.entries@, x) == UNIT * total);
        assert(low - crate::solvers::feasibility::TOLERANCE <= total);
        assert(total <= high + crate::solvers::feasibility::TOLERANCE);

        if bounds.aggregated_nodes[a].factors.is_some() {
            let factors = bounds.aggregated_nodes[a].factors.unwrap()@;
            assert(node.factors.is_some());
            assert(factors.len() == node.factors.unwrap().metrics().len());
            assert forall|i: int, j: int|
                0 <= i < j < members.len() && j < factors.len() implies proportional(
                member_flow(network, flows, #[trigger] members[i]),
                factors[i],
                member_flow(network, flows, #[trigger] members[j]),
                factors[j],
            ) by {
                assert(node.wf(network.nodes.len() as nat));
                assert(node.nodes[i].0 < network.nodes.len());
                assert(node.nodes[j].0 < network.nodes.len());
                assert(node.nodes[0].0 < network.nodes.len());
                lemma_member_flow(network, flows, members[i]);
                lemma_member_flow(network, flows, members[j]);
                lemma_member_flow(network, flows, members[0]);
                let first = carried(network, members[0].0, x, edges);
                let flow_i = carried(network, members[i].0, x, edges);
                let flow_j = carried(network, members[j].0, x, edges);
                let first_factor = factors[0];
                assert(tied(network, a) == factors.len() || tied(network, a) == members.len());
                lemma_tie(network, bounds, state, timestep, lp, x, a, j);
                assert(factors[j] * first - first_factor * flow_j == 0);
                if i == 0 {
                    assert(flow_i == first);
                    assert(flow_i * factors[j] - flow_j * factors[i] == factors[j] * first
                        - first_factor * flow_j) by (nonlinear_arith)
                        requires
                            flow_i == first,
                            factors[i] == first_factor,
                    ;
                } else {
                    lemma_tie(network, bounds, state, timestep, lp, x, a, i);
                    lemma_tied_through_first(
                        first,
                        first_factor as int,
                        flow_i,
                        factors[i] as int,
                        flow_j,
                        factors[j] as int,
                    );
                }
                assert(flow_i * factors[j] - flow_j * factors[i] == 0);
                assert(member_flow(network, flows, members[i]) == flow_i);
                assert(member_flow(network, flows, members[j]) == flow_j);
            }
            assert(set_in_proportion(network, flows, members, factors));
        }
    }
}

/// Flows that solve the linear program tie the flow through a member of an
/// aggregated node with factors to the flow through the first member.
pub proof fn lemma_tie(
    network: Network,
    bounds: StepBounds,
    state: State,
    timestep: Timestep,
    lp: Lp,
    x: Seq<Value>,
    a: int,
    position: int,
)
    requires
        0 <= a < network.aggregated_nodes.len(),
        bounds.aggregated_nodes.len() == network.aggregated_nodes.len(),
        factors_usable(network, bounds),
        lp.describes(network, bounds, state, timestep),
        solves(lp, x),
        1 <= position < tied(network, a),
    ensures
        ({
            let node = network.aggregated_nodes[a];
            let factors = bounds.aggregated_nodes[a].factors.unwrap()@;
            let edges = network.edges.len() as int;
            factors[position] * carried(network, node.nodes[0].0, x, edges) - factors[0] * carried(
                network,
                node.nodes[position].0,
                x,
                edges,
            ) == 0
        }),
{
    let node = network.aggregated_nodes[a];
    let factors = bounds.aggregated_nodes[a].factors.unwrap()@;
    let edges = network.edges.len() as int;
    let kinds = layout(network);
    let node_part = rows_of_nodes(network, network.nodes.len() as int);
    let aggregated_part = rows_of_aggregated_nodes(network, network.aggregated_nodes.len() as int);
    lemma_aggregated_rows_present(network, a, position, network.aggregated_nodes.len() as int);
    let k = choose|k: int|
        0 <= k < aggregated_part.len() && aggregated_part[k] == RowKind::Factor(
            a as usize,
            position as usize,
        );
    let at = node_part.len() as int + k;
    assert(kinds[at] == aggregated_part[k]);
    assert(lp.kinds[at] == RowKind::Factor(a as usize, position as usize));
    let row = lp.rows[at];
    assert((row.entries@, row.lower, row.upper) == row_of(
        network,
        bounds,
        state,
        timestep,
        lp.kinds[at],
    ));
    assert(row_met((row.entries@, row.lower, row.upper), x));
    let of_position = factor_at(bounds, a as usize, position as usize);
    let of_first = factor_at(bounds, a as usize, 0);
    assert(of_position == factors[position]);
    assert(of_first == factors[0]);
    let minus_first = clamp(-of_first) as i64;
    assert(minus_first == -of_first);
    let first_entries = through_entries(network, node.nodes[0].0, of_position, edges);
    let other_entries = through_entries(network, node.nodes[position].0, minus_first, edges);
    lemma_activity_of_both(first_entries, other_entries, x);
    lemma_activity_through(network, node.nodes[0].0, of_position, x, edges);
    lemma_activity_through(network, node.nodes[position].0, minus_first, x, edges);
    let first = carried(network, node.nodes[0].0, x, edges);
    let other = carried(network, node.nodes[position].0, x, edges);
    assert(minus_first * other == -(of_first * other)) by (nonlinear_arith)
        requires
            minus_first == -of_first,
    ;
    assert(0 * UNIT == 0);
}

} // verus!
