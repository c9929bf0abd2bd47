//! The state of one scenario: what flows, what is stored, and what the
//! parameters gave at the current step.

use vstd::prelude::*;
use crate::edge::{Edge, EdgeIndex};
use crate::error::{outcome, EntityKind, ErrorView, PywrError};
use crate::node::NodeIndex;
use crate::parameters::{
    IndexParameterIndex, Internal, MultiValueParameterIndex, ParameterIndex,
};
use crate::value::{clamp, narrow, proportion, ratio, Value};
use crate::virtual_storage::VirtualStorageIndex;

verus! {

/// The amount at a handle, or the failure to find anything of `kind` there.
pub open spec fn lookup(values: Seq<Value>, at: usize, kind: EntityKind) -> Result<
    Value,
    ErrorView,
> {
    if at < values.len() {
        Ok(values[at as int])
    } else {
        Err(ErrorView::NotFoundAt(kind, at))
    }
}

/// The amount of the first entry with this key.
pub open spec fn keyed(entries: Seq<(String, Value)>, key: Seq<char>) -> Option<Value>
    decreases entries.len(),
{
    if entries.len() == 0 {
        None
    } else if entries[0].0@ == key {
        Some(entries[0].1)
    } else {
        keyed(entries.skip(1), key)
    }
}

/// The first member whose handle lies beyond `len`, if there is one.
pub open spec fn first_beyond(len: nat, members: Seq<NodeIndex>) -> Option<usize>
    decreases members.len(),
{
    if members.len() == 0 {
        None
    } else {
        match first_beyond(len, members.drop_last()) {
            Some(m) => Some(m),
            None => if members.last().0 >= len {
                Some(members.last().0)
            } else {
                None
            },
        }
    }
}

/// The exact sum of the amounts that `values` holds for the members. A member
/// beyond the end of `values` adds nothing.
pub open spec fn total_of(values: Seq<Value>, members: Seq<NodeIndex>) -> int
    decreases members.len(),
{
    if members.len() == 0 {
        0
    } else {
        total_of(values, members.drop_last()) + if members.last().0 < values.len() {
            values[members.last().0 as int] as int
        } else {
            0
        }
    }
}

/// The sum over the members of what `values` holds for each, or the failure to
/// find the first member that `values` does not reach.
pub open spec fn total_over(values: Seq<Value>, members: Seq<NodeIndex>) -> Result<
    Value,
    ErrorView,
> {
    match first_beyond(values.len(), members) {
        Some(m) => Err(ErrorView::NotFoundAt(EntityKind::Node, m)),
        None => Ok(clamp(total_of(values, members)) as i64),
    }
}

/// A member beyond `len` among the first `n` is the first such member of all.
pub proof fn lemma_beyond_in_prefix(len: nat, members: Seq<NodeIndex>, n: int)
    requires
        0 <= n <= members.len(),
        first_beyond(len, members.take(n)).is_some(),
    ensures
        first_beyond(len, members) == first_beyond(len, members.take(n)),
    decreases members.len() - n,
{
    if n < members.len() {
        assert(members.take(n + 1).drop_last() =~= members.take(n));
        lemma_beyond_in_prefix(len, members, n + 1);
    } else {
        assert(members.take(n) =~= members);
    }
}

/// The sum over the members of what `values` holds for each.
pub fn sum_over(values: &Vec<Value>, members: &Vec<NodeIndex>) -> (r: Result<Value, PywrError>)
    ensures
        outcome(r) == total_over(values@, members@),
{
    let mut acc: i128 = 0;
    let mut i: usize = 0;
    while i < members.len()
        invariant
            i <= members.len(),
            first_beyond(values@.len(), members@.take(i as int)).is_none(),
            acc == total_of(values@, members@.take(i as int)),
            -(i * 0x8000_0000_0000_0000) <= acc <= i * 0x7fff_ffff_ffff_ffff,
        decreases members.len() - i,
    {
        let at: usize = members[i].0;
        proof {
            assert(members@.take(i + 1).drop_last() =~= members@.take(i as int));
        }
        if at >= values.len() {
            proof {
                lemma_beyond_in_prefix(values@.len(), members@, i + 1);
            }
            return Err(PywrError::NotFoundAt(EntityKind::Node, at));
        }
        acc = acc + values[at] as i128;
        i += 1;
    }
    assert(members@.take(i as int) =~= members@);
    Ok(narrow(acc))
}

/// The amount of the first entry with this key.
pub fn find_keyed(entries: &Vec<(String, Value)>, key: &String) -> (r: Option<Value>)
    ensures
        r == keyed(entries@, key@),
{
    let mut i: usize = 0;
    assert(entries@.skip(0) =~= entries@);
    while i < entries.len()
        invariant
            i <= entries.len(),
            keyed(entries@, key@) == keyed(entries@.skip(i as int), key@),
        decreases entries.len() - i,
    {
        assert(entries@.skip(i as int)[0] == entries@[i as int]);
        if entries[i].0 == *key {
            return Some(entries[i].1);
        }
        assert(entries@.skip(i as int).skip(1) =~= entries@.skip(i + 1));
        i += 1;
    }
    None
}

fn read(values: &Vec<Value>, at: usize, kind: EntityKind) -> (r: Result<Value, PywrError>)
    ensures
        outcome(r) == lookup(values@, at, kind),
{
    if at < values.len() {
        Ok(values[at])
    } else {
        Err(PywrError::NotFoundAt(kind, at))
    }
}

fn write(values: &mut Vec<Value>, at: usize, value: Value, kind: EntityKind) -> (r: Result<
    (),
    PywrError,
>)
    ensures
        at < old(values).len() ==> r.is_ok() && final(values)@ == old(values)@.update(
            at as int,
            value,
        ),
        at >= old(values).len() ==> outcome(r) == Err::<(), ErrorView>(
            ErrorView::NotFoundAt(kind, at),
        ) && final(values)@ == old(values)@,
{
    if at < values.len() {
        values.set(at, value);
        Ok(())
    } else {
        Err(PywrError::NotFoundAt(kind, at))
    }
}

/// What flows and what is stored.
#[derive(Clone, Debug, PartialEq, Eq)]
pub struct NetworkState {
    /// For each node, the sum of the flows on the edges that enter it.
    pub node_in_flows: Vec<Value>,
    /// For each node, the sum of the flows on the edges that leave it.
    pub node_out_flows: Vec<Value>,
    /// For each node, the volume it stores; zero for a node that stores nothing.
    pub node_volumes: Vec<Value>,
    /// For each edge, its flow.
    pub edge_flows: Vec<Value>,
    /// For each virtual storage, its volume.
    pub virtual_storage_volumes: Vec<Value>,
}

impl NetworkState {
    /// A state with nothing flowing and nothing stored.
    pub fn new(nodes: usize, edges: usize, virtual_storages: usize) -> (r: Self)
        ensures
            r.node_in_flows@ == Seq::new(nodes as nat, |i: int| 0i64),
            r.node_out_flows@ == Seq::new(nodes as nat, |i: int| 0i64),
            r.node_volumes@ == Seq::new(nodes as nat, |i: int| 0i64),
            r.edge_flows@ == Seq::new(edges as nat, |i: int| 0i64),
            r.virtual_storage_volumes@ == Seq::new(virtual_storages as nat, |i: int| 0i64),
    {
        NetworkState {
            node_in_flows: zeros(nodes),
            node_out_flows: zeros(nodes),
            node_volumes: zeros(nodes),
            edge_flows: zeros(edges),
            virtual_storage_volumes: zeros(virtual_storages),
        }
    }

    pub fn get_node_in_flow(&self, idx: &NodeIndex) -> (r: Result<Value, PywrError>)
        ensures
            outcome(r) == lookup(self.node_in_flows@, idx.0, EntityKind::Node),
    {
        read(&self.node_in_flows, idx.0, EntityKind::Node)
    }

    pub fn get_node_out_flow(&self, idx: &NodeIndex) -> (r: Result<Value, PywrError>)
        ensures
            outcome(r) == lookup(self.node_out_flows@, idx.0, EntityKind::Node),
    {
        read(&self.node_out_flows, idx.0, EntityKind::Node)
    }

    pub fn get_node_volume(&self, idx: &NodeIndex) -> (r: Result<Value, PywrError>)
        ensures
            outcome(r) == lookup(self.node_volumes@, idx.0, EntityKind::Node),
    {
        read(&self.node_volumes, idx.0, EntityKind::Node)
    }

    /// The share of `max_volume` that the node stores; zero where `max_volume`
    /// is zero.
    pub fn get_node_proportional_volume(&self, idx: &NodeIndex, max_volume: Value) -> (r: Result<
        Value,
        PywrError,
    >)
        ensures
            outcome(r) == match lookup(self.node_volumes@, idx.0, EntityKind::Node) {
                Ok(volume) => Ok(proportion(volume as int, max_volume as int) as i64),
                Err(e) => Err(e),
            },
    {
        match read(&self.node_volumes, idx.0, EntityKind::Node) {
            Ok(volume) => Ok(ratio(volume, max_volume)),
            Err(e) => Err(e),
        }
    }

    pub fn get_edge_flow(&self, idx: &EdgeIndex) -> (r: Result<Value, PywrError>)
        ensures
            outcome(r) == lookup(self.edge_flows@, idx.0, EntityKind::Edge),
    {
        read(&self.edge_flows, idx.0, EntityKind::Edge)
    }

    pub fn get_virtual_storage_volume(&self, idx: &VirtualStorageIndex) -> (r: Result<
        Value,
        PywrError,
    >)
        ensures
            outcome(r) == lookup(
                self.virtual_storage_volumes@,
                idx.0,
                EntityKind::VirtualStorage,
            ),
    {
        read(&self.virtual_storage_volumes, idx.0, EntityKind::VirtualStorage)
    }

    /// The share of `max_volume` that the virtual storage holds; zero where
    /// `max_volume` is zero.
    pub fn get_virtual_storage_proportional_volume(
        &self,
        idx: &VirtualStorageIndex,
        max_volume: Value,
    ) -> (r: Result<Value, PywrError>)
        ensures
            outcome(r) == match lookup(
                self.virtual_storage_volumes@,
                idx.0,
                EntityKind::VirtualStorage,
            ) {
                Ok(volume) => Ok(proportion(volume as int, max_volume as int) as i64),
                Err(e) => Err(e),
            },
    {
        match read(&self.virtual_storage_volumes, idx.0, EntityKind::VirtualStorage) {
            Ok(volume) => Ok(ratio(volume, max_volume)),
            Err(e) => Err(e),
        }
    }

    pub fn set_node_volume(&mut self, idx: &NodeIndex, volume: Value) -> (r: Result<
        (),
        PywrError,
    >)
        ensures
            idx.0 < old(self).node_volumes.len()
                ==> r.is_ok()
                && final(self).node_volumes@
                == old(self).node_volumes@.update(idx.0 as int, volume),
            idx.0 >= old(self).node_volumes.len() ==> outcome(r) == Err::<(), ErrorView>(
                ErrorView::NotFoundAt(EntityKind::Node, idx.0),
            ) && final(self).node_volumes@ == old(self).node_volumes@,
            final(self).node_in_flows == old(self).node_in_flows,
            final(self).node_out_flows == old(self).node_out_flows,
            final(self).edge_flows == old(self).edge_flows,
            final(self).virtual_storage_volumes == old(self).virtual_storage_volumes,
    {
        write(&mut self.node_volumes, idx.0, volume, EntityKind::Node)
    }

    pub fn set_edge_flow(&mut self, idx: &EdgeIndex, flow: Value) -> (r: Result<(), PywrError>)
        ensures
            idx.0 < old(self).edge_flows.len()
                ==> r.is_ok()
                && final(self).edge_flows@ == old(self).edge_flows@.update(idx.0 as int, flow),
            idx.0 >= old(self).edge_flows.len() ==> outcome(r) == Err::<(), ErrorView>(
                ErrorView::NotFoundAt(EntityKind::Edge, idx.0),
            ) && final(self).edge_flows@ == old(self).edge_flows@,
            final(self).node_in_flows == old(self).node_in_flows,
            final(self).node_out_flows == old(self).node_out_flows,
            final(self).node_volumes == old(self).node_volumes,
            final(self).virtual_storage_volumes == old(self).virtual_storage_volumes,
    {
        write(&mut self.edge_flows, idx.0, flow, EntityKind::Edge)
    }

    pub fn set_virtual_storage_volume(&mut self, idx: &VirtualStorageIndex, volume: Value) -> (r:
        Result<(), PywrError>)
        ensures
            idx.0 < old(self).virtual_storage_volumes.len()
                ==> r.is_ok()
                && final(self).virtual_storage_volumes@
                == old(self).virtual_storage_volumes@.update(
                idx.0 as int,
                volume,
            ),
            idx.0 >= old(self).virtual_storage_volumes.len() ==> outcome(r) == Err::<
                (),
                ErrorView,
            >(ErrorView::NotFoundAt(EntityKind::VirtualStorage, idx.0))
                && final(self).virtual_storage_volumes@ == old(self).virtual_storage_volumes@,
            final(self).node_in_flows == old(self).node_in_flows,
            final(self).node_out_flows == old(self).node_out_flows,
            final(self).node_volumes == old(self).node_volumes,
            final(self).edge_flows == old(self).edge_flows,
    {
        write(&mut self.virtual_storage_volumes, idx.0, volume, EntityKind::VirtualStorage)
    }
}

/// The exact sum of the flows on the edges that enter a node. An edge without
/// a flow adds nothing.
pub open spec fn inflow_total(edges: Seq<Edge>, flows: Seq<Value>, node: int) -> int
    decreases edges.len(),
{
    if edges.len() == 0 {
        0
    } else {
        inflow_total(edges.drop_last(), flows, node) + if edges.last().to_node.0 == node
            && edges.len() - 1 < flows.len() {
            flows[edges.len() - 1] as int
        } else {
            0
        }
    }
}

/// The exact sum of the flows on the edges that leave a node. An edge without
/// a flow adds nothing.
pub open spec fn outflow_total(edges: Seq<Edge>, flows: Seq<Value>, node: int) -> int
    decreases edges.len(),
{
    if edges.len() == 0 {
        0
    } else {
        outflow_total(edges.drop_last(), flows, node) + if edges.last().from_node.0 == node
            && edges.len() - 1 < flows.len() {
            flows[edges.len() - 1] as int
        } else {
            0
        }
    }
}

/// Where no flow is negative, the sums of the flows into and out of a node are
/// not negative.
pub proof fn lemma_node_totals_nonnegative(edges: Seq<Edge>, flows: Seq<Value>, node: int)
    requires
        forall|e: int| 0 <= e < flows.len() ==> flows[e] >= 0,
    ensures
        inflow_total(edges, flows, node) >= 0,
        outflow_total(edges, flows, node) >= 0,
    decreases edges.len(),
{
    if edges.len() > 0 {
        lemma_node_totals_nonnegative(edges.drop_last(), flows, node);
    }
}

/// Whether the flows of the nodes are the sums of the flows on their edges.
pub open spec fn flows_summed(edges: Seq<Edge>, nodes: nat, state: NetworkState) -> bool {
    &&& state.node_in_flows.len() == nodes
    &&& state.node_out_flows.len() == nodes
    &&& forall|n: int|
        0 <= n < nodes ==> #[trigger] state.node_in_flows[n] == clamp(
            inflow_total(edges, state.edge_flows@, n),
        )
    &&& forall|n: int|
        0 <= n < nodes ==> #[trigger] state.node_out_flows[n] == clamp(
            outflow_total(edges, state.edge_flows@, n),
        )
}

impl NetworkState {
    /// Takes the flows of a solution as the flows on the edges, and makes the
    /// flows into and out of each node the sums of the flows on its edges.
    /// Volumes stay as they are.
    pub fn commit_lp_result(&mut self, edges: &Vec<Edge>, nodes: usize, solution: &[Value])
        ensures
            final(self).edge_flows@ == solution@,
            flows_summed(edges@, nodes as nat, *final(self)),
            final(self).node_volumes == old(self).node_volumes,
            final(self).virtual_storage_volumes == old(self).virtual_storage_volumes,
    {
        self.edge_flows = vstd::slice::slice_to_vec(solution);
        let mut into: Vec<i128> = Vec::new();
        let mut out_of: Vec<i128> = Vec::new();
        let mut n: usize = 0;
        while n < nodes
            invariant
                n <= nodes,
                into.len() == n,
                out_of.len() == n,
                forall|k: int| 0 <= k < n ==> #[trigger] into[k] == 0,
                forall|k: int| 0 <= k < n ==> #[trigger] out_of[k] == 0,
            decreases nodes - n,
        {
            into.push(0);
            out_of.push(0);
            n += 1;
        }
        let mut e: usize = 0;
        while e < edges.len()
            invariant
                e <= edges.len(),
                into.len() == nodes,
                out_of.len() == nodes,
                self.edge_flows@ == solution@,
                forall|k: int|
                    0 <= k < nodes ==> #[trigger] into[k] == inflow_total(
                        edges@.take(e as int),
                        solution@,
                        k,
                    ),
                forall|k: int|
                    0 <= k < nodes ==> #[trigger] out_of[k] == outflow_total(
                        edges@.take(e as int),
                        solution@,
                        k,
                    ),
                forall|k: int|
                    0 <= k < nodes ==> -(e * 0x8000_0000_0000_0000) <= #[trigger] into[k] <= e
                        * 0x7fff_ffff_ffff_ffff,
                forall|k: int|
                    0 <= k < nodes ==> -(e * 0x8000_0000_0000_0000) <= #[trigger] out_of[k] <= e
                        * 0x7fff_ffff_ffff_ffff,
            decreases edges.len() - e,
        {
            proof {
                assert(edges@.take(e + 1).drop_last() =~= edges@.take(e as int));
                assert(edges@.take(e + 1).last() == edges@[e as int]);
            }
            if e < solution.len() {
                let flow: i128 = solution[e] as i128;
                let to = edges[e].to_node.0;
                let from = edges[e].from_node.0;
                if to < nodes {
                    let before = into[to];
                    into.set(to, before + flow);
                }
                if from < nodes {
                    let before = out_of[from];
                    out_of.set(from, before + flow);
                }
            }
            e += 1;
        }
        assert(edges@.take(e as int) =~= edges@);
        let mut node_in_flows: Vec<Value> = Vec::new();
        let mut node_out_flows: Vec<Value> = Vec::new();
        let mut m: usize = 0;
        while m < nodes
            invariant
                m <= nodes,
                into.len() == nodes,
                out_of.len() == nodes,
                node_in_flows.len() == m,
                node_out_flows.len() == m,
                forall|k: int| 0 <= k < m ==> #[trigger] node_in_flows[k] == clamp(into[k] as int),
                forall|k: int|
                    0 <= k < m ==> #[trigger] node_out_flows[k] == clamp(out_of[k] as int),
            decreases nodes - m,
        {
            node_in_flows.push(narrow(into[m]));
            node_out_flows.push(narrow(out_of[m]));
            m += 1;
        }
        self.node_in_flows = node_in_flows;
        self.node_out_flows = node_out_flows;
    }
}

/// A list of `n` zeros.
pub fn zeros(n: usize) -> (r: Vec<Value>)
    ensures
        r@ == Seq::new(n as nat, |i: int| 0i64),
{
    let mut out: Vec<Value> = Vec::new();
    let mut i: usize = 0;
    while i < n
        invariant
            i <= n,
            out@ == Seq::new(i as nat, |k: int| 0i64),
        decreases n - i,
    {
        out.push(0);
        i += 1;
        assert(out@ =~= Seq::new(i as nat, |k: int| 0i64));
    }
    out
}

/// The state of one scenario.
#[derive(Clone, Debug, PartialEq, Eq)]
pub struct State {
    pub network_state: NetworkState,
    /// For each parameter, the amount it gave at this step.
    pub parameter_values: Vec<Value>,
    /// For each index parameter, the number it gave at this step.
    pub index_parameter_values: Vec<usize>,
    /// For each multi-value parameter, the keyed amounts it gave at this step.
    pub multi_parameter_values: Vec<Vec<(String, Value)>>,
    /// For each index parameter, what it keeps from one step to the next.
    pub index_parameter_internal: Vec<Option<Internal>>,
}

impl State {
    /// A state with nothing flowing, nothing stored and every parameter at zero.
    pub fn new(
        nodes: usize,
        edges: usize,
        virtual_storages: usize,
        parameters: usize,
        index_parameters: usize,
        multi_parameters: usize,
    ) -> (r: Self)
        ensures
            r.network_state.node_in_flows@ == Seq::new(nodes as nat, |i: int| 0i64),
            r.network_state.node_out_flows@ == Seq::new(nodes as nat, |i: int| 0i64),
            r.network_state.node_volumes@ == Seq::new(nodes as nat, |i: int| 0i64),
            r.network_state.edge_flows@ == Seq::new(edges as nat, |i: int| 0i64),
            r.network_state.virtual_storage_volumes@ == Seq::new(
                virtual_storages as nat,
                |i: int| 0i64,
            ),
            r.parameter_values@ == Seq::new(parameters as nat, |i: int| 0i64),
            r.index_parameter_values@ == Seq::new(index_parameters as nat, |i: int| 0usize),
            r.multi_parameter_values.len() == multi_parameters,
            forall|i: int|
                0 <= i < multi_parameters ==> (#[trigger] r.multi_parameter_values[i]).len() == 0,
            r.index_parameter_internal@ == Seq::new(
                index_parameters as nat,
                |i: int| None::<Internal>,
            ),
    {
        let mut internal: Vec<Option<Internal>> = Vec::new();
        let mut k: usize = 0;
        while k < index_parameters
            invariant
                k <= index_parameters,
                internal@ == Seq::new(k as nat, |i: int| None::<Internal>),
            decreases index_parameters - k,
        {
            internal.push(None);
            k += 1;
            assert(internal@ =~= Seq::new(k as nat, |i: int| None::<Internal>));
        }
        let mut index_values: Vec<usize> = Vec::new();
        let mut i: usize = 0;
        while i < index_parameters
            invariant
                i <= index_parameters,
                index_values@ == Seq::new(i as nat, |k: int| 0usize),
            decreases index_parameters - i,
        {
            index_values.push(0);
            i += 1;
            assert(index_values@ =~= Seq::new(i as nat, |k: int| 0usize));
        }
        let mut multi_values: Vec<Vec<(String, Value)>> = Vec::new();
        let mut j: usize = 0;
        while j < multi_parameters
            invariant
                j <= multi_parameters,
                multi_values.len() == j,
                forall|k: int| 0 <= k < j ==> (#[trigger] multi_values[k]).len() == 0,
            decreases multi_parameters - j,
        {
            multi_values.push(Vec::new());
            j += 1;
        }
        State {
            network_state: NetworkState::new(nodes, edges, virtual_storages),
            parameter_values: zeros(parameters),
            index_parameter_values: index_values,
            multi_parameter_values: multi_values,
            index_parameter_internal: internal,
        }
    }

    pub fn get_network_state(&self) -> (r: &NetworkState)
        ensures
            *r == self.network_state,
    {
        &self.network_state
    }

    pub fn get_parameter_value(&self, idx: ParameterIndex) -> (r: Result<Value, PywrError>)
        ensures
            outcome(r) == lookup(self.parameter_values@, idx.0, EntityKind::Parameter),
    {
        read(&self.parameter_values, idx.0, EntityKind::Parameter)
    }

    pub fn set_parameter_value(&mut self, idx: ParameterIndex, value: Value) -> (r: Result<
        (),
        PywrError,
    >)
        ensures
            idx.0 < old(self).parameter_values.len()
                ==> r.is_ok()
                && final(self).parameter_values@
                == old(self).parameter_values@.update(idx.0 as int, value),
            idx.0 >= old(self).parameter_values.len() ==> outcome(r) == Err::<(), ErrorView>(
                ErrorView::NotFoundAt(EntityKind::Parameter, idx.0),
            ) && final(self).parameter_values@ == old(self).parameter_values@,
            final(self).network_state == old(self).network_state,
            final(self).index_parameter_internal == old(self).index_parameter_internal,
            final(self).index_parameter_values == old(self).index_parameter_values,
            final(self).multi_parameter_values == old(self).multi_parameter_values,
    {
        write(&mut self.parameter_values, idx.0, value, EntityKind::Parameter)
    }

    pub fn get_index_parameter_value(&self, idx: IndexParameterIndex) -> (r: Result<
        usize,
        PywrError,
    >)
        ensures
            idx.0 < self.index_parameter_values.len() ==> r == Ok::<usize, PywrError>(
                self.index_parameter_values[idx.0 as int],
            ),
            idx.0 >= self.index_parameter_values.len() ==> outcome(r) == Err::<usize, ErrorView>(
                ErrorView::NotFoundAt(EntityKind::IndexParameter, idx.0),
            ),
    {
        if idx.0 < self.index_parameter_values.len() {
            Ok(self.index_parameter_values[idx.0])
        } else {
            Err(PywrError::NotFoundAt(EntityKind::IndexParameter, idx.0))
        }
    }

    pub fn set_index_parameter_value(&mut self, idx: IndexParameterIndex, value: usize) -> (r:
        Result<(), PywrError>)
        ensures
            idx.0 < old(self).index_parameter_values.len()
                ==> r.is_ok()
                && final(self).index_parameter_values@ == old(self).index_parameter_values@.update(
                idx.0 as int,
                value,
            ),
            idx.0 >= old(self).index_parameter_values.len() ==> outcome(r) == Err::<
                (),
                ErrorView,
            >(ErrorView::NotFoundAt(EntityKind::IndexParameter, idx.0))
                && final(self).index_parameter_values@ == old(self).index_parameter_values@,
            final(self).network_state == old(self).network_state,
            final(self).index_parameter_internal == old(self).index_parameter_internal,
            final(self).parameter_values == old(self).parameter_values,
            final(self).multi_parameter_values == old(self).multi_parameter_values,
    {
        if idx.0 < self.index_parameter_values.len() {
            self.index_parameter_values.set(idx.0, value);
            Ok(())
        } else {
            Err(PywrError::NotFoundAt(EntityKind::IndexParameter, idx.0))
        }
    }

    /// The amount that a multi-value parameter gave under `key`.
    pub fn get_multi_parameter_value(&self, idx: MultiValueParameterIndex, key: &str) -> (r:
        Result<Value, PywrError>)
        ensures
            outcome(r) == multi_lookup(self.multi_parameter_values@, idx.0, key@),
    {
        if idx.0 >= self.multi_parameter_values.len() {
            return Err(PywrError::NotFoundAt(EntityKind::MultiValueParameter, idx.0));
        }
        let wanted = key.to_string();
        match find_keyed(&self.multi_parameter_values[idx.0], &wanted) {
            Some(v) => Ok(v),
            None => Err(PywrError::NotFound(EntityKind::MultiValueKey, wanted)),
        }
    }

    /// Replaces the keyed amounts of a multi-value parameter.
    pub fn set_multi_parameter_value(
        &mut self,
        idx: MultiValueParameterIndex,
        values: Vec<(String, Value)>,
    ) -> (r: Result<(), PywrError>)
        ensures
            idx.0 < old(self).multi_parameter_values.len()
                ==> r.is_ok()
                && final(self).multi_parameter_values@ == old(self).multi_parameter_values@.update(
                idx.0 as int,
                values,
            ),
            idx.0 >= old(self).multi_parameter_values.len() ==> outcome(r) == Err::<
                (),
                ErrorView,
            >(ErrorView::NotFoundAt(EntityKind::MultiValueParameter, idx.0))
                && final(self).multi_parameter_values@ == old(self).multi_parameter_values@,
            final(self).network_state == old(self).network_state,
            final(self).index_parameter_internal == old(self).index_parameter_internal,
            final(self).parameter_values == old(self).parameter_values,
            final(self).index_parameter_values == old(self).index_parameter_values,
    {
        if idx.0 < self.multi_parameter_values.len() {
            self.multi_parameter_values.set(idx.0, values);
            Ok(())
        } else {
            Err(PywrError::NotFoundAt(EntityKind::MultiValueParameter, idx.0))
        }
    }
}

/// The amount under `key` of the multi-value parameter at `at`.
pub open spec fn multi_lookup(
    values: Seq<Vec<(String, Value)>>,
    at: usize,
    key: Seq<char>,
) -> Result<Value, ErrorView> {
    if at >= values.len() {
        Err(ErrorView::NotFoundAt(EntityKind::MultiValueParameter, at))
    } else {
        match keyed(values[at as int]@, key) {
            Some(v) => Ok(v),
            None => Err(ErrorView::NotFound(EntityKind::MultiValueKey, key)),
        }
    }
}

} // verus!
