//! The network: nodes, the edges between them, and the sets and accounts that
//! are laid over them.

use vstd::prelude::*;
use crate::aggregated_node::{AggregatedNode, AggregatedNodeIndex, Factors};
use crate::aggregated_storage_node::{AggregatedStorageNode, AggregatedStorageNodeIndex};
use crate::edge::{Edge, EdgeIndex};
use crate::error::{outcome, EntityKind, ErrorView, PywrError};
use crate::metric::Metric;
use crate::node::{
    label_matches, label_of_str, own_sub_name, ConstraintValue, Label, Node, NodeIndex, NodeKind,
    StorageInitialVolume,
};
use crate::parameters::{
    IndexParameterIndex, IndexParameterKind, MultiValueParameterIndex, ParameterIndex,
    ParameterKind, ParameterMeta,
};
use crate::value::Value;
use crate::virtual_storage::{VirtualStorage, VirtualStorageIndex, VirtualStorageReset};

verus! {

/// The parts of a network.
#[derive(Clone, Copy, Debug, PartialEq, Eq, Structural)]
pub enum Part {
    Nodes,
    Edges,
    AggregatedNodes,
    AggregatedStorageNodes,
    VirtualStorageNodes,
    Parameters,
    IndexParameters,
    MultiValueParameters,
}

/// A directed graph of nodes and edges, with aggregated nodes, aggregated
/// storage nodes and virtual storages over its nodes.
pub struct Network {
    pub nodes: Vec<Node>,
    pub edges: Vec<Edge>,
    pub aggregated_nodes: Vec<AggregatedNode>,
    pub aggregated_storage_nodes: Vec<AggregatedStorageNode>,
    pub virtual_storage_nodes: Vec<VirtualStorage>,
    pub parameters: Vec<ParameterKind>,
    pub index_parameters: Vec<IndexParameterKind>,
    /// The parameters that give several keyed amounts. They are computed outside
    /// this library; the network holds their names.
    pub multi_parameters: Vec<ParameterMeta>,
}

/// The position of the first of the names that is `name`.
pub open spec fn first_named(names: Seq<Seq<char>>, name: Seq<char>) -> Option<int>
    decreases names.len(),
{
    if names.len() == 0 {
        None
    } else {
        match first_named(names.drop_last(), name) {
            Some(i) => Some(i),
            None => if names.last() == name {
                Some(names.len() - 1)
            } else {
                None
            },
        }
    }
}

/// `first_named` gives the first position at which the name stands, and nothing
/// exactly where it stands nowhere.
pub proof fn lemma_first_named(names: Seq<Seq<char>>, name: Seq<char>)
    ensures
        match first_named(names, name) {
            Some(i) => 0 <= i < names.len() && names[i] == name && forall|j: int|
                0 <= j < i ==> names[j] != name,
            None => forall|j: int| 0 <= j < names.len() ==> names[j] != name,
        },
    decreases names.len(),
{
    if names.len() > 0 {
        lemma_first_named(names.drop_last(), name);
        match first_named(names.drop_last(), name) {
            Some(i) => {
                assert(names.drop_last()[i] == names[i]);
                assert forall|j: int| 0 <= j < i implies names[j] != name by {
                    assert(names.drop_last()[j] == names[j]);
                }
            },
            None => {
                assert forall|j: int| 0 <= j < names.len() - 1 implies names[j] != name by {
                    assert(names.drop_last()[j] == names[j]);
                }
            },
        }
    }
}

/// The position of the first of the labels that is `label`.
pub open spec fn first_label(labels: Seq<Label>, label: Label) -> Option<int>
    decreases labels.len(),
{
    if labels.len() == 0 {
        None
    } else {
        match first_label(labels.drop_last(), label) {
            Some(i) => Some(i),
            None => if labels.last() == label {
                Some(labels.len() - 1)
            } else {
                None
            },
        }
    }
}

/// `first_label` gives the first position at which the label stands, and
/// nothing exactly where it stands nowhere.
pub proof fn lemma_first_label(labels: Seq<Label>, label: Label)
    ensures
        match first_label(labels, label) {
            Some(i) => 0 <= i < labels.len() && labels[i] == label && forall|j: int|
                0 <= j < i ==> labels[j] != label,
            None => forall|j: int| 0 <= j < labels.len() ==> labels[j] != label,
        },
    decreases labels.len(),
{
    if labels.len() > 0 {
        lemma_first_label(labels.drop_last(), label);
        match first_label(labels.drop_last(), label) {
            Some(i) => {
                assert(labels.drop_last()[i] == labels[i]);
                assert forall|j: int| 0 <= j < i implies labels[j] != label by {
                    assert(labels.drop_last()[j] == labels[j]);
                }
            },
            None => {
                assert forall|j: int| 0 <= j < labels.len() - 1 implies labels[j] != label by {
                    assert(labels.drop_last()[j] == labels[j]);
                }
            },
        }
    }
}

/// Whether no two of the names are the same.
pub open spec fn distinct_names(names: Seq<Seq<char>>) -> bool {
    forall|i: int, j: int| 0 <= i < j < names.len() ==> names[i] != names[j]
}

/// Whether no two of the labels are the same.
pub open spec fn distinct(labels: Seq<Label>) -> bool {
    forall|i: int, j: int| 0 <= i < j < labels.len() ==> labels[i] != labels[j]
}

impl Network {
    /// The labels of the nodes, in the order of their handles.
    pub open spec fn node_labels(&self) -> Seq<Label> {
        Seq::new(self.nodes.len() as nat, |i: int| self.nodes[i].label())
    }

    /// The labels of the aggregated nodes.
    pub open spec fn aggregated_node_labels(&self) -> Seq<Label> {
        Seq::new(self.aggregated_nodes.len() as nat, |i: int| self.aggregated_nodes[i].label())
    }

    /// The labels of the aggregated storage nodes.
    pub open spec fn aggregated_storage_node_labels(&self) -> Seq<Label> {
        Seq::new(
            self.aggregated_storage_nodes.len() as nat,
            |i: int| self.aggregated_storage_nodes[i].label(),
        )
    }

    /// The labels of the virtual storages.
    pub open spec fn virtual_storage_labels(&self) -> Seq<Label> {
        Seq::new(
            self.virtual_storage_nodes.len() as nat,
            |i: int| self.virtual_storage_nodes[i].label(),
        )
    }

    /// The names of the parameters that give amounts.
    pub open spec fn parameter_names(&self) -> Seq<Seq<char>> {
        Seq::new(self.parameters.len() as nat, |i: int| self.parameters[i].meta_of().name@)
    }

    /// The names of the index parameters.
    pub open spec fn index_parameter_names(&self) -> Seq<Seq<char>> {
        Seq::new(
            self.index_parameters.len() as nat,
            |i: int| self.index_parameters[i].meta_of().name@,
        )
    }

    /// The names of the multi-value parameters.
    pub open spec fn multi_parameter_names(&self) -> Seq<Seq<char>> {
        Seq::new(self.multi_parameters.len() as nat, |i: int| self.multi_parameters[i].name@)
    }

    /// Whether an edge may run between two nodes of this network.
    pub open spec fn edge_allowed(&self, from_node: NodeIndex, to_node: NodeIndex) -> bool {
        &&& from_node.0 < self.nodes.len()
        &&& to_node.0 < self.nodes.len()
        &&& from_node.0 != to_node.0
        &&& self.nodes[from_node.0 as int].kind != NodeKind::Output
        &&& self.nodes[to_node.0 as int].kind != NodeKind::Input
    }

    /// Whether every member is a storage of this network.
    pub open spec fn storages(&self, members: Seq<NodeIndex>) -> bool {
        forall|k: int|
            0 <= k < members.len() ==> (#[trigger] members[k]).0 < self.nodes.len()
                && self.nodes[members[k].0 as int].kind == NodeKind::Storage
    }

    /// Whether every member is a node of this network.
    pub open spec fn members_known(&self, members: Seq<NodeIndex>) -> bool {
        forall|k: int| 0 <= k < members.len() ==> (#[trigger] members[k]).0 < self.nodes.len()
    }

    /// The invariant of a network: names are taken once within each kind, every
    /// edge joins two different nodes of the network, leaves no output and
    /// enters no input, and every set is made of nodes of the network.
    pub open spec fn wf(&self) -> bool {
        &&& forall|i: int| 0 <= i < self.nodes.len() ==> (#[trigger] self.nodes[i]).wf()
        &&& distinct(self.node_labels())
        &&& forall|e: int|
            0 <= e < self.edges.len() ==> self.edge_allowed(
                (#[trigger] self.edges[e]).from_node,
                self.edges[e].to_node,
            )
        &&& forall|a: int|
            0 <= a < self.aggregated_nodes.len() ==> (#[trigger] self.aggregated_nodes[a]).wf(
                self.nodes.len() as nat,
            )
        &&& distinct(self.aggregated_node_labels())
        &&& forall|s: int|
            0 <= s < self.aggregated_storage_nodes.len() ==> self.storages(
                (#[trigger] self.aggregated_storage_nodes[s]).nodes@,
            )
        &&& distinct(self.aggregated_storage_node_labels())
        &&& forall|v: int|
            0 <= v < self.virtual_storage_nodes.len() ==> (
            #[trigger] self.virtual_storage_nodes[v]).wf(self.nodes.len() as nat)
        &&& distinct(self.virtual_storage_labels())
        &&& distinct_names(self.parameter_names())
        &&& distinct_names(self.index_parameter_names())
        &&& distinct_names(self.multi_parameter_names())
    }

    /// Whether two networks agree in every part but one.
    pub open spec fn same_but(&self, other: &Network, part: Part) -> bool {
        &&& part == Part::Nodes || self.nodes == other.nodes
        &&& part == Part::Edges || self.edges == other.edges
        &&& part == Part::AggregatedNodes || self.aggregated_nodes == other.aggregated_nodes
        &&& part == Part::AggregatedStorageNodes || self.aggregated_storage_nodes
            == other.aggregated_storage_nodes
        &&& part == Part::VirtualStorageNodes || self.virtual_storage_nodes
            == other.virtual_storage_nodes
        &&& part == Part::Parameters || self.parameters == other.parameters
        &&& part == Part::IndexParameters || self.index_parameters == other.index_parameters
        &&& part == Part::MultiValueParameters || self.multi_parameters == other.multi_parameters
    }

    /// A network that holds nothing.
    pub fn new() -> (r: Self)
        ensures
            r.wf(),
            r.nodes.len() == 0,
            r.edges.len() == 0,
            r.aggregated_nodes.len() == 0,
            r.aggregated_storage_nodes.len() == 0,
            r.virtual_storage_nodes.len() == 0,
            r.parameters.len() == 0,
            r.index_parameters.len() == 0,
            r.multi_parameters.len() == 0,
    {
        Network {
            nodes: Vec::new(),
            edges: Vec::new(),
            aggregated_nodes: Vec::new(),
            aggregated_storage_nodes: Vec::new(),
            virtual_storage_nodes: Vec::new(),
            parameters: Vec::new(),
            index_parameters: Vec::new(),
            multi_parameters: Vec::new(),
        }
    }

    /// The position of the first node with this label.
    fn find_node(&self, name: &String, sub_name: &Option<String>) -> (r: Option<usize>)
        ensures
            match r {
                Some(i) => i < self.nodes.len() && self.nodes[i as int].label()
                    == crate::node::label_of(*name, *sub_name) && forall|j: int|
                    0 <= j < i ==> (#[trigger] self.nodes[j]).label() != crate::node::label_of(
                        *name,
                        *sub_name,
                    ),
                None => forall|j: int|
                    0 <= j < self.nodes.len() ==> (#[trigger] self.nodes[j]).label()
                        != crate::node::label_of(*name, *sub_name),
            },
    {
        let mut i: usize = 0;
        while i < self.nodes.len()
            invariant
                i <= self.nodes.len(),
                forall|j: int|
                    0 <= j < i ==> (#[trigger] self.nodes[j]).label() != crate::node::label_of(
                        *name,
                        *sub_name,
                    ),
            decreases self.nodes.len() - i,
        {
            if label_matches(&self.nodes[i].name, &self.nodes[i].sub_name, name, sub_name) {
                return Some(i);
            }
            i += 1;
        }
        None
    }

    /// The handle of the node with this name and sub-name.
    pub fn get_node_index_by_name(&self, name: &str, sub_name: Option<&str>) -> (r: Result<
        NodeIndex,
        PywrError,
    >)
        ensures
            outcome(r) == match first_label(self.node_labels(), label_of_str(name, sub_name)) {
                Some(i) => Ok::<NodeIndex, ErrorView>(NodeIndex(i as usize)),
                None => Err(ErrorView::NotFound(EntityKind::Node, name@)),
            },
            match r {
                Ok(idx) => idx.0 < self.nodes.len() && self.nodes[idx.0 as int].label()
                    == label_of_str(name, sub_name) && forall|j: int|
                    0 <= j < idx.0 ==> (#[trigger] self.nodes[j]).label() != label_of_str(
                        name,
                        sub_name,
                    ),
                Err(e) => e@ == ErrorView::NotFound(EntityKind::Node, name@) && forall|j: int|
                    0 <= j < self.nodes.len() ==> (#[trigger] self.nodes[j]).label()
                        != label_of_str(name, sub_name),
            },
    {
        let key = name.to_string();
        let sub_key = own_sub_name(sub_name);
        proof {
            lemma_first_label(self.node_labels(), label_of_str(name, sub_name));
            let labels = self.node_labels();
            assert(forall|j: int| 0 <= j < labels.len() ==> labels[j] == (
            #[trigger] self.nodes[j]).label());
        }
        match self.find_node(&key, &sub_key) {
            Some(i) => Ok(NodeIndex(i)),
            None => Err(PywrError::NotFound(EntityKind::Node, key)),
        }
    }

    /// The node with this handle.
    pub fn get_node(&self, idx: &NodeIndex) -> (r: Result<&Node, PywrError>)
        ensures
            idx.0 < self.nodes.len() ==> r == Ok::<&Node, PywrError>(&self.nodes[idx.0 as int]),
            idx.0 >= self.nodes.len() ==> outcome(r) == Err::<&Node, ErrorView>(
                ErrorView::NotFoundAt(EntityKind::Node, idx.0),
            ),
    {
        if idx.0 < self.nodes.len() {
            Ok(&self.nodes[idx.0])
        } else {
            Err(PywrError::NotFoundAt(EntityKind::Node, idx.0))
        }
    }

    /// The aggregated node with this handle.
    pub fn get_aggregated_node(&self, idx: &AggregatedNodeIndex) -> (r: Result<
        &AggregatedNode,
        PywrError,
    >)
        ensures
            idx.0 < self.aggregated_nodes.len() ==> r == Ok::<&AggregatedNode, PywrError>(
                &self.aggregated_nodes[idx.0 as int],
            ),
            idx.0 >= self.aggregated_nodes.len() ==> outcome(r) == Err::<
                &AggregatedNode,
                ErrorView,
            >(ErrorView::NotFoundAt(EntityKind::AggregatedNode, idx.0)),
    {
        if idx.0 < self.aggregated_nodes.len() {
            Ok(&self.aggregated_nodes[idx.0])
        } else {
            Err(PywrError::NotFoundAt(EntityKind::AggregatedNode, idx.0))
        }
    }

    /// The aggregated storage node with this handle.
    pub fn get_aggregated_storage_node(&self, idx: &AggregatedStorageNodeIndex) -> (r: Result<
        &AggregatedStorageNode,
        PywrError,
    >)
        ensures
            idx.0 < self.aggregated_storage_nodes.len() ==> r == Ok::<
                &AggregatedStorageNode,
                PywrError,
            >(&self.aggregated_storage_nodes[idx.0 as int]),
            idx.0 >= self.aggregated_storage_nodes.len() ==> outcome(r) == Err::<
                &AggregatedStorageNode,
                ErrorView,
            >(ErrorView::NotFoundAt(EntityKind::AggregatedStorageNode, idx.0)),
    {
        if idx.0 < self.aggregated_storage_nodes.len() {
            Ok(&self.aggregated_storage_nodes[idx.0])
        } else {
            Err(PywrError::NotFoundAt(EntityKind::AggregatedStorageNode, idx.0))
        }
    }

    /// The virtual storage with this handle.
    pub fn get_virtual_storage_node(&self, idx: &VirtualStorageIndex) -> (r: Result<
        &VirtualStorage,
        PywrError,
    >)
        ensures
            idx.0 < self.virtual_storage_nodes.len() ==> r == Ok::<&VirtualStorage, PywrError>(
                &self.virtual_storage_nodes[idx.0 as int],
            ),
            idx.0 >= self.virtual_storage_nodes.len() ==> outcome(r) == Err::<
                &VirtualStorage,
                ErrorView,
            >(ErrorView::NotFoundAt(EntityKind::VirtualStorage, idx.0)),
    {
        if idx.0 < self.virtual_storage_nodes.len() {
            Ok(&self.virtual_storage_nodes[idx.0])
        } else {
            Err(PywrError::NotFoundAt(EntityKind::VirtualStorage, idx.0))
        }
    }

    /// Appends a node whose label is not taken.
    fn push_node(&mut self, node: Node) -> (r: NodeIndex)
        requires
            node.wf(),
            forall|j: int|
                0 <= j < old(self).nodes.len() ==> (#[trigger] old(self).nodes[j]).label()
                    != node.label(),
        ensures
            r.0 == old(self).nodes.len(),
            final(self).nodes@ == old(self).nodes@.push(node),
            final(self).same_but(old(self), Part::Nodes),
            old(self).wf() ==> final(self).wf(),
    {
        let idx = self.nodes.len();
        self.nodes.push(node);
        proof {
            if old(self).wf() {
                let before = old(self).node_labels();
                let after = self.node_labels();
                assert forall|i: int, j: int| 0 <= i < j < after.len() implies after[i]
                    != after[j] by {
                    if j < before.len() {
                        assert(before[i] != before[j]);
                    } else {
                        assert(old(self).nodes[i].label() != node.label());
                    }
                }
                assert(self.aggregated_node_labels() =~= old(self).aggregated_node_labels());
                assert(self.aggregated_storage_node_labels()
                    =~= old(self).aggregated_storage_node_labels());
                assert(self.virtual_storage_labels() =~= old(self).virtual_storage_labels());
                assert(self.parameter_names() =~= old(self).parameter_names());
                assert(self.index_parameter_names() =~= old(self).index_parameter_names());
                assert(self.multi_parameter_names() =~= old(self).multi_parameter_names());
                assert forall|e: int| 0 <= e < self.edges.len() implies self.edge_allowed(
                    (#[trigger] self.edges[e]).from_node,
                    self.edges[e].to_node,
                ) by {
                    assert(old(self).edge_allowed(
                        old(self).edges[e].from_node,
                        old(self).edges[e].to_node,
                    ));
                }
                assert forall|s: int| 0 <= s < self.aggregated_storage_nodes.len()
                    implies self.storages(
                    (#[trigger] self.aggregated_storage_nodes[s]).nodes@,
                ) by {
                    assert(old(self).storages(old(self).aggregated_storage_nodes[s].nodes@));
                }
            }
        }
        NodeIndex(idx)
    }

    /// Adds a node of a kind that stores nothing.
    fn add_flow_node(&mut self, name: &str, sub_name: Option<&str>, kind: NodeKind) -> (r: Result<
        NodeIndex,
        PywrError,
    >)
        requires
            kind != NodeKind::Storage,
        ensures
            old(self).node_added(final(self), r, label_of_str(name, sub_name), kind),
            old(self).wf() ==> final(self).wf(),
    {
        let key = name.to_string();
        let sub_key = own_sub_name(sub_name);
        match self.find_node(&key, &sub_key) {
            Some(_) => Err(PywrError::DuplicateName),
            None => {
                let node = Node::new_flow(name, sub_name, kind);
                let idx = self.push_node(node);
                proof {
                    assert(self.nodes@.last() == node);
                    assert(self.nodes@.drop_last() =~= old(self).nodes@);
                }
                Ok(idx)
            },
        }
    }

    /// What adding a node does. Where the label is free, the node is appended
    /// without bounds or cost, and its handle is its position; where the label
    /// is taken, the network stays as it is and the name is reported.
    pub open spec fn node_added(
        &self,
        after: &Network,
        r: Result<NodeIndex, PywrError>,
        label: Label,
        kind: NodeKind,
    ) -> bool {
        let taken = exists|j: int|
            0 <= j < self.nodes.len() && (#[trigger] self.nodes[j]).label() == label;
        &&& after.same_but(self, Part::Nodes)
        &&& taken ==> outcome(r) == Err::<NodeIndex, ErrorView>(ErrorView::DuplicateName)
            && after.nodes@ == self.nodes@
        &&& !taken ==> {
            &&& r == Ok::<NodeIndex, PywrError>(NodeIndex(self.nodes.len()))
            &&& after.nodes@.len() == self.nodes@.len() + 1
            &&& after.nodes@.drop_last() == self.nodes@
            &&& after.nodes@.last().label() == label
            &&& after.nodes@.last().kind == kind
            &&& after.nodes@.last().min_flow == ConstraintValue::Unbounded
            &&& after.nodes@.last().max_flow == ConstraintValue::Unbounded
            &&& after.nodes@.last().cost == ConstraintValue::Unbounded
        }
    }

    /// Adds a node at which water enters the network.
    pub fn add_input_node(&mut self, name: &str, sub_name: Option<&str>) -> (r: Result<
        NodeIndex,
        PywrError,
    >)
        ensures
            old(self).node_added(final(self), r, label_of_str(name, sub_name), NodeKind::Input),
            old(self).wf() ==> final(self).wf(),
    {
        self.add_flow_node(name, sub_name, NodeKind::Input)
    }

    /// Adds a node at which water leaves the network.
    pub fn add_output_node(&mut self, name: &str, sub_name: Option<&str>) -> (r: Result<
        NodeIndex,
        PywrError,
    >)
        ensures
            old(self).node_added(final(self), r, label_of_str(name, sub_name), NodeKind::Output),
            old(self).wf() ==> final(self).wf(),
    {
        self.add_flow_node(name, sub_name, NodeKind::Output)
    }

    /// Adds a node through which water passes.
    pub fn add_link_node(&mut self, name: &str, sub_name: Option<&str>) -> (r: Result<
        NodeIndex,
        PywrError,
    >)
        ensures
            old(self).node_added(final(self), r, label_of_str(name, sub_name), NodeKind::Link),
            old(self).wf() ==> final(self).wf(),
    {
        self.add_flow_node(name, sub_name, NodeKind::Link)
    }

    /// Adds a node that stores water.
    pub fn add_storage_node(
        &mut self,
        name: &str,
        sub_name: Option<&str>,
        initial_volume: StorageInitialVolume,
        min_volume: ConstraintValue,
        max_volume: ConstraintValue,
    ) -> (r: Result<NodeIndex, PywrError>)
        ensures
            old(self).node_added(final(self), r, label_of_str(name, sub_name), NodeKind::Storage),
            r.is_ok() ==> final(self).nodes@.last().initial_volume == Some(initial_volume)
                && final(self).nodes@.last().min_volume == min_volume
                && final(self).nodes@.last().max_volume == max_volume,
            old(self).wf() ==> final(self).wf(),
    {
        let key = name.to_string();
        let sub_key = own_sub_name(sub_name);
        match self.find_node(&key, &sub_key) {
            Some(_) => Err(PywrError::DuplicateName),
            None => {
                let node = Node::new_storage(name, sub_name, initial_volume, min_volume, max_volume);
                let idx = self.push_node(node);
                proof {
                    assert(self.nodes@.last() == node);
                    assert(self.nodes@.drop_last() =~= old(self).nodes@);
                }
                Ok(idx)
            },
        }
    }

    /// Adds an edge from one node to another.
    ///
    /// A handle that the network did not give fails with `NotFoundAt`, that of
    /// `from_node` first; an edge from a node to itself with
    /// `EdgeWouldCreateSelfLoop`; an edge out of an output or into an input with
    /// `InvalidEdge`.
    pub fn connect(&mut self, from_node: NodeIndex, to_node: NodeIndex) -> (r: Result<
        EdgeIndex,
        PywrError,
    >)
        ensures
            final(self).same_but(old(self), Part::Edges),
            outcome(r) == old(self).connect_outcome(from_node, to_node),
            r.is_ok() ==> final(self).edges@ == old(self).edges@.push(
                Edge { from_node, to_node },
            ),
            r.is_err() ==> final(self).edges@ == old(self).edges@,
            old(self).wf() ==> final(self).wf(),
    {
        if from_node.0 >= self.nodes.len() {
            return Err(PywrError::NotFoundAt(EntityKind::Node, from_node.0));
        }
        if to_node.0 >= self.nodes.len() {
            return Err(PywrError::NotFoundAt(EntityKind::Node, to_node.0));
        }
        if from_node.0 == to_node.0 {
            return Err(PywrError::EdgeWouldCreateSelfLoop);
        }
        if self.nodes[from_node.0].kind == NodeKind::Output || self.nodes[to_node.0].kind
            == NodeKind::Input {
            return Err(PywrError::InvalidEdge);
        }
        let idx = self.edges.len();
        self.edges.push(Edge { from_node, to_node });
        proof {
            if old(self).wf() {
                assert(self.node_labels() =~= old(self).node_labels());
                assert(self.aggregated_node_labels() =~= old(self).aggregated_node_labels());
                assert(self.aggregated_storage_node_labels()
                    =~= old(self).aggregated_storage_node_labels());
                assert(self.virtual_storage_labels() =~= old(self).virtual_storage_labels());
                assert(self.parameter_names() =~= old(self).parameter_names());
                assert(self.index_parameter_names() =~= old(self).index_parameter_names());
                assert(self.multi_parameter_names() =~= old(self).multi_parameter_names());
                assert forall|e: int| 0 <= e < self.edges.len() implies self.edge_allowed(
                    (#[trigger] self.edges[e]).from_node,
                    self.edges[e].to_node,
                ) by {
                    if e < old(self).edges.len() {
                        assert(old(self).edge_allowed(
                            old(self).edges[e].from_node,
                            old(self).edges[e].to_node,
                        ));
                    }
                }
                assert forall|s: int| 0 <= s < self.aggregated_storage_nodes.len()
                    implies self.storages(
                    (#[trigger] self.aggregated_storage_nodes[s]).nodes@,
                ) by {
                    assert(old(self).storages(old(self).aggregated_storage_nodes[s].nodes@));
                }
            }
        }
        Ok(EdgeIndex(idx))
    }

    /// The first member that is no node of this network, if there is one.
    pub open spec fn first_unknown(&self, members: Seq<NodeIndex>) -> Option<usize>
        decreases members.len(),
    {
        if members.len() == 0 {
            None
        } else {
            match self.first_unknown(members.drop_last()) {
                Some(m) => Some(m),
                None => if members.last().0 >= self.nodes.len() {
                    Some(members.last().0)
                } else {
                    None
                },
            }
        }
    }

    /// Where no member is unknown, every member is known.
    pub proof fn lemma_first_unknown(&self, members: Seq<NodeIndex>)
        ensures
            self.first_unknown(members).is_none() <==> self.members_known(members),
            self.first_unknown(members).is_some() ==> self.first_unknown(members).unwrap()
                >= self.nodes.len(),
        decreases members.len(),
    {
        if members.len() > 0 {
            self.lemma_first_unknown(members.drop_last());
            if self.first_unknown(members.drop_last()).is_none() {
                assert forall|k: int| 0 <= k < members.len() - 1 implies (
                #[trigger] members[k]).0 < self.nodes.len() by {
                    assert(members.drop_last()[k] == members[k]);
                }
            } else {
                let rest = members.drop_last();
                let k = choose|k: int| 0 <= k < rest.len()
                    && !((#[trigger] rest[k]).0 < self.nodes.len());
                assert(members[k] == rest[k]);
            }
        }
    }

    /// Checks that every member is a node of this network.
    fn check_members(&self, members: &Vec<NodeIndex>) -> (r: Result<(), PywrError>)
        ensures
            outcome(r) == match self.first_unknown(members@) {
                Some(m) => Err::<(), ErrorView>(ErrorView::NotFoundAt(EntityKind::Node, m)),
                None => Ok(()),
            },
    {
        let mut i: usize = 0;
        while i < members.len()
            invariant
                i <= members.len(),
                self.first_unknown(members@.take(i as int)).is_none(),
            decreases members.len() - i,
        {
            proof {
                assert(members@.take(i + 1).drop_last() =~= members@.take(i as int));
            }
            if members[i].0 >= self.nodes.len() {
                proof {
                    self.lemma_unknown_in_prefix(members@, i + 1);
                }
                return Err(PywrError::NotFoundAt(EntityKind::Node, members[i].0));
            }
            i += 1;
        }
        assert(members@.take(i as int) =~= members@);
        Ok(())
    }

    /// An unknown member among the first `n` is the first unknown member of all.
    proof fn lemma_unknown_in_prefix(&self, members: Seq<NodeIndex>, n: int)
        requires
            0 <= n <= members.len(),
            self.first_unknown(members.take(n)).is_some(),
        ensures
            self.first_unknown(members) == self.first_unknown(members.take(n)),
        decreases members.len() - n,
    {
        if n < members.len() {
            assert(members.take(n + 1).drop_last() =~= members.take(n));
            self.lemma_unknown_in_prefix(members, n + 1);
        } else {
            assert(members.take(n) =~= members);
        }
    }

    /// The position of the first aggregated node with this label.
    fn find_aggregated_node(&self, name: &String, sub_name: &Option<String>) -> (r: Option<usize>)
        ensures
            match r {
                Some(i) => i < self.aggregated_nodes.len()
                    && self.aggregated_nodes[i as int].label()
                    == crate::node::label_of(*name, *sub_name) && forall|j: int|
                    0 <= j < i ==> (#[trigger] self.aggregated_nodes[j]).label()
                        != crate::node::label_of(*name, *sub_name),
                None => forall|j: int|
                    0 <= j < self.aggregated_nodes.len() ==> (
                    #[trigger] self.aggregated_nodes[j]).label() != crate::node::label_of(
                        *name,
                        *sub_name,
                    ),
            },
    {
        let mut i: usize = 0;
        while i < self.aggregated_nodes.len()
            invariant
                i <= self.aggregated_nodes.len(),
                forall|j: int|
                    0 <= j < i ==> (#[trigger] self.aggregated_nodes[j]).label()
                        != crate::node::label_of(*name, *sub_name),
            decreases self.aggregated_nodes.len() - i,
        {
            if label_matches(
                &self.aggregated_nodes[i].name,
                &self.aggregated_nodes[i].sub_name,
                name,
                sub_name,
            ) {
                return Some(i);
            }
            i += 1;
        }
        None
    }

    /// The position of the first aggregated storage node with this label.
    fn find_aggregated_storage_node(&self, name: &String, sub_name: &Option<String>) -> (r: Option<
        usize,
    >)
        ensures
            match r {
                Some(i) => i < self.aggregated_storage_nodes.len()
                    && self.aggregated_storage_nodes[i as int].label() == crate::node::label_of(
                    *name,
                    *sub_name,
                ) && forall|j: int|
                    0 <= j < i ==> (#[trigger] self.aggregated_storage_nodes[j]).label()
                        != crate::node::label_of(*name, *sub_name),
                None => forall|j: int|
                    0 <= j < self.aggregated_storage_nodes.len() ==> (
                    #[trigger] self.aggregated_storage_nodes[j]).label() != crate::node::label_of(
                        *name,
                        *sub_name,
                    ),
            },
    {
        let mut i: usize = 0;
        while i < self.aggregated_storage_nodes.len()
            invariant
                i <= self.aggregated_storage_nodes.len(),
                forall|j: int|
                    0 <= j < i ==> (#[trigger] self.aggregated_storage_nodes[j]).label()
                        != crate::node::label_of(*name, *sub_name),
            decreases self.aggregated_storage_nodes.len() - i,
        {
            if label_matches(
                &self.aggregated_storage_nodes[i].name,
                &self.aggregated_storage_nodes[i].sub_name,
                name,
                sub_name,
            ) {
                return Some(i);
            }
            i += 1;
        }
        None
    }

    /// The position of the first virtual storage with this label.
    fn find_virtual_storage(&self, name: &String, sub_name: &Option<String>) -> (r: Option<usize>)
        ensures
            match r {
                Some(i) => i < self.virtual_storage_nodes.len()
                    && self.virtual_storage_nodes[i as int].label() == crate::node::label_of(
                    *name,
                    *sub_name,
                ) && forall|j: int|
                    0 <= j < i ==> (#[trigger] self.virtual_storage_nodes[j]).label()
                        != crate::node::label_of(*name, *sub_name),
                None => forall|j: int|
                    0 <= j < self.virtual_storage_nodes.len() ==> (
                    #[trigger] self.virtual_storage_nodes[j]).label() != crate::node::label_of(
                        *name,
                        *sub_name,
                    ),
            },
    {
        let mut i: usize = 0;
        while i < self.virtual_storage_nodes.len()
            invariant
                i <= self.virtual_storage_nodes.len(),
                forall|j: int|
                    0 <= j < i ==> (#[trigger] self.virtual_storage_nodes[j]).label()
                        != crate::node::label_of(*name, *sub_name),
            decreases self.virtual_storage_nodes.len() - i,
        {
            if label_matches(
                &self.virtual_storage_nodes[i].name,
                &self.virtual_storage_nodes[i].sub_name,
                name,
                sub_name,
            ) {
                return Some(i);
            }
            i += 1;
        }
        None
    }

    /// The handle of the aggregated node with this name and sub-name.
    pub fn get_aggregated_node_index_by_name(&self, name: &str, sub_name: Option<&str>) -> (r:
        Result<AggregatedNodeIndex, PywrError>)
        ensures
            match r {
                Ok(idx) => idx.0 < self.aggregated_nodes.len()
                    && self.aggregated_nodes[idx.0 as int].label() == label_of_str(name, sub_name)
                    && forall|j: int|
                    0 <= j < idx.0 ==> (#[trigger] self.aggregated_nodes[j]).label()
                        != label_of_str(name, sub_name),
                Err(e) => e@ == ErrorView::NotFound(EntityKind::AggregatedNode, name@)
                    && forall|j: int|
                    0 <= j < self.aggregated_nodes.len() ==> (
                    #[trigger] self.aggregated_nodes[j]).label() != label_of_str(name, sub_name),
            },
    {
        let key = name.to_string();
        let sub_key = own_sub_name(sub_name);
        match self.find_aggregated_node(&key, &sub_key) {
            Some(i) => Ok(AggregatedNodeIndex(i)),
            None => Err(PywrError::NotFound(EntityKind::AggregatedNode, key)),
        }
    }

    /// The handle of the virtual storage with this name and sub-name.
    pub fn get_virtual_storage_node_index_by_name(&self, name: &str, sub_name: Option<&str>) -> (r:
        Result<VirtualStorageIndex, PywrError>)
        ensures
            match r {
                Ok(idx) => idx.0 < self.virtual_storage_nodes.len()
                    && self.virtual_storage_nodes[idx.0 as int].label() == label_of_str(
                    name,
                    sub_name,
                ) && forall|j: int|
                    0 <= j < idx.0 ==> (#[trigger] self.virtual_storage_nodes[j]).label()
                        != label_of_str(name, sub_name),
                Err(e) => e@ == ErrorView::NotFound(EntityKind::VirtualStorage, name@)
                    && forall|j: int|
                    0 <= j < self.virtual_storage_nodes.len() ==> (
                    #[trigger] self.virtual_storage_nodes[j]).label() != label_of_str(
                        name,
                        sub_name,
                    ),
            },
    {
        let key = name.to_string();
        let sub_key = own_sub_name(sub_name);
        match self.find_virtual_storage(&key, &sub_key) {
            Some(i) => Ok(VirtualStorageIndex(i)),
            None => Err(PywrError::NotFound(EntityKind::VirtualStorage, key)),
        }
    }

    /// The handle of the aggregated storage node with this name and sub-name.
    pub fn get_aggregated_storage_node_index_by_name(
        &self,
        name: &str,
        sub_name: Option<&str>,
    ) -> (r: Result<AggregatedStorageNodeIndex, PywrError>)
        ensures
            match r {
                Ok(idx) => idx.0 < self.aggregated_storage_nodes.len()
                    && self.aggregated_storage_nodes[idx.0 as int].label() == label_of_str(
                    name,
                    sub_name,
                ) && forall|j: int|
                    0 <= j < idx.0 ==> (#[trigger] self.aggregated_storage_nodes[j]).label()
                        != label_of_str(name, sub_name),
                Err(e) => e@ == ErrorView::NotFound(EntityKind::AggregatedStorageNode, name@)
                    && forall|j: int|
                    0 <= j < self.aggregated_storage_nodes.len() ==> (
                    #[trigger] self.aggregated_storage_nodes[j]).label() != label_of_str(
                        name,
                        sub_name,
                    ),
            },
    {
        let key = name.to_string();
        let sub_key = own_sub_name(sub_name);
        match self.find_aggregated_storage_node(&key, &sub_key) {
            Some(i) => Ok(AggregatedStorageNodeIndex(i)),
            None => Err(PywrError::NotFound(EntityKind::AggregatedStorageNode, key)),
        }
    }

    /// A network that differs from a well-formed one only in what its nodes or
    /// sets carry, not in their labels, kinds or members, is well formed.
    proof fn lemma_wf_kept(&self, before: &Network)
        requires
            before.wf(),
            self.edges == before.edges,
            self.nodes.len() == before.nodes.len(),
            forall|i: int|
                0 <= i < self.nodes.len() ==> (#[trigger] self.nodes[i]).label()
                    == before.nodes[i].label() && self.nodes[i].kind == before.nodes[i].kind
                    && self.nodes[i].initial_volume == before.nodes[i].initial_volume,
            self.aggregated_nodes.len() == before.aggregated_nodes.len(),
            forall|i: int|
                0 <= i < self.aggregated_nodes.len()
                    ==> (#[trigger] self.aggregated_nodes[i]).label()
                    == before.aggregated_nodes[i].label() && self.aggregated_nodes[i].wf(
                    self.nodes.len() as nat,
                ),
            self.aggregated_storage_nodes == before.aggregated_storage_nodes,
            self.virtual_storage_nodes == before.virtual_storage_nodes,
            self.parameters == before.parameters,
            self.index_parameters == before.index_parameters,
            self.multi_parameters == before.multi_parameters,
        ensures
            self.wf(),
    {
        assert(self.parameter_names() =~= before.parameter_names());
        assert(self.index_parameter_names() =~= before.index_parameter_names());
        assert(self.multi_parameter_names() =~= before.multi_parameter_names());
        assert(self.node_labels() =~= before.node_labels());
        assert(self.aggregated_node_labels() =~= before.aggregated_node_labels());
        assert(self.aggregated_storage_node_labels() =~= before.aggregated_storage_node_labels());
        assert(self.virtual_storage_labels() =~= before.virtual_storage_labels());
        assert forall|i: int| 0 <= i < self.nodes.len() implies (#[trigger] self.nodes[i]).wf() by {
            assert(before.nodes[i].wf());
        }
        assert forall|e: int| 0 <= e < self.edges.len() implies self.edge_allowed(
            (#[trigger] self.edges[e]).from_node,
            self.edges[e].to_node,
        ) by {
            assert(before.edge_allowed(before.edges[e].from_node, before.edges[e].to_node));
        }
        assert forall|s: int| 0 <= s < self.aggregated_storage_nodes.len() implies self.storages(
            (#[trigger] self.aggregated_storage_nodes[s]).nodes@,
        ) by {
            let members = before.aggregated_storage_nodes[s].nodes@;
            assert(before.storages(members));
            assert forall|k: int| 0 <= k < members.len() implies (#[trigger] members[k]).0
                < self.nodes.len() && self.nodes[members[k].0 as int].kind
                == NodeKind::Storage by {
                assert(self.nodes[members[k].0 as int].kind
                    == before.nodes[members[k].0 as int].kind);
            }
        }
        assert forall|v: int| 0 <= v < self.virtual_storage_nodes.len() implies (
        #[trigger] self.virtual_storage_nodes[v]).wf(self.nodes.len() as nat) by {
            assert(before.virtual_storage_nodes[v].wf(before.nodes.len() as nat));
        }
    }

    /// Adds a set of nodes, with or without factors, without bounds on its flow.
    ///
    /// A taken label fails with `DuplicateName`; else a member that is no node of
    /// the network, the first such, with `NotFoundAt`; else factors that are not
    /// as many as the members with `FactorCountMismatch`.
    pub fn add_aggregated_node(
        &mut self,
        name: &str,
        sub_name: Option<&str>,
        nodes: &[NodeIndex],
        factors: Option<Factors>,
    ) -> (r: Result<AggregatedNodeIndex, PywrError>)
        ensures
            final(self).same_but(old(self), Part::AggregatedNodes),
            outcome(r) == old(self).aggregated_node_outcome(name, sub_name, nodes@, factors),
            r.is_err() ==> final(self).aggregated_nodes@ == old(self).aggregated_nodes@,
            r.is_ok() ==> {
                &&& final(self).aggregated_nodes@.len() == old(self).aggregated_nodes@.len() + 1
                &&& final(self).aggregated_nodes@.drop_last() == old(self).aggregated_nodes@
                &&& final(self).aggregated_nodes@.last().label() == label_of_str(name, sub_name)
                &&& final(self).aggregated_nodes@.last().nodes@ == nodes@
                &&& final(self).aggregated_nodes@.last().factors == factors
                &&& final(self).aggregated_nodes@.last().min_flow == ConstraintValue::Unbounded
                &&& final(self).aggregated_nodes@.last().max_flow == ConstraintValue::Unbounded
            },
            old(self).wf() ==> final(self).wf(),
    {
        let key = name.to_string();
        let sub_key = own_sub_name(sub_name);
        if self.find_aggregated_node(&key, &sub_key).is_some() {
            return Err(PywrError::DuplicateName);
        }
        let members = vstd::slice::slice_to_vec(nodes);
        match self.check_members(&members) {
            Err(e) => {
                return Err(e);
            },
            Ok(()) => {},
        }
        match &factors {
            Some(f) => {
                if f.len() != members.len() {
                    return Err(PywrError::FactorCountMismatch);
                }
            },
            None => {},
        }
        proof {
            self.lemma_first_unknown(members@);
        }
        let idx = self.aggregated_nodes.len();
        let node = AggregatedNode {
            name: key,
            sub_name: sub_key,
            nodes: members,
            min_flow: ConstraintValue::Unbounded,
            max_flow: ConstraintValue::Unbounded,
            factors,
        };
        self.aggregated_nodes.push(node);
        proof {
            assert(self.aggregated_nodes@.drop_last() =~= old(self).aggregated_nodes@);
            if old(self).wf() {
                let before = old(self).aggregated_node_labels();
                let after = self.aggregated_node_labels();
                assert forall|i: int, j: int| 0 <= i < j < after.len() implies after[i]
                    != after[j] by {
                    if j < before.len() {
                        assert(before[i] != before[j]);
                    } else {
                        assert(old(self).aggregated_nodes[i].label() != node.label());
                    }
                }
                assert(self.node_labels() =~= old(self).node_labels());
                assert(self.aggregated_storage_node_labels()
                    =~= old(self).aggregated_storage_node_labels());
                assert(self.virtual_storage_labels() =~= old(self).virtual_storage_labels());
                assert(self.parameter_names() =~= old(self).parameter_names());
                assert(self.index_parameter_names() =~= old(self).index_parameter_names());
                assert(self.multi_parameter_names() =~= old(self).multi_parameter_names());
            }
        }
        Ok(AggregatedNodeIndex(idx))
    }

    /// What adding an aggregated node gives: its handle, or why it cannot be
    /// added.
    pub open spec fn aggregated_node_outcome(
        &self,
        name: &str,
        sub_name: Option<&str>,
        nodes: Seq<NodeIndex>,
        factors: Option<Factors>,
    ) -> Result<AggregatedNodeIndex, ErrorView> {
        if exists|j: int|
            0 <= j < self.aggregated_nodes.len() && (#[trigger] self.aggregated_nodes[j]).label()
                == label_of_str(name, sub_name) {
            Err(ErrorView::DuplicateName)
        } else if self.first_unknown(nodes).is_some() {
            Err(ErrorView::NotFoundAt(EntityKind::Node, self.first_unknown(nodes).unwrap()))
        } else if factors.is_some() && factors.unwrap().metrics().len() != nodes.len() {
            Err(ErrorView::FactorCountMismatch)
        } else {
            Ok(AggregatedNodeIndex(self.aggregated_nodes.len()))
        }
    }

    /// Whether every member, all of them nodes of this network, is a storage.
    fn all_storages(&self, members: &Vec<NodeIndex>) -> (r: bool)
        requires
            self.members_known(members@),
        ensures
            r == self.storages(members@),
    {
        let mut i: usize = 0;
        while i < members.len()
            invariant
                i <= members.len(),
                self.members_known(members@),
                forall|k: int|
                    0 <= k < i ==> self.nodes[(#[trigger] members[k]).0 as int].kind
                        == NodeKind::Storage,
            decreases members.len() - i,
        {
            if self.nodes[members[i].0].kind != NodeKind::Storage {
                return false;
            }
            i += 1;
        }
        true
    }

    /// Adds a set of storages that are read as one.
    ///
    /// A taken label fails with `DuplicateName`; else a member that is no node of
    /// the network, the first such, with `NotFoundAt`; else a member that stores
    /// nothing with `StorageOnNonStorageNode`.
    pub fn add_aggregated_storage_node(
        &mut self,
        name: &str,
        sub_name: Option<&str>,
        nodes: Vec<NodeIndex>,
    ) -> (r: Result<AggregatedStorageNodeIndex, PywrError>)
        ensures
            final(self).same_but(old(self), Part::AggregatedStorageNodes),
            outcome(r) == old(self).aggregated_storage_node_outcome(name, sub_name, nodes@),
            r.is_err() ==> final(self).aggregated_storage_nodes@
                == old(self).aggregated_storage_nodes@,
            r.is_ok() ==> {
                &&& final(self).aggregated_storage_nodes@.len()
                    == old(self).aggregated_storage_nodes@.len() + 1
                &&& final(self).aggregated_storage_nodes@.drop_last()
                    == old(self).aggregated_storage_nodes@
                &&& final(self).aggregated_storage_nodes@.last().label() == label_of_str(
                    name,
                    sub_name,
                )
                &&& final(self).aggregated_storage_nodes@.last().nodes == nodes
            },
            old(self).wf() ==> final(self).wf(),
    {
        let key = name.to_string();
        let sub_key = own_sub_name(sub_name);
        if self.find_aggregated_storage_node(&key, &sub_key).is_some() {
            return Err(PywrError::DuplicateName);
        }
        match self.check_members(&nodes) {
            Err(e) => {
                return Err(e);
            },
            Ok(()) => {},
        }
        proof {
            self.lemma_first_unknown(nodes@);
        }
        if !self.all_storages(&nodes) {
            return Err(PywrError::StorageOnNonStorageNode);
        }
        let idx = self.aggregated_storage_nodes.len();
        let node = AggregatedStorageNode { name: key, sub_name: sub_key, nodes };
        self.aggregated_storage_nodes.push(node);
        proof {
            assert(self.aggregated_storage_nodes@.drop_last()
                =~= old(self).aggregated_storage_nodes@);
            if old(self).wf() {
                let before = old(self).aggregated_storage_node_labels();
                let after = self.aggregated_storage_node_labels();
                assert forall|i: int, j: int| 0 <= i < j < after.len() implies after[i]
                    != after[j] by {
                    if j < before.len() {
                        assert(before[i] != before[j]);
                    } else {
                        assert(old(self).aggregated_storage_nodes[i].label() != node.label());
                    }
                }
                assert(self.node_labels() =~= old(self).node_labels());
                assert(self.aggregated_node_labels() =~= old(self).aggregated_node_labels());
                assert(self.virtual_storage_labels() =~= old(self).virtual_storage_labels());
                assert(self.parameter_names() =~= old(self).parameter_names());
                assert(self.index_parameter_names() =~= old(self).index_parameter_names());
                assert(self.multi_parameter_names() =~= old(self).multi_parameter_names());
                assert forall|s: int|
                    0 <= s < self.aggregated_storage_nodes.len() implies self.storages(
                    (#[trigger] self.aggregated_storage_nodes[s]).nodes@,
                ) by {
                    if s < old(self).aggregated_storage_nodes.len() {
                        assert(old(self).storages(old(self).aggregated_storage_nodes[s].nodes@));
                    }
                }
            }
        }
        Ok(AggregatedStorageNodeIndex(idx))
    }

    /// What adding an aggregated storage node gives: its handle, or why it
    /// cannot be added.
    pub open spec fn aggregated_storage_node_outcome(
        &self,
        name: &str,
        sub_name: Option<&str>,
        nodes: Seq<NodeIndex>,
    ) -> Result<AggregatedStorageNodeIndex, ErrorView> {
        if exists|j: int|
            0 <= j < self.aggregated_storage_nodes.len() && (
            #[trigger] self.aggregated_storage_nodes[j]).label() == label_of_str(name, sub_name) {
            Err(ErrorView::DuplicateName)
        } else if self.first_unknown(nodes).is_some() {
            Err(ErrorView::NotFoundAt(EntityKind::Node, self.first_unknown(nodes).unwrap()))
        } else if !self.storages(nodes) {
            Err(ErrorView::StorageOnNonStorageNode)
        } else {
            Ok(AggregatedStorageNodeIndex(self.aggregated_storage_nodes.len()))
        }
    }

    /// Adds an account that the flows of `nodes` draw down.
    ///
    /// A taken label fails with `DuplicateName`; else a member that is no node of
    /// the network, the first such, with `NotFoundAt`; else factors that are not
    /// as many as the nodes with `FactorCountMismatch`.
    pub fn add_virtual_storage_node(
        &mut self,
        name: &str,
        sub_name: Option<&str>,
        nodes: &[NodeIndex],
        factors: Option<&[Value]>,
        initial_volume: StorageInitialVolume,
        min_volume: ConstraintValue,
        max_volume: ConstraintValue,
        reset: VirtualStorageReset,
        cost: ConstraintValue,
    ) -> (r: Result<VirtualStorageIndex, PywrError>)
        ensures
            final(self).same_but(old(self), Part::VirtualStorageNodes),
            outcome(r) == old(self).virtual_storage_outcome(name, sub_name, nodes@, factors),
            r.is_err() ==> final(self).virtual_storage_nodes@ == old(self).virtual_storage_nodes@,
            r.is_ok() ==> {
                let made = final(self).virtual_storage_nodes@.last();
                &&& final(self).virtual_storage_nodes@.len()
                    == old(self).virtual_storage_nodes@.len() + 1
                &&& final(self).virtual_storage_nodes@.drop_last()
                    == old(self).virtual_storage_nodes@
                &&& made.label() == label_of_str(name, sub_name)
                &&& made.nodes@ == nodes@
                &&& made.factors.is_some() == factors.is_some()
                &&& factors.is_some() ==> made.factors.unwrap()@ == factors.unwrap()@
                &&& made.initial_volume == initial_volume
                &&& made.min_volume == min_volume
                &&& made.max_volume == max_volume
                &&& made.reset == reset
                &&& made.cost == cost
            },
            old(self).wf() ==> final(self).wf(),
    {
        let key = name.to_string();
        let sub_key = own_sub_name(sub_name);
        if self.find_virtual_storage(&key, &sub_key).is_some() {
            return Err(PywrError::DuplicateName);
        }
        let members = vstd::slice::slice_to_vec(nodes);
        match self.check_members(&members) {
            Err(e) => {
                return Err(e);
            },
            Ok(()) => {},
        }
        let owned_factors: Option<Vec<Value>> = match factors {
            Some(f) => {
                if f.len() != members.len() {
                    return Err(PywrError::FactorCountMismatch);
                }
                Some(vstd::slice::slice_to_vec(f))
            },
            None => None,
        };
        proof {
            self.lemma_first_unknown(members@);
        }
        let idx = self.virtual_storage_nodes.len();
        let node = VirtualStorage {
            name: key,
            sub_name: sub_key,
            nodes: members,
            factors: owned_factors,
            initial_volume,
            min_volume,
            max_volume,
            reset,
            cost,
        };
        self.virtual_storage_nodes.push(node);
        proof {
            assert(self.virtual_storage_nodes@.drop_last() =~= old(self).virtual_storage_nodes@);
            if old(self).wf() {
                let before = old(self).virtual_storage_labels();
                let after = self.virtual_storage_labels();
                assert forall|i: int, j: int| 0 <= i < j < after.len() implies after[i]
                    != after[j] by {
                    if j < before.len() {
                        assert(before[i] != before[j]);
                    } else {
                        assert(old(self).virtual_storage_nodes[i].label() != node.label());
                    }
                }
                assert(self.node_labels() =~= old(self).node_labels());
                assert(self.aggregated_node_labels() =~= old(self).aggregated_node_labels());
                assert(self.aggregated_storage_node_labels()
                    =~= old(self).aggregated_storage_node_labels());
                assert(self.parameter_names() =~= old(self).parameter_names());
                assert(self.index_parameter_names() =~= old(self).index_parameter_names());
                assert(self.multi_parameter_names() =~= old(self).multi_parameter_names());
            }
        }
        Ok(VirtualStorageIndex(idx))
    }

    /// What adding a virtual storage gives: its handle, or why it cannot be
    /// added.
    pub open spec fn virtual_storage_outcome(
        &self,
        name: &str,
        sub_name: Option<&str>,
        nodes: Seq<NodeIndex>,
        factors: Option<&[Value]>,
    ) -> Result<VirtualStorageIndex, ErrorView> {
        if exists|j: int|
            0 <= j < self.virtual_storage_nodes.len() && (
            #[trigger] self.virtual_storage_nodes[j]).label() == label_of_str(name, sub_name) {
            Err(ErrorView::DuplicateName)
        } else if self.first_unknown(nodes).is_some() {
            Err(ErrorView::NotFoundAt(EntityKind::Node, self.first_unknown(nodes).unwrap()))
        } else if factors.is_some() && factors.unwrap()@.len() != nodes.len() {
            Err(ErrorView::FactorCountMismatch)
        } else {
            Ok(VirtualStorageIndex(self.virtual_storage_nodes.len()))
        }
    }

    /// Sets the cost of the named node.
    pub fn set_node_cost(
        &mut self,
        name: &str,
        sub_name: Option<&str>,
        value: ConstraintValue,
    ) -> (r:
        Result<(), PywrError>)
        ensures
            final(self).same_but(old(self), Part::Nodes),
            old(self).node_changed(final(self), r, label_of_str(name, sub_name), false),
            r.is_ok() ==> forall|i: int|
                #[trigger] old(self).first_labelled(i, label_of_str(name, sub_name))
                    ==> final(self).nodes[i] == (Node { cost: value, ..old(self).nodes[i] }),
            old(self).wf() ==> final(self).wf(),
    {
        let key = name.to_string();
        let sub_key = own_sub_name(sub_name);
        match self.find_node(&key, &sub_key) {
            None => Err(PywrError::NotFound(EntityKind::Node, key)),
            Some(i) => {
                proof {
                    self.lemma_first_labelled_once(i as int, label_of_str(name, sub_name));
                }
                self.nodes[i].cost = value;
                proof {
                    assert(old(self).first_labelled(i as int, label_of_str(name, sub_name)));
                    if old(self).wf() {
                        self.lemma_wf_kept(old(self));
                    }
                }
                Ok(())
            },
        }
    }

    /// Sets the least flow of the named node.
    pub fn set_node_min_flow(
        &mut self,
        name: &str,
        sub_name: Option<&str>,
        value: ConstraintValue,
    ) -> (r: Result<(), PywrError>)
        ensures
            final(self).same_but(old(self), Part::Nodes),
            old(self).node_changed(final(self), r, label_of_str(name, sub_name), false),
            r.is_ok() ==> forall|i: int|
                #[trigger] old(self).first_labelled(i, label_of_str(name, sub_name))
                    ==> final(self).nodes[i] == (Node { min_flow: value, ..old(self).nodes[i] }),
            old(self).wf() ==> final(self).wf(),
    {
        let key = name.to_string();
        let sub_key = own_sub_name(sub_name);
        match self.find_node(&key, &sub_key) {
            None => Err(PywrError::NotFound(EntityKind::Node, key)),
            Some(i) => {
                proof {
                    self.lemma_first_labelled_once(i as int, label_of_str(name, sub_name));
                }
                self.nodes[i].min_flow = value;
                proof {
                    assert(old(self).first_labelled(i as int, label_of_str(name, sub_name)));
                    if old(self).wf() {
                        self.lemma_wf_kept(old(self));
                    }
                }
                Ok(())
            },
        }
    }

    /// Sets the greatest flow of the named node.
    pub fn set_node_max_flow(
        &mut self,
        name: &str,
        sub_name: Option<&str>,
        value: ConstraintValue,
    ) -> (r: Result<(), PywrError>)
        ensures
            final(self).same_but(old(self), Part::Nodes),
            old(self).node_changed(final(self), r, label_of_str(name, sub_name), false),
            r.is_ok() ==> forall|i: int|
                #[trigger] old(self).first_labelled(i, label_of_str(name, sub_name))
                    ==> final(self).nodes[i] == (Node { max_flow: value, ..old(self).nodes[i] }),
            old(self).wf() ==> final(self).wf(),
    {
        let key = name.to_string();
        let sub_key = own_sub_name(sub_name);
        match self.find_node(&key, &sub_key) {
            None => Err(PywrError::NotFound(EntityKind::Node, key)),
            Some(i) => {
                proof {
                    self.lemma_first_labelled_once(i as int, label_of_str(name, sub_name));
                }
                self.nodes[i].max_flow = value;
                proof {
                    assert(old(self).first_labelled(i as int, label_of_str(name, sub_name)));
                    if old(self).wf() {
                        self.lemma_wf_kept(old(self));
                    }
                }
                Ok(())
            },
        }
    }

    /// Sets the least volume of the named storage.
    pub fn set_node_min_volume(
        &mut self,
        name: &str,
        sub_name: Option<&str>,
        value: ConstraintValue,
    ) -> (r: Result<(), PywrError>)
        ensures
            final(self).same_but(old(self), Part::Nodes),
            old(self).node_changed(final(self), r, label_of_str(name, sub_name), true),
            r.is_ok() ==> forall|i: int|
                #[trigger] old(self).first_labelled(i, label_of_str(name, sub_name))
                    ==> final(self).nodes[i] == (Node { min_volume: value, ..old(self).nodes[i] }),
            old(self).wf() ==> final(self).wf(),
    {
        let key = name.to_string();
        let sub_key = own_sub_name(sub_name);
        match self.find_node(&key, &sub_key) {
            None => Err(PywrError::NotFound(EntityKind::Node, key)),
            Some(i) => {
                proof {
                    self.lemma_first_labelled_once(i as int, label_of_str(name, sub_name));
                }
                if self.nodes[i].kind != NodeKind::Storage {
                    assert(old(self).first_labelled(i as int, label_of_str(name, sub_name)));
                    return Err(PywrError::StorageOnNonStorageNode);
                }
                self.nodes[i].min_volume = value;
                proof {
                    assert(old(self).first_labelled(i as int, label_of_str(name, sub_name)));
                    if old(self).wf() {
                        self.lemma_wf_kept(old(self));
                    }
                }
                Ok(())
            },
        }
    }

    /// Sets the greatest volume of the named storage.
    pub fn set_node_max_volume(
        &mut self,
        name: &str,
        sub_name: Option<&str>,
        value: ConstraintValue,
    ) -> (r: Result<(), PywrError>)
        ensures
            final(self).same_but(old(self), Part::Nodes),
            old(self).node_changed(final(self), r, label_of_str(name, sub_name), true),
            r.is_ok() ==> forall|i: int|
                #[trigger] old(self).first_labelled(i, label_of_str(name, sub_name))
                    ==> final(self).nodes[i] == (Node { max_volume: value, ..old(self).nodes[i] }),
            old(self).wf() ==> final(self).wf(),
    {
        let key = name.to_string();
        let sub_key = own_sub_name(sub_name);
        match self.find_node(&key, &sub_key) {
            None => Err(PywrError::NotFound(EntityKind::Node, key)),
            Some(i) => {
                proof {
                    self.lemma_first_labelled_once(i as int, label_of_str(name, sub_name));
                }
                if self.nodes[i].kind != NodeKind::Storage {
                    assert(old(self).first_labelled(i as int, label_of_str(name, sub_name)));
                    return Err(PywrError::StorageOnNonStorageNode);
                }
                self.nodes[i].max_volume = value;
                proof {
                    assert(old(self).first_labelled(i as int, label_of_str(name, sub_name)));
                    if old(self).wf() {
                        self.lemma_wf_kept(old(self));
                    }
                }
                Ok(())
            },
        }
    }

    /// At most one node is the first with a label.
    pub proof fn lemma_first_labelled_once(&self, i: int, label: Label)
        requires
            self.first_labelled(i, label),
        ensures
            forall|k: int| #[trigger] self.first_labelled(k, label) ==> k == i,
    {
        assert forall|k: int| #[trigger] self.first_labelled(k, label) implies k == i by {
            if k < i {
                assert(self.nodes[k].label() != label);
            } else if i < k {
                assert(self.nodes[i].label() != label);
            }
        }
    }

    /// At most one aggregated node is the first with a label.
    pub proof fn lemma_first_aggregated_once(&self, i: int, label: Label)
        requires
            self.first_aggregated(i, label),
        ensures
            forall|k: int| #[trigger] self.first_aggregated(k, label) ==> k == i,
    {
        assert forall|k: int| #[trigger] self.first_aggregated(k, label) implies k == i by {
            if k < i {
                assert(self.aggregated_nodes[k].label() != label);
            } else if i < k {
                assert(self.aggregated_nodes[i].label() != label);
            }
        }
    }

    /// Whether the node at `i` is the first with this label.
    pub open spec fn first_labelled(&self, i: int, label: Label) -> bool {
        &&& 0 <= i < self.nodes.len()
        &&& self.nodes[i].label() == label
        &&& forall|j: int| 0 <= j < i ==> (#[trigger] self.nodes[j]).label() != label
    }

    /// What setting an attribute of a named node does to the other nodes, and
    /// when it fails: with `NotFound` where no node has the label, and, for an
    /// attribute of storages only, with `StorageOnNonStorageNode` where the node
    /// stores nothing. A failure leaves every node as it was.
    pub open spec fn node_changed(
        &self,
        after: &Network,
        r: Result<(), PywrError>,
        label: Label,
        storage_only: bool,
    ) -> bool {
        &&& after.nodes.len() == self.nodes.len()
        &&& (forall|i: int| !self.first_labelled(i, label)) ==> outcome(r) == Err::<(), ErrorView>(
            ErrorView::NotFound(EntityKind::Node, label.0),
        ) && after.nodes@ == self.nodes@
        &&& forall|i: int| #[trigger]
            self.first_labelled(i, label) ==> if storage_only && self.nodes[i].kind
                != NodeKind::Storage {
                outcome(r) == Err::<(), ErrorView>(ErrorView::StorageOnNonStorageNode)
                    && after.nodes@ == self.nodes@
            } else {
                r.is_ok() && forall|j: int|
                    0 <= j < self.nodes.len() && j != i ==> after.nodes[j] == self.nodes[j]
            }
    }

    /// Sets or clears the factors of the named aggregated node.
    ///
    /// Fails with `NotFound` where no aggregated node has the label, and with
    /// `FactorCountMismatch` where the factors are not as many as the members.
    pub fn set_aggregated_node_factors(
        &mut self,
        name: &str,
        sub_name: Option<&str>,
        factors: Option<Factors>,
    ) -> (r: Result<(), PywrError>)
        ensures
            final(self).same_but(old(self), Part::AggregatedNodes),
            final(self).aggregated_nodes.len() == old(self).aggregated_nodes.len(),
            old(self).aggregated_node_changed(final(self), r, label_of_str(name, sub_name), factors),
            r.is_ok() ==> forall|i: int|
                #[trigger] old(self).first_aggregated(i, label_of_str(name, sub_name))
                    ==> final(self).aggregated_nodes[i] == (AggregatedNode {
                    factors,
                    ..old(self).aggregated_nodes[i]
                }),
            old(self).wf() ==> final(self).wf(),
    {
        let key = name.to_string();
        let sub_key = own_sub_name(sub_name);
        match self.find_aggregated_node(&key, &sub_key) {
            None => Err(PywrError::NotFound(EntityKind::AggregatedNode, key)),
            Some(i) => {
                proof {
                    self.lemma_first_aggregated_once(i as int, label_of_str(name, sub_name));
                }
                match &factors {
                    Some(f) => {
                        if f.len() != self.aggregated_nodes[i].nodes.len() {
                            assert(old(self).first_aggregated(i as int, label_of_str(name, sub_name)));
                            return Err(PywrError::FactorCountMismatch);
                        }
                    },
                    None => {},
                }
                self.aggregated_nodes[i].factors = factors;
                proof {
                    assert(old(self).first_aggregated(i as int, label_of_str(name, sub_name)));
                    if old(self).wf() {
                        assert forall|a: int|
                            0 <= a < self.aggregated_nodes.len() implies (
                        #[trigger] self.aggregated_nodes[a]).wf(self.nodes.len() as nat) by {
                            assert(old(self).aggregated_nodes[a].wf(old(self).nodes.len() as nat));
                        }
                        self.lemma_wf_kept(old(self));
                    }
                }
                Ok(())
            },
        }
    }

    /// Sets the bounds on the total flow of the named aggregated node.
    pub fn set_aggregated_node_flow_bounds(
        &mut self,
        name: &str,
        sub_name: Option<&str>,
        min_flow: ConstraintValue,
        max_flow: ConstraintValue,
    ) -> (r: Result<(), PywrError>)
        ensures
            final(self).same_but(old(self), Part::AggregatedNodes),
            final(self).aggregated_nodes.len() == old(self).aggregated_nodes.len(),
            old(self).aggregated_node_changed(final(self), r, label_of_str(name, sub_name), None),
            r.is_ok() ==> forall|i: int|
                #[trigger] old(self).first_aggregated(i, label_of_str(name, sub_name))
                    ==> final(self).aggregated_nodes[i] == (AggregatedNode {
                    min_flow,
                    max_flow,
                    ..old(self).aggregated_nodes[i]
                }),
            old(self).wf() ==> final(self).wf(),
    {
        let key = name.to_string();
        let sub_key = own_sub_name(sub_name);
        match self.find_aggregated_node(&key, &sub_key) {
            None => Err(PywrError::NotFound(EntityKind::AggregatedNode, key)),
            Some(i) => {
                proof {
                    self.lemma_first_aggregated_once(i as int, label_of_str(name, sub_name));
                }
                self.aggregated_nodes[i].min_flow = min_flow;
                self.aggregated_nodes[i].max_flow = max_flow;
                proof {
                    assert(old(self).first_aggregated(i as int, label_of_str(name, sub_name)));
                    if old(self).wf() {
                        assert forall|a: int|
                            0 <= a < self.aggregated_nodes.len() implies (
                        #[trigger] self.aggregated_nodes[a]).wf(self.nodes.len() as nat) by {
                            assert(old(self).aggregated_nodes[a].wf(old(self).nodes.len() as nat));
                        }
                        self.lemma_wf_kept(old(self));
                    }
                }
                Ok(())
            },
        }
    }

    /// Whether the aggregated node at `i` is the first with this label.
    pub open spec fn first_aggregated(&self, i: int, label: Label) -> bool {
        &&& 0 <= i < self.aggregated_nodes.len()
        &&& self.aggregated_nodes[i].label() == label
        &&& forall|j: int| 0 <= j < i ==> (#[trigger] self.aggregated_nodes[j]).label() != label
    }

    /// What setting an attribute of a named aggregated node does to the others,
    /// and when it fails. A failure leaves every aggregated node as it was.
    pub open spec fn aggregated_node_changed(
        &self,
        after: &Network,
        r: Result<(), PywrError>,
        label: Label,
        factors: Option<Factors>,
    ) -> bool {
        &&& (forall|i: int| !self.first_aggregated(i, label)) ==> outcome(r) == Err::<
            (),
            ErrorView,
        >(ErrorView::NotFound(EntityKind::AggregatedNode, label.0)) && after.aggregated_nodes@
            == self.aggregated_nodes@
        &&& forall|i: int| #[trigger]
            self.first_aggregated(i, label) ==> if factors.is_some()
                && factors.unwrap().metrics().len() != self.aggregated_nodes[i].nodes.len() {
                outcome(r) == Err::<(), ErrorView>(ErrorView::FactorCountMismatch)
                    && after.aggregated_nodes@ == self.aggregated_nodes@
            } else {
                r.is_ok() && forall|j: int|
                    0 <= j < self.aggregated_nodes.len() && j != i ==> after.aggregated_nodes[j]
                        == self.aggregated_nodes[j]
            }
    }

    /// The metric that reads the volume of the storage with this label, as a
    /// volume or as a share of its greatest volume. It fails with `NotFound`
    /// where there is no such node, and with `StorageOnNonStorageNode` where the
    /// node stores nothing.
    pub open spec fn storage_metric(&self, label: Label, proportional: bool) -> Result<
        Metric,
        ErrorView,
    > {
        match first_label(self.node_labels(), label) {
            None => Err(ErrorView::NotFound(EntityKind::Node, label.0)),
            Some(i) => if self.nodes[i].kind != NodeKind::Storage {
                Err(ErrorView::StorageOnNonStorageNode)
            } else if proportional {
                Ok(Metric::NodeProportionalVolume(NodeIndex(i as usize)))
            } else {
                Ok(Metric::NodeVolume(NodeIndex(i as usize)))
            },
        }
    }

    /// The metric that reads the volume of the named storage, as a volume or as
    /// a share of its greatest volume.
    pub fn get_storage_node_metric(
        &self,
        name: &str,
        sub_name: Option<&str>,
        proportional: bool,
    ) -> (r:
        Result<Metric, PywrError>)
        ensures
            outcome(r) == self.storage_metric(label_of_str(name, sub_name), proportional),
            match r {
                Ok(metric) => exists|i: int|
                    #[trigger] self.first_labelled(i, label_of_str(name, sub_name))
                        && self.nodes[i].kind
                        == NodeKind::Storage && metric == if proportional {
                        Metric::NodeProportionalVolume(NodeIndex(i as usize))
                    } else {
                        Metric::NodeVolume(NodeIndex(i as usize))
                    },
                Err(e) => (e@ == ErrorView::NotFound(EntityKind::Node, name@) && forall|i: int|
                    !#[trigger] self.first_labelled(i, label_of_str(name, sub_name))) || (e@
                    == ErrorView::StorageOnNonStorageNode && exists|i: int|
                    #[trigger] self.first_labelled(i, label_of_str(name, sub_name))
                        && self.nodes[i].kind
                        != NodeKind::Storage),
            },
    {
        let key = name.to_string();
        let sub_key = own_sub_name(sub_name);
        proof {
            lemma_first_label(self.node_labels(), label_of_str(name, sub_name));
            let labels = self.node_labels();
            assert(forall|j: int| 0 <= j < labels.len() ==> labels[j] == (
            #[trigger] self.nodes[j]).label());
        }
        match self.find_node(&key, &sub_key) {
            None => Err(PywrError::NotFound(EntityKind::Node, key)),
            Some(i) => {
                assert(self.first_labelled(i as int, label_of_str(name, sub_name)));
                if self.nodes[i].kind != NodeKind::Storage {
                    Err(PywrError::StorageOnNonStorageNode)
                } else if proportional {
                    Ok(Metric::NodeProportionalVolume(NodeIndex(i)))
                } else {
                    Ok(Metric::NodeVolume(NodeIndex(i)))
                }
            },
        }
    }

    /// The position of the first parameter with this name.
    fn find_parameter(&self, name: &String) -> (r: Option<usize>)
        ensures
            match r {
                Some(i) => i < self.parameters.len() && self.parameters[i as int].meta_of().name@
                    == name@ && forall|j: int|
                    0 <= j < i ==> (#[trigger] self.parameters[j]).meta_of().name@ != name@,
                None => forall|j: int|
                    0 <= j < self.parameters.len() ==> (
                    #[trigger] self.parameters[j]).meta_of().name@ != name@,
            },
    {
        let mut i: usize = 0;
        while i < self.parameters.len()
            invariant
                i <= self.parameters.len(),
                forall|j: int|
                    0 <= j < i ==> (#[trigger] self.parameters[j]).meta_of().name@ != name@,
            decreases self.parameters.len() - i,
        {
            if self.parameters[i].meta().name == *name {
                return Some(i);
            }
            i += 1;
        }
        None
    }

    /// The position of the first index parameter with this name.
    fn find_index_parameter(&self, name: &String) -> (r: Option<usize>)
        ensures
            match r {
                Some(i) => i < self.index_parameters.len()
                    && self.index_parameters[i as int].meta_of().name@ == name@ && forall|j: int|
                    0 <= j < i ==> (#[trigger] self.index_parameters[j]).meta_of().name@ != name@,
                None => forall|j: int|
                    0 <= j < self.index_parameters.len() ==> (
                    #[trigger] self.index_parameters[j]).meta_of().name@ != name@,
            },
    {
        let mut i: usize = 0;
        while i < self.index_parameters.len()
            invariant
                i <= self.index_parameters.len(),
                forall|j: int|
                    0 <= j < i ==> (#[trigger] self.index_parameters[j]).meta_of().name@ != name@,
            decreases self.index_parameters.len() - i,
        {
            if self.index_parameters[i].meta().name == *name {
                return Some(i);
            }
            i += 1;
        }
        None
    }

    /// The position of the first multi-value parameter with this name.
    fn find_multi_parameter(&self, name: &String) -> (r: Option<usize>)
        ensures
            match r {
                Some(i) => i < self.multi_parameters.len() && self.multi_parameters[i as int].name@
                    == name@ && forall|j: int|
                    0 <= j < i ==> (#[trigger] self.multi_parameters[j]).name@ != name@,
                None => forall|j: int|
                    0 <= j < self.multi_parameters.len() ==> (
                    #[trigger] self.multi_parameters[j]).name@ != name@,
            },
    {
        let mut i: usize = 0;
        while i < self.multi_parameters.len()
            invariant
                i <= self.multi_parameters.len(),
                forall|j: int| 0 <= j < i ==> (#[trigger] self.multi_parameters[j]).name@ != name@,
            decreases self.multi_parameters.len() - i,
        {
            if self.multi_parameters[i].name == *name {
                return Some(i);
            }
            i += 1;
        }
        None
    }

    /// Adds a parameter that gives an amount. Its handle is its position; a name
    /// that another such parameter has fails with `DuplicateName` and leaves the
    /// network as it is.
    pub fn add_parameter(&mut self, parameter: ParameterKind) -> (r: Result<
        ParameterIndex,
        PywrError,
    >)
        ensures
            final(self).same_but(old(self), Part::Parameters),
            old(self).parameter_names().contains(parameter.meta_of().name@) ==> outcome(r) == Err::<
                ParameterIndex,
                ErrorView,
            >(ErrorView::DuplicateName) && final(self).parameters@ == old(self).parameters@,
            !old(self).parameter_names().contains(parameter.meta_of().name@) ==> r == Ok::<
                ParameterIndex,
                PywrError,
            >(ParameterIndex(old(self).parameters.len()))
                && final(self).parameters@ == old(self).parameters@.push(parameter),
            old(self).wf() ==> final(self).wf(),
    {
        match self.find_parameter(&parameter.meta().name) {
            Some(i) => {
                assert(self.parameter_names()[i as int] == parameter.meta_of().name@);
                Err(PywrError::DuplicateName)
            },
            None => {
                let idx = self.parameters.len();
                proof {
                    let names = self.parameter_names();
                    assert forall|k: int| 0 <= k < names.len() implies names[k]
                        != parameter.meta_of().name@ by {
                        assert(self.parameters[k].meta_of().name@ != parameter.meta_of().name@);
                    }
                }
                self.parameters.push(parameter);
                proof {
                    if old(self).wf() {
                        let before = old(self).parameter_names();
                        let after = self.parameter_names();
                        assert forall|i: int, j: int| 0 <= i < j < after.len() implies after[i]
                            != after[j] by {
                            if j < before.len() {
                                assert(before[i] != before[j]);
                            } else {
                                assert(old(self).parameters[i].meta_of().name@
                                    != parameter.meta_of().name@);
                            }
                        }
                        assert(self.node_labels() =~= old(self).node_labels());
                        assert(self.aggregated_node_labels()
                            =~= old(self).aggregated_node_labels());
                        assert(self.aggregated_storage_node_labels()
                            =~= old(self).aggregated_storage_node_labels());
                        assert(self.virtual_storage_labels()
                            =~= old(self).virtual_storage_labels());
                        assert(self.index_parameter_names() =~= old(self).index_parameter_names());
                        assert(self.multi_parameter_names() =~= old(self).multi_parameter_names());
                    }
                }
                Ok(ParameterIndex(idx))
            },
        }
    }

    /// Adds a parameter that gives a whole number. Its handle is its position;
    /// a name that another such parameter has fails with `DuplicateName` and
    /// leaves the network as it is.
    pub fn add_index_parameter(&mut self, parameter: IndexParameterKind) -> (r: Result<
        IndexParameterIndex,
        PywrError,
    >)
        ensures
            final(self).same_but(old(self), Part::IndexParameters),
            old(self).index_parameter_names().contains(parameter.meta_of().name@) ==> outcome(r)
                == Err::<IndexParameterIndex, ErrorView>(ErrorView::DuplicateName)
                && final(self).index_parameters@ == old(self).index_parameters@,
            !old(self).index_parameter_names().contains(parameter.meta_of().name@) ==> r == Ok::<
                IndexParameterIndex,
                PywrError,
            >(IndexParameterIndex(old(self).index_parameters.len()))
                && final(self).index_parameters@ == old(self).index_parameters@.push(parameter),
            old(self).wf() ==> final(self).wf(),
    {
        match self.find_index_parameter(&parameter.meta().name) {
            Some(i) => {
                assert(self.index_parameter_names()[i as int] == parameter.meta_of().name@);
                Err(PywrError::DuplicateName)
            },
            None => {
                let idx = self.index_parameters.len();
                proof {
                    let names = self.index_parameter_names();
                    assert forall|k: int| 0 <= k < names.len() implies names[k]
                        != parameter.meta_of().name@ by {
                        assert(self.index_parameters[k].meta_of().name@
                            != parameter.meta_of().name@);
                    }
                }
                self.index_parameters.push(parameter);
                proof {
                    if old(self).wf() {
                        let before = old(self).index_parameter_names();
                        let after = self.index_parameter_names();
                        assert forall|i: int, j: int| 0 <= i < j < after.len() implies after[i]
                            != after[j] by {
                            if j < before.len() {
                                assert(before[i] != before[j]);
                            } else {
                                assert(old(self).index_parameters[i].meta_of().name@
                                    != parameter.meta_of().name@);
                            }
                        }
                        assert(self.node_labels() =~= old(self).node_labels());
                        assert(self.aggregated_node_labels()
                            =~= old(self).aggregated_node_labels());
                        assert(self.aggregated_storage_node_labels()
                            =~= old(self).aggregated_storage_node_labels());
                        assert(self.virtual_storage_labels()
                            =~= old(self).virtual_storage_labels());
                        assert(self.parameter_names() =~= old(self).parameter_names());
                        assert(self.multi_parameter_names() =~= old(self).multi_parameter_names());
                    }
                }
                Ok(IndexParameterIndex(idx))
            },
        }
    }

    /// Adds a parameter that gives several keyed amounts, by its name. Its
    /// handle is its position; a name that another such parameter has fails with
    /// `DuplicateName` and leaves the network as it is.
    pub fn add_multi_value_parameter(&mut self, name: &str) -> (r: Result<
        MultiValueParameterIndex,
        PywrError,
    >)
        ensures
            final(self).same_but(old(self), Part::MultiValueParameters),
            old(self).multi_parameter_names().contains(name@) ==> outcome(r) == Err::<
                MultiValueParameterIndex,
                ErrorView,
            >(ErrorView::DuplicateName)
                && final(self).multi_parameters@ == old(self).multi_parameters@,
            !old(self).multi_parameter_names().contains(name@) ==> r == Ok::<
                MultiValueParameterIndex,
                PywrError,
            >(MultiValueParameterIndex(old(self).multi_parameters.len()))
                && final(self).multi_parameters.len() == old(self).multi_parameters.len() + 1
                && final(self).multi_parameters@.drop_last() == old(self).multi_parameters@
                && final(self).multi_parameters@.last().name@ == name@,
            old(self).wf() ==> final(self).wf(),
    {
        let meta = ParameterMeta::new(name);
        match self.find_multi_parameter(&meta.name) {
            Some(i) => {
                assert(self.multi_parameter_names()[i as int] == name@);
                Err(PywrError::DuplicateName)
            },
            None => {
                let idx = self.multi_parameters.len();
                proof {
                    let names = self.multi_parameter_names();
                    assert forall|k: int| 0 <= k < names.len() implies names[k] != name@ by {
                        assert(self.multi_parameters[k].name@ != name@);
                    }
                }
                self.multi_parameters.push(meta);
                proof {
                    assert(self.multi_parameters@.drop_last() =~= old(self).multi_parameters@);
                    if old(self).wf() {
                        let before = old(self).multi_parameter_names();
                        let after = self.multi_parameter_names();
                        assert forall|i: int, j: int| 0 <= i < j < after.len() implies after[i]
                            != after[j] by {
                            if j < before.len() {
                                assert(before[i] != before[j]);
                            } else {
                                assert(old(self).multi_parameters[i].name@ != name@);
                            }
                        }
                        assert(self.node_labels() =~= old(self).node_labels());
                        assert(self.aggregated_node_labels()
                            =~= old(self).aggregated_node_labels());
                        assert(self.aggregated_storage_node_labels()
                            =~= old(self).aggregated_storage_node_labels());
                        assert(self.virtual_storage_labels()
                            =~= old(self).virtual_storage_labels());
                        assert(self.parameter_names() =~= old(self).parameter_names());
                        assert(self.index_parameter_names() =~= old(self).index_parameter_names());
                    }
                }
                Ok(MultiValueParameterIndex(idx))
            },
        }
    }

    /// The handle of the parameter with this name that gives an amount.
    pub fn get_parameter_index_by_name(&self, name: &str) -> (r: Result<ParameterIndex, PywrError>)
        ensures
            outcome(r) == match first_named(self.parameter_names(), name@) {
                Some(i) => Ok::<ParameterIndex, ErrorView>(ParameterIndex(i as usize)),
                None => Err(ErrorView::NotFound(EntityKind::Parameter, name@)),
            },
            match r {
                Ok(idx) => idx.0 < self.parameters.len()
                    && self.parameters[idx.0 as int].meta_of().name@ == name@ && forall|j: int|
                    0 <= j < idx.0 ==> (#[trigger] self.parameters[j]).meta_of().name@ != name@,
                Err(e) => e@ == ErrorView::NotFound(EntityKind::Parameter, name@) && forall|j: int|
                    0 <= j < self.parameters.len() ==> (
                    #[trigger] self.parameters[j]).meta_of().name@ != name@,
            },
    {
        let key = name.to_string();
        proof {
            lemma_first_named(self.parameter_names(), name@);
            let names = self.parameter_names();
            assert(forall|j: int| 0 <= j < names.len() ==> names[j] == (
            #[trigger] self.parameters[j]).meta_of().name@);
        }
        match self.find_parameter(&key) {
            Some(i) => Ok(ParameterIndex(i)),
            None => Err(PywrError::NotFound(EntityKind::Parameter, key)),
        }
    }

    /// The handle of the index parameter with this name.
    pub fn get_index_parameter_index_by_name(&self, name: &str) -> (r: Result<
        IndexParameterIndex,
        PywrError,
    >)
        ensures
            outcome(r) == match first_named(self.index_parameter_names(), name@) {
                Some(i) => Ok::<IndexParameterIndex, ErrorView>(IndexParameterIndex(i as usize)),
                None => Err(ErrorView::NotFound(EntityKind::IndexParameter, name@)),
            },
            match r {
                Ok(idx) => idx.0 < self.index_parameters.len()
                    && self.index_parameters[idx.0 as int].meta_of().name@ == name@
                    && forall|j: int|
                    0 <= j < idx.0 ==> (#[trigger] self.index_parameters[j]).meta_of().name@
                        != name@,
                Err(e) => e@ == ErrorView::NotFound(EntityKind::IndexParameter, name@)
                    && forall|j: int|
                    0 <= j < self.index_parameters.len() ==> (
                    #[trigger] self.index_parameters[j]).meta_of().name@ != name@,
            },
    {
        let key = name.to_string();
        proof {
            lemma_first_named(self.index_parameter_names(), name@);
            let names = self.index_parameter_names();
            assert(forall|j: int| 0 <= j < names.len() ==> names[j] == (
            #[trigger] self.index_parameters[j]).meta_of().name@);
        }
        match self.find_index_parameter(&key) {
            Some(i) => Ok(IndexParameterIndex(i)),
            None => Err(PywrError::NotFound(EntityKind::IndexParameter, key)),
        }
    }

    /// What connecting two nodes gives: the handle of the new edge, or why the
    /// edge cannot be.
    pub open spec fn connect_outcome(&self, from_node: NodeIndex, to_node: NodeIndex) -> Result<
        EdgeIndex,
        ErrorView,
    > {
        if from_node.0 >= self.nodes.len() {
            Err(ErrorView::NotFoundAt(EntityKind::Node, from_node.0))
        } else if to_node.0 >= self.nodes.len() {
            Err(ErrorView::NotFoundAt(EntityKind::Node, to_node.0))
        } else if from_node.0 == to_node.0 {
            Err(ErrorView::EdgeWouldCreateSelfLoop)
        } else if self.nodes[from_node.0 as int].kind == NodeKind::Output
            || self.nodes[to_node.0 as int].kind == NodeKind::Input {
            Err(ErrorView::InvalidEdge)
        } else {
            Ok(EdgeIndex(self.edges.len()))
        }
    }
}

} // verus!
