//! The definition of a whole network, and how a model is built from it.

use vstd::prelude::*;
use crate::edge::Edge as NetworkEdge;
use crate::error::{outcome, EntityKind, ErrorView, PywrError};
use crate::model::Model;
use crate::network::{first_label, first_named, lemma_first_named, Network, Part};
use crate::node::{Label, NodeIndex};
use crate::schema::data_tables::LoadedTableCollection;
use crate::schema::nodes::{connector_labels, Node};
use crate::schema::outputs::{output_added, Output};

verus! {

/// The definition of an edge, by the names of its two nodes.
#[derive(Clone, Debug, PartialEq, Eq)]
pub struct Edge {
    pub from_node: String,
    pub to_node: String,
    /// The slot of the node from which the edge leaves, where that node hands
    /// water on by slot.
    pub from_slot: Option<String>,
}

/// The definition of a model: its nodes, its edges and what is to be written.
#[derive(Clone, Debug, PartialEq, Eq)]
pub struct PywrModel {
    pub nodes: Vec<Node>,
    pub edges: Vec<Edge>,
    pub outputs: Vec<Output>,
}

/// Whether a trace holds the networks that adding the nodes of a definition,
/// one after another and each without failure, leads through.
pub open spec fn is_adding(
    nodes: Seq<Node>,
    tables: LoadedTableCollection,
    trace: Seq<Network>,
) -> bool {
    &&& trace.len() == nodes.len() + 1
    &&& forall|k: int|
        0 <= k < nodes.len() ==> (#[trigger] nodes[k])->Core_0.added(
            trace[k],
            trace[k + 1],
            tables,
            Ok(()),
        )
}

/// Whether a trace holds the networks that setting the constraints of the nodes
/// of a definition, one after another and each without failure, leads through.
pub open spec fn is_settling(
    nodes: Seq<Node>,
    tables: LoadedTableCollection,
    trace: Seq<Network>,
) -> bool {
    &&& trace.len() == nodes.len() + 1
    &&& forall|k: int|
        0 <= k < nodes.len() ==> (#[trigger] nodes[k])->Core_0.settled(
            trace[k],
            trace[k + 1],
            tables,
            Ok(()),
        )
}

/// The names of the nodes of a definition.
pub open spec fn names_of(nodes: Seq<Node>) -> Seq<Seq<char>> {
    Seq::new(nodes.len(), |k: int| nodes[k]->Core_0.meta_of().name@)
}

/// The pairs of a label of the first list with a label of the second, those
/// with the first label of the first list first.
pub open spec fn crossed(from: Seq<Label>, to: Seq<Label>) -> Seq<(Label, Label)>
    decreases from.len(),
{
    if from.len() == 0 {
        Seq::empty()
    } else {
        crossed(from.drop_last(), to) + Seq::new(to.len(), |k: int| (from.last(), to[k]))
    }
}

/// The edge of a network that joins the node of one label to the node of
/// another, or why there is no such edge: a label without a node fails with
/// `NotFound`, and an edge that cannot be fails as connecting does.
pub open spec fn joined(network: Network, pair: (Label, Label)) -> Result<NetworkEdge, ErrorView> {
    match first_label(network.node_labels(), pair.0) {
        None => Err(ErrorView::NotFound(EntityKind::Node, pair.0.0)),
        Some(i) => match first_label(network.node_labels(), pair.1) {
            None => Err(ErrorView::NotFound(EntityKind::Node, pair.1.0)),
            Some(j) => match network.connect_outcome(NodeIndex(i as usize), NodeIndex(j as usize)) {
                Err(e) => Err(e),
                Ok(_) => Ok(
                    NetworkEdge {
                        from_node: NodeIndex(i as usize),
                        to_node: NodeIndex(j as usize),
                    },
                ),
            },
        },
    }
}

/// The edges of a network that join the pairs, in their order, or the first
/// failure to join one.
pub open spec fn joined_all(network: Network, pairs: Seq<(Label, Label)>) -> Result<
    Seq<NetworkEdge>,
    ErrorView,
>
    decreases pairs.len(),
{
    if pairs.len() == 0 {
        Ok(Seq::empty())
    } else {
        match joined_all(network, pairs.drop_last()) {
            Err(e) => Err(e),
            Ok(head) => match joined(network, pairs.last()) {
                Err(e) => Err(e),
                Ok(edge) => Ok(head.push(edge)),
            },
        }
    }
}

/// The pairs of labels that the definition of an edge joins: every label under
/// which its first node hands water on with every label under which its
/// second node takes water; or the failure to find one of the two nodes in the
/// definition.
pub open spec fn pairs_of(nodes: Seq<Node>, edge: Edge) -> Result<Seq<(Label, Label)>, ErrorView> {
    match first_named(names_of(nodes), edge.from_node@) {
        None => Err(ErrorView::NotFound(EntityKind::Node, edge.from_node@)),
        Some(i) => match first_named(names_of(nodes), edge.to_node@) {
            None => Err(ErrorView::NotFound(EntityKind::Node, edge.to_node@)),
            Some(j) => Ok(crossed(nodes[i]->Core_0.outputs(), nodes[j]->Core_0.inputs())),
        },
    }
}

/// The pairs of labels that the definitions of edges join, edge by edge, or the
/// first failure to find a node.
pub open spec fn all_pairs(nodes: Seq<Node>, edges: Seq<Edge>) -> Result<
    Seq<(Label, Label)>,
    ErrorView,
>
    decreases edges.len(),
{
    if edges.len() == 0 {
        Ok(Seq::empty())
    } else {
        match all_pairs(nodes, edges.drop_last()) {
            Err(e) => Err(e),
            Ok(head) => match pairs_of(nodes, edges.last()) {
                Err(e) => Err(e),
                Ok(pairs) => Ok(head + pairs),
            },
        }
    }
}

/// A failure among the first `n` pairs is the failure of all.
pub proof fn lemma_join_fails_in_prefix(network: Network, pairs: Seq<(Label, Label)>, n: int)
    requires
        0 <= n <= pairs.len(),
        joined_all(network, pairs.take(n)).is_err(),
    ensures
        joined_all(network, pairs) == joined_all(network, pairs.take(n)),
    decreases pairs.len() - n,
{
    if n < pairs.len() {
        assert(pairs.take(n + 1).drop_last() =~= pairs.take(n));
        lemma_join_fails_in_prefix(network, pairs, n + 1);
    } else {
        assert(pairs.take(n) =~= pairs);
    }
}

/// What joins an edge depends on the nodes of a network alone.
pub proof fn lemma_joined_reads_nodes(a: Network, b: Network, pair: (Label, Label))
    requires
        a.nodes == b.nodes,
    ensures
        joined(a, pair) == joined(b, pair),
{
    assert(a.node_labels() =~= b.node_labels());
}

impl PywrModel {
    /// Whether every node of the definition is of a type that this library
    /// knows.
    pub open spec fn all_core(&self) -> bool {
        forall|k: int| 0 <= k < self.nodes.len() ==> (#[trigger] self.nodes[k]) is Core
    }

    /// The first node of the definition with this name.
    pub fn get_node_by_name(&self, name: &str) -> (r: Option<&Node>)
        requires
            self.all_core(),
        ensures
            match first_named(names_of(self.nodes@), name@) {
                Some(i) => r == Some(&self.nodes[i]),
                None => r.is_none(),
            },
            r.is_some() ==> *r.unwrap() is Core,
    {
        let wanted = name.to_string();
        proof {
            lemma_first_named(names_of(self.nodes@), name@);
        }
        let mut i: usize = 0;
        while i < self.nodes.len()
            invariant
                i <= self.nodes.len(),
                self.all_core(),
                wanted@ == name@,
                forall|k: int| 0 <= k < i ==> names_of(self.nodes@)[k] != name@,
            decreases self.nodes.len() - i,
        {
            assert(names_of(self.nodes@)[i as int] == self.nodes[i as int]->Core_0.meta_of().name@);
            if self.nodes[i].name().to_string() == wanted {
                proof {
                    lemma_first_named(names_of(self.nodes@), name@);
                }
                return Some(&self.nodes[i]);
            }
            i += 1;
        }
        proof {
            lemma_first_named(names_of(self.nodes@), name@);
        }
        None
    }
}

/// Adds the nodes of a definition to a network, one after another.
///
/// Where every node is added, the network has gone through adding each. The
/// first node that fails ends the adding with its failure, and the network is
/// what the nodes before it, and the one that failed, have made of it.
pub fn add_nodes(network: &mut Network, nodes: &Vec<Node>, tables: &LoadedTableCollection) -> (r:
    Result<(), PywrError>)
    requires
        forall|k: int| 0 <= k < nodes.len() ==> (#[trigger] nodes[k]) is Core,
    ensures
        match r {
            Ok(()) => exists|trace: Seq<Network>|
                #![trigger is_adding(nodes@, *tables, trace)]
                is_adding(nodes@, *tables, trace) && trace[0] == *old(network) && trace.last()
                    == *final(network),
            Err(e) => exists|trace: Seq<Network>, k: int|
                #![trigger is_adding(nodes@.take(k), *tables, trace)]
                0 <= k < nodes.len() && is_adding(nodes@.take(k), *tables, trace) && trace[0]
                    == *old(network) && nodes[k]->Core_0.added(
                    trace.last(),
                    *final(network),
                    *tables,
                    Err(e),
                ),
        },
        old(network).wf() ==> final(network).wf(),
{
    let mut i: usize = 0;
    let ghost mut trace: Seq<Network> = seq![*network];
    assert(nodes@.take(0) =~= Seq::<Node>::empty());
    while i < nodes.len()
        invariant
            i <= nodes.len(),
            forall|k: int| 0 <= k < nodes.len() ==> (#[trigger] nodes[k]) is Core,
            is_adding(nodes@.take(i as int), *tables, trace),
            trace[0] == *old(network),
            trace.last() == *network,
            old(network).wf() ==> network.wf(),
        decreases nodes.len() - i,
    {
        let ghost mid = *network;
        match nodes[i].add_to_model(network, tables) {
            Err(e) => {
                return Err(e);
            },
            Ok(()) => {},
        }
        proof {
            let longer = trace.push(*network);
            let more = nodes@.take(i + 1);
            assert forall|k: int| 0 <= k < more.len() implies (#[trigger] more[k])->Core_0.added(
                longer[k],
                longer[k + 1],
                *tables,
                Ok(()),
            ) by {
                if k < i {
                    assert(more[k] == nodes@.take(i as int)[k]);
                    assert(longer[k] == trace[k]);
                    assert(longer[k + 1] == trace[k + 1]);
                } else {
                    assert(longer[k] == mid);
                }
            }
            trace = longer;
        }
        i += 1;
    }
    assert(nodes@.take(i as int) =~= nodes@);
    Ok(())
}

/// Sets the constraints of the nodes of a definition in a network, one after
/// another.
///
/// Where all are set, the network has gone through setting each. The first
/// node that fails ends the setting with its failure.
pub fn set_all_constraints(
    network: &mut Network,
    nodes: &Vec<Node>,
    tables: &LoadedTableCollection,
) -> (r: Result<(), PywrError>)
    requires
        forall|k: int| 0 <= k < nodes.len() ==> (#[trigger] nodes[k]) is Core,
    ensures
        match r {
            Ok(()) => exists|trace: Seq<Network>|
                #![trigger is_settling(nodes@, *tables, trace)]
                is_settling(nodes@, *tables, trace) && trace[0] == *old(network) && trace.last()
                    == *final(network),
            Err(e) => exists|trace: Seq<Network>, k: int|
                #![trigger is_settling(nodes@.take(k), *tables, trace)]
                0 <= k < nodes.len() && is_settling(nodes@.take(k), *tables, trace) && trace[0]
                    == *old(network) && nodes[k]->Core_0.settled(
                    trace.last(),
                    *final(network),
                    *tables,
                    Err(e),
                ),
        },
        old(network).wf() ==> final(network).wf(),
{
    let mut i: usize = 0;
    let ghost mut trace: Seq<Network> = seq![*network];
    assert(nodes@.take(0) =~= Seq::<Node>::empty());
    while i < nodes.len()
        invariant
            i <= nodes.len(),
            forall|k: int| 0 <= k < nodes.len() ==> (#[trigger] nodes[k]) is Core,
            is_settling(nodes@.take(i as int), *tables, trace),
            trace[0] == *old(network),
            trace.last() == *network,
            old(network).wf() ==> network.wf(),
        decreases nodes.len() - i,
    {
        let ghost mid = *network;
        match nodes[i].set_constraints(network, tables) {
            Err(e) => {
                return Err(e);
            },
            Ok(()) => {},
        }
        proof {
            let longer = trace.push(*network);
            let more = nodes@.take(i + 1);
            assert forall|k: int| 0 <= k < more.len() implies (#[trigger] more[k])->Core_0.settled(
                longer[k],
                longer[k + 1],
                *tables,
                Ok(()),
            ) by {
                if k < i {
                    assert(more[k] == nodes@.take(i as int)[k]);
                    assert(longer[k] == trace[k]);
                    assert(longer[k + 1] == trace[k + 1]);
                } else {
                    assert(longer[k] == mid);
                }
            }
            trace = longer;
        }
        i += 1;
    }
    assert(nodes@.take(i as int) =~= nodes@);
    Ok(())
}

/// Two labels that an edge is to join: that of the node it leaves and that of
/// the node it enters.
#[derive(Clone, Debug, PartialEq, Eq)]
pub struct ConnectorPair {
    pub from_name: String,
    pub from_sub_name: Option<String>,
    pub to_name: String,
    pub to_sub_name: Option<String>,
}

impl ConnectorPair {
    /// The two labels.
    pub open spec fn labels(&self) -> (Label, Label) {
        (
            crate::node::label_of(self.from_name, self.from_sub_name),
            crate::node::label_of(self.to_name, self.to_sub_name),
        )
    }
}

/// The labels of pairs.
pub open spec fn pair_labels(pairs: Seq<ConnectorPair>) -> Seq<(Label, Label)> {
    Seq::new(pairs.len(), |k: int| pairs[k].labels())
}

/// Appends the pairs of every connector of the first list with every connector
/// of the second.
fn push_crossed(
    from: &Vec<(&str, Option<String>)>,
    to: &Vec<(&str, Option<String>)>,
    out: &mut Vec<ConnectorPair>,
)
    ensures
        pair_labels(final(out)@) == pair_labels(old(out)@) + crossed(
            connector_labels(from@),
            connector_labels(to@),
        ),
{
    let ghost start = pair_labels(out@);
    let ghost from_labels = connector_labels(from@);
    let ghost to_labels = connector_labels(to@);
    let mut i: usize = 0;
    assert(from_labels.take(0) =~= Seq::<Label>::empty());
    assert(pair_labels(out@) =~= start + crossed(from_labels.take(0), to_labels));
    while i < from.len()
        invariant
            i <= from.len(),
            from_labels == connector_labels(from@),
            to_labels == connector_labels(to@),
            pair_labels(out@) == start + crossed(from_labels.take(i as int), to_labels),
        decreases from.len() - i,
    {
        let ghost before = pair_labels(out@);
        let mut j: usize = 0;
        assert(pair_labels(out@) =~= before + Seq::new(
            0,
            |k: int| (from_labels[i as int], to_labels[k]),
        ));
        while j < to.len()
            invariant
                j <= to.len(),
                i < from.len(),
                from_labels == connector_labels(from@),
                to_labels == connector_labels(to@),
                pair_labels(out@) == before + Seq::new(
                    j as nat,
                    |k: int| (from_labels[i as int], to_labels[k]),
                ),
            decreases to.len() - j,
        {
            let pair = ConnectorPair {
                from_name: from[i].0.to_string(),
                from_sub_name: crate::metric::clone_optional_string(&from[i].1),
                to_name: to[j].0.to_string(),
                to_sub_name: crate::metric::clone_optional_string(&to[j].1),
            };
            assert(pair.labels() == (from_labels[i as int], to_labels[j as int]));
            let ghost prior = pair_labels(out@);
            let ghost held = out@;
            out.push(pair);
            j += 1;
            assert(out@ == held.push(pair));
            assert(pair_labels(out@) =~= prior.push(pair.labels()));
            assert(pair_labels(out@) =~= before + Seq::new(
                j as nat,
                |k: int| (from_labels[i as int], to_labels[k]),
            ));
        }
        i += 1;
        proof {
            assert(from_labels.take(i as int).drop_last() =~= from_labels.take(i - 1));
            assert(from_labels.take(i as int).last() == from_labels[i - 1]);
            assert(pair_labels(out@) =~= start + crossed(from_labels.take(i as int), to_labels));
        }
    }
    assert(from_labels.take(i as int) =~= from_labels);
}

/// A failure to find a node among the first `n` edges is the failure of all.
pub proof fn lemma_pairs_fail_in_prefix(nodes: Seq<Node>, edges: Seq<Edge>, n: int)
    requires
        0 <= n <= edges.len(),
        all_pairs(nodes, edges.take(n)).is_err(),
    ensures
        all_pairs(nodes, edges) == all_pairs(nodes, edges.take(n)),
    decreases edges.len() - n,
{
    if n < edges.len() {
        assert(edges.take(n + 1).drop_last() =~= edges.take(n));
        lemma_pairs_fail_in_prefix(nodes, edges, n + 1);
    } else {
        assert(edges.take(n) =~= edges);
    }
}

impl PywrModel {
    /// The pairs of labels that the edges of the definition join.
    pub fn connector_pairs(&self) -> (r: Result<Vec<ConnectorPair>, PywrError>)
        requires
            self.all_core(),
        ensures
            match r {
                Ok(pairs) => all_pairs(self.nodes@, self.edges@) == Ok::<
                    Seq<(Label, Label)>,
                    ErrorView,
                >(pair_labels(pairs@)),
                Err(e) => all_pairs(self.nodes@, self.edges@) == Err::<
                    Seq<(Label, Label)>,
                    ErrorView,
                >(e@),
            },
    {
        let mut out: Vec<ConnectorPair> = Vec::new();
        let mut i: usize = 0;
        assert(pair_labels(out@) =~= Seq::<(Label, Label)>::empty());
        while i < self.edges.len()
            invariant
                i <= self.edges.len(),
                self.all_core(),
                all_pairs(self.nodes@, self.edges@.take(i as int)) == Ok::<
                    Seq<(Label, Label)>,
                    ErrorView,
                >(pair_labels(out@)),
            decreases self.edges.len() - i,
        {
            proof {
                assert(self.edges@.take(i + 1).drop_last() =~= self.edges@.take(i as int));
                assert(self.edges@.take(i + 1).last() == self.edges@[i as int]);
            }
            let edge = &self.edges[i];
            let from = match self.get_node_by_name(edge.from_node.as_str()) {
                None => {
                    proof {
                        lemma_pairs_fail_in_prefix(self.nodes@, self.edges@, i + 1);
                    }
                    return Err(PywrError::NotFound(EntityKind::Node, edge.from_node.clone()));
                },
                Some(node) => node,
            };
            let to = match self.get_node_by_name(edge.to_node.as_str()) {
                None => {
                    proof {
                        lemma_pairs_fail_in_prefix(self.nodes@, self.edges@, i + 1);
                    }
                    return Err(PywrError::NotFound(EntityKind::Node, edge.to_node.clone()));
                },
                Some(node) => node,
            };
            let slot: Option<&str> = match &edge.from_slot {
                Some(s) => Some(s.as_str()),
                None => None,
            };
            let leaving = from.output_connectors(slot);
            let entering = to.input_connectors();
            push_crossed(&leaving, &entering, &mut out);
            i += 1;
        }
        assert(self.edges@.take(i as int) =~= self.edges@);
        Ok(out)
    }
}

/// Adds to a network the edges that join pairs of labels, one after another.
///
/// Where every pair can be joined, the edges are added in the order of the
/// pairs. The first pair that cannot be joined ends the adding with its
/// failure, and the edges of the pairs before it stay.
pub fn join_all(network: &mut Network, pairs: &Vec<ConnectorPair>) -> (r: Result<(), PywrError>)
    ensures
        final(network).same_but(old(network), Part::Edges),
        match joined_all(*old(network), pair_labels(pairs@)) {
            Ok(edges) => r.is_ok() && final(network).edges@ == old(network).edges@ + edges,
            Err(e) => outcome(r) == Err::<(), ErrorView>(e),
        },
        old(network).wf() ==> final(network).wf(),
{
    let ghost labels = pair_labels(pairs@);
    let ghost mut added: Seq<NetworkEdge> = Seq::empty();
    let mut i: usize = 0;
    assert(labels.take(0) =~= Seq::<(Label, Label)>::empty());
    assert(network.edges@ =~= old(network).edges@ + added);
    while i < pairs.len()
        invariant
            i <= pairs.len(),
            labels == pair_labels(pairs@),
            network.same_but(old(network), Part::Edges),
            joined_all(*old(network), labels.take(i as int)) == Ok::<Seq<NetworkEdge>, ErrorView>(
                added,
            ),
            network.edges@ == old(network).edges@ + added,
            old(network).wf() ==> network.wf(),
        decreases pairs.len() - i,
    {
        proof {
            assert(labels.take(i + 1).drop_last() =~= labels.take(i as int));
            assert(labels.take(i + 1).last() == pairs[i as int].labels());
            lemma_joined_reads_nodes(*network, *old(network), pairs[i as int].labels());
        }
        let pair = &pairs[i];
        let from_sub: Option<&str> = match &pair.from_sub_name {
            Some(s) => Some(s.as_str()),
            None => None,
        };
        let to_sub: Option<&str> = match &pair.to_sub_name {
            Some(s) => Some(s.as_str()),
            None => None,
        };
        let from = match network.get_node_index_by_name(pair.from_name.as_str(), from_sub) {
            Err(e) => {
                proof {
                    lemma_join_fails_in_prefix(*old(network), labels, i + 1);
                }
                return Err(e);
            },
            Ok(idx) => idx,
        };
        let to = match network.get_node_index_by_name(pair.to_name.as_str(), to_sub) {
            Err(e) => {
                proof {
                    lemma_join_fails_in_prefix(*old(network), labels, i + 1);
                }
                return Err(e);
            },
            Ok(idx) => idx,
        };
        match network.connect(from, to) {
            Err(e) => {
                proof {
                    lemma_join_fails_in_prefix(*old(network), labels, i + 1);
                }
                return Err(e);
            },
            Ok(_) => {},
        }
        proof {
            added = added.push(NetworkEdge { from_node: from, to_node: to });
            assert(network.edges@ =~= old(network).edges@ + added);
        }
        i += 1;
    }
    assert(labels.take(i as int) =~= labels);
    Ok(())
}

/// Whether a network holds nothing.
pub open spec fn is_empty(network: Network) -> bool {
    &&& network.nodes.len() == 0
    &&& network.edges.len() == 0
    &&& network.aggregated_nodes.len() == 0
    &&& network.aggregated_storage_nodes.len() == 0
    &&& network.virtual_storage_nodes.len() == 0
    &&& network.parameters.len() == 0
    &&& network.index_parameters.len() == 0
    &&& network.multi_parameters.len() == 0
}

/// Whether a trace holds the models that adding the outputs of a definition,
/// one after another and each without failure, leads through.
pub open spec fn is_recording(schema: PywrModel, outputs: Seq<Output>, trace: Seq<Model>) -> bool {
    &&& trace.len() == outputs.len() + 1
    &&& forall|k: int|
        0 <= k < outputs.len() ==> output_added(
            #[trigger] outputs[k],
            trace[k],
            trace[k + 1],
            Ok(()),
            schema,
        )
}

/// Whether the edges of a definition have been joined in a network: the
/// network after holds, after the edges before, the edges that join the pairs of
/// labels of the definition, and is else as before.
pub open spec fn edges_joined(schema: PywrModel, before: Network, after: Network) -> bool {
    &&& after.same_but(&before, Part::Edges)
    &&& match all_pairs(schema.nodes@, schema.edges@) {
        Err(_) => false,
        Ok(pairs) => match joined_all(before, pairs) {
            Err(_) => false,
            Ok(edges) => after.edges@ == before.edges@ + edges,
        },
    }
}

/// Why the edges of a definition cannot be joined in a network, if they
/// cannot: a node of an edge is not in the definition, or a pair of labels
/// cannot be joined.
pub open spec fn edges_fail(schema: PywrModel, before: Network) -> Option<ErrorView> {
    match all_pairs(schema.nodes@, schema.edges@) {
        Err(e) => Some(e),
        Ok(pairs) => match joined_all(before, pairs) {
            Err(e) => Some(e),
            Ok(_) => None,
        },
    }
}

impl PywrModel {
    /// Whether a network is what adding the nodes of the definition, one after
    /// another, makes of a network that holds nothing.
    pub open spec fn nodes_added(&self, tables: LoadedTableCollection, network: Network) -> bool {
        exists|adding: Seq<Network>|
            #![trigger is_adding(self.nodes@, tables, adding)]
            is_adding(self.nodes@, tables, adding) && is_empty(adding[0]) && adding.last()
                == network
    }

    /// Whether a network is what joining the edges of the definition makes of
    /// the network of its nodes.
    pub open spec fn edges_added(&self, tables: LoadedTableCollection, network: Network) -> bool {
        exists|added: Network|
            #![trigger edges_joined(*self, added, network)]
            self.nodes_added(tables, added) && edges_joined(*self, added, network)
    }

    /// Whether a network is what setting the constraints of the nodes of the
    /// definition, one after another, makes of the network of its nodes and
    /// edges.
    pub open spec fn constraints_set(
        &self,
        tables: LoadedTableCollection,
        network: Network,
    ) -> bool {
        exists|settling: Seq<Network>|
            #![trigger is_settling(self.nodes@, tables, settling)]
            is_settling(self.nodes@, tables, settling) && self.edges_added(tables, settling[0])
                && settling.last() == network
    }

    /// Whether a model is the one that is built from the definition: from a
    /// network that holds nothing the nodes are added, then the edges joined,
    /// then the constraints of the nodes set, and to the model of that network
    /// the outputs are added.
    pub open spec fn built(&self, tables: LoadedTableCollection, model: Model) -> bool {
        exists|recording: Seq<Model>|
            #![trigger is_recording(*self, self.outputs@, recording)]
            is_recording(*self, self.outputs@, recording) && self.constraints_set(
                tables,
                recording[0].network,
            ) && recording[0].recorders.len() == 0 && recording.last() == model
    }

    /// Whether adding the nodes of the definition fails at the node `k` with
    /// this failure, after the nodes before it have led a network that holds
    /// nothing through `trace`.
    pub open spec fn adding_fails_at(
        &self,
        tables: LoadedTableCollection,
        trace: Seq<Network>,
        k: int,
        after: Network,
        e: PywrError,
    ) -> bool {
        &&& 0 <= k < self.nodes.len()
        &&& is_adding(self.nodes@.take(k), tables, trace)
        &&& is_empty(trace[0])
        &&& self.nodes[k]->Core_0.added(trace.last(), after, tables, Err(e))
    }

    /// Whether setting the constraints of the nodes of the definition fails at
    /// the node `k` with this failure, after the nodes before it have led the
    /// network of the nodes and edges through `trace`.
    pub open spec fn settling_fails_at(
        &self,
        tables: LoadedTableCollection,
        trace: Seq<Network>,
        k: int,
        after: Network,
        e: PywrError,
    ) -> bool {
        &&& 0 <= k < self.nodes.len()
        &&& is_settling(self.nodes@.take(k), tables, trace)
        &&& self.edges_added(tables, trace[0])
        &&& self.nodes[k]->Core_0.settled(trace.last(), after, tables, Err(e))
    }

    /// Whether adding the outputs of the definition fails at the output `k`
    /// with this failure, after the outputs before it have led the model of
    /// the finished network through `trace`.
    pub open spec fn recording_fails_at(
        &self,
        tables: LoadedTableCollection,
        trace: Seq<Model>,
        k: int,
        after: Model,
        e: PywrError,
    ) -> bool {
        &&& 0 <= k < self.outputs.len()
        &&& is_recording(*self, self.outputs@.take(k), trace)
        &&& self.constraints_set(tables, trace[0].network)
        &&& trace[0].recorders.len() == 0
        &&& output_added(self.outputs[k], trace.last(), after, Err(e), *self)
    }

    /// Whether building the model of the definition fails with this failure:
    /// the first failure of adding a node; or, with all nodes added, the
    /// failure of joining the edges; or, with the edges joined, the first
    /// failure of setting the constraints of a node; or, with all constraints
    /// set, the first failure of adding an output.
    pub open spec fn build_fails_with(&self, tables: LoadedTableCollection, e: PywrError) -> bool {
        ||| exists|trace: Seq<Network>, k: int, after: Network| #[trigger]
            self.adding_fails_at(tables, trace, k, after, e)
        ||| exists|added: Network|
            #![trigger edges_fail(*self, added)]
            self.nodes_added(tables, added) && edges_fail(*self, added) == Some(e@)
        ||| exists|trace: Seq<Network>, k: int, after: Network| #[trigger]
            self.settling_fails_at(tables, trace, k, after, e)
        ||| exists|trace: Seq<Model>, k: int, after: Model| #[trigger]
            self.recording_fails_at(tables, trace, k, after, e)
    }

    /// Builds the model of the definition.
    ///
    /// It fails with the first failure of adding a node, joining an edge,
    /// setting the constraints of a node or adding an output.
    pub fn build_model(&self, tables: &LoadedTableCollection) -> (r: Result<Model, PywrError>)
        requires
            self.all_core(),
        ensures
            match r {
                Ok(model) => self.built(*tables, model) && model.network.wf(),
                Err(e) => self.build_fails_with(*tables, e),
            },
    {
        let mut network = Network::new();
        let ghost empty = network;
        match add_nodes(&mut network, &self.nodes, tables) {
            Err(e) => {
                proof {
                    let (trace, k) = choose|trace: Seq<Network>, k: int|
                        #![trigger is_adding(self.nodes@.take(k), *tables, trace)]
                        0 <= k < self.nodes.len() && is_adding(
                            self.nodes@.take(k),
                            *tables,
                            trace,
                        ) && trace[0] == empty && self.nodes[k]->Core_0.added(
                            trace.last(),
                            network,
                            *tables,
                            Err(e),
                        );
                    assert(self.adding_fails_at(*tables, trace, k, network, e));
                }
                return Err(e);
            },
            Ok(()) => {},
        }
        let ghost adding = choose|trace: Seq<Network>|
            #![trigger is_adding(self.nodes@, *tables, trace)]
            is_adding(self.nodes@, *tables, trace) && trace[0] == empty && trace.last() == network;
        let ghost added = network;
        assert(self.nodes_added(*tables, added)) by {
            assert(is_adding(self.nodes@, *tables, adding));
        }
        let pairs = match self.connector_pairs() {
            Err(e) => {
                assert(edges_fail(*self, added) == Some(e@));
                return Err(e);
            },
            Ok(pairs) => pairs,
        };
        match join_all(&mut network, &pairs) {
            Err(e) => {
                assert(edges_fail(*self, added) == Some(e@));
                return Err(e);
            },
            Ok(()) => {},
        }
        let ghost joined = network;
        assert(edges_joined(*self, added, joined));
        assert(self.edges_added(*tables, joined));
        match set_all_constraints(&mut network, &self.nodes, tables) {
            Err(e) => {
                proof {
                    let (trace, k) = choose|trace: Seq<Network>, k: int|
                        #![trigger is_settling(self.nodes@.take(k), *tables, trace)]
                        0 <= k < self.nodes.len() && is_settling(
                            self.nodes@.take(k),
                            *tables,
                            trace,
                        ) && trace[0] == joined && self.nodes[k]->Core_0.settled(
                            trace.last(),
                            network,
                            *tables,
                            Err(e),
                        );
                    assert(self.settling_fails_at(*tables, trace, k, network, e));
                }
                return Err(e);
            },
            Ok(()) => {},
        }
        let ghost settling = choose|trace: Seq<Network>|
            #![trigger is_settling(self.nodes@, *tables, trace)]
            is_settling(self.nodes@, *tables, trace) && trace[0] == joined && trace.last()
                == network;
        assert(self.constraints_set(*tables, network)) by {
            assert(is_settling(self.nodes@, *tables, settling));
        }
        let mut model = Model::new(network);
        let ghost mut recording: Seq<Model> = seq![model];
        let mut i: usize = 0;
        assert(self.outputs@.take(0) =~= Seq::<Output>::empty());
        while i < self.outputs.len()
            invariant
                i <= self.outputs.len(),
                self.all_core(),
                is_recording(*self, self.outputs@.take(i as int), recording),
                recording.last() == model,
                recording[0].network == network,
                recording[0].recorders.len() == 0,
                model.network == network,
                self.constraints_set(*tables, network),
            decreases self.outputs.len() - i,
        {
            let ghost mid = model;
            match self.outputs[i].add_to_model(&mut model, self) {
                Err(e) => {
                    assert(self.recording_fails_at(*tables, recording, i as int, model, e));
                    return Err(e);
                },
                Ok(()) => {},
            }
            proof {
                let longer = recording.push(model);
                let more = self.outputs@.take(i + 1);
                assert forall|k: int| 0 <= k < more.len() implies output_added(
                    #[trigger] more[k],
                    longer[k],
                    longer[k + 1],
                    Ok(()),
                    *self,
                ) by {
                    if k < i {
                        assert(more[k] == self.outputs@.take(i as int)[k]);
                        assert(longer[k] == recording[k]);
                        assert(longer[k + 1] == recording[k + 1]);
                    } else {
                        assert(longer[k] == mid);
                    }
                }
                recording = longer;
            }
            i += 1;
        }
        proof {
            assert(self.outputs@.take(i as int) =~= self.outputs@);
            assert(is_recording(*self, self.outputs@, recording));
        }
        Ok(model)
    }
}

} // verus!
