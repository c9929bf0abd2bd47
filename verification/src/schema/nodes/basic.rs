//! The definitions of the plain nodes and of the sets over them.

use vstd::prelude::*;
use crate::aggregated_node::Factors;
use crate::error::{outcome, EntityKind, ErrorView, PywrError};
use crate::metric::Metric;
use crate::network::{Network, Part};
use crate::node::{ConstraintValue, Label, Node, NodeIndex, NodeKind, StorageInitialVolume};
use crate::schema::data_tables::LoadedTableCollection;
use crate::schema::nodes::virtual_storage::{
    constraint_or, lemma_resolved_known, load_constraint_or, resolve, resolved,
};
use crate::schema::nodes::water_treatment_works::then;
use crate::schema::nodes::{
    attribute_outcome, attribute_put, lemma_attribute_stable, set_attribute, Attribute, NodeMeta,
};
use crate::schema::parameters::{load_all, loaded_all, DynamicFloatValue};
use crate::value::Value;

verus! {

/// What adding one node under a name without sub-name does to a network: where
/// the name is free the node is appended, without bounds or cost; where it is
/// taken the network stays as it is and `DuplicateName` is reported.
pub open spec fn one_node_added(
    before: Network,
    after: Network,
    r: Result<(), PywrError>,
    name: Seq<char>,
    kind: NodeKind,
) -> bool {
    before.node_added(
        &after,
        match r {
            Ok(()) => Ok(NodeIndex(before.nodes.len())),
            Err(e) => Err(e),
        },
        (name, None),
        kind,
    )
}

/// The one connector of a plain node: its name, without sub-name.
pub fn single_connector(name: &String) -> (r: Vec<(&str, Option<String>)>)
    ensures
        r.len() == 1,
        r[0].0@ == name@,
        r[0].1.is_none(),
{
    let mut connectors: Vec<(&str, Option<String>)> = Vec::new();
    connectors.push((name.as_str(), None));
    connectors
}

/// The first failure of setting cost, greatest flow and least flow of the
/// named node, in this order.
pub open spec fn flow_outcome(
    network: Network,
    tables: LoadedTableCollection,
    name: Seq<char>,
    cost: Option<DynamicFloatValue>,
    max_flow: Option<DynamicFloatValue>,
    min_flow: Option<DynamicFloatValue>,
) -> Result<(), ErrorView> {
    let label: Label = (name, None);
    then(
        attribute_outcome(network, tables, cost, label, Attribute::Cost),
        then(
            attribute_outcome(network, tables, max_flow, label, Attribute::MaxFlow),
            attribute_outcome(network, tables, min_flow, label, Attribute::MinFlow),
        ),
    )
}

/// A node with cost, greatest flow and least flow as a definition gives them.
pub open spec fn flow_node(
    network: Network,
    tables: LoadedTableCollection,
    cost: Option<DynamicFloatValue>,
    max_flow: Option<DynamicFloatValue>,
    min_flow: Option<DynamicFloatValue>,
    node: Node,
) -> Node {
    attribute_put(
        network,
        tables,
        min_flow,
        Attribute::MinFlow,
        attribute_put(
            network,
            tables,
            max_flow,
            Attribute::MaxFlow,
            attribute_put(network, tables, cost, Attribute::Cost, node),
        ),
    )
}

/// What setting cost and bounds on the flow of the named node does: it fails
/// with the first failure of its steps, and where it succeeds the node has what
/// the definition gives and every other node is as it was.
pub open spec fn flow_constrained(
    before: Network,
    after: Network,
    tables: LoadedTableCollection,
    r: Result<(), PywrError>,
    name: Seq<char>,
    cost: Option<DynamicFloatValue>,
    max_flow: Option<DynamicFloatValue>,
    min_flow: Option<DynamicFloatValue>,
) -> bool {
    &&& after.same_but(&before, Part::Nodes)
    &&& after.nodes.len() == before.nodes.len()
    &&& outcome(r) == flow_outcome(before, tables, name, cost, max_flow, min_flow)
    &&& r.is_ok() ==> forall|i: int|
        0 <= i < before.nodes.len() ==> #[trigger] after.nodes[i] == if before.first_labelled(
            i,
            (name, None),
        ) {
            flow_node(before, tables, cost, max_flow, min_flow, before.nodes[i])
        } else {
            before.nodes[i]
        }
}

/// Sets cost, greatest flow and least flow of the named node, each where the
/// definition gives it.
pub fn set_flow_constraints(
    network: &mut Network,
    tables: &LoadedTableCollection,
    name: &String,
    cost: &Option<DynamicFloatValue>,
    max_flow: &Option<DynamicFloatValue>,
    min_flow: &Option<DynamicFloatValue>,
) -> (r: Result<(), PywrError>)
    ensures
        flow_constrained(
            *old(network),
            *final(network),
            *tables,
            r,
            name@,
            *cost,
            *max_flow,
            *min_flow,
        ),
        old(network).wf() ==> final(network).wf(),
{
    let ghost start = *network;
    let ghost label: Label = (name@, None);
    match set_attribute(network, tables, cost, name.as_str(), None, Attribute::Cost) {
        Err(e) => {
            return Err(e);
        },
        Ok(()) => {},
    }
    let ghost one = *network;
    proof {
        lemma_attribute_stable(one, start, *tables, *max_flow, label, Attribute::MaxFlow);
    }
    match set_attribute(network, tables, max_flow, name.as_str(), None, Attribute::MaxFlow) {
        Err(e) => {
            return Err(e);
        },
        Ok(()) => {},
    }
    let ghost two = *network;
    proof {
        lemma_attribute_stable(two, start, *tables, *min_flow, label, Attribute::MinFlow);
    }
    match set_attribute(network, tables, min_flow, name.as_str(), None, Attribute::MinFlow) {
        Err(e) => {
            return Err(e);
        },
        Ok(()) => {},
    }
    proof {
        assert forall|i: int| 0 <= i < start.nodes.len() implies #[trigger] network.nodes[i]
            == if start.first_labelled(i, label) {
            flow_node(start, *tables, *cost, *max_flow, *min_flow, start.nodes[i])
        } else {
            start.nodes[i]
        } by {
            assert(one.nodes[i] == one.nodes[i]);
            assert(two.nodes[i] == two.nodes[i]);
        }
    }
    Ok(())
}

/// The handle of the named node as a metric of its inflow or its outflow.
pub fn flow_metric(network: &Network, name: &String, inflow: bool) -> (r: Result<Metric, PywrError>)
    ensures
        outcome(r) == match crate::network::first_label(network.node_labels(), (name@, None)) {
            Some(i) => Ok::<Metric, ErrorView>(
                if inflow {
                    Metric::NodeInFlow(NodeIndex(i as usize))
                } else {
                    Metric::NodeOutFlow(NodeIndex(i as usize))
                },
            ),
            None => Err(ErrorView::NotFound(EntityKind::Node, name@)),
        },
{
    match network.get_node_index_by_name(name.as_str(), None) {
        Ok(idx) => Ok(
            if inflow {
                Metric::NodeInFlow(idx)
            } else {
                Metric::NodeOutFlow(idx)
            },
        ),
        Err(e) => Err(e),
    }
}

/// The amounts of a definition that are there, each under the name of its
/// attribute, in the order in which they are given.
pub open spec fn present(attributes: Seq<(Seq<char>, Option<DynamicFloatValue>)>) -> Seq<
    (Seq<char>, DynamicFloatValue),
>
    decreases attributes.len(),
{
    if attributes.len() == 0 {
        Seq::empty()
    } else {
        present(attributes.drop_last()) + match attributes.last().1 {
            Some(v) => seq![(attributes.last().0, v)],
            None => Seq::empty(),
        }
    }
}

/// Names with amounts, by the characters of the names and the amounts
/// themselves.
pub open spec fn named_values(pairs: Seq<(&'static str, &DynamicFloatValue)>) -> Seq<
    (Seq<char>, DynamicFloatValue),
> {
    Seq::new(pairs.len(), |i: int| (pairs[i].0@, *pairs[i].1))
}

/// The amounts among up to three that are there, each under its name.
pub fn collect_present<'a>(
    first: (&'static str, &'a Option<DynamicFloatValue>),
    second: (&'static str, &'a Option<DynamicFloatValue>),
    third: (&'static str, &'a Option<DynamicFloatValue>),
) -> (r: Vec<(&'static str, &'a DynamicFloatValue)>)
    ensures
        named_values(r@) == present(
            seq![(first.0@, *first.1), (second.0@, *second.1), (third.0@, *third.1)],
        ),
{
    let mut out: Vec<(&'static str, &'a DynamicFloatValue)> = Vec::new();
    let ghost all = seq![(first.0@, *first.1), (second.0@, *second.1), (third.0@, *third.1)];
    proof {
        assert(all.drop_last() =~= seq![(first.0@, *first.1), (second.0@, *second.1)]);
        assert(all.drop_last().drop_last() =~= seq![(first.0@, *first.1)]);
        assert(all.drop_last().drop_last().drop_last() =~= Seq::<
            (Seq<char>, Option<DynamicFloatValue>),
        >::empty());
        assert(named_values(out@) =~= present(all.drop_last().drop_last().drop_last()));
    }
    match first.1 {
        Some(v) => {
            out.push((first.0, v));
        },
        None => {},
    }
    assert(named_values(out@) =~= present(all.drop_last().drop_last()));
    match second.1 {
        Some(v) => {
            out.push((second.0, v));
        },
        None => {},
    }
    assert(named_values(out@) =~= present(all.drop_last()));
    match third.1 {
        Some(v) => {
            out.push((third.0, v));
        },
        None => {},
    }
    assert(named_values(out@) =~= present(all));
    out
}

/// A node at which water enters the network.
#[derive(Clone, Debug, PartialEq, Eq)]
pub struct InputNode {
    pub meta: NodeMeta,
    pub max_flow: Option<DynamicFloatValue>,
    pub min_flow: Option<DynamicFloatValue>,
    pub cost: Option<DynamicFloatValue>,
}

/// A node through which water passes.
#[derive(Clone, Debug, PartialEq, Eq)]
pub struct LinkNode {
    pub meta: NodeMeta,
    pub max_flow: Option<DynamicFloatValue>,
    pub min_flow: Option<DynamicFloatValue>,
    pub cost: Option<DynamicFloatValue>,
}

/// A node at which water leaves the network.
#[derive(Clone, Debug, PartialEq, Eq)]
pub struct OutputNode {
    pub meta: NodeMeta,
    pub max_flow: Option<DynamicFloatValue>,
    pub min_flow: Option<DynamicFloatValue>,
    pub cost: Option<DynamicFloatValue>,
}

/// A node at which a given flow enters the network.
#[derive(Clone, Debug, PartialEq, Eq)]
pub struct CatchmentNode {
    pub meta: NodeMeta,
    pub flow: Option<DynamicFloatValue>,
    pub cost: Option<DynamicFloatValue>,
}

impl InputNode {
    /// The amounts of the definition that are there: greatest flow, least flow
    /// and cost, in this order.
    pub fn parameters(&self) -> (r: Vec<(&'static str, &DynamicFloatValue)>)
        ensures
            named_values(r@) == present(
                seq![
                    ("max_flow"@, self.max_flow),
                    ("min_flow"@, self.min_flow),
                    ("cost"@, self.cost),
                ],
            ),
    {
        collect_present(
            ("max_flow", &self.max_flow),
            ("min_flow", &self.min_flow),
            ("cost", &self.cost),
        )
    }

    pub fn add_to_model(&self, network: &mut Network) -> (r: Result<(), PywrError>)
        ensures
            one_node_added(*old(network), *final(network), r, self.meta.name@, NodeKind::Input),
            old(network).wf() ==> final(network).wf(),
    {
        match network.add_input_node(self.meta.name.as_str(), None) {
            Ok(_) => Ok(()),
            Err(e) => Err(e),
        }
    }

    pub fn set_constraints(&self, network: &mut Network, tables: &LoadedTableCollection) -> (r:
        Result<(), PywrError>)
        ensures
            flow_constrained(
                *old(network),
                *final(network),
                *tables,
                r,
                self.meta.name@,
                self.cost,
                self.max_flow,
                self.min_flow,
            ),
            old(network).wf() ==> final(network).wf(),
    {
        set_flow_constraints(
            network,
            tables,
            &self.meta.name,
            &self.cost,
            &self.max_flow,
            &self.min_flow,
        )
    }

    pub fn input_connectors(&self) -> (r: Vec<(&str, Option<String>)>)
        ensures
            r.len() == 1,
            r[0].0@ == self.meta.name@,
            r[0].1.is_none(),
    {
        single_connector(&self.meta.name)
    }

    pub fn output_connectors(&self) -> (r: Vec<(&str, Option<String>)>)
        ensures
            r.len() == 1,
            r[0].0@ == self.meta.name@,
            r[0].1.is_none(),
    {
        single_connector(&self.meta.name)
    }

    /// The metric that stands for the node: its outflow.
    pub fn default_metric(&self, network: &Network) -> (r: Result<Metric, PywrError>)
        ensures
            outcome(r) == match crate::network::first_label(
                network.node_labels(),
                (self.meta.name@, None),
            ) {
                Some(i) => Ok::<Metric, ErrorView>(Metric::NodeOutFlow(NodeIndex(i as usize))),
                None => Err(ErrorView::NotFound(EntityKind::Node, self.meta.name@)),
            },
    {
        flow_metric(network, &self.meta.name, false)
    }
}

impl LinkNode {
    /// The amounts of the definition that are there: greatest flow, least flow
    /// and cost, in this order.
    pub fn parameters(&self) -> (r: Vec<(&'static str, &DynamicFloatValue)>)
        ensures
            named_values(r@) == present(
                seq![
                    ("max_flow"@, self.max_flow),
                    ("min_flow"@, self.min_flow),
                    ("cost"@, self.cost),
                ],
            ),
    {
        collect_present(
            ("max_flow", &self.max_flow),
            ("min_flow", &self.min_flow),
            ("cost", &self.cost),
        )
    }

    pub fn add_to_model(&self, network: &mut Network) -> (r: Result<(), PywrError>)
        ensures
            one_node_added(*old(network), *final(network), r, self.meta.name@, NodeKind::Link),
            old(network).wf() ==> final(network).wf(),
    {
        match network.add_link_node(self.meta.name.as_str(), None) {
            Ok(_) => Ok(()),
            Err(e) => Err(e),
        }
    }

    pub fn set_constraints(&self, network: &mut Network, tables: &LoadedTableCollection) -> (r:
        Result<(), PywrError>)
        ensures
            flow_constrained(
                *old(network),
                *final(network),
                *tables,
                r,
                self.meta.name@,
                self.cost,
                self.max_flow,
                self.min_flow,
            ),
            old(network).wf() ==> final(network).wf(),
    {
        set_flow_constraints(
            network,
            tables,
            &self.meta.name,
            &self.cost,
            &self.max_flow,
            &self.min_flow,
        )
    }

    pub fn input_connectors(&self) -> (r: Vec<(&str, Option<String>)>)
        ensures
            r.len() == 1,
            r[0].0@ == self.meta.name@,
            r[0].1.is_none(),
    {
        single_connector(&self.meta.name)
    }

    pub fn output_connectors(&self) -> (r: Vec<(&str, Option<String>)>)
        ensures
            r.len() == 1,
            r[0].0@ == self.meta.name@,
            r[0].1.is_none(),
    {
        single_connector(&self.meta.name)
    }

    /// The metric that stands for the node: its outflow.
    pub fn default_metric(&self, network: &Network) -> (r: Result<Metric, PywrError>)
        ensures
            outcome(r) == match crate::network::first_label(
                network.node_labels(),
                (self.meta.name@, None),
            ) {
                Some(i) => Ok::<Metric, ErrorView>(Metric::NodeOutFlow(NodeIndex(i as usize))),
                None => Err(ErrorView::NotFound(EntityKind::Node, self.meta.name@)),
            },
    {
        flow_metric(network, &self.meta.name, false)
    }
}

impl OutputNode {
    /// The amounts of the definition that are there: greatest flow, least flow
    /// and cost, in this order.
    pub fn parameters(&self) -> (r: Vec<(&'static str, &DynamicFloatValue)>)
        ensures
            named_values(r@) == present(
                seq![
                    ("max_flow"@, self.max_flow),
                    ("min_flow"@, self.min_flow),
                    ("cost"@, self.cost),
                ],
            ),
    {
        collect_present(
            ("max_flow", &self.max_flow),
            ("min_flow", &self.min_flow),
            ("cost", &self.cost),
        )
    }

    pub fn add_to_model(&self, network: &mut Network) -> (r: Result<(), PywrError>)
        ensures
            one_node_added(
                *old(network),
                *final(network),
                r,
                self.meta.name@,
                NodeKind::Output,
            ),
            old(network).wf() ==> final(network).wf(),
    {
        match network.add_output_node(self.meta.name.as_str(), None) {
            Ok(_) => Ok(()),
            Err(e) => Err(e),
        }
    }

    pub fn set_constraints(&self, network: &mut Network, tables: &LoadedTableCollection) -> (r:
        Result<(), PywrError>)
        ensures
            flow_constrained(
                *old(network),
                *final(network),
                *tables,
                r,
                self.meta.name@,
                self.cost,
                self.max_flow,
                self.min_flow,
            ),
            old(network).wf() ==> final(network).wf(),
    {
        set_flow_constraints(
            network,
            tables,
            &self.meta.name,
            &self.cost,
            &self.max_flow,
            &self.min_flow,
        )
    }

    pub fn input_connectors(&self) -> (r: Vec<(&str, Option<String>)>)
        ensures
            r.len() == 1,
            r[0].0@ == self.meta.name@,
            r[0].1.is_none(),
    {
        single_connector(&self.meta.name)
    }

    pub fn output_connectors(&self) -> (r: Vec<(&str, Option<String>)>)
        ensures
            r.len() == 1,
            r[0].0@ == self.meta.name@,
            r[0].1.is_none(),
    {
        single_connector(&self.meta.name)
    }

    /// The metric that stands for the node: its inflow.
    pub fn default_metric(&self, network: &Network) -> (r: Result<Metric, PywrError>)
        ensures
            outcome(r) == match crate::network::first_label(
                network.node_labels(),
                (self.meta.name@, None),
            ) {
                Some(i) => Ok::<Metric, ErrorView>(Metric::NodeInFlow(NodeIndex(i as usize))),
                None => Err(ErrorView::NotFound(EntityKind::Node, self.meta.name@)),
            },
    {
        flow_metric(network, &self.meta.name, true)
    }
}

impl CatchmentNode {
    pub fn add_to_model(&self, network: &mut Network) -> (r: Result<(), PywrError>)
        ensures
            one_node_added(*old(network), *final(network), r, self.meta.name@, NodeKind::Input),
            old(network).wf() ==> final(network).wf(),
    {
        match network.add_input_node(self.meta.name.as_str(), None) {
            Ok(_) => Ok(()),
            Err(e) => Err(e),
        }
    }

    /// Sets the cost, and the flow as both the greatest and the least flow.
    pub fn set_constraints(&self, network: &mut Network, tables: &LoadedTableCollection) -> (r:
        Result<(), PywrError>)
        ensures
            flow_constrained(
                *old(network),
                *final(network),
                *tables,
                r,
                self.meta.name@,
                self.cost,
                self.flow,
                self.flow,
            ),
            old(network).wf() ==> final(network).wf(),
    {
        set_flow_constraints(network, tables, &self.meta.name, &self.cost, &self.flow, &self.flow)
    }

    pub fn input_connectors(&self) -> (r: Vec<(&str, Option<String>)>)
        ensures
            r.len() == 1,
            r[0].0@ == self.meta.name@,
            r[0].1.is_none(),
    {
        single_connector(&self.meta.name)
    }

    pub fn output_connectors(&self) -> (r: Vec<(&str, Option<String>)>)
        ensures
            r.len() == 1,
            r[0].0@ == self.meta.name@,
            r[0].1.is_none(),
    {
        single_connector(&self.meta.name)
    }

    /// The metric that stands for the node: its outflow.
    pub fn default_metric(&self, network: &Network) -> (r: Result<Metric, PywrError>)
        ensures
            outcome(r) == match crate::network::first_label(
                network.node_labels(),
                (self.meta.name@, None),
            ) {
                Some(i) => Ok::<Metric, ErrorView>(Metric::NodeOutFlow(NodeIndex(i as usize))),
                None => Err(ErrorView::NotFound(EntityKind::Node, self.meta.name@)),
            },
    {
        flow_metric(network, &self.meta.name, false)
    }
}

/// A node that stores water.
#[derive(Clone, Debug, PartialEq, Eq)]
pub struct StorageNode {
    pub meta: NodeMeta,
    pub max_volume: Option<DynamicFloatValue>,
    pub min_volume: Option<DynamicFloatValue>,
    pub cost: Option<DynamicFloatValue>,
    pub initial_volume: Option<Value>,
    pub initial_volume_pc: Option<Value>,
}

impl StorageNode {
    /// The amounts of the definition that are there: greatest volume, least
    /// volume and cost, in this order.
    pub fn parameters(&self) -> (r: Vec<(&'static str, &DynamicFloatValue)>)
        ensures
            named_values(r@) == present(
                seq![
                    ("max_volume"@, self.max_volume),
                    ("min_volume"@, self.min_volume),
                    ("cost"@, self.cost),
                ],
            ),
    {
        collect_present(
            ("max_volume", &self.max_volume),
            ("min_volume", &self.min_volume),
            ("cost", &self.cost),
        )
    }

    /// The initial volume: the absolute one where it is given, else the
    /// proportional one.
    pub open spec fn initial(&self) -> Option<StorageInitialVolume> {
        match self.initial_volume {
            Some(iv) => Some(StorageInitialVolume::Absolute(iv)),
            None => match self.initial_volume_pc {
                Some(pc) => Some(StorageInitialVolume::Proportional(pc)),
                None => None,
            },
        }
    }

    /// The least and the greatest volume, or the first failure to get them:
    /// without an initial volume `MissingInitialVolume`, then the failures to
    /// load the least and the greatest volume. Without a least volume that is
    /// zero, and without a greatest volume there is none.
    pub open spec fn volumes(&self, network: Network, tables: LoadedTableCollection) -> Result<
        (ConstraintValue, ConstraintValue),
        ErrorView,
    > {
        match self.initial() {
            None => Err(ErrorView::MissingInitialVolume(self.meta.name@)),
            Some(_) => match constraint_or(
                self.min_volume,
                ConstraintValue::Scalar(0),
                network,
                tables,
            ) {
                Err(e) => Err(e),
                Ok(min_volume) => match constraint_or(
                    self.max_volume,
                    ConstraintValue::Unbounded,
                    network,
                    tables,
                ) {
                    Err(e) => Err(e),
                    Ok(max_volume) => Ok((min_volume, max_volume)),
                },
            },
        }
    }

    /// Whether the network holds a node with the name of this one and no
    /// sub-name.
    pub open spec fn name_taken(&self, network: Network) -> bool {
        exists|j: int|
            0 <= j < network.nodes.len() && (#[trigger] network.nodes[j]).label() == (
                self.meta.name@,
                None::<Seq<char>>,
            )
    }

    /// What adding the storage does to a network and when it fails.
    pub open spec fn added(
        &self,
        before: Network,
        after: Network,
        tables: LoadedTableCollection,
        r: Result<(), PywrError>,
    ) -> bool {
        &&& after.same_but(&before, Part::Nodes)
        &&& outcome(r) == match self.volumes(before, tables) {
                Err(e) => Err::<(), ErrorView>(e),
                Ok(_) => if self.name_taken(before) {
                    Err(ErrorView::DuplicateName)
                } else {
                    Ok(())
                },
            }
        &&& r.is_err() ==> after.nodes@ == before.nodes@
        &&& r.is_ok() ==> {
                let made = after.nodes@.last();
                let volumes = self.volumes(before, tables)->Ok_0;
                &&& after.nodes@.len() == before.nodes@.len() + 1
                &&& after.nodes@.drop_last() == before.nodes@
                &&& made.label() == (self.meta.name@, None::<Seq<char>>)
                &&& made.kind == NodeKind::Storage
                &&& made.initial_volume == self.initial()
                &&& made.min_volume == volumes.0
                &&& made.max_volume == volumes.1
                &&& made.min_flow == ConstraintValue::Unbounded
                &&& made.max_flow == ConstraintValue::Unbounded
                &&& made.cost == ConstraintValue::Unbounded
            }
    }

    /// Adds the storage to a network, after the nodes that are there. It fails
    /// with the first failure to get its volumes, else with `DuplicateName`
    /// where the name is taken; a failure leaves the network as it is.
    pub fn add_to_model(&self, network: &mut Network, tables: &LoadedTableCollection) -> (r: Result<
        (),
        PywrError,
    >)
        ensures
            self.added(*old(network), *final(network), *tables, r),
            old(network).wf() ==> final(network).wf(),
    {
        let initial_volume = if let Some(iv) = self.initial_volume {
            StorageInitialVolume::Absolute(iv)
        } else if let Some(pc) = self.initial_volume_pc {
            StorageInitialVolume::Proportional(pc)
        } else {
            return Err(PywrError::MissingInitialVolume(self.meta.name.clone()));
        };
        let min_volume = match load_constraint_or(
            &self.min_volume,
            ConstraintValue::Scalar(0),
            network,
            tables,
        ) {
            Err(e) => {
                return Err(e);
            },
            Ok(v) => v,
        };
        let max_volume = match load_constraint_or(
            &self.max_volume,
            ConstraintValue::Unbounded,
            network,
            tables,
        ) {
            Err(e) => {
                return Err(e);
            },
            Ok(v) => v,
        };
        match network.add_storage_node(
            self.meta.name.as_str(),
            None,
            initial_volume,
            min_volume,
            max_volume,
        ) {
            Ok(_) => Ok(()),
            Err(e) => Err(e),
        }
    }

    /// Sets the cost of the storage.
    pub fn set_constraints(&self, network: &mut Network, tables: &LoadedTableCollection) -> (r:
        Result<(), PywrError>)
        ensures
            flow_constrained(
                *old(network),
                *final(network),
                *tables,
                r,
                self.meta.name@,
                self.cost,
                None,
                None,
            ),
            old(network).wf() ==> final(network).wf(),
    {
        set_flow_constraints(network, tables, &self.meta.name, &self.cost, &None, &None)
    }

    pub fn input_connectors(&self) -> (r: Vec<(&str, Option<String>)>)
        ensures
            r.len() == 1,
            r[0].0@ == self.meta.name@,
            r[0].1.is_none(),
    {
        single_connector(&self.meta.name)
    }

    pub fn output_connectors(&self) -> (r: Vec<(&str, Option<String>)>)
        ensures
            r.len() == 1,
            r[0].0@ == self.meta.name@,
            r[0].1.is_none(),
    {
        single_connector(&self.meta.name)
    }

    /// The metric that stands for the storage: its volume.
    pub fn default_metric(&self, network: &Network) -> (r: Result<Metric, PywrError>)
        ensures
            outcome(r) == match crate::network::first_label(
                network.node_labels(),
                (self.meta.name@, None),
            ) {
                Some(i) => Ok::<Metric, ErrorView>(Metric::NodeVolume(NodeIndex(i as usize))),
                None => Err(ErrorView::NotFound(EntityKind::Node, self.meta.name@)),
            },
    {
        match network.get_node_index_by_name(self.meta.name.as_str(), None) {
            Ok(idx) => Ok(Metric::NodeVolume(idx)),
            Err(e) => Err(e),
        }
    }
}

/// A set of named nodes whose total flow is bounded or whose flows are tied
/// together.
#[derive(Clone, Debug, PartialEq, Eq)]
pub struct AggregatedNode {
    pub meta: NodeMeta,
    pub nodes: Vec<String>,
    pub max_flow: Option<DynamicFloatValue>,
    pub min_flow: Option<DynamicFloatValue>,
    /// The ratio in which the flows of the nodes stand, one factor per node.
    pub factors: Option<Vec<DynamicFloatValue>>,
}

impl AggregatedNode {
    /// Whether the network holds an aggregated node with the name of this one
    /// and no sub-name.
    pub open spec fn name_taken(&self, network: Network) -> bool {
        exists|j: int|
            0 <= j < network.aggregated_nodes.len() && (
            #[trigger] network.aggregated_nodes[j]).label() == (
                self.meta.name@,
                None::<Seq<char>>,
            )
    }

    /// What adding the aggregated node does to a network and when it fails:
    /// with the failure to find the first node that is not there, else with
    /// `DuplicateName` where the name is taken. It is added after those that
    /// are there, over its nodes, without bounds or factors; a failure leaves
    /// the network as it is.
    pub open spec fn added(
        &self,
        before: Network,
        after: Network,
        r: Result<(), PywrError>,
    ) -> bool {
        &&& after.same_but(&before, Part::AggregatedNodes)
        &&& outcome(r) == match resolved(before, self.nodes@) {
            Err(e) => Err::<(), ErrorView>(e),
            Ok(_) => if self.name_taken(before) {
                Err(ErrorView::DuplicateName)
            } else {
                Ok(())
            },
        }
        &&& r.is_err() ==> after.aggregated_nodes@ == before.aggregated_nodes@
        &&& r.is_ok() ==> {
            let made = after.aggregated_nodes@.last();
            &&& after.aggregated_nodes@.len() == before.aggregated_nodes@.len() + 1
            &&& after.aggregated_nodes@.drop_last() == before.aggregated_nodes@
            &&& made.label() == (self.meta.name@, None::<Seq<char>>)
            &&& made.nodes@ == resolved(before, self.nodes@)->Ok_0
            &&& made.factors.is_none()
            &&& made.min_flow == ConstraintValue::Unbounded
            &&& made.max_flow == ConstraintValue::Unbounded
        }
    }

    pub fn add_to_model(&self, network: &mut Network) -> (r: Result<(), PywrError>)
        ensures
            self.added(*old(network), *final(network), r),
            old(network).wf() ==> final(network).wf(),
    {
        let node_idxs = match resolve(network, &self.nodes) {
            Err(e) => {
                return Err(e);
            },
            Ok(v) => v,
        };
        proof {
            lemma_resolved_known(*network, self.nodes@);
            network.lemma_first_unknown(node_idxs@);
        }
        match network.add_aggregated_node(
            self.meta.name.as_str(),
            None,
            node_idxs.as_slice(),
            None,
        ) {
            Ok(_) => Ok(()),
            Err(e) => Err(e),
        }
    }

    /// The bounds and the factors that the definition gives, or the first
    /// failure to load one: the least flow, the greatest flow, then the factors
    /// in their order. Without a bound there is none.
    pub open spec fn loaded(&self, network: Network, tables: LoadedTableCollection) -> Result<
        (ConstraintValue, ConstraintValue, Option<Seq<Metric>>),
        ErrorView,
    > {
        match constraint_or(self.min_flow, ConstraintValue::Unbounded, network, tables) {
            Err(e) => Err(e),
            Ok(min_flow) => match constraint_or(
                self.max_flow,
                ConstraintValue::Unbounded,
                network,
                tables,
            ) {
                Err(e) => Err(e),
                Ok(max_flow) => match self.factors {
                    None => Ok((min_flow, max_flow, None)),
                    Some(f) => match loaded_all(f@, network, tables) {
                        Err(e) => Err(e),
                        Ok(metrics) => Ok((min_flow, max_flow, Some(metrics))),
                    },
                },
            },
        }
    }

    /// What setting the constraints does and when it fails: with the first
    /// failure to load, else with `NotFound` where the aggregated node is not
    /// there, else with `FactorCountMismatch` where the factors are not as many
    /// as its nodes. Where it succeeds the aggregated node has the bounds, and
    /// the factors as a ratio where there are factors. Every other aggregated
    /// node stays as it was.
    pub open spec fn settled(
        &self,
        before: Network,
        after: Network,
        tables: LoadedTableCollection,
        r: Result<(), PywrError>,
    ) -> bool {
        let label: Label = (self.meta.name@, None);
        &&& after.same_but(&before, Part::AggregatedNodes)
        &&& after.aggregated_nodes.len() == before.aggregated_nodes.len()
        &&& match self.loaded(before, tables) {
            Err(e) => outcome(r) == Err::<(), ErrorView>(e) && after.aggregated_nodes@
                == before.aggregated_nodes@,
            Ok((min_flow, max_flow, factors)) => {
                &&& (forall|i: int| !before.first_aggregated(i, label)) ==> outcome(r) == Err::<
                    (),
                    ErrorView,
                >(ErrorView::NotFound(EntityKind::AggregatedNode, self.meta.name@))
                &&& forall|i: int| #[trigger]
                    before.first_aggregated(i, label) ==> if factors.is_some()
                        && factors.unwrap().len() != before.aggregated_nodes[i].nodes.len() {
                        outcome(r) == Err::<(), ErrorView>(ErrorView::FactorCountMismatch)
                    } else {
                        let made = after.aggregated_nodes[i];
                        &&& r.is_ok()
                        &&& made.name == before.aggregated_nodes[i].name
                        &&& made.sub_name == before.aggregated_nodes[i].sub_name
                        &&& made.nodes == before.aggregated_nodes[i].nodes
                        &&& made.min_flow == min_flow
                        &&& made.max_flow == max_flow
                        &&& match factors {
                            None => made.factors == before.aggregated_nodes[i].factors,
                            Some(metrics) => made.factors matches Some(Factors::Ratio(f)) && f@
                                == metrics,
                        }
                        &&& forall|j: int|
                            0 <= j < before.aggregated_nodes.len() && j != i
                                ==> after.aggregated_nodes[j] == before.aggregated_nodes[j]
                    }
            },
        }
    }

    pub fn set_constraints(&self, network: &mut Network, tables: &LoadedTableCollection) -> (r:
        Result<(), PywrError>)
        ensures
            self.settled(*old(network), *final(network), *tables, r),
            old(network).wf() ==> final(network).wf(),
    {
        let ghost label: Label = (self.meta.name@, None);
        let min_flow = match load_constraint_or(
            &self.min_flow,
            ConstraintValue::Unbounded,
            network,
            tables,
        ) {
            Err(e) => {
                return Err(e);
            },
            Ok(v) => v,
        };
        let max_flow = match load_constraint_or(
            &self.max_flow,
            ConstraintValue::Unbounded,
            network,
            tables,
        ) {
            Err(e) => {
                return Err(e);
            },
            Ok(v) => v,
        };
        let factors: Option<Factors> = match &self.factors {
            None => None,
            Some(f) => match load_all(f, network, tables) {
                Err(e) => {
                    return Err(e);
                },
                Ok(metrics) => Some(Factors::Ratio(metrics)),
            },
        };
        let ghost start = *network;
        // The factors go first: they alone can fail once the node is found.
        match factors {
            None => {},
            Some(f) => {
                let set = network.set_aggregated_node_factors(
                    self.meta.name.as_str(),
                    None,
                    Some(f),
                );
                proof {
                    assert(start.aggregated_node_changed(network, set, label, Some(f)));
                }
                match set {
                    Err(e) => {
                        return Err(e);
                    },
                    Ok(()) => {},
                }
            },
        }
        let ghost mid = *network;
        let bounds = network.set_aggregated_node_flow_bounds(
            self.meta.name.as_str(),
            None,
            min_flow,
            max_flow,
        );
        proof {
            assert(mid.aggregated_node_changed(network, bounds, label, None));
            assert forall|i: int| mid.first_aggregated(i, label) == start.first_aggregated(
                i,
                label,
            ) by {
                if start.first_aggregated(i, label) {
                    start.lemma_first_aggregated_once(i, label);
                    assert forall|j: int| 0 <= j < i implies (
                    #[trigger] mid.aggregated_nodes[j]).label() != label by {
                        assert(mid.aggregated_nodes[j] == start.aggregated_nodes[j]);
                    }
                    assert(mid.first_aggregated(i, label));
                }
                if mid.first_aggregated(i, label) {
                    if forall|k: int| !start.first_aggregated(k, label) {
                        assert(mid.aggregated_nodes@ == start.aggregated_nodes@);
                        assert(start.first_aggregated(i, label));
                    } else {
                        let k = choose|k: int| start.first_aggregated(k, label);
                        start.lemma_first_aggregated_once(k, label);
                        assert forall|j: int| 0 <= j < k implies (
                        #[trigger] mid.aggregated_nodes[j]).label() != label by {
                            assert(mid.aggregated_nodes[j] == start.aggregated_nodes[j]);
                        }
                        assert(mid.first_aggregated(k, label));
                        mid.lemma_first_aggregated_once(k, label);
                    }
                }
            }
        }
        bounds
    }

    /// An aggregated node takes no water from upstream.
    pub fn input_connectors(&self) -> (r: Vec<(&str, Option<String>)>)
        ensures
            r.len() == 0,
    {
        Vec::new()
    }

    /// An aggregated node hands no water downstream.
    pub fn output_connectors(&self) -> (r: Vec<(&str, Option<String>)>)
        ensures
            r.len() == 0,
    {
        Vec::new()
    }

    /// The metric that stands for the aggregated node: the sum of the outflows
    /// of its nodes.
    pub fn default_metric(&self, network: &Network) -> (r: Result<Metric, PywrError>)
        ensures
            match r {
                Ok(metric) => exists|i: int|
                    #[trigger] network.first_aggregated(i, (self.meta.name@, None)) && metric
                        == Metric::AggregatedNodeOutFlow(
                        crate::aggregated_node::AggregatedNodeIndex(i as usize),
                    ),
                Err(e) => e@ == ErrorView::NotFound(EntityKind::AggregatedNode, self.meta.name@)
                    && !self.name_taken(*network),
            },
    {
        match network.get_aggregated_node_index_by_name(self.meta.name.as_str(), None) {
            Ok(idx) => {
                assert(network.first_aggregated(idx.0 as int, (self.meta.name@, None)));
                Ok(Metric::AggregatedNodeOutFlow(idx))
            },
            Err(e) => Err(e),
        }
    }
}

/// A set of named storages that are read as one.
#[derive(Clone, Debug, PartialEq, Eq)]
pub struct AggregatedStorageNode {
    pub meta: NodeMeta,
    pub storage_nodes: Vec<String>,
}

impl AggregatedStorageNode {
    /// Whether the network holds an aggregated storage node with the name of
    /// this one and no sub-name.
    pub open spec fn name_taken(&self, network: Network) -> bool {
        exists|j: int|
            0 <= j < network.aggregated_storage_nodes.len() && (
            #[trigger] network.aggregated_storage_nodes[j]).label() == (
                self.meta.name@,
                None::<Seq<char>>,
            )
    }

    /// What adding the aggregated storage node does to a network and when it
    /// fails: with the failure to find the first node that is not there, else
    /// with `DuplicateName` where the name is taken, else with
    /// `StorageOnNonStorageNode` where one of the nodes stores nothing. A
    /// failure leaves the network as it is.
    pub open spec fn added(
        &self,
        before: Network,
        after: Network,
        r: Result<(), PywrError>,
    ) -> bool {
        &&& after.same_but(&before, Part::AggregatedStorageNodes)
        &&& outcome(r) == match resolved(before, self.storage_nodes@) {
            Err(e) => Err::<(), ErrorView>(e),
            Ok(nodes) => if self.name_taken(before) {
                Err(ErrorView::DuplicateName)
            } else if !before.storages(nodes) {
                Err(ErrorView::StorageOnNonStorageNode)
            } else {
                Ok(())
            },
        }
        &&& r.is_err() ==> after.aggregated_storage_nodes@ == before.aggregated_storage_nodes@
        &&& r.is_ok() ==> {
            let made = after.aggregated_storage_nodes@.last();
            &&& after.aggregated_storage_nodes@.len() == before.aggregated_storage_nodes@.len() + 1
            &&& after.aggregated_storage_nodes@.drop_last() == before.aggregated_storage_nodes@
            &&& made.label() == (self.meta.name@, None::<Seq<char>>)
            &&& made.nodes@ == resolved(before, self.storage_nodes@)->Ok_0
        }
    }

    pub fn add_to_model(&self, network: &mut Network) -> (r: Result<(), PywrError>)
        ensures
            self.added(*old(network), *final(network), r),
            old(network).wf() ==> final(network).wf(),
    {
        let node_idxs = match resolve(network, &self.storage_nodes) {
            Err(e) => {
                return Err(e);
            },
            Ok(v) => v,
        };
        proof {
            lemma_resolved_known(*network, self.storage_nodes@);
            network.lemma_first_unknown(node_idxs@);
        }
        match network.add_aggregated_storage_node(self.meta.name.as_str(), None, node_idxs) {
            Ok(_) => Ok(()),
            Err(e) => Err(e),
        }
    }

    /// An aggregated storage node takes no water from upstream.
    pub fn input_connectors(&self) -> (r: Vec<(&str, Option<String>)>)
        ensures
            r.len() == 0,
    {
        Vec::new()
    }

    /// An aggregated storage node hands no water downstream.
    pub fn output_connectors(&self) -> (r: Vec<(&str, Option<String>)>)
        ensures
            r.len() == 0,
    {
        Vec::new()
    }

    /// The metric that stands for the aggregated storage node: the sum of the
    /// volumes of its storages.
    pub fn default_metric(&self, network: &Network) -> (r: Result<Metric, PywrError>)
        ensures
            match r {
                Ok(metric) => exists|i: int|
                    0 <= i < network.aggregated_storage_nodes.len() && metric
                        == Metric::AggregatedNodeVolume(
                        crate::aggregated_storage_node::AggregatedStorageNodeIndex(i as usize),
                    ) && (#[trigger] network.aggregated_storage_nodes[i]).label() == (
                        self.meta.name@,
                        None::<Seq<char>>,
                    ),
                Err(e) => e@ == ErrorView::NotFound(
                    EntityKind::AggregatedStorageNode,
                    self.meta.name@,
                ) && !self.name_taken(*network),
            },
    {
        match network.get_aggregated_storage_node_index_by_name(self.meta.name.as_str(), None) {
            Ok(idx) => Ok(Metric::AggregatedNodeVolume(idx)),
            Err(e) => Err(e),
        }
    }
}

} // verus!
