//! Definitions of nodes.

pub mod basic;
pub mod virtual_storage;
pub mod water_treatment_works;

pub use basic::{
    AggregatedNode, AggregatedStorageNode, CatchmentNode, InputNode, LinkNode, OutputNode,
    StorageNode,
};
pub use virtual_storage::VirtualStorageNode;
pub use water_treatment_works::WaterTreatmentWorks;

use vstd::prelude::*;
use crate::error::{outcome, EntityKind, ErrorView, PywrError};
use crate::metric::Metric;
use crate::network::{Network, Part};
use crate::node::{label_of_str, ConstraintValue, Label, NodeIndex, NodeKind};
use crate::schema::data_tables::LoadedTableCollection;
use crate::schema::parameters::DynamicFloatValue;
use crate::schema::nodes::basic::{flow_constrained, named_values, one_node_added, present};
use crate::value::Value;

verus! {

/// Where a node is drawn.
#[derive(Clone, Copy, Debug, PartialEq, Eq)]
pub struct NodePosition {
    pub schematic: Option<(Value, Value)>,
    pub geographic: Option<(Value, Value)>,
}

/// What is common to the definitions of all nodes.
#[derive(Clone, Debug, PartialEq, Eq)]
pub struct NodeMeta {
    pub name: String,
    pub comment: Option<String>,
    pub position: Option<NodePosition>,
}

impl NodeMeta {
    /// The meta data of a node with this name, without comment or position.
    pub fn new(name: &str) -> (r: Self)
        ensures
            r.name@ == name@,
            r.comment.is_none(),
            r.position.is_none(),
    {
        Self { name: name.to_string(), comment: None, position: None }
    }
}

/// The attributes of a node that a definition can set.
#[derive(Clone, Copy, Debug, PartialEq, Eq, Structural)]
pub enum Attribute {
    Cost,
    MinFlow,
    MaxFlow,
    MinVolume,
    MaxVolume,
}

impl Attribute {
    /// Whether only a storage has the attribute.
    pub open spec fn storage_only(&self) -> bool {
        *self == Attribute::MinVolume || *self == Attribute::MaxVolume
    }

    /// A node with the attribute replaced.
    pub open spec fn put(
        &self,
        node: crate::node::Node,
        value: ConstraintValue,
    ) -> crate::node::Node {
        match self {
            Attribute::Cost => crate::node::Node { cost: value, ..node },
            Attribute::MinFlow => crate::node::Node { min_flow: value, ..node },
            Attribute::MaxFlow => crate::node::Node { max_flow: value, ..node },
            Attribute::MinVolume => crate::node::Node { min_volume: value, ..node },
            Attribute::MaxVolume => crate::node::Node { max_volume: value, ..node },
        }
    }
}

/// The bound or cost that a metric gives: fixed for a constant, else read from
/// the state.
pub open spec fn as_constraint(metric: Metric) -> ConstraintValue {
    match metric {
        Metric::Constant(v) => ConstraintValue::Scalar(v),
        _ => ConstraintValue::Metric(metric),
    }
}

/// The bound or cost that a metric gives.
pub fn into_constraint(metric: Metric) -> (r: ConstraintValue)
    ensures
        r == as_constraint(metric),
{
    match metric {
        Metric::Constant(v) => ConstraintValue::Scalar(v),
        other => ConstraintValue::Metric(other),
    }
}

/// Whether setting an attribute of the named node from an amount of a
/// definition succeeds: where there is no amount nothing is done, else the
/// amount must load and the node must be there, and be a storage where the
/// attribute asks for one.
pub open spec fn attribute_outcome(
    network: Network,
    tables: LoadedTableCollection,
    value: Option<DynamicFloatValue>,
    label: Label,
    attribute: Attribute,
) -> Result<(), ErrorView> {
    match value {
        None => Ok(()),
        Some(v) => match v.loaded(network, tables) {
            Err(e) => Err(e),
            Ok(m) => if forall|i: int| !network.first_labelled(i, label) {
                Err(ErrorView::NotFound(EntityKind::Node, label.0))
            } else if attribute.storage_only() && exists|i: int|
                network.first_labelled(i, label) && network.nodes[i].kind
                    != NodeKind::Storage {
                Err(ErrorView::StorageOnNonStorageNode)
            } else {
                Ok(())
            },
        },
    }
}

/// The node after setting an attribute from an amount of a definition that
/// loads: the node as it was where there is no amount.
pub open spec fn attribute_put(
    network: Network,
    tables: LoadedTableCollection,
    value: Option<DynamicFloatValue>,
    attribute: Attribute,
    node: crate::node::Node,
) -> crate::node::Node {
    match value {
        None => node,
        Some(v) => match v.loaded(network, tables) {
            Err(e) => node,
            Ok(m) => attribute.put(node, as_constraint(m)),
        },
    }
}

/// What an amount loads to depends on the parameters and the tables alone.
pub proof fn lemma_loaded_same(
    value: DynamicFloatValue,
    a: Network,
    b: Network,
    tables: LoadedTableCollection,
)
    requires
        a.parameters == b.parameters,
    ensures
        value.loaded(a, tables) == value.loaded(b, tables),
{
    assert(a.parameter_names() =~= b.parameter_names());
}

/// Whether two networks hold the same parameters and, position by position,
/// nodes of the same label and kind.
pub open spec fn same_shape(a: Network, b: Network) -> bool {
    &&& a.parameters == b.parameters
    &&& a.nodes.len() == b.nodes.len()
    &&& forall|i: int|
        0 <= i < a.nodes.len() ==> (#[trigger] a.nodes[i]).label() == b.nodes[i].label()
            && a.nodes[i].kind == b.nodes[i].kind
}

/// Setting an attribute does the same on networks of the same shape.
pub proof fn lemma_attribute_stable(
    a: Network,
    b: Network,
    tables: LoadedTableCollection,
    value: Option<DynamicFloatValue>,
    label: Label,
    attribute: Attribute,
)
    requires
        same_shape(a, b),
    ensures
        attribute_outcome(a, tables, value, label, attribute) == attribute_outcome(
            b,
            tables,
            value,
            label,
            attribute,
        ),
        forall|node: crate::node::Node| #[trigger]
            attribute_put(a, tables, value, attribute, node) == attribute_put(
                b,
                tables,
                value,
                attribute,
                node,
            ),
        forall|i: int| a.first_labelled(i, label) == b.first_labelled(i, label),
{
    assert forall|i: int| a.first_labelled(i, label) == b.first_labelled(i, label) by {
        if a.first_labelled(i, label) {
            assert(b.nodes[i].label() == a.nodes[i].label());
            assert forall|j: int| 0 <= j < i implies (#[trigger] b.nodes[j]).label() != label by {
                assert(a.nodes[j].label() != label);
            }
        }
        if b.first_labelled(i, label) {
            assert(a.nodes[i].label() == label);
            assert forall|j: int| 0 <= j < i implies (#[trigger] a.nodes[j]).label() != label by {
                assert(b.nodes[j].label() != label);
                assert(a.nodes[j].label() == b.nodes[j].label());
            }
        }
    }
    match value {
        None => {},
        Some(v) => {
            lemma_loaded_same(v, a, b, tables);
            if attribute.storage_only() {
                if exists|i: int| a.first_labelled(i, label)
                    && a.nodes[i].kind != NodeKind::Storage {
                    let i = choose|i: int|
                        a.first_labelled(i, label) && a.nodes[i].kind != NodeKind::Storage;
                    assert(b.first_labelled(i, label) && b.nodes[i].kind != NodeKind::Storage);
                }
                if exists|i: int| b.first_labelled(i, label)
                    && b.nodes[i].kind != NodeKind::Storage {
                    let i = choose|i: int|
                        b.first_labelled(i, label) && b.nodes[i].kind != NodeKind::Storage;
                    assert(a.first_labelled(i, label));
                    assert(a.nodes[i].kind == b.nodes[i].kind);
                }
            }
        },
    }
}

/// Sets an attribute of the named node from an amount of a definition, if
/// there is one.
pub fn set_attribute(
    network: &mut Network,
    tables: &LoadedTableCollection,
    value: &Option<DynamicFloatValue>,
    name: &str,
    sub_name: Option<&str>,
    attribute: Attribute,
) -> (r: Result<(), PywrError>)
    ensures
        final(network).same_but(old(network), Part::Nodes),
        final(network).nodes.len() == old(network).nodes.len(),
        outcome(r) == attribute_outcome(
            *old(network),
            *tables,
            *value,
            label_of_str(name, sub_name),
            attribute,
        ),
        r.is_err() ==> final(network).nodes@ == old(network).nodes@,
        r.is_ok() ==> forall|i: int|
            0 <= i < old(network).nodes.len()
                ==> #[trigger] final(network).nodes[i]
                == if old(network).first_labelled(i, label_of_str(name, sub_name)) {
                attribute_put(*old(network), *tables, *value, attribute, old(network).nodes[i])
            } else {
                old(network).nodes[i]
            },
        same_shape(*final(network), *old(network)),
        old(network).wf() ==> final(network).wf(),
{
    match value {
        None => {
            assert(network.nodes@ =~= old(network).nodes@);
            Ok(())
        },
        Some(v) => {
            match v.load(network, tables) {
                Err(e) => Err(e),
                Ok(m) => {
                    let constraint = into_constraint(m);
                    let r = match attribute {
                        Attribute::Cost => network.set_node_cost(name, sub_name, constraint),
                        Attribute::MinFlow => network.set_node_min_flow(name, sub_name, constraint),
                        Attribute::MaxFlow => network.set_node_max_flow(name, sub_name, constraint),
                        Attribute::MinVolume => network.set_node_min_volume(
                            name,
                            sub_name,
                            constraint,
                        ),
                        Attribute::MaxVolume => network.set_node_max_volume(
                            name,
                            sub_name,
                            constraint,
                        ),
                    };
                    proof {
                        assert(old(network).node_changed(
                            network,
                            r,
                            label_of_str(name, sub_name),
                            attribute.storage_only(),
                        ));
                        if r.is_ok() {
                            assert forall|i: int|
                                0 <= i < old(network).nodes.len()
                                    implies #[trigger] network.nodes[i]
                                == if old(network).first_labelled(i, label_of_str(name, sub_name)) {
                                attribute_put(
                                    *old(network),
                                    *tables,
                                    *value,
                                    attribute,
                                    old(network).nodes[i],
                                )
                            } else {
                                old(network).nodes[i]
                            } by {
                                if !old(network).first_labelled(i, label_of_str(name, sub_name)) {
                                    let k = choose|k: int|
                                        old(network).first_labelled(k, label_of_str(name, sub_name));
                                    assert(old(network).first_labelled(k, label_of_str(name, sub_name)));
                                }
                            }
                        }
                    }
                    r
                },
            }
        },
    }
}

/// A node of a type that this library does not know. It is kept as it is
/// written and cannot be built into a network.
#[derive(Clone, Debug, PartialEq, Eq)]
pub struct CustomNode {
    pub ty: String,
    pub meta: NodeMeta,
    /// The attributes, each with its name and its value as text.
    pub attributes: Vec<(String, String)>,
}

/// A node of one of the types that this library knows.
#[derive(Clone, Debug, PartialEq, Eq)]
pub enum CoreNode {
    Input(InputNode),
    Link(LinkNode),
    Output(OutputNode),
    Storage(StorageNode),
    Catchment(CatchmentNode),
    WaterTreatmentWorks(WaterTreatmentWorks),
    Aggregated(AggregatedNode),
    AggregatedStorage(AggregatedStorageNode),
    VirtualStorage(VirtualStorageNode),
}

/// The definition of a node.
#[derive(Clone, Debug, PartialEq, Eq)]
pub enum Node {
    Core(CoreNode),
    Custom(CustomNode),
}

impl CoreNode {
    /// What is common to the definitions of all nodes.
    pub open spec fn meta_of(&self) -> NodeMeta {
        match self {
            CoreNode::Input(n) => n.meta,
            CoreNode::Link(n) => n.meta,
            CoreNode::Output(n) => n.meta,
            CoreNode::Storage(n) => n.meta,
            CoreNode::Catchment(n) => n.meta,
            CoreNode::WaterTreatmentWorks(n) => n.meta,
            CoreNode::Aggregated(n) => n.meta,
            CoreNode::AggregatedStorage(n) => n.meta,
            CoreNode::VirtualStorage(n) => n.meta,
        }
    }

    /// The name of the type of the node.
    pub open spec fn kind_name(&self) -> Seq<char> {
        match self {
            CoreNode::Input(_) => "Input"@,
            CoreNode::Link(_) => "Link"@,
            CoreNode::Output(_) => "Output"@,
            CoreNode::Storage(_) => "Storage"@,
            CoreNode::Catchment(_) => "Catchment"@,
            CoreNode::WaterTreatmentWorks(_) => "WaterTreatmentWorks"@,
            CoreNode::Aggregated(_) => "Aggregated"@,
            CoreNode::AggregatedStorage(_) => "AggregatedStorage"@,
            CoreNode::VirtualStorage(_) => "VirtualStorage"@,
        }
    }

    pub fn name(&self) -> (r: &str)
        ensures
            r@ == self.meta_of().name@,
    {
        self.meta().name.as_str()
    }

    pub fn position(&self) -> (r: Option<&NodePosition>)
        ensures
            r.is_some() == self.meta_of().position.is_some(),
            r.is_some() ==> *r.unwrap() == self.meta_of().position.unwrap(),
    {
        self.meta().position.as_ref()
    }

    pub fn node_type(&self) -> (r: &str)
        ensures
            r@ == self.kind_name(),
    {
        match self {
            CoreNode::Input(_) => "Input",
            CoreNode::Link(_) => "Link",
            CoreNode::Output(_) => "Output",
            CoreNode::Storage(_) => "Storage",
            CoreNode::Catchment(_) => "Catchment",
            CoreNode::WaterTreatmentWorks(_) => "WaterTreatmentWorks",
            CoreNode::Aggregated(_) => "Aggregated",
            CoreNode::AggregatedStorage(_) => "AggregatedStorage",
            CoreNode::VirtualStorage(_) => "VirtualStorage",
        }
    }

    pub fn meta(&self) -> (r: &NodeMeta)
        ensures
            *r == self.meta_of(),
    {
        match self {
            CoreNode::Input(n) => &n.meta,
            CoreNode::Link(n) => &n.meta,
            CoreNode::Output(n) => &n.meta,
            CoreNode::Storage(n) => &n.meta,
            CoreNode::Catchment(n) => &n.meta,
            CoreNode::WaterTreatmentWorks(n) => &n.meta,
            CoreNode::Aggregated(n) => &n.meta,
            CoreNode::AggregatedStorage(n) => &n.meta,
            CoreNode::VirtualStorage(n) => &n.meta,
        }
    }

    /// The attributes of the definition that hold amounts, where the type of
    /// the node names them: for an input, a link and an output the greatest
    /// flow, the least flow and the cost; for a storage the greatest volume, the
    /// least volume and the cost.
    pub open spec fn attributes(&self) -> Seq<(Seq<char>, Option<DynamicFloatValue>)> {
        match self {
            CoreNode::Input(n) => seq![
                ("max_flow"@, n.max_flow),
                ("min_flow"@, n.min_flow),
                ("cost"@, n.cost),
            ],
            CoreNode::Link(n) => seq![
                ("max_flow"@, n.max_flow),
                ("min_flow"@, n.min_flow),
                ("cost"@, n.cost),
            ],
            CoreNode::Output(n) => seq![
                ("max_flow"@, n.max_flow),
                ("min_flow"@, n.min_flow),
                ("cost"@, n.cost),
            ],
            CoreNode::Storage(n) => seq![
                ("max_volume"@, n.max_volume),
                ("min_volume"@, n.min_volume),
                ("cost"@, n.cost),
            ],
            _ => Seq::empty(),
        }
    }

    /// The amounts of the definition that are there, each under the name of its
    /// attribute.
    pub fn parameters(&self) -> (r: Vec<(&'static str, &DynamicFloatValue)>)
        ensures
            named_values(r@) == present(self.attributes()),
    {
        match self {
            CoreNode::Input(n) => n.parameters(),
            CoreNode::Link(n) => n.parameters(),
            CoreNode::Output(n) => n.parameters(),
            CoreNode::Storage(n) => n.parameters(),
            _ => {
                let out: Vec<(&'static str, &DynamicFloatValue)> = Vec::new();
                assert(named_values(out@) =~= present(self.attributes()));
                out
            },
        }
    }

    /// What adding the node does to a network and when it fails, by the type of
    /// the node.
    pub open spec fn added(
        &self,
        before: Network,
        after: Network,
        tables: LoadedTableCollection,
        r: Result<(), PywrError>,
    ) -> bool {
        match self {
            CoreNode::Input(n) => one_node_added(before, after, r, n.meta.name@, NodeKind::Input),
            CoreNode::Link(n) => one_node_added(before, after, r, n.meta.name@, NodeKind::Link),
            CoreNode::Output(n) => one_node_added(before, after, r, n.meta.name@, NodeKind::Output),
            CoreNode::Storage(n) => n.added(before, after, tables, r),
            CoreNode::Catchment(n) => one_node_added(
                before,
                after,
                r,
                n.meta.name@,
                NodeKind::Input,
            ),
            CoreNode::WaterTreatmentWorks(n) => n.built(before, after, r),
            CoreNode::Aggregated(n) => n.added(before, after, r),
            CoreNode::AggregatedStorage(n) => n.added(before, after, r),
            CoreNode::VirtualStorage(n) => n.added(before, after, tables, r),
        }
    }

    /// Adds the node to a network.
    pub fn add_to_model(&self, network: &mut Network, tables: &LoadedTableCollection) -> (r: Result<
        (),
        PywrError,
    >)
        ensures
            self.added(*old(network), *final(network), *tables, r),
            old(network).wf() ==> final(network).wf(),
    {
        match self {
            CoreNode::Input(n) => n.add_to_model(network),
            CoreNode::Link(n) => n.add_to_model(network),
            CoreNode::Output(n) => n.add_to_model(network),
            CoreNode::Storage(n) => n.add_to_model(network, tables),
            CoreNode::Catchment(n) => n.add_to_model(network),
            CoreNode::WaterTreatmentWorks(n) => n.add_to_model(network),
            CoreNode::Aggregated(n) => n.add_to_model(network),
            CoreNode::AggregatedStorage(n) => n.add_to_model(network),
            CoreNode::VirtualStorage(n) => n.add_to_model(network, tables),
        }
    }

    /// What setting the constraints of the node does to a network and when it
    /// fails, by the type of the node. An aggregated storage node and a virtual
    /// storage have no constraints to set: the network stays as it is.
    pub open spec fn settled(
        &self,
        before: Network,
        after: Network,
        tables: LoadedTableCollection,
        r: Result<(), PywrError>,
    ) -> bool {
        match self {
            CoreNode::Input(n) => flow_constrained(
                before,
                after,
                tables,
                r,
                n.meta.name@,
                n.cost,
                n.max_flow,
                n.min_flow,
            ),
            CoreNode::Link(n) => flow_constrained(
                before,
                after,
                tables,
                r,
                n.meta.name@,
                n.cost,
                n.max_flow,
                n.min_flow,
            ),
            CoreNode::Output(n) => flow_constrained(
                before,
                after,
                tables,
                r,
                n.meta.name@,
                n.cost,
                n.max_flow,
                n.min_flow,
            ),
            CoreNode::Storage(n) => flow_constrained(
                before,
                after,
                tables,
                r,
                n.meta.name@,
                n.cost,
                None,
                None,
            ),
            CoreNode::Catchment(n) => flow_constrained(
                before,
                after,
                tables,
                r,
                n.meta.name@,
                n.cost,
                n.flow,
                n.flow,
            ),
            CoreNode::WaterTreatmentWorks(n) => n.settled(before, after, tables, r),
            CoreNode::Aggregated(n) => n.settled(before, after, tables, r),
            CoreNode::AggregatedStorage(_) => r.is_ok() && after == before,
            CoreNode::VirtualStorage(_) => r.is_ok() && after == before,
        }
    }

    /// Sets the costs and bounds that the definition gives.
    pub fn set_constraints(&self, network: &mut Network, tables: &LoadedTableCollection) -> (r:
        Result<(), PywrError>)
        ensures
            self.settled(*old(network), *final(network), *tables, r),
            old(network).wf() ==> final(network).wf(),
    {
        match self {
            CoreNode::Input(n) => n.set_constraints(network, tables),
            CoreNode::Link(n) => n.set_constraints(network, tables),
            CoreNode::Output(n) => n.set_constraints(network, tables),
            CoreNode::Storage(n) => n.set_constraints(network, tables),
            CoreNode::Catchment(n) => n.set_constraints(network, tables),
            CoreNode::WaterTreatmentWorks(n) => n.set_constraints(network, tables),
            CoreNode::Aggregated(n) => n.set_constraints(network, tables),
            // An aggregated storage node has no constraints.
            CoreNode::AggregatedStorage(_) => Ok(()),
            // The volumes and the cost of a virtual storage are set when it is added.
            CoreNode::VirtualStorage(_) => Ok(()),
        }
    }

    /// The labels under which the node takes water from upstream, by the
    /// characters of name and sub-name.
    pub open spec fn inputs(&self) -> Seq<Label> {
        match self {
            CoreNode::WaterTreatmentWorks(n) => if n.loss_factor.is_some() {
                seq![n.part("net"), n.part("loss")]
            } else {
                seq![n.part("net")]
            },
            CoreNode::Aggregated(_) => Seq::empty(),
            CoreNode::AggregatedStorage(_) => Seq::empty(),
            CoreNode::VirtualStorage(_) => Seq::empty(),
            _ => seq![(self.meta_of().name@, None::<Seq<char>>)],
        }
    }

    /// The labels under which the node hands water downstream.
    pub open spec fn outputs(&self) -> Seq<Label> {
        match self {
            CoreNode::WaterTreatmentWorks(n) => seq![
                n.part("net_soft_min_flow"),
                n.part("net_above_soft_min_flow"),
            ],
            CoreNode::Aggregated(_) => Seq::empty(),
            CoreNode::AggregatedStorage(_) => Seq::empty(),
            CoreNode::VirtualStorage(_) => Seq::empty(),
            _ => seq![(self.meta_of().name@, None::<Seq<char>>)],
        }
    }

    /// The nodes of the network that take the water that flows into this node.
    pub fn input_connectors(&self) -> (r: Vec<(&str, Option<String>)>)
        ensures
            connector_labels(r@) == self.inputs(),
    {
        let r = match self {
            CoreNode::Input(n) => n.input_connectors(),
            CoreNode::Link(n) => n.input_connectors(),
            CoreNode::Output(n) => n.input_connectors(),
            CoreNode::Storage(n) => n.input_connectors(),
            CoreNode::Catchment(n) => n.input_connectors(),
            CoreNode::WaterTreatmentWorks(n) => n.input_connectors(),
            CoreNode::Aggregated(n) => n.input_connectors(),
            CoreNode::AggregatedStorage(n) => n.input_connectors(),
            CoreNode::VirtualStorage(n) => n.input_connectors(),
        };
        assert(connector_labels(r@) =~= self.inputs());
        r
    }

    /// The nodes of the network that hand on the water that flows out of this
    /// node. No node that is defined here hands water on by slot.
    pub fn output_connectors(&self, slot: Option<&str>) -> (r: Vec<(&str, Option<String>)>)
        ensures
            connector_labels(r@) == self.outputs(),
    {
        let r = match self {
            CoreNode::Input(n) => n.output_connectors(),
            CoreNode::Link(n) => n.output_connectors(),
            CoreNode::Output(n) => n.output_connectors(),
            CoreNode::Storage(n) => n.output_connectors(),
            CoreNode::Catchment(n) => n.output_connectors(),
            CoreNode::WaterTreatmentWorks(n) => n.output_connectors(),
            CoreNode::Aggregated(n) => n.output_connectors(),
            CoreNode::AggregatedStorage(n) => n.output_connectors(),
            CoreNode::VirtualStorage(n) => n.output_connectors(),
        };
        assert(connector_labels(r@) =~= self.outputs());
        r
    }

    /// The metric that stands for the node.
    pub fn default_metric(&self, network: &Network) -> (r: Result<Metric, PywrError>)
        ensures
            self.stands_for(*network, r),
    {
        match self {
            CoreNode::Input(n) => n.default_metric(network),
            CoreNode::Link(n) => n.default_metric(network),
            CoreNode::Output(n) => n.default_metric(network),
            CoreNode::Storage(n) => n.default_metric(network),
            CoreNode::Catchment(n) => n.default_metric(network),
            CoreNode::WaterTreatmentWorks(n) => n.default_metric(network),
            CoreNode::Aggregated(n) => n.default_metric(network),
            CoreNode::AggregatedStorage(n) => n.default_metric(network),
            CoreNode::VirtualStorage(n) => n.default_metric(network),
        }
    }

    /// Whether `r` is the metric that stands for the node, or the failure to
    /// find the node in the network: the outflow of an input, a link and a
    /// catchment, the inflow of an output, the volume of a storage, of an
    /// aggregated storage node and of a virtual storage, the outflow of the net
    /// flow of a water treatment works, and the outflow of an aggregated node.
    pub open spec fn stands_for(&self, network: Network, r: Result<Metric, PywrError>) -> bool {
        let label: Label = (self.meta_of().name@, None);
        let at = crate::network::first_label(network.node_labels(), label);
        let missing = Err::<Metric, ErrorView>(
            ErrorView::NotFound(EntityKind::Node, self.meta_of().name@),
        );
        match self {
            CoreNode::Input(_) => outcome(r) == match at {
                Some(i) => Ok(Metric::NodeOutFlow(NodeIndex(i as usize))),
                None => missing,
            },
            CoreNode::Link(_) => outcome(r) == match at {
                Some(i) => Ok(Metric::NodeOutFlow(NodeIndex(i as usize))),
                None => missing,
            },
            CoreNode::Catchment(_) => outcome(r) == match at {
                Some(i) => Ok(Metric::NodeOutFlow(NodeIndex(i as usize))),
                None => missing,
            },
            CoreNode::Output(_) => outcome(r) == match at {
                Some(i) => Ok(Metric::NodeInFlow(NodeIndex(i as usize))),
                None => missing,
            },
            CoreNode::Storage(_) => outcome(r) == match at {
                Some(i) => Ok(Metric::NodeVolume(NodeIndex(i as usize))),
                None => missing,
            },
            CoreNode::WaterTreatmentWorks(n) => match r {
                Ok(metric) => exists|i: int|
                    #[trigger] network.first_labelled(i, n.part("net")) && metric
                        == Metric::NodeOutFlow(NodeIndex(i as usize)),
                Err(e) => e@ == ErrorView::NotFound(EntityKind::Node, n.meta.name@)
                    && forall|i: int| !network.first_labelled(i, n.part("net")),
            },
            CoreNode::Aggregated(n) => match r {
                Ok(metric) => exists|i: int|
                    #[trigger] network.first_aggregated(i, label) && metric
                        == Metric::AggregatedNodeOutFlow(
                        crate::aggregated_node::AggregatedNodeIndex(i as usize),
                    ),
                Err(e) => e@ == ErrorView::NotFound(EntityKind::AggregatedNode, n.meta.name@)
                    && !n.name_taken(network),
            },
            CoreNode::AggregatedStorage(n) => match r {
                Ok(metric) => exists|i: int|
                    0 <= i < network.aggregated_storage_nodes.len() && metric
                        == Metric::AggregatedNodeVolume(
                        crate::aggregated_storage_node::AggregatedStorageNodeIndex(i as usize),
                    ) && (#[trigger] network.aggregated_storage_nodes[i]).label() == label,
                Err(e) => e@ == ErrorView::NotFound(
                    EntityKind::AggregatedStorageNode,
                    n.meta.name@,
                ) && !n.name_taken(network),
            },
            CoreNode::VirtualStorage(n) => match r {
                Ok(metric) => exists|i: int|
                    0 <= i < network.virtual_storage_nodes.len() && metric
                        == Metric::VirtualStorageVolume(
                        crate::virtual_storage::VirtualStorageIndex(i as usize),
                    ) && (#[trigger] network.virtual_storage_nodes[i]).label() == label
                        && forall|j: int|
                        0 <= j < i ==> (#[trigger] network.virtual_storage_nodes[j]).label()
                            != label,
                Err(e) => e@ == ErrorView::NotFound(EntityKind::VirtualStorage, n.meta.name@)
                    && !n.name_taken(network),
            },
        }
    }
}

/// Connectors, by the characters of name and sub-name.
pub open spec fn connector_labels(connectors: Seq<(&str, Option<String>)>) -> Seq<Label> {
    Seq::new(
        connectors.len(),
        |i: int|
            (
                connectors[i].0@,
                match connectors[i].1 {
                    Some(s) => Some(s@),
                    None => None,
                },
            ),
    )
}

impl Node {
    pub fn name(&self) -> (r: &str)
        ensures
            r@ == match self {
                Node::Core(n) => n.meta_of().name@,
                Node::Custom(n) => n.meta.name@,
            },
    {
        match self {
            Node::Core(n) => n.name(),
            Node::Custom(n) => n.meta.name.as_str(),
        }
    }

    pub fn position(&self) -> (r: Option<&NodePosition>)
        ensures
            r.is_some() == match self {
                Node::Core(n) => n.meta_of().position.is_some(),
                Node::Custom(n) => n.meta.position.is_some(),
            },
            r.is_some() ==> *r.unwrap() == match self {
                Node::Core(n) => n.meta_of().position.unwrap(),
                Node::Custom(n) => n.meta.position.unwrap(),
            },
    {
        match self {
            Node::Core(n) => n.position(),
            Node::Custom(n) => n.meta.position.as_ref(),
        }
    }

    pub fn node_type(&self) -> (r: &str)
        ensures
            r@ == match self {
                Node::Core(n) => n.kind_name(),
                Node::Custom(n) => n.ty@,
            },
    {
        match self {
            Node::Core(n) => n.node_type(),
            Node::Custom(n) => n.ty.as_str(),
        }
    }

    /// The amounts of the definition that are there; none for a node of a type
    /// that this library does not know.
    pub fn parameters(&self) -> (r: Vec<(&'static str, &DynamicFloatValue)>)
        ensures
            named_values(r@) == match self {
                Node::Core(n) => present(n.attributes()),
                Node::Custom(_) => Seq::empty(),
            },
    {
        match self {
            Node::Core(n) => n.parameters(),
            Node::Custom(_) => {
                let out: Vec<(&'static str, &DynamicFloatValue)> = Vec::new();
                assert(named_values(out@) =~= Seq::empty());
                out
            },
        }
    }

    /// Adds the node to a network. Only a node of a type that this library
    /// knows can be added.
    pub fn add_to_model(&self, network: &mut Network, tables: &LoadedTableCollection) -> (r: Result<
        (),
        PywrError,
    >)
        requires
            self is Core,
        ensures
            self->Core_0.added(*old(network), *final(network), *tables, r),
            old(network).wf() ==> final(network).wf(),
    {
        match self {
            Node::Core(n) => n.add_to_model(network, tables),
            Node::Custom(_) => Ok(()),
        }
    }

    /// Sets the costs and bounds that the definition gives. Only a node of a
    /// type that this library knows has any.
    pub fn set_constraints(&self, network: &mut Network, tables: &LoadedTableCollection) -> (r:
        Result<(), PywrError>)
        requires
            self is Core,
        ensures
            self->Core_0.settled(*old(network), *final(network), *tables, r),
            old(network).wf() ==> final(network).wf(),
    {
        match self {
            Node::Core(n) => n.set_constraints(network, tables),
            Node::Custom(_) => Ok(()),
        }
    }

    pub fn input_connectors(&self) -> (r: Vec<(&str, Option<String>)>)
        requires
            self is Core,
        ensures
            connector_labels(r@) == self->Core_0.inputs(),
    {
        match self {
            Node::Core(n) => n.input_connectors(),
            Node::Custom(_) => Vec::new(),
        }
    }

    pub fn output_connectors(&self, slot: Option<&str>) -> (r: Vec<(&str, Option<String>)>)
        requires
            self is Core,
        ensures
            connector_labels(r@) == self->Core_0.outputs(),
    {
        match self {
            Node::Core(n) => n.output_connectors(slot),
            Node::Custom(_) => Vec::new(),
        }
    }

    /// The metric that stands for the node.
    pub fn default_metric(&self, network: &Network) -> (r: Result<Metric, PywrError>)
        requires
            self is Core,
        ensures
            self->Core_0.stands_for(*network, r),
    {
        match self {
            Node::Core(n) => n.default_metric(network),
            Node::Custom(n) => Err(PywrError::NotFound(EntityKind::Node, n.meta.name.clone())),
        }
    }
}

} // verus!
