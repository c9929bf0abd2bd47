//! A water treatment works with losses and a soft minimum flow.

use vstd::prelude::*;
use crate::aggregated_node::Factors;
use crate::edge::Edge;
use crate::error::{outcome, EntityKind, ErrorView, PywrError};
use crate::metric::Metric;
use crate::network::Network;
use crate::node::{label_of_str, ConstraintValue, Label, Node, NodeIndex, NodeKind};
use crate::schema::data_tables::LoadedTableCollection;
use crate::schema::nodes::{
    attribute_outcome, attribute_put, lemma_attribute_stable, lemma_loaded_same, set_attribute, Attribute, NodeMeta,
};
use crate::schema::parameters::DynamicFloatValue;
use crate::value::{Value, UNIT};

verus! {

/// A water treatment works.
///
/// It is built of a link for the net flow, which splits into a link that takes
/// the flow up to the soft minimum and a link that takes the flow above it.
/// Where a loss factor is given, an output takes the loss and an aggregated
/// node ties the loss to the net flow: the loss stands to the net flow as the
/// loss factor to one, so that the gross flow is the net flow times one plus
/// the loss factor.
///
/// ```text
///                          <node>.net_soft_min_flow
///                           .--->L ---.
///            <node>.net    |           |     D
///          .------>L ------|           |--->*- - -
///      U  |                |           |
///     -*--|                 '--->L ---'
///         |                <node>.net_above_soft_min_flow
///          '------>O
///            <node>.loss
/// ```
#[derive(Clone, Debug, PartialEq, Eq)]
pub struct WaterTreatmentWorks {
    pub meta: NodeMeta,
    /// The share of the net flow that is lost.
    pub loss_factor: Option<DynamicFloatValue>,
    /// The least net flow.
    pub min_flow: Option<DynamicFloatValue>,
    /// The greatest net flow.
    pub max_flow: Option<DynamicFloatValue>,
    /// The greatest flow through the link for the soft minimum flow.
    pub soft_min_flow: Option<DynamicFloatValue>,
    /// The cost of flow through the link for the soft minimum flow.
    pub soft_min_flow_cost: Option<DynamicFloatValue>,
    /// The cost of the net flow.
    pub cost: Option<DynamicFloatValue>,
}

/// `num::Zero::is_zero` on an amount: whether it equals zero.
#[verifier::external_body]
fn is_zero(x: Value) -> (r: bool)
    ensures
        r == (x == 0),
{
    num::Zero::is_zero(&x)
}

/// The first failure of two steps.
pub open spec fn then(first: Result<(), ErrorView>, second: Result<(), ErrorView>) -> Result<
    (),
    ErrorView,
> {
    match first {
        Err(e) => Err(e),
        Ok(()) => second,
    }
}

/// Whether a node has this label and kind and neither bounds nor cost.
pub open spec fn plain_node(node: Node, label: Label, kind: NodeKind) -> bool {
    &&& node.label() == label
    &&& node.kind == kind
    &&& node.min_flow == ConstraintValue::Unbounded
    &&& node.max_flow == ConstraintValue::Unbounded
    &&& node.cost == ConstraintValue::Unbounded
}

impl WaterTreatmentWorks {
    fn loss_sub_name() -> (r: Option<&'static str>)
        ensures
            r == Some("loss"),
    {
        Some("loss")
    }

    fn net_sub_name() -> (r: Option<&'static str>)
        ensures
            r == Some("net"),
    {
        Some("net")
    }

    fn agg_sub_name() -> (r: Option<&'static str>)
        ensures
            r == Some("agg"),
    {
        Some("agg")
    }

    fn net_soft_min_flow_sub_name() -> (r: Option<&'static str>)
        ensures
            r == Some("net_soft_min_flow"),
    {
        Some("net_soft_min_flow")
    }

    fn net_above_soft_min_flow_sub_name() -> (r: Option<&'static str>)
        ensures
            r == Some("net_above_soft_min_flow"),
    {
        Some("net_above_soft_min_flow")
    }

    /// The label of one of the parts of the works.
    pub open spec fn part(&self, sub_name: &str) -> Label {
        (self.meta.name@, Some(sub_name@))
    }

    /// Whether the network holds a node with this label.
    pub open spec fn node_taken(network: Network, label: Label) -> bool {
        exists|j: int| 0 <= j < network.nodes.len()
            && (#[trigger] network.nodes[j]).label() == label
    }

    /// Whether one of the labels that the works needs is taken.
    pub open spec fn labels_taken(&self, network: Network) -> bool {
        ||| Self::node_taken(network, self.part("net"))
        ||| Self::node_taken(network, self.part("net_soft_min_flow"))
        ||| Self::node_taken(network, self.part("net_above_soft_min_flow"))
        ||| self.loss_factor.is_some() && Self::node_taken(network, self.part("loss"))
        ||| self.loss_factor.is_some() && exists|j: int|
            0 <= j < network.aggregated_nodes.len() && (
            #[trigger] network.aggregated_nodes[j]).label() == self.part("agg")
    }

    /// What building the works adds to a network: the three links, the edges
    /// from the net flow to the two others, and, with a loss factor, the output
    /// for the loss and the aggregated node of net flow and loss, still without
    /// factors.
    pub open spec fn added(&self, before: Network, after: Network) -> bool {
        let n = before.nodes.len() as int;
        let extra: int = if self.loss_factor.is_some() {
            4
        } else {
            3
        };
        &&& after.nodes.len() == n + extra
        &&& after.nodes@.take(n) == before.nodes@
        &&& plain_node(after.nodes[n], self.part("net"), NodeKind::Link)
        &&& plain_node(after.nodes[n + 1], self.part("net_soft_min_flow"), NodeKind::Link)
        &&& plain_node(after.nodes[n + 2], self.part("net_above_soft_min_flow"), NodeKind::Link)
        &&& after.edges@ == before.edges@.push(
            Edge { from_node: NodeIndex(n as usize), to_node: NodeIndex((n + 1) as usize) },
        ).push(Edge { from_node: NodeIndex(n as usize), to_node: NodeIndex((n + 2) as usize) })
        &&& after.aggregated_storage_nodes == before.aggregated_storage_nodes
        &&& after.virtual_storage_nodes == before.virtual_storage_nodes
        &&& after.parameters == before.parameters
        &&& after.index_parameters == before.index_parameters
        &&& after.multi_parameters == before.multi_parameters
        &&& if self.loss_factor.is_some() {
            let made = after.aggregated_nodes@.last();
            &&& plain_node(after.nodes[n + 3], self.part("loss"), NodeKind::Output)
            &&& after.aggregated_nodes.len() == before.aggregated_nodes.len() + 1
            &&& after.aggregated_nodes@.drop_last() == before.aggregated_nodes@
            &&& made.label() == self.part("agg")
            &&& made.nodes@ == seq![NodeIndex(n as usize), NodeIndex((n + 3) as usize)]
            &&& made.factors.is_none()
            &&& made.min_flow == ConstraintValue::Unbounded
            &&& made.max_flow == ConstraintValue::Unbounded
        } else {
            after.aggregated_nodes@ == before.aggregated_nodes@
        }
    }

    /// The metric of the loss factor, if the works has a loss factor and it is
    /// not the constant zero.
    pub open spec fn loss_metric(&self, network: Network, tables: LoadedTableCollection) -> Result<
        Option<Metric>,
        ErrorView,
    > {
        match self.loss_factor {
            None => Ok(None),
            Some(v) => match v.loaded(network, tables) {
                Err(e) => Err(e),
                Ok(Metric::Constant(f)) => if f == 0 {
                    Ok(None)
                } else {
                    Ok(Some(Metric::Constant(f)))
                },
                Ok(m) => Ok(Some(m)),
            },
        }
    }

    /// Whether the factors of the loss can be set: the loss factor must load,
    /// and unless it is the constant zero the aggregated node must be there with
    /// its two members.
    pub open spec fn loss_outcome(&self, network: Network, tables: LoadedTableCollection) -> Result<
        (),
        ErrorView,
    > {
        match self.loss_metric(network, tables) {
            Err(e) => Err(e),
            Ok(None) => Ok(()),
            Ok(Some(m)) => if forall|i: int| !network.first_aggregated(i, self.part("agg")) {
                Err(ErrorView::NotFound(EntityKind::AggregatedNode, self.meta.name@))
            } else if exists|i: int|
                network.first_aggregated(i, self.part("agg"))
                    && network.aggregated_nodes[i].nodes.len() != 2 {
                Err(ErrorView::FactorCountMismatch)
            } else {
                Ok(())
            },
        }
    }

    /// The first failure among the steps of setting the constraints, in the
    /// order: cost, greatest and least net flow, cost and greatest flow of the
    /// soft minimum, loss factor.
    pub open spec fn constraints_outcome(
        &self,
        network: Network,
        tables: LoadedTableCollection,
    ) -> Result<(), ErrorView> {
        let net = self.part("net");
        let soft = self.part("net_soft_min_flow");
        then(
            attribute_outcome(network, tables, self.cost, net, Attribute::Cost),
            then(
                attribute_outcome(network, tables, self.max_flow, net, Attribute::MaxFlow),
                then(
                    attribute_outcome(network, tables, self.min_flow, net, Attribute::MinFlow),
                    then(
                        attribute_outcome(
                            network,
                            tables,
                            self.soft_min_flow_cost,
                            soft,
                            Attribute::Cost,
                        ),
                        then(
                            attribute_outcome(
                                network,
                                tables,
                                self.soft_min_flow,
                                soft,
                                Attribute::MaxFlow,
                            ),
                            self.loss_outcome(network, tables),
                        ),
                    ),
                ),
            ),
        )
    }

    /// The link for the net flow with cost and bounds as the works gives them.
    pub open spec fn net_node(
        &self,
        network: Network,
        tables: LoadedTableCollection,
        node: Node,
    ) -> Node {
        attribute_put(
            network,
            tables,
            self.min_flow,
            Attribute::MinFlow,
            attribute_put(
                network,
                tables,
                self.max_flow,
                Attribute::MaxFlow,
                attribute_put(network, tables, self.cost, Attribute::Cost, node),
            ),
        )
    }

    /// The link for the soft minimum flow with cost and greatest flow as the
    /// works gives them.
    pub open spec fn soft_node(
        &self,
        network: Network,
        tables: LoadedTableCollection,
        node: Node,
    ) -> Node {
        attribute_put(
            network,
            tables,
            self.soft_min_flow,
            Attribute::MaxFlow,
            attribute_put(network, tables, self.soft_min_flow_cost, Attribute::Cost, node),
        )
    }

    /// What setting the constraints does where it succeeds: the link for the net
    /// flow and the link for the soft minimum flow get what the works gives
    /// them, and with a loss factor that is not the constant zero the aggregated
    /// node gets the ratio of one to the loss factor. All else stays.
    pub open spec fn constrained(
        &self,
        before: Network,
        after: Network,
        tables: LoadedTableCollection,
    ) -> bool {
        &&& after.nodes.len() == before.nodes.len()
        &&& forall|i: int|
            0 <= i < before.nodes.len() ==> #[trigger] after.nodes[i] == if before.first_labelled(
                i,
                self.part("net"),
            ) {
                self.net_node(before, tables, before.nodes[i])
            } else if before.first_labelled(i, self.part("net_soft_min_flow")) {
                self.soft_node(before, tables, before.nodes[i])
            } else {
                before.nodes[i]
            }
        &&& after.aggregated_nodes.len() == before.aggregated_nodes.len()
        &&& forall|a: int|
            0 <= a < before.aggregated_nodes.len() ==> match self.loss_metric(before, tables) {
                Ok(Some(m)) => if before.first_aggregated(a, self.part("agg")) {
                    let made = #[trigger] after.aggregated_nodes[a];
                    &&& made.factors matches Some(Factors::Ratio(f)) && f@ == seq![
                        Metric::Constant(UNIT),
                        m,
                    ]
                    &&& made.name == before.aggregated_nodes[a].name
                    &&& made.sub_name == before.aggregated_nodes[a].sub_name
                    &&& made.nodes == before.aggregated_nodes[a].nodes
                    &&& made.min_flow == before.aggregated_nodes[a].min_flow
                    &&& made.max_flow == before.aggregated_nodes[a].max_flow
                } else {
                    after.aggregated_nodes[a] == before.aggregated_nodes[a]
                },
                _ => after.aggregated_nodes[a] == before.aggregated_nodes[a],
            }
    }

    /// Sets the costs and bounds of the parts of the works, and the factors of
    /// the loss.
    ///
    /// It fails with the first failure of its steps, and what the steps before
    /// have set stays set.
    pub fn set_constraints(&self, network: &mut Network, tables: &LoadedTableCollection) -> (r:
        Result<(), PywrError>)
        ensures
            self.settled(*old(network), *final(network), *tables, r),
            old(network).wf() ==> final(network).wf(),
    {
        proof {
            reveal_strlit("net");
            reveal_strlit("net_soft_min_flow");
            assert("net"@.len() == 3);
            assert("net_soft_min_flow"@.len() == 17);
        }
        let name = self.meta.name.as_str();
        let ghost net = self.part("net");
        let ghost soft = self.part("net_soft_min_flow");
        let ghost start = *network;

        match set_attribute(network, tables, &self.cost, name, Self::net_sub_name(), Attribute::Cost) {
            Err(e) => {
                return Err(e);
            },
            Ok(()) => {},
        }
        let ghost one = *network;
        proof {
            lemma_attribute_stable(one, start, *tables, self.max_flow, net, Attribute::MaxFlow);
        }
        match set_attribute(
            network,
            tables,
            &self.max_flow,
            name,
            Self::net_sub_name(),
            Attribute::MaxFlow,
        ) {
            Err(e) => {
                return Err(e);
            },
            Ok(()) => {},
        }
        let ghost two = *network;
        proof {
            lemma_attribute_stable(two, start, *tables, self.min_flow, net, Attribute::MinFlow);
        }
        match set_attribute(
            network,
            tables,
            &self.min_flow,
            name,
            Self::net_sub_name(),
            Attribute::MinFlow,
        ) {
            Err(e) => {
                return Err(e);
            },
            Ok(()) => {},
        }
        let ghost three = *network;
        proof {
            lemma_attribute_stable(
                three,
                start,
                *tables,
                self.soft_min_flow_cost,
                soft,
                Attribute::Cost,
            );
        }
        match set_attribute(
            network,
            tables,
            &self.soft_min_flow_cost,
            name,
            Self::net_soft_min_flow_sub_name(),
            Attribute::Cost,
        ) {
            Err(e) => {
                return Err(e);
            },
            Ok(()) => {},
        }
        let ghost four = *network;
        proof {
            lemma_attribute_stable(
                four,
                start,
                *tables,
                self.soft_min_flow,
                soft,
                Attribute::MaxFlow,
            );
        }
        match set_attribute(
            network,
            tables,
            &self.soft_min_flow,
            name,
            Self::net_soft_min_flow_sub_name(),
            Attribute::MaxFlow,
        ) {
            Err(e) => {
                return Err(e);
            },
            Ok(()) => {},
        }
        let ghost five = *network;
        proof {
            lemma_attribute_stable(five, start, *tables, self.cost, net, Attribute::Cost);
            assert forall|i: int| 0 <= i < start.nodes.len() implies #[trigger] five.nodes[i]
                == if start.first_labelled(i, net) {
                self.net_node(start, *tables, start.nodes[i])
            } else if start.first_labelled(i, soft) {
                self.soft_node(start, *tables, start.nodes[i])
            } else {
                start.nodes[i]
            } by {
                assert(one.nodes[i] == one.nodes[i]);
                assert(two.nodes[i] == two.nodes[i]);
                assert(three.nodes[i] == three.nodes[i]);
                assert(four.nodes[i] == four.nodes[i]);
                if start.first_labelled(i, net) {
                    assert(!start.first_labelled(i, soft));
                }
            }
        }

        if let Some(loss_factor) = &self.loss_factor {
            let lf = match loss_factor.load(network, tables) {
                Err(e) => {
                    proof {
                        lemma_loaded_same(*loss_factor, five, start, *tables);
                    }
                    return Err(e);
                },
                Ok(Metric::Constant(f)) => {
                    if is_zero(f) {
                        None
                    } else {
                        Some(Metric::Constant(f))
                    }
                },
                Ok(m) => Some(m),
            };
            proof {
                lemma_loaded_same(*loss_factor, five, start, *tables);
                assert(self.loss_metric(start, *tables) == Ok::<Option<Metric>, ErrorView>(lf));
            }
            if let Some(lf) = lf {
                let mut ratio: Vec<Metric> = Vec::new();
                ratio.push(Metric::Constant(UNIT));
                ratio.push(lf);
                assert(ratio@ =~= seq![Metric::Constant(UNIT), lf]);
                let factors = Factors::Ratio(ratio);
                let ghost agg = self.part("agg");
                proof {
                    assert(five.aggregated_nodes == start.aggregated_nodes);
                    assert(factors.metrics().len() == 2);
                    assert(agg == label_of_str(name, Some("agg")));
                }
                let set = network.set_aggregated_node_factors(
                    name,
                    Self::agg_sub_name(),
                    Some(factors),
                );
                proof {
                    assert(five.aggregated_node_changed(network, set, agg, Some(factors)));
                    if forall|i: int| !start.first_aggregated(i, agg) {
                        assert forall|i: int| !five.first_aggregated(i, agg) by {
                            assert(!start.first_aggregated(i, agg));
                        }
                    } else {
                        let k = choose|k: int| start.first_aggregated(k, agg);
                        assert(five.first_aggregated(k, agg));
                        start.lemma_first_aggregated_once(k, agg);
                        if set.is_ok() {
                            assert forall|a: int|
                                0 <= a < start.aggregated_nodes.len() && !start.first_aggregated(
                                    a,
                                    agg,
                                ) implies network.aggregated_nodes[a]
                                == start.aggregated_nodes[a] by {
                                assert(a != k);
                            }
                        }
                    }
                }
                match set {
                    Err(e) => {
                        return Err(e);
                    },
                    Ok(()) => {},
                }
            }
        }
        Ok(())
    }

    /// What the works takes water from upstream with: the link for the net flow
    /// and, with a loss factor, the output for the loss.
    pub fn input_connectors(&self) -> (r: Vec<(&str, Option<String>)>)
        ensures
            r.len() == if self.loss_factor.is_some() {
                2int
            } else {
                1int
            },
            r[0].0@ == self.meta.name@ && r[0].1.is_some() && r[0].1.unwrap()@ == "net"@,
            self.loss_factor.is_some() ==> r[1].0@ == self.meta.name@ && r[1].1.is_some()
                && r[1].1.unwrap()@ == "loss"@,
    {
        let mut connectors: Vec<(&str, Option<String>)> = Vec::new();
        connectors.push((self.meta.name.as_str(), Some("net".to_string())));
        if self.loss_factor.is_some() {
            connectors.push((self.meta.name.as_str(), Some("loss".to_string())));
        }
        connectors
    }

    /// What the works hands water downstream with: the two links that the net
    /// flow splits into.
    pub fn output_connectors(&self) -> (r: Vec<(&str, Option<String>)>)
        ensures
            r.len() == 2,
            r[0].0@ == self.meta.name@ && r[0].1.is_some() && r[0].1.unwrap()@
                == "net_soft_min_flow"@,
            r[1].0@ == self.meta.name@ && r[1].1.is_some() && r[1].1.unwrap()@
                == "net_above_soft_min_flow"@,
    {
        let mut connectors: Vec<(&str, Option<String>)> = Vec::new();
        connectors.push((self.meta.name.as_str(), Some("net_soft_min_flow".to_string())));
        connectors.push((self.meta.name.as_str(), Some("net_above_soft_min_flow".to_string())));
        connectors
    }

    /// The metric that stands for the works: the outflow of the link for the net
    /// flow.
    pub fn default_metric(&self, network: &Network) -> (r: Result<Metric, PywrError>)
        ensures
            match r {
                Ok(metric) => exists|i: int|
                    #[trigger] network.first_labelled(i, self.part("net")) && metric
                        == Metric::NodeOutFlow(NodeIndex(i as usize)),
                Err(e) => e@ == ErrorView::NotFound(EntityKind::Node, self.meta.name@)
                    && forall|i: int| !network.first_labelled(i, self.part("net")),
            },
    {
        match network.get_node_index_by_name(self.meta.name.as_str(), Self::net_sub_name()) {
            Ok(idx) => {
                assert(network.first_labelled(idx.0 as int, self.part("net")));
                Ok(Metric::NodeOutFlow(idx))
            },
            Err(e) => Err(e),
        }
    }

    /// What building the works does to a network and when it fails.
    pub open spec fn built(
        &self,
        before: Network,
        after: Network,
        r: Result<(), PywrError>,
    ) -> bool {
        &&& outcome(r) == if self.labels_taken(before) {
            Err::<(), ErrorView>(ErrorView::DuplicateName)
        } else {
            Ok(())
        }
        &&& r.is_ok() ==> self.added(before, after)
    }

    /// What setting the constraints of the works does to a network and when it
    /// fails.
    pub open spec fn settled(
        &self,
        before: Network,
        after: Network,
        tables: LoadedTableCollection,
        r: Result<(), PywrError>,
    ) -> bool {
        &&& outcome(r) == self.constraints_outcome(before, tables)
        &&& r.is_ok() ==> self.constrained(before, after, tables)
        &&& after.edges == before.edges
        &&& after.aggregated_storage_nodes == before.aggregated_storage_nodes
        &&& after.virtual_storage_nodes == before.virtual_storage_nodes
        &&& after.parameters == before.parameters
        &&& after.index_parameters == before.index_parameters
        &&& after.multi_parameters == before.multi_parameters
    }

    /// Builds the works into a network.
    ///
    /// Fails with `DuplicateName` exactly where one of the labels that the works
    /// needs is taken.
    pub fn add_to_model(&self, network: &mut Network) -> (r: Result<(), PywrError>)
        ensures
            self.built(*old(network), *final(network), r),
            old(network).wf() ==> final(network).wf(),
    {
        proof {
            reveal_strlit("net");
            reveal_strlit("net_soft_min_flow");
            reveal_strlit("net_above_soft_min_flow");
            reveal_strlit("loss");
            reveal_strlit("agg");
            assert("net"@.len() == 3);
            assert("net_soft_min_flow"@.len() == 17);
            assert("net_above_soft_min_flow"@.len() == 23);
            assert("loss"@.len() == 4);
        }
        let name = self.meta.name.as_str();
        let ghost n = old(network).nodes.len() as int;
        let idx_net = match network.add_link_node(name, Self::net_sub_name()) {
            Err(e) => {
                return Err(e);
            },
            Ok(idx) => idx,
        };
        let ghost first = *network;
        assert(first.nodes@.drop_last() == old(network).nodes@);
        let idx_soft_min_flow = match network.add_link_node(
            name,
            Self::net_soft_min_flow_sub_name(),
        ) {
            Err(e) => {
                assert(first.nodes@.last().label() == self.part("net"));
                assert forall|j: int|
                    0 <= j < first.nodes.len() && (#[trigger] first.nodes[j]).label() == self.part(
                        "net_soft_min_flow",
                    ) implies Self::node_taken(*old(network), self.part("net_soft_min_flow")) by {
                    if j < n {
                        assert(first.nodes@.drop_last()[j] == first.nodes[j]);
                    } else {
                        assert(first.nodes[j] == first.nodes@.last());
                    }
                }
                return Err(e);
            },
            Ok(idx) => idx,
        };
        let ghost second = *network;
        assert(second.nodes@.drop_last() == first.nodes@);
        let idx_above_soft_min_flow = match network.add_link_node(
            name,
            Self::net_above_soft_min_flow_sub_name(),
        ) {
            Err(e) => {
                assert forall|j: int|
                    0 <= j < second.nodes.len() && (#[trigger] second.nodes[j]).label()
                        == self.part("net_above_soft_min_flow") implies Self::node_taken(
                    *old(network),
                    self.part("net_above_soft_min_flow"),
                ) by {
                    if j < n {
                        assert(second.nodes@.drop_last()[j] == second.nodes[j]);
                        assert(first.nodes@.drop_last()[j] == first.nodes[j]);
                    } else if j == n {
                        assert(second.nodes@.drop_last()[j] == second.nodes[j]);
                        assert(first.nodes[j] == first.nodes@.last());
                    } else {
                        assert(second.nodes[j] == second.nodes@.last());
                    }
                }
                return Err(e);
            },
            Ok(idx) => idx,
        };
        let ghost third = *network;
        proof {
            assert(third.nodes@.drop_last() == second.nodes@);
            assert(third.nodes[n] == first.nodes@.last()) by {
                assert(third.nodes@.drop_last()[n] == third.nodes[n]);
                assert(second.nodes@.drop_last()[n] == second.nodes[n]);
            }
            assert(third.nodes[n + 1] == second.nodes@.last()) by {
                assert(third.nodes@.drop_last()[n + 1] == third.nodes[n + 1]);
            }
            assert(third.nodes@.take(n) =~= old(network).nodes@) by {
                assert forall|j: int| 0 <= j < n
                    implies third.nodes[j] == old(network).nodes[j] by {
                    assert(third.nodes@.drop_last()[j] == third.nodes[j]);
                    assert(second.nodes@.drop_last()[j] == second.nodes[j]);
                    assert(first.nodes@.drop_last()[j] == first.nodes[j]);
                }
            }
            assert(!Self::node_taken(*old(network), self.part("net")));
            assert(!Self::node_taken(*old(network), self.part("net_soft_min_flow"))) by {
                if Self::node_taken(*old(network), self.part("net_soft_min_flow")) {
                    let j = choose|j: int|
                        0 <= j < old(network).nodes.len()
                            && (#[trigger] old(network).nodes[j]).label()
                            == self.part("net_soft_min_flow");
                    assert(first.nodes@.drop_last()[j] == first.nodes[j]);
                }
            }
            assert(!Self::node_taken(*old(network), self.part("net_above_soft_min_flow"))) by {
                if Self::node_taken(*old(network), self.part("net_above_soft_min_flow")) {
                    let j = choose|j: int|
                        0 <= j < old(network).nodes.len()
                            && (#[trigger] old(network).nodes[j]).label()
                            == self.part("net_above_soft_min_flow");
                    assert(first.nodes@.drop_last()[j] == first.nodes[j]);
                    assert(second.nodes@.drop_last()[j] == second.nodes[j]);
                }
            }
        }
        match network.connect(idx_net, idx_soft_min_flow) {
            Err(e) => {
                return Err(e);
            },
            Ok(_) => {},
        }
        match network.connect(idx_net, idx_above_soft_min_flow) {
            Err(e) => {
                return Err(e);
            },
            Ok(_) => {},
        }
        let ghost linked = *network;
        if self.loss_factor.is_some() {
            let idx_loss = match network.add_output_node(name, Self::loss_sub_name()) {
                Err(e) => {
                    assert forall|j: int|
                        0 <= j < linked.nodes.len() && (#[trigger] linked.nodes[j]).label()
                            == self.part("loss") implies Self::node_taken(
                        *old(network),
                        self.part("loss"),
                    ) by {
                        if j < n {
                            assert(third.nodes@.take(n)[j] == third.nodes[j]);
                        } else if j == n {
                            assert(third.nodes[j].label() == self.part("net"));
                        } else if j == n + 1 {
                            assert(third.nodes[j].label() == self.part("net_soft_min_flow"));
                        } else {
                            assert(third.nodes[j] == third.nodes@.last());
                        }
                    }
                    return Err(e);
                },
                Ok(idx) => idx,
            };
            let ghost fourth = *network;
            proof {
                assert(fourth.nodes@.drop_last() == third.nodes@);
                assert(!Self::node_taken(*old(network), self.part("loss"))) by {
                    if Self::node_taken(*old(network), self.part("loss")) {
                        let j = choose|j: int|
                            0 <= j < old(network).nodes.len()
                                && (#[trigger] old(network).nodes[j]).label() == self.part("loss");
                        assert(third.nodes@.take(n)[j] == third.nodes[j]);
                    }
                }
                assert forall|j: int| 0 <= j < n + 3 implies fourth.nodes[j] == third.nodes[j] by {
                    assert(fourth.nodes@.drop_last()[j] == fourth.nodes[j]);
                }
                assert(fourth.nodes@.take(n) =~= old(network).nodes@);
            }
            let mut members: Vec<NodeIndex> = Vec::new();
            members.push(idx_net);
            members.push(idx_loss);
            proof {
                assert(members@ =~= seq![NodeIndex(n as usize), NodeIndex((n + 3) as usize)]);
                assert(members@.drop_last().drop_last() =~= Seq::<NodeIndex>::empty());
                assert(network.first_unknown(members@.drop_last().drop_last()).is_none());
                assert(network.first_unknown(members@.drop_last()).is_none());
                assert(network.first_unknown(members@).is_none());
            }
            match network.add_aggregated_node(name, Self::agg_sub_name(), members.as_slice(), None) {
                Err(e) => {
                    return Err(e);
                },
                Ok(_) => {},
            }
        }
        Ok(())
    }
}

} // verus!
