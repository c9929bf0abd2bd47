//! Aggregated nodes: sets of nodes whose flows are bounded or tied together.

use vstd::prelude::*;
use crate::metric::Metric;
use crate::node::{label_of, ConstraintValue, Label, NodeIndex};

verus! {

/// The handle of an aggregated node.
#[derive(Clone, Copy, Debug, PartialEq, Eq, Structural)]
pub struct AggregatedNodeIndex(pub usize);

impl AggregatedNodeIndex {
    pub fn new(idx: usize) -> (r: Self)
        ensures
            r.0 == idx,
    {
        Self(idx)
    }
}

/// How the flows of the members relate to each other, one factor per member.
#[derive(Clone, Debug, PartialEq, Eq)]
pub enum Factors {
    /// Each member's share of the total flow; the shares add up to one.
    Proportion(Vec<Metric>),
    /// The flows stand to each other as the factors do.
    Ratio(Vec<Metric>),
}

impl Factors {
    /// The factors, whichever way they are read.
    pub open spec fn metrics(&self) -> Seq<Metric> {
        match self {
            Factors::Proportion(f) => f@,
            Factors::Ratio(f) => f@,
        }
    }

    /// The number of factors.
    pub fn len(&self) -> (r: usize)
        ensures
            r == self.metrics().len(),
    {
        match self {
            Factors::Proportion(f) => f.len(),
            Factors::Ratio(f) => f.len(),
        }
    }
}

/// A named set of nodes.
#[derive(Clone, Debug, PartialEq, Eq)]
pub struct AggregatedNode {
    pub name: String,
    pub sub_name: Option<String>,
    pub nodes: Vec<NodeIndex>,
    pub min_flow: ConstraintValue,
    pub max_flow: ConstraintValue,
    pub factors: Option<Factors>,
}

impl AggregatedNode {
    /// The label of the aggregated node.
    pub open spec fn label(&self) -> Label {
        label_of(self.name, self.sub_name)
    }

    /// Whether every member is one of `node_count` nodes and has its factor.
    pub open spec fn wf(&self, node_count: nat) -> bool {
        &&& forall|k: int| 0 <= k < self.nodes.len() ==> (#[trigger] self.nodes[k]).0 < node_count
        &&& self.factors.is_some() ==> self.factors.unwrap().metrics().len() == self.nodes.len()
    }

    /// The members.
    pub fn get_nodes(&self) -> (r: &Vec<NodeIndex>)
        ensures
            *r == self.nodes,
    {
        &self.nodes
    }
}

} // verus!
