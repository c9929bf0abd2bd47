//! Aggregated storage nodes: sets of storages that are read as one.

use vstd::prelude::*;
use crate::node::{label_of, Label, NodeIndex};

verus! {

/// The handle of an aggregated storage node.
#[derive(Clone, Copy, Debug, PartialEq, Eq, Structural)]
pub struct AggregatedStorageNodeIndex(pub usize);

impl AggregatedStorageNodeIndex {
    pub fn new(idx: usize) -> (r: Self)
        ensures
            r.0 == idx,
    {
        Self(idx)
    }
}

/// A named set of storages. Its volume is the sum of theirs.
#[derive(Clone, Debug, PartialEq, Eq)]
pub struct AggregatedStorageNode {
    pub name: String,
    pub sub_name: Option<String>,
    pub nodes: Vec<NodeIndex>,
}

impl AggregatedStorageNode {
    /// The label of the aggregated storage node.
    pub open spec fn label(&self) -> Label {
        label_of(self.name, self.sub_name)
    }
}

} // verus!
