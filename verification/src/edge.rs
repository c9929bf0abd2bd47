//! Edges: the directed links that carry flow from one node to another.

use vstd::prelude::*;
use crate::node::NodeIndex;

verus! {

/// The handle of an edge.
#[derive(Clone, Copy, Debug, PartialEq, Eq, Structural)]
pub struct EdgeIndex(pub usize);

impl EdgeIndex {
    pub fn new(idx: usize) -> (r: Self)
        ensures
            r.0 == idx,
    {
        Self(idx)
    }
}

/// A directed link between two different nodes.
#[derive(Clone, Copy, Debug, PartialEq, Eq, Structural)]
pub struct Edge {
    pub from_node: NodeIndex,
    pub to_node: NodeIndex,
}

} // verus!
