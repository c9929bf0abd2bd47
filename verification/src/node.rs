//! Nodes: the places where water enters, leaves, passes through or is stored.

use vstd::prelude::*;
use crate::metric::Metric;
use crate::value::Value;

verus! {

/// The handle of a node.
#[derive(Clone, Copy, Debug, PartialEq, Eq, Structural)]
pub struct NodeIndex(pub usize);

impl NodeIndex {
    pub fn new(idx: usize) -> (r: Self)
        ensures
            r.0 == idx,
    {
        Self(idx)
    }
}

/// What a node does with water.
#[derive(Clone, Copy, Debug, PartialEq, Eq, Structural)]
pub enum NodeKind {
    /// Water enters the network here.
    Input,
    /// Water leaves the network here.
    Output,
    /// Water passes through.
    Link,
    /// Water is kept from one step to the next.
    Storage,
}

/// A bound or a cost: absent, fixed, or read from the state at each step.
#[derive(Clone, Debug, PartialEq, Eq)]
pub enum ConstraintValue {
    Unbounded,
    Scalar(Value),
    Metric(Metric),
}

/// The volume that a storage starts a run with.
#[derive(Clone, Copy, Debug, PartialEq, Eq, Structural)]
pub enum StorageInitialVolume {
    /// A volume.
    Absolute(Value),
    /// A share of the maximum volume at the start of the run.
    Proportional(Value),
}

/// A node of the network.
#[derive(Clone, Debug, PartialEq, Eq)]
pub struct Node {
    pub name: String,
    pub sub_name: Option<String>,
    pub kind: NodeKind,
    pub min_flow: ConstraintValue,
    pub max_flow: ConstraintValue,
    pub cost: ConstraintValue,
    pub min_volume: ConstraintValue,
    pub max_volume: ConstraintValue,
    /// Present exactly on a storage.
    pub initial_volume: Option<StorageInitialVolume>,
}

/// A name with its optional sub-name, as characters.
pub type Label = (Seq<char>, Option<Seq<char>>);

/// The label that a name and a sub-name make.
pub open spec fn label_of(name: String, sub_name: Option<String>) -> Label {
    (
        name@,
        match sub_name {
            Some(s) => Some(s@),
            None => None,
        },
    )
}

/// The label that a borrowed name and sub-name make.
pub open spec fn label_of_str(name: &str, sub_name: Option<&str>) -> Label {
    (
        name@,
        match sub_name {
            Some(s) => Some(s@),
            None => None,
        },
    )
}

/// Whether a stored name and sub-name are the given ones.
pub fn label_matches(name: &String, sub_name: &Option<String>, key: &String, sub_key: &Option<
    String,
>) -> (r: bool)
    ensures
        r == (label_of(*name, *sub_name) == label_of(*key, *sub_key)),
{
    if *name == *key {
        match (sub_name, sub_key) {
            (None, None) => true,
            (Some(a), Some(b)) => *a == *b,
            _ => false,
        }
    } else {
        false
    }
}

/// An owned copy of an optional borrowed string.
pub fn own_sub_name(sub_name: Option<&str>) -> (r: Option<String>)
    ensures
        r.is_some() == sub_name.is_some(),
        r.is_some() ==> r.unwrap()@ == sub_name.unwrap()@,
{
    match sub_name {
        Some(s) => Some(s.to_string()),
        None => None,
    }
}

impl Node {
    /// The label of the node.
    pub open spec fn label(&self) -> Label {
        label_of(self.name, self.sub_name)
    }

    /// Whether the node carries what its kind asks for.
    pub open spec fn wf(&self) -> bool {
        (self.kind == NodeKind::Storage) == self.initial_volume.is_some()
    }

    /// A node that stores nothing, without bounds or cost.
    pub(crate) fn new_flow(name: &str, sub_name: Option<&str>, kind: NodeKind) -> (r: Self)
        requires
            kind != NodeKind::Storage,
        ensures
            r.label() == label_of_str(name, sub_name),
            r.kind == kind,
            r.min_flow == ConstraintValue::Unbounded,
            r.max_flow == ConstraintValue::Unbounded,
            r.cost == ConstraintValue::Unbounded,
            r.min_volume == ConstraintValue::Unbounded,
            r.max_volume == ConstraintValue::Unbounded,
            r.initial_volume.is_none(),
            r.wf(),
    {
        Node {
            name: name.to_string(),
            sub_name: own_sub_name(sub_name),
            kind,
            min_flow: ConstraintValue::Unbounded,
            max_flow: ConstraintValue::Unbounded,
            cost: ConstraintValue::Unbounded,
            min_volume: ConstraintValue::Unbounded,
            max_volume: ConstraintValue::Unbounded,
            initial_volume: None,
        }
    }

    /// A storage with its volumes, without bounds on its flow or cost.
    pub fn new_storage(
        name: &str,
        sub_name: Option<&str>,
        initial_volume: StorageInitialVolume,
        min_volume: ConstraintValue,
        max_volume: ConstraintValue,
    ) -> (r: Self)
        ensures
            r.label() == label_of_str(name, sub_name),
            r.kind == NodeKind::Storage,
            r.min_flow == ConstraintValue::Unbounded,
            r.max_flow == ConstraintValue::Unbounded,
            r.cost == ConstraintValue::Unbounded,
            r.min_volume == min_volume,
            r.max_volume == max_volume,
            r.initial_volume == Some(initial_volume),
            r.wf(),
    {
        Node {
            name: name.to_string(),
            sub_name: own_sub_name(sub_name),
            kind: NodeKind::Storage,
            min_flow: ConstraintValue::Unbounded,
            max_flow: ConstraintValue::Unbounded,
            cost: ConstraintValue::Unbounded,
            min_volume,
            max_volume,
            initial_volume: Some(initial_volume),
        }
    }
}

} // verus!
