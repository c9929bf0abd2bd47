//! Virtual storages: accounts that are drawn down by the flows of real nodes.

use vstd::prelude::*;
use crate::node::{label_of, ConstraintValue, Label, NodeIndex, StorageInitialVolume};
use crate::timestep::Timestep;
use crate::value::Value;

verus! {

/// The handle of a virtual storage.
#[derive(Clone, Copy, Debug, PartialEq, Eq, Structural)]
pub struct VirtualStorageIndex(pub usize);

impl VirtualStorageIndex {
    pub fn new(idx: usize) -> (r: Self)
        ensures
            r.0 == idx,
    {
        Self(idx)
    }
}

/// When the volume of a virtual storage goes back to its initial volume.
#[derive(Clone, Copy, Debug, PartialEq, Eq, Structural)]
pub enum VirtualStorageReset {
    Never,
    /// Every `length` steps, first at the step numbered `offset`.
    Periodic { length: usize, offset: usize },
    /// Each year on this day of this month.
    Annual { month: u8, day: u8 },
    /// Each month on this day.
    Monthly { day: u8 },
}

impl VirtualStorageReset {
    /// Whether the volume is reset at the start of a step.
    pub open spec fn triggers(&self, timestep: Timestep) -> bool {
        match self {
            VirtualStorageReset::Never => false,
            VirtualStorageReset::Periodic { length, offset } => {
                &&& *length > 0
                &&& timestep.index >= *offset
                &&& (timestep.index - *offset) % (*length as int) == 0
            },
            VirtualStorageReset::Annual { month, day } => {
                timestep.date.month == *month && timestep.date.day == *day
            },
            VirtualStorageReset::Monthly { day } => timestep.date.day == *day,
        }
    }

    /// Whether the volume is reset at the start of `timestep`.
    pub fn is_due(&self, timestep: &Timestep) -> (r: bool)
        ensures
            r == self.triggers(*timestep),
    {
        match self {
            VirtualStorageReset::Never => false,
            VirtualStorageReset::Periodic { length, offset } => {
                *length > 0 && timestep.index >= *offset && (timestep.index - *offset) % *length
                    == 0
            },
            VirtualStorageReset::Annual { month, day } => {
                timestep.date.month == *month && timestep.date.day == *day
            },
            VirtualStorageReset::Monthly { day } => timestep.date.day == *day,
        }
    }
}

/// An account that the flows of its nodes draw down.
#[derive(Clone, Debug, PartialEq, Eq)]
pub struct VirtualStorage {
    pub name: String,
    pub sub_name: Option<String>,
    pub nodes: Vec<NodeIndex>,
    /// One factor per node; without factors each flow counts once.
    pub factors: Option<Vec<Value>>,
    pub initial_volume: StorageInitialVolume,
    pub min_volume: ConstraintValue,
    pub max_volume: ConstraintValue,
    pub reset: VirtualStorageReset,
    pub cost: ConstraintValue,
}

impl VirtualStorage {
    /// The label of the virtual storage.
    pub open spec fn label(&self) -> Label {
        label_of(self.name, self.sub_name)
    }

    /// Whether every node is one of `node_count` nodes and has its factor.
    pub open spec fn wf(&self, node_count: nat) -> bool {
        &&& forall|k: int| 0 <= k < self.nodes.len() ==> (#[trigger] self.nodes[k]).0 < node_count
        &&& self.factors.is_some() ==> self.factors.unwrap().len() == self.nodes.len()
    }

    /// The factor of the node at `position`: its own, or one.
    pub open spec fn factor_at(&self, position: int) -> int {
        match self.factors {
            Some(f) => f[position] as int,
            None => crate::value::UNIT as int,
        }
    }
}

} // verus!
