//! The scenarios that a run simulates side by side.

use vstd::prelude::*;

verus! {

/// One point of the product of the scenario groups.
#[derive(Clone, Debug, PartialEq, Eq)]
pub struct ScenarioIndex {
    /// The position of this combination among all combinations.
    pub index: usize,
    /// The position within each scenario group.
    pub indices: Vec<usize>,
}

impl ScenarioIndex {
    pub fn new(index: usize, indices: Vec<usize>) -> (r: Self)
        ensures
            r.index == index,
            r.indices == indices,
    {
        Self { index, indices }
    }
}

} // verus!
