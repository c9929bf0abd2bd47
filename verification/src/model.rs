//! A model: a network with what is to be written about its runs.

use vstd::prelude::*;
use crate::error::{outcome, ErrorView, PywrError};
use crate::metric::Metric;
use crate::network::Network;

verus! {

/// The file formats in which a recorder writes.
#[derive(Clone, Copy, Debug, PartialEq, Eq, Structural)]
pub enum RecorderFormat {
    Csv,
    Hdf5,
}

/// What a recorder writes at each step: the values of its metrics, into its
/// file. Writing is done outside this library.
#[derive(Clone, Debug, PartialEq, Eq)]
pub struct Recorder {
    pub name: String,
    pub format: RecorderFormat,
    pub filename: String,
    pub metrics: Vec<Metric>,
}

/// A network with its recorders.
pub struct Model {
    pub network: Network,
    pub recorders: Vec<Recorder>,
}

impl Model {
    /// The names of the recorders.
    pub open spec fn recorder_names(&self) -> Seq<Seq<char>> {
        Seq::new(self.recorders.len() as nat, |i: int| self.recorders[i].name@)
    }

    /// A model of a network, without recorders.
    pub fn new(network: Network) -> (r: Self)
        ensures
            r.network == network,
            r.recorders.len() == 0,
    {
        Model { network, recorders: Vec::new() }
    }

    /// Adds a recorder after those that are there and gives its position. A
    /// name that another recorder has fails with `DuplicateName` and leaves the
    /// model as it is.
    pub fn add_recorder(&mut self, recorder: Recorder) -> (r: Result<usize, PywrError>)
        ensures
            final(self).network == old(self).network,
            old(self).recorder_names().contains(recorder.name@) ==> outcome(r) == Err::<
                usize,
                ErrorView,
            >(ErrorView::DuplicateName) && final(self).recorders@ == old(self).recorders@,
            !old(self).recorder_names().contains(recorder.name@) ==> r == Ok::<usize, PywrError>(
                old(self).recorders.len(),
            ) && final(self).recorders@ == old(self).recorders@.push(recorder),
    {
        let mut i: usize = 0;
        while i < self.recorders.len()
            invariant
                i <= self.recorders.len(),
                *self == *old(self),
                forall|j: int| 0 <= j < i
                    ==> (#[trigger] self.recorders[j]).name@ != recorder.name@,
            decreases self.recorders.len() - i,
        {
            if self.recorders[i].name == recorder.name {
                assert(self.recorder_names()[i as int] == recorder.name@);
                return Err(PywrError::DuplicateName);
            }
            i += 1;
        }
        proof {
            let names = self.recorder_names();
            assert forall|k: int| 0 <= k < names.len() implies names[k] != recorder.name@ by {
                assert(self.recorders[k].name@ != recorder.name@);
            }
        }
        let idx = self.recorders.len();
        self.recorders.push(recorder);
        Ok(idx)
    }
}

} // verus!
