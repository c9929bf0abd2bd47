//! What is handed to a solver of linear programs, and how a solver is set up.

pub mod bounds;
pub mod builder;
pub mod clp;
pub mod feasibility;
pub mod soundness;

pub use clp::{ClpSolverSettings, ClpSolverSettingsBuilder};

use vstd::prelude::*;

verus! {

/// How a solver is run.
pub trait SolverSettings {
    /// What `parallel` gives.
    spec fn runs_parallel(&self) -> bool;

    /// What `threads` gives.
    spec fn thread_count(&self) -> usize;

    /// Whether scenarios are solved side by side.
    fn parallel(&self) -> (r: bool)
        ensures
            r == self.runs_parallel(),
    ;

    /// The number of threads to use; zero leaves the choice to the solver.
    fn threads(&self) -> (r: usize)
        ensures
            r == self.thread_count(),
    ;
}

} // verus!
