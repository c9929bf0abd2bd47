//! Settings of the Clp solver and their builder.

use vstd::prelude::*;
use crate::solvers::SolverSettings;

verus! {

/// Settings for the Clp solver.
///
/// Make them with a [`ClpSolverSettingsBuilder`], or take the default.
#[derive(PartialEq, Eq, Debug, Copy, Clone)]
pub struct ClpSolverSettings {
    pub parallel: bool,
    pub threads: usize,
}

impl Default for ClpSolverSettings {
    /// What the builder makes when nothing is set: one scenario at a time, and
    /// the number of threads left to the solver.
    fn default() -> (r: Self)
        ensures
            r == (ClpSolverSettings { parallel: false, threads: 0 }),
    {
        ClpSolverSettings { parallel: false, threads: 0 }
    }
}

impl SolverSettings for ClpSolverSettings {
    open spec fn runs_parallel(&self) -> bool {
        self.parallel
    }

    open spec fn thread_count(&self) -> usize {
        self.threads
    }

    fn parallel(&self) -> (r: bool) {
        self.parallel
    }

    fn threads(&self) -> (r: usize) {
        self.threads
    }
}

impl ClpSolverSettings {
    /// A builder with nothing set.
    pub fn builder() -> (r: ClpSolverSettingsBuilder)
        ensures
            r == (ClpSolverSettingsBuilder { parallel: false, threads: 0 }),
    {
        ClpSolverSettingsBuilder { parallel: false, threads: 0 }
    }
}

/// Builder for [`ClpSolverSettings`].
///
/// # Examples
///
/// ```
/// use pywr_core::solvers::ClpSolverSettingsBuilder;
/// // Settings with parallel enabled and 4 threads.
/// let settings = ClpSolverSettingsBuilder::default().parallel().threads(4).build();
///
/// let mut builder = ClpSolverSettingsBuilder::default();
/// builder.threads(2);
/// let settings = builder.build();
///
/// builder.parallel();
/// let settings = builder.build();
/// ```
#[derive(PartialEq, Eq, Debug, Copy, Clone)]
pub struct ClpSolverSettingsBuilder {
    pub parallel: bool,
    pub threads: usize,
}

impl Default for ClpSolverSettingsBuilder {
    fn default() -> (r: Self)
        ensures
            r == (ClpSolverSettingsBuilder { parallel: false, threads: 0 }),
    {
        Self { parallel: false, threads: 0 }
    }
}

impl ClpSolverSettingsBuilder {
    /// Asks for scenarios to be solved side by side.
    pub fn parallel(&mut self) -> (r: &mut Self)
        ensures
            *final(self) == *final(r),
            *r == (ClpSolverSettingsBuilder { parallel: true, threads: old(self).threads }),
    {
        self.parallel = true;
        self
    }

    /// Sets the number of threads; zero leaves the choice to the solver.
    pub fn threads(&mut self, threads: usize) -> (r: &mut Self)
        ensures
            *final(self) == *final(r),
            *r == (ClpSolverSettingsBuilder { parallel: old(self).parallel, threads }),
    {
        self.threads = threads;
        self
    }

    /// The settings that the builder holds.
    pub fn build(&self) -> (r: ClpSolverSettings)
        ensures
            r == (ClpSolverSettings { parallel: self.parallel, threads: self.threads }),
    {
        ClpSolverSettings { parallel: self.parallel, threads: self.threads }
    }
}

} // verus!
