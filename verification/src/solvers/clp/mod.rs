//! The settings of the Clp solver.

pub mod settings;

pub use settings::{ClpSolverSettings, ClpSolverSettingsBuilder};
