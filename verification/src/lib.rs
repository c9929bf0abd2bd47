//! A water-resource simulation kernel: a network of nodes and edges, values that
//! depend on its state, and the bookkeeping that carries flows and volumes from
//! one time step to the next.
//!
//! Every amount (a flow, a volume, a cost, a factor) is a fixed-point number: an
//! `i64` that counts billionths. Arithmetic is exact where the result can be
//! held and is kept at the nearest end of the range where it cannot.

pub mod aggregated_node;
pub mod aggregated_storage_node;
pub mod determinism;
pub mod edge;
pub mod error;
pub mod laws;
pub mod metric;
pub mod evaluation;
pub mod model;
pub mod network;
pub mod node;
pub mod order;
pub mod parameters;
pub mod run;
pub mod scenario;
pub mod solvers;
pub mod schema;
pub mod state;
pub mod timestep;
pub mod value;
pub mod virtual_storage;

