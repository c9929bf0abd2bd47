//! Definitions of networks as they are written down, and how each is built
//! into a network.

pub mod data_tables;
pub mod model;
pub mod nodes;
pub mod outputs;
pub mod parameters;
pub mod timeseries;

