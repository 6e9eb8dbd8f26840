//! Settings of the agent and their defaults.

pub mod bootstrap;
pub mod root;
pub mod telemetry;
