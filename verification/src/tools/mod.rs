//! What the tool registry reports about its work.

pub mod telemetry;
