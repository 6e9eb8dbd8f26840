//! Counters kept while the agent runs.

pub mod sdk_metrics;
