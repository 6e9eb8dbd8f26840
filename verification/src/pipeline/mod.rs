//! Running one tool invocation with a time budget, cancellation and
//! progress reports.

pub mod laws;
pub mod machine;
pub mod status;
