//! Provider-independent conversation types.

pub mod cache;
pub mod types;
