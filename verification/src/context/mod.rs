//! Keeping a conversation inside the model's context window.

pub mod blocks;
pub mod cache;
pub mod config;
pub mod enforce;
pub mod laws;
pub mod prune;
pub mod retain;
pub mod semantic;
pub mod tokens;
pub mod window;
