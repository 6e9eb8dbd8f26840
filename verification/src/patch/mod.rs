//! Patches: a batch of file additions, deletions and updates that is
//! applied to a workspace as a whole or not at all.

pub mod atomic;
pub mod chunks;
pub mod disk;
pub mod error;
pub mod journal;
pub mod laws;
pub mod model;
pub mod parser;
pub mod planner;
pub mod progress;
pub mod runner;
pub mod undo;
pub mod writing;
