//! Prompts given to the model.

pub mod compose;
pub mod system;
