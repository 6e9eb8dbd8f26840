//! What the terminal interface shows of the agent.

pub mod state;
