//! The agent's high-level state, as the terminal interface shows it.

use vstd::prelude::*;

verus! {

/// What the agent is doing.
#[derive(Debug, Clone, PartialEq, Eq)]
pub enum AgentState {
    /// Waiting for user input.
    Idle,
    /// Processing a request.
    Thinking,
    /// Running a tool or command.
    Executing,
    /// Receiving a response from the model.
    Streaming,
    /// Waiting for the user to confirm.
    Waiting,
}

impl Default for AgentState {
    fn default() -> (r: Self)
        ensures
            r == AgentState::Idle,
    {
        AgentState::Idle
    }
}

impl AgentState {
    /// The text shown for the state.
    pub open spec fn spec_label(self) -> Seq<char> {
        match self {
            AgentState::Idle => "Idle"@,
            AgentState::Thinking => "Thinking..."@,
            AgentState::Executing => "Executing..."@,
            AgentState::Streaming => "Streaming..."@,
            AgentState::Waiting => "Waiting for confirmation..."@,
        }
    }

    /// The text shown for the state.
    pub fn label(&self) -> (r: &'static str)
        ensures
            r@ == self.spec_label(),
    {
        match self {
            AgentState::Idle => "Idle",
            AgentState::Thinking => "Thinking...",
            AgentState::Executing => "Executing...",
            AgentState::Streaming => "Streaming...",
            AgentState::Waiting => "Waiting for confirmation...",
        }
    }
}

} // verus!
