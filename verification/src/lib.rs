//! The core of a coding agent that drives a language model through a
//! tool-use loop against a workspace on disk.
//!
//! The crate holds what the agent decides, and leaves to its caller what
//! the agent does to the outside world:
//!
//! - [`llm`] is the conversation model: messages, tool calls, tool
//!   definitions.
//! - [`context`] keeps a conversation inside the model's context window:
//!   a token estimate, three trimming strategies, and the semantic score
//!   that biases eviction towards keeping code.
//! - [`patch`] reads patch envelopes, plans a batch of file operations
//!   against what is found in the workspace, and runs it as a state machine
//!   that hands out one disk request at a time, with an undo journal. A
//!   file is written by way of a temporary file that is renamed into
//!   place. What a run and a write do to the workspace is stated and
//!   proved on a model of the disk.
//! - [`pipeline`] decides the steps of one tool invocation: progress
//!   reports, timers, cancellation, restart, and the final status.
//!
//! Around these stand configuration defaults ([`config`]), prompts
//! ([`prompts`]), diffs and colors ([`utils`]), session counters
//! ([`metrics`]), telemetry events ([`tools`]) and the interface state
//! ([`ui`]).
//!
//! Every function is verified against its contract. The few places where
//! the crate relies on code that is not verified — `serde_json` values,
//! paths, durations, line diffs, digests — are gathered in [`json`],
//! [`paths`], [`time`] and beside the types that use them, each with a
//! comment that says what is assumed.

pub mod config;
pub mod context;
pub mod harmony;
pub mod json;
pub mod llm;
pub mod metrics;
pub mod patch;
pub mod paths;
pub mod pipeline;
pub mod prompts;
pub mod text;
pub mod time;
pub mod tools;
pub mod ui;
pub mod utils;
