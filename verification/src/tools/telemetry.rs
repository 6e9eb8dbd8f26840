//! Telemetry events of the tool registry: what ran, what failed, what fell
//! back to another tool, and what is about to destroy data.

use std::time::Duration;
use vstd::prelude::*;
use vstd::string::StringExecFns;

verus! {

/// An event emitted while tools run.
#[derive(Debug, Clone, PartialEq, Eq)]
pub enum ToolTelemetryEvent {
    /// A tool execution was attempted.
    ToolExecutionStarted { tool_name: String, has_args: bool },
    /// A tool execution completed successfully.
    ToolExecutionCompleted { tool_name: String, duration: Duration, output_size_bytes: usize },
    /// A tool execution failed.
    ToolExecutionFailed { tool_name: String, error_type: String, duration: Duration },
    /// A tool fell back to a different implementation or strategy.
    ToolFallbackDetected {
        /// The tool that was attempted.
        from_tool: String,
        /// The tool or strategy used in its place.
        to_tool: String,
        /// Why.
        reason: String,
        /// The file the fallback touches, if any.
        affected_file: Option<String>,
    },
    /// A tool operation was blocked by policy.
    ToolBlocked { tool_name: String, policy_reason: String },
    /// A tool operation is close to its timeout ceiling.
    ToolTimeoutWarning { tool_name: String, elapsed: Duration, ceiling: Duration, percentage: u8 },
    /// A destructive operation is about to be performed.
    DestructiveOperationWarning {
        tool_name: String,
        operation_type: String,
        affected_files: Vec<String>,
        has_backup: bool,
    },
}

impl ToolTelemetryEvent {
    /// The event for `edit_file` giving way to `apply_patch` on `file_path`.
    pub fn edit_to_patch_fallback(file_path: &str, reason: &str) -> (event: Self)
        ensures
            match event {
                ToolTelemetryEvent::ToolFallbackDetected {
                    from_tool,
                    to_tool,
                    reason: why,
                    affected_file,
                } => {
                    &&& from_tool@ == "edit_file"@
                    &&& to_tool@ == "apply_patch"@
                    &&& why@ == reason@
                    &&& match affected_file {
                        Some(file) => file@ == file_path@,
                        None => false,
                    }
                },
                _ => false,
            },
    {
        ToolTelemetryEvent::ToolFallbackDetected {
            from_tool: String::from_str("edit_file"),
            to_tool: String::from_str("apply_patch"),
            reason: reason.to_owned(),
            affected_file: Some(file_path.to_owned()),
        }
    }

    /// The warning for a tool that deletes files and creates them anew.
    pub fn delete_and_recreate_warning(tool_name: &str, files: Vec<String>, has_backup: bool) -> (event:
        Self)
        ensures
            match event {
                ToolTelemetryEvent::DestructiveOperationWarning {
                    tool_name: tool,
                    operation_type,
                    affected_files,
                    has_backup: backed_up,
                } => {
                    &&& tool@ == tool_name@
                    &&& operation_type@ == "delete_and_recreate"@
                    &&& affected_files == files
                    &&& backed_up == has_backup
                },
                _ => false,
            },
    {
        ToolTelemetryEvent::DestructiveOperationWarning {
            tool_name: tool_name.to_owned(),
            operation_type: String::from_str("delete_and_recreate"),
            affected_files: files,
            has_backup,
        }
    }
}

} // verus!
