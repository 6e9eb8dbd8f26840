use serde_json::Value;

use vtcode_core::pipeline::machine::{
    estimate_progress, CancelBits, PipelineAction, PipelineEvent, TimeoutSettings, ToolPipeline,
};
use vtcode_core::pipeline::status::{
    create_timeout_error, process_tool_output, synthesize_success, ToolErrorType,
    ToolExecutionError, ToolExecutionStatus, ToolTimeoutCategory,
};

fn json(text: &str) -> Value {
    serde_json::from_str(text).unwrap()
}

#[test]
fn test_process_tool_output() {
    // Test successful output
    let output = json(
        r#"{"exit_code": 0, "stdout": "test output", "modified_files": ["file1.txt", "file2.txt"], "has_more": false}"#,
    );

    let status = process_tool_output(output);
    if let ToolExecutionStatus::Success {
        output: _,
        stdout,
        modified_files,
        command_success,
        has_more,
    } = status
    {
        assert_eq!(stdout, Some("test output".to_string()));
        assert_eq!(modified_files, vec!["file1.txt", "file2.txt"]);
        assert!(command_success);
        assert!(!has_more);
    } else {
        panic!("Expected Success variant");
    }
}

#[test]
fn test_create_timeout_error() {
    let status = create_timeout_error("test_tool", ToolTimeoutCategory::Default, Some(42));
    if let ToolExecutionStatus::Timeout { error, .. } = status {
        assert!(error.message.contains("test_tool"));
        assert!(error.message.contains("timeout ceiling"));
        assert!(error.message.contains("42"));
    } else {
        panic!("Expected Timeout variant");
    }
}

#[test]
fn timeout_error_names_tool_category_and_ceiling() {
    match create_timeout_error("run", ToolTimeoutCategory::Pty, Some(300)) {
        ToolExecutionStatus::Timeout { error, category, ceiling_seconds } => {
            assert_eq!(error.tool_name, "run");
            assert_eq!(error.error_type, ToolErrorType::Timeout);
            assert_eq!(error.message, "Operation 'run' exceeded the PTY timeout ceiling (300s)");
            assert_eq!(category, ToolTimeoutCategory::Pty);
            assert_eq!(ceiling_seconds, Some(300));
        }
        _ => panic!("Expected Timeout variant"),
    }
    match create_timeout_error("x", ToolTimeoutCategory::Mcp, None) {
        ToolExecutionStatus::Timeout { error, .. } => {
            assert_eq!(error.message, "Operation 'x' exceeded the MCP timeout ceiling");
        }
        _ => panic!("Expected Timeout variant"),
    }
    assert_eq!(ToolTimeoutCategory::Default.label(), "standard");
    let error = ToolExecutionError::new("t".to_string(), ToolErrorType::ToolNotFound, "m".to_string());
    assert_eq!((error.tool_name.as_str(), error.message.as_str()), ("t", "m"));
}

fn decoded(text: &str) -> (Option<String>, Vec<String>, bool, bool) {
    match process_tool_output(json(text)) {
        ToolExecutionStatus::Success { output, stdout, modified_files, command_success, has_more } => {
            assert_eq!(output, json(text));
            (stdout, modified_files, command_success, has_more)
        }
        _ => panic!("Expected Success variant"),
    }
}

#[test]
fn tool_output_of_any_shape_is_accepted() {
    assert_eq!(decoded("{}"), (None, vec![], true, false));
    assert_eq!(decoded("null"), (None, vec![], true, false));
    assert_eq!(decoded("[1, 2]"), (None, vec![], true, false));
    assert_eq!(decoded(r#"{"exit_code": 3, "has_more": true}"#), (None, vec![], false, true));
    // Fields of another type take their default.
    assert_eq!(
        decoded(r#"{"exit_code": "1", "stdout": 5, "modified_files": "a", "has_more": 1}"#),
        (None, vec![], true, false)
    );
    assert_eq!(decoded(r#"{"exit_code": 1.5}"#), (None, vec![], true, false));
    // Standard output is trimmed and dropped when blank.
    assert_eq!(decoded(r#"{"stdout": "  hi \n"}"#).0, Some("hi".to_string()));
    assert_eq!(decoded(r#"{"stdout": " \t\n"}"#).0, None);
    // Only the entries that are strings count as modified files.
    assert_eq!(
        decoded(r#"{"modified_files": ["a", 1, null, "b", ["c"]]}"#).1,
        vec!["a".to_string(), "b".to_string()]
    );
}

#[test]
fn synthesize_success_applies_the_defaults() {
    match synthesize_success(Value::Null, None, None, None, None) {
        ToolExecutionStatus::Success { stdout, modified_files, command_success, has_more, .. } => {
            assert_eq!((stdout, modified_files.len(), command_success, has_more), (None, 0, true, false));
        }
        _ => panic!("Expected Success variant"),
    }
    let files = Some(vec![None, Some("kept".to_string())]);
    match synthesize_success(Value::Null, Some(-1), Some(" out "), files, Some(true)) {
        ToolExecutionStatus::Success { stdout, modified_files, command_success, has_more, .. } => {
            assert_eq!(stdout, Some("out".to_string()));
            assert_eq!(modified_files, vec!["kept".to_string()]);
            assert!(!command_success);
            assert!(has_more);
        }
        _ => panic!("Expected Success variant"),
    }
}

fn settings(ceiling_seconds: Option<u64>, warning_percent: u8) -> TimeoutSettings {
    TimeoutSettings { category: ToolTimeoutCategory::Default, ceiling_seconds, warning_percent }
}

const QUIET: CancelBits = CancelBits { cancel_requested: false, exit_requested: false };
const CANCEL: CancelBits = CancelBits { cancel_requested: true, exit_requested: false };
const EXIT: CancelBits = CancelBits { cancel_requested: false, exit_requested: true };

/// What the actions say, one line each.
fn show(actions: &[PipelineAction]) -> Vec<String> {
    actions
        .iter()
        .map(|action| match action {
            PipelineAction::SetMessage(text) => format!("message {text}"),
            PipelineAction::SetProgress(percent) => format!("progress {percent}"),
            PipelineAction::Sleep { millis } => format!("sleep {millis}"),
            PipelineAction::StartTool => "start".to_string(),
            PipelineAction::Await { timeout_ms, warning_ms } => {
                format!("await {timeout_ms:?} {warning_ms:?}")
            }
            PipelineAction::CancelTool => "cancel".to_string(),
            PipelineAction::Finish(status) => match status {
                ToolExecutionStatus::Success { .. } => "finish success".to_string(),
                ToolExecutionStatus::Failure { error } => format!("finish failure {error}"),
                ToolExecutionStatus::Timeout { error, .. } => format!("finish timeout {}", error.message),
                ToolExecutionStatus::Cancelled => "finish cancelled".to_string(),
                ToolExecutionStatus::Progress(_) => "finish progress".to_string(),
            },
        })
        .collect()
}

/// A pipeline whose tool is running.
fn running(settings: TimeoutSettings) -> ToolPipeline {
    let (pipeline, _) = ToolPipeline::start("grep".to_string(), settings);
    let (pipeline, _) = pipeline.step(PipelineEvent::Prepared { bits: QUIET, elapsed_ms: 50 });
    let (pipeline, _) = pipeline.step(PipelineEvent::Started { bits: QUIET });
    pipeline
}

#[test]
fn pipeline_runs_a_tool_through_its_phases() {
    let (pipeline, actions) = ToolPipeline::start("grep".to_string(), settings(Some(60), 80));
    assert_eq!(show(&actions), vec!["message Preparing grep...", "progress 5", "sleep 50"]);
    assert!(!pipeline.is_finished());

    let (pipeline, actions) = pipeline.step(PipelineEvent::Prepared { bits: QUIET, elapsed_ms: 51 });
    assert_eq!(
        show(&actions),
        vec![
            "message Setting up grep execution...",
            "progress 20",
            "message Executing grep...",
            "progress 30",
            "start"
        ]
    );

    let (pipeline, actions) = pipeline.step(PipelineEvent::Started { bits: QUIET });
    assert_eq!(show(&actions), vec!["await Some(60000) Some(48000)"]);

    let output = json(r#"{"stdout": "found"}"#);
    let (pipeline, actions) = pipeline.step(PipelineEvent::Succeeded(output));
    assert_eq!(
        show(&actions),
        vec![
            "message Processing grep results...",
            "progress 90",
            "message Finalizing grep...",
            "progress 95",
            "sleep 50"
        ]
    );
    assert!(!pipeline.is_finished());

    let (pipeline, mut actions) = pipeline.step(PipelineEvent::Finalized);
    assert_eq!(
        show(&actions),
        vec!["progress 100", "message grep completed successfully", "finish success"]
    );
    match actions.pop() {
        Some(PipelineAction::Finish(ToolExecutionStatus::Success { stdout, .. })) => {
            assert_eq!(stdout, Some("found".to_string()));
        }
        _ => panic!("expected the success status"),
    }
    assert!(pipeline.is_finished());
    let (pipeline, actions) = pipeline.step(PipelineEvent::TimedOut);
    assert!(actions.is_empty() && pipeline.is_finished());
}

#[test]
fn pipeline_reports_a_tool_failure() {
    let (pipeline, actions) =
        running(settings(None, 80)).step(PipelineEvent::Failed("no such tool".to_string()));
    assert_eq!(
        show(&actions),
        vec![
            "message Processing grep results...",
            "progress 90",
            "message grep failed",
            "finish failure no such tool"
        ]
    );
    assert!(pipeline.is_finished());
}

#[test]
fn pipeline_cancels_at_every_phase_boundary() {
    for bits in [CANCEL, EXIT] {
        let (pipeline, _) = ToolPipeline::start("grep".to_string(), settings(Some(60), 80));
        let (pipeline, actions) = pipeline.step(PipelineEvent::Prepared { bits, elapsed_ms: 50 });
        assert_eq!(show(&actions), vec!["finish cancelled"]);
        assert!(pipeline.is_finished());

        let (pipeline, _) = ToolPipeline::start("grep".to_string(), settings(Some(60), 80));
        let (pipeline, _) = pipeline.step(PipelineEvent::Prepared { bits: QUIET, elapsed_ms: 50 });
        let (pipeline, actions) = pipeline.step(PipelineEvent::Started { bits });
        assert_eq!(show(&actions), vec!["cancel", "finish cancelled"]);
        assert!(pipeline.is_finished());

        let (pipeline, actions) =
            running(settings(Some(60), 80)).step(PipelineEvent::Notified { bits, elapsed_ms: 900 });
        assert_eq!(show(&actions), vec!["cancel", "finish cancelled"]);
        assert!(pipeline.is_finished());
    }
}

#[test]
fn pipeline_restarts_the_tool_on_a_soft_cancel() {
    let pipeline = running(settings(Some(60), 80));
    let (pipeline, actions) =
        pipeline.step(PipelineEvent::WarningDue { elapsed_ms: 48_000, current_progress: 40 });
    assert_eq!(actions.len(), 2);
    let (pipeline, actions) = pipeline.step(PipelineEvent::Notified { bits: QUIET, elapsed_ms: 2500 });
    assert_eq!(show(&actions), vec!["cancel", "message Executing grep...", "progress 70", "start"]);
    assert!(!pipeline.is_finished());
    // The new run gets the whole budget, and may warn again.
    let (pipeline, actions) = pipeline.step(PipelineEvent::Started { bits: QUIET });
    assert_eq!(show(&actions), vec!["await Some(60000) Some(48000)"]);
    let (_, actions) =
        pipeline.step(PipelineEvent::WarningDue { elapsed_ms: 50_000, current_progress: 95 });
    assert_eq!(actions.len(), 1);
}

#[test]
fn pipeline_warns_once_then_times_out() {
    let pipeline = running(settings(Some(1), 10));
    let (pipeline, actions) =
        pipeline.step(PipelineEvent::WarningDue { elapsed_ms: 151, current_progress: 40 });
    let shown = show(&actions);
    assert_eq!(
        shown,
        vec![
            "message grep has run for 0.2s (standard ceiling: 1s). Press Ctrl+C to cancel or adjust [timeouts] in vtcode.toml.",
            "progress 90"
        ]
    );
    assert!(shown[0].contains("has run"));
    assert!(shown[0].contains("Press Ctrl+C"));
    let (pipeline, actions) =
        pipeline.step(PipelineEvent::WarningDue { elapsed_ms: 300, current_progress: 90 });
    assert!(actions.is_empty());
    let (pipeline, actions) = pipeline.step(PipelineEvent::TimedOut);
    assert_eq!(
        show(&actions),
        vec![
            "cancel",
            "message grep timed out",
            "finish timeout Operation 'grep' exceeded the standard timeout ceiling (1s)"
        ]
    );
    assert!(matches!(
        actions.last(),
        Some(PipelineAction::Finish(ToolExecutionStatus::Timeout { .. }))
    ));
    assert!(pipeline.is_finished());
}

#[test]
fn pipeline_without_a_ceiling_neither_warns_nor_times_out() {
    let pipeline = running(settings(None, 50));
    let (pipeline, actions) =
        pipeline.step(PipelineEvent::WarningDue { elapsed_ms: 10, current_progress: 0 });
    assert!(actions.is_empty());
    let (pipeline, actions) = pipeline.step(PipelineEvent::TimedOut);
    assert!(actions.is_empty());
    assert!(!pipeline.is_finished());
}

#[test]
fn pipeline_ignores_events_out_of_phase() {
    let (pipeline, _) = ToolPipeline::start("grep".to_string(), settings(Some(60), 80));
    let (pipeline, actions) = pipeline.step(PipelineEvent::Finalized);
    assert!(actions.is_empty());
    let (pipeline, actions) = pipeline.step(PipelineEvent::Succeeded(Value::Null));
    assert!(actions.is_empty());
    let (_, actions) = pipeline.step(PipelineEvent::Prepared { bits: QUIET, elapsed_ms: 0 });
    assert_eq!(actions.len(), 5);
}

#[test]
fn timers_follow_the_ceiling_and_the_warning_share() {
    assert_eq!(settings(Some(60), 80).timeout_ms(), Some(60_000));
    assert_eq!(settings(Some(60), 80).warning_ms(), Some(48_000));
    assert_eq!(settings(Some(1), 10).warning_ms(), Some(100));
    assert_eq!(settings(None, 80).timeout_ms(), None);
    assert_eq!(settings(None, 80).warning_ms(), None);
    assert_eq!(settings(Some(60), 0).warning_ms(), None);
    assert_eq!(settings(Some(60), 100).warning_ms(), None);
    assert_eq!(settings(Some(0), 50).warning_ms(), None);
    assert_eq!(settings(Some(u64::MAX), 50).timeout_ms(), Some(u64::MAX));
    assert_eq!(settings(Some(u64::MAX), 50).warning_ms(), Some(u64::MAX / 2));
    assert!(CANCEL.any() && EXIT.any() && !QUIET.any());
}

#[test]
fn progress_is_estimated_from_the_elapsed_time() {
    assert_eq!(estimate_progress(0), 30);
    assert_eq!(estimate_progress(499), 30);
    assert_eq!(estimate_progress(500), 50);
    assert_eq!(estimate_progress(1999), 50);
    assert_eq!(estimate_progress(2000), 70);
    assert_eq!(estimate_progress(4999), 70);
    assert_eq!(estimate_progress(5000), 85);
    assert_eq!(estimate_progress(u64::MAX), 85);
}
