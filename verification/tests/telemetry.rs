use std::time::Duration;

use vtcode_core::tools::telemetry::ToolTelemetryEvent;

#[test]
fn test_create_fallback_event() {
    let event = ToolTelemetryEvent::edit_to_patch_fallback("test.rs", "pattern_not_found");

    match event {
        ToolTelemetryEvent::ToolFallbackDetected {
            from_tool,
            to_tool,
            reason,
            affected_file,
        } => {
            assert_eq!(from_tool, "edit_file");
            assert_eq!(to_tool, "apply_patch");
            assert_eq!(reason, "pattern_not_found");
            assert_eq!(affected_file, Some("test.rs".to_string()));
        }
        _ => panic!("Expected ToolFallbackDetected event"),
    }
}

#[test]
fn test_create_destructive_warning() {
    let event = ToolTelemetryEvent::delete_and_recreate_warning(
        "apply_patch",
        vec!["file1.rs".to_string(), "file2.rs".to_string()],
        false,
    );

    match event {
        ToolTelemetryEvent::DestructiveOperationWarning {
            tool_name,
            operation_type,
            affected_files,
            has_backup,
        } => {
            assert_eq!(tool_name, "apply_patch");
            assert_eq!(operation_type, "delete_and_recreate");
            assert_eq!(affected_files.len(), 2);
            assert!(!has_backup);
        }
        _ => panic!("Expected DestructiveOperationWarning event"),
    }
}

#[test]
fn events_compare_and_copy_with_their_durations() {
    let done = ToolTelemetryEvent::ToolExecutionCompleted {
        tool_name: "grep".to_string(),
        duration: Duration::from_millis(1500),
        output_size_bytes: 42,
    };
    assert_eq!(done.clone(), done);
    let warning = ToolTelemetryEvent::ToolTimeoutWarning {
        tool_name: "grep".to_string(),
        elapsed: Duration::from_secs(48),
        ceiling: Duration::from_secs(60),
        percentage: 80,
    };
    assert_eq!(warning.clone(), warning);
    assert_ne!(warning, done);
}
