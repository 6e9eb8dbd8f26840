use std::path::PathBuf;

use vtcode_core::config::bootstrap::{
    choose_bootstrap_targets, choose_home_config_path, determine_bootstrap_targets,
    gitignore_path_for, select_home_config_path, ConfigDefaultsProvider,
    DEFAULT_GITIGNORE_FILE_NAME,
};
use vtcode_core::config::root::{
    default_inline_viewport_rows, default_max_pty_sessions, default_pty_cols,
    default_pty_enabled, default_pty_rows, default_pty_timeout, default_scrollback_lines,
    default_show_timeline_pane, default_status_line_command_timeout_ms,
    default_status_line_mode, default_status_line_refresh_interval_ms,
    default_stdout_tail_lines, default_tool_output_mode, PtyConfig, StatusLineConfig,
    StatusLineMode, ToolOutputMode, UiConfig,
};
use vtcode_core::config::telemetry::{default_true, TelemetryConfig};
use vtcode_core::prompts::compose::{
    compose_system_instruction_text, extract_system_prompt, format_instruction_path,
    InstructionBundle, InstructionScope, InstructionSegment, PolicySummary,
};
use vtcode_core::prompts::system::{
    default_system_prompt, generate_lightweight_instruction, generate_specialized_instruction,
    Content, Part, SystemPromptConfig, DEFAULT_LIGHTWEIGHT_PROMPT, DEFAULT_SPECIALIZED_PROMPT,
};
use vtcode_core::ui::state::AgentState;

struct Homes(Vec<PathBuf>);

impl ConfigDefaultsProvider for Homes {
    fn home_config_paths(&self, config_file_name: &str) -> Vec<PathBuf> {
        self.0.iter().map(|home| home.join(config_file_name)).collect()
    }
}

#[test]
fn gitignore_sits_next_to_the_configuration() {
    assert_eq!(
        gitignore_path_for(&PathBuf::from("/home/u/.vtcode/vtcode.toml")),
        PathBuf::from("/home/u/.vtcode/.vtcodegitignore")
    );
    assert_eq!(
        gitignore_path_for(&PathBuf::from("vtcode.toml")),
        PathBuf::from(DEFAULT_GITIGNORE_FILE_NAME)
    );
    assert_eq!(gitignore_path_for(&PathBuf::from("/")), PathBuf::from(".vtcodegitignore"));
    assert_eq!(gitignore_path_for(&PathBuf::new()), PathBuf::from(".vtcodegitignore"));
}

#[test]
fn home_config_path_prefers_the_provider() {
    let fallback = PathBuf::from("/fallback");
    let homes = Homes(vec![PathBuf::from("/a"), PathBuf::from("/b")]);
    assert_eq!(
        select_home_config_path(&homes, "c.toml", Some(&fallback)),
        Some(PathBuf::from("/a/c.toml"))
    );
    assert_eq!(
        select_home_config_path(&Homes(Vec::new()), "c.toml", Some(&fallback)),
        Some(PathBuf::from("/fallback/c.toml"))
    );
    assert_eq!(select_home_config_path(&Homes(Vec::new()), "c.toml", None), None);
    assert_eq!(
        choose_home_config_path(vec![PathBuf::from("x"), PathBuf::from("y")], None, "c.toml"),
        Some(PathBuf::from("x"))
    );
}

#[test]
fn bootstrap_targets_go_home_or_to_the_workspace() {
    let workspace = PathBuf::from("/ws");
    let homes = Homes(vec![PathBuf::from("/home/u/.vtcode")]);
    assert_eq!(
        determine_bootstrap_targets(&workspace, true, "vtcode.toml", &homes, None),
        (
            PathBuf::from("/home/u/.vtcode/vtcode.toml"),
            PathBuf::from("/home/u/.vtcode/.vtcodegitignore")
        )
    );
    let in_workspace =
        (PathBuf::from("/ws/vtcode.toml"), PathBuf::from("/ws/.vtcodegitignore"));
    assert_eq!(
        determine_bootstrap_targets(&workspace, false, "vtcode.toml", &homes, None),
        in_workspace
    );
    assert_eq!(
        determine_bootstrap_targets(&workspace, true, "vtcode.toml", &Homes(Vec::new()), None),
        in_workspace
    );
    assert_eq!(choose_bootstrap_targets(&workspace, None, "vtcode.toml"), in_workspace);
}

#[test]
fn configuration_defaults() {
    assert_eq!(ToolOutputMode::default(), ToolOutputMode::Compact);
    assert_eq!(StatusLineMode::default(), StatusLineMode::Auto);
    let status = StatusLineConfig::default();
    assert_eq!(status.mode, StatusLineMode::Auto);
    assert_eq!(status.command, None);
    assert_eq!(status.refresh_interval_ms, default_status_line_refresh_interval_ms());
    assert_eq!(status.command_timeout_ms, default_status_line_command_timeout_ms());
    let ui = UiConfig::default();
    assert_eq!(ui.tool_output_mode, default_tool_output_mode());
    assert_eq!(ui.inline_viewport_rows, default_inline_viewport_rows());
    assert_eq!(ui.show_timeline_pane, default_show_timeline_pane());
    assert_eq!(ui.status_line.mode, default_status_line_mode());
    let pty = PtyConfig::default();
    assert!(pty.enabled && default_pty_enabled());
    assert_eq!((pty.default_rows, pty.default_cols), (24, 80));
    assert_eq!((default_pty_rows(), default_pty_cols()), (24, 80));
    assert_eq!(pty.max_sessions, 10);
    assert_eq!(default_max_pty_sessions(), 10);
    assert_eq!(pty.command_timeout_seconds, 300);
    assert_eq!(default_pty_timeout(), 300);
    assert_eq!(pty.stdout_tail_lines, default_stdout_tail_lines());
    assert_eq!(pty.scrollback_lines, default_scrollback_lines());
    assert!(TelemetryConfig::default().trajectory_enabled);
    assert!(default_true());
}

#[test]
fn agent_state_labels() {
    assert_eq!(AgentState::default(), AgentState::Idle);
    assert_eq!(AgentState::Idle.label(), "Idle");
    assert_eq!(AgentState::Thinking.label(), "Thinking...");
    assert_eq!(AgentState::Executing.label(), "Executing...");
    assert_eq!(AgentState::Streaming.label(), "Streaming...");
    assert_eq!(AgentState::Waiting.label(), "Waiting for confirmation...");
}

#[test]
fn system_prompts() {
    assert!(default_system_prompt().starts_with("You are VT Code, a coding agent."));
    assert!(default_system_prompt().ends_with("with the fewest necessary steps."));
    let light = generate_lightweight_instruction();
    assert_eq!(light.role, "system");
    assert_eq!(light.parts.len(), 1);
    assert_eq!(light.parts[0].as_text(), Some(DEFAULT_LIGHTWEIGHT_PROMPT));
    let special = generate_specialized_instruction();
    assert_eq!(
        special,
        Content {
            role: "system".to_string(),
            parts: vec![Part::Text { text: DEFAULT_SPECIALIZED_PROMPT.to_string() }],
        }
    );
    let config = SystemPromptConfig::default();
    assert!(config.include_examples && config.include_debugging_guides);
    assert!(config.include_error_handling && config.enable_thorough_reasoning);
    assert_eq!(config.max_response_length, None);
}

#[test]
fn system_prompt_is_cut_out_of_its_document() {
    let document = "# Prompts\n\n## Core System Prompt\n\n```rust\nr#\"You are a test.\nBe brief.\"#\n```\n\n## Specialized System Prompts\n\nmore";
    // Nine characters of the opening are skipped, so its last two stay.
    assert_eq!(extract_system_prompt(document), "#\"You are a test.\nBe brief.");
    let plain = "intro\n## Core System Prompt\n  Just text.  \n## Specialized System Prompts\n";
    assert_eq!(extract_system_prompt(plain), "## Core System Prompt\n  Just text.");
    let no_end = "## Core System Prompt\ntext";
    assert_eq!(extract_system_prompt(no_end), no_end);
    assert_eq!(extract_system_prompt("nothing marked"), "nothing marked");
    let unclosed = "## Core System Prompt\n```rust\nr#\"open\n## Specialized System Prompts";
    assert_eq!(extract_system_prompt(unclosed), "## Core System Prompt\n```rust\nr#\"open");
}

fn policy() -> PolicySummary {
    PolicySummary {
        human_in_the_loop: true,
        allowed_commands: 12,
        denied_commands: 0,
        pty_enabled: true,
        pty_rows: 24,
        pty_cols: 80,
        pty_timeout_seconds: 300,
    }
}

#[test]
fn instruction_is_composed_from_its_sections() {
    assert_eq!(compose_system_instruction_text("base".to_string(), None, None), "base");

    let with_policy = compose_system_instruction_text("base".to_string(), Some(&policy()), None);
    assert_eq!(
        with_policy,
        "base\n\n## CONFIGURATION AWARENESS\nThe agent is configured with the following policies from vtcode.toml:\n\n- **Human-in-the-loop**: Required for critical actions\n- **Allowed commands**: 12 commands in allow list\n- **PTY functionality**: Enabled\n- **Default terminal size**: 24 rows × 80 columns\n- **PTY command timeout**: 300 seconds\n\n**IMPORTANT**: Respect these configuration policies. Commands not in the allow list will require user confirmation. Always inform users when actions require confirmation due to security policies.\n"
    );

    let quiet = PolicySummary {
        human_in_the_loop: false,
        allowed_commands: 0,
        denied_commands: 3,
        pty_enabled: false,
        ..policy()
    };
    let text = compose_system_instruction_text(String::new(), Some(&quiet), None);
    assert!(text.contains("- **Denied commands**: 3 commands in deny list\n- **PTY functionality**: Disabled\n"));
    assert!(!text.contains("Human-in-the-loop"));
    assert!(!text.contains("Allowed commands"));

    let bundle = InstructionBundle {
        segments: vec![
            InstructionSegment {
                scope: InstructionScope::Global,
                display_path: "~/AGENTS.md".to_string(),
                contents: "  be kind \n".to_string(),
            },
            InstructionSegment {
                scope: InstructionScope::Workspace,
                display_path: "AGENTS.md".to_string(),
                contents: "be exact".to_string(),
            },
        ],
        truncated: true,
    };
    assert_eq!(
        compose_system_instruction_text("base".to_string(), None, Some(&bundle)),
        "base\n\n## AGENTS.MD INSTRUCTION HIERARCHY\nInstructions are listed from lowest to highest precedence. When conflicts exist, defer to the later entries.\n\n### 1. ~/AGENTS.md (global)\n\nbe kind\n### 2. AGENTS.md (workspace)\n\nbe exact\n\n_Note: instruction content was truncated due to size limits. Review the source files for full details._"
    );
    assert_eq!(InstructionScope::Custom.label(), "custom");
}

#[test]
fn instruction_paths_are_shown_relative() {
    let root = PathBuf::from("/ws/project");
    let home = PathBuf::from("/home/u");
    let show = |path: &str| format_instruction_path(&PathBuf::from(path), &root, Some(&home));
    assert_eq!(show("/ws/project/docs/AGENTS.md"), "docs/AGENTS.md");
    assert_eq!(show("/ws/project"), "project");
    assert_eq!(show("/home/u/.config/AGENTS.md"), "~/.config/AGENTS.md");
    assert_eq!(show("/home/u"), "~");
    assert_eq!(show("/etc/AGENTS.md"), "/etc/AGENTS.md");
    assert_eq!(
        format_instruction_path(&PathBuf::from("/home/u/a.md"), &root, None),
        "/home/u/a.md"
    );
}
