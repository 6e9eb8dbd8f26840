//! Settings of the interface and of pseudo-terminals, with their defaults.

use vstd::prelude::*;

verus! {

/// Lines of pseudo-terminal output shown in the chat.
pub const DEFAULT_PTY_STDOUT_TAIL_LINES: usize = 20;

/// Lines of scrollback kept per pseudo-terminal session.
pub const DEFAULT_PTY_SCROLLBACK_LINES: usize = 400;

/// Rows of the inline viewport.
pub const DEFAULT_INLINE_VIEWPORT_ROWS: u16 = 16;

/// Whether the timeline pane is shown in the inline interface.
pub const INLINE_SHOW_TIMELINE_PANE: bool = false;

/// Milliseconds between two refreshes of the status line.
pub const STATUS_LINE_REFRESH_INTERVAL_MS: u64 = 2000;

/// Milliseconds the status line command may take.
pub const STATUS_LINE_COMMAND_TIMEOUT_MS: u64 = 200;

/// How much of a tool's output is shown.
#[derive(Debug, Clone, Copy, PartialEq, Eq, Structural)]
pub enum ToolOutputMode {
    Compact,
    Full,
}

impl Default for ToolOutputMode {
    fn default() -> (r: Self)
        ensures
            r == ToolOutputMode::Compact,
    {
        ToolOutputMode::Compact
    }
}

/// Where the status line comes from.
#[derive(Debug, Clone, Copy, PartialEq, Eq, Structural)]
pub enum StatusLineMode {
    Auto,
    Command,
    Hidden,
}

impl Default for StatusLineMode {
    fn default() -> (r: Self)
        ensures
            r == StatusLineMode::Auto,
    {
        StatusLineMode::Auto
    }
}

/// Settings of the status line.
#[derive(Debug, Clone)]
pub struct StatusLineConfig {
    pub mode: StatusLineMode,
    pub command: Option<String>,
    pub refresh_interval_ms: u64,
    pub command_timeout_ms: u64,
}

impl StatusLineConfig {
    /// The settings in force when nothing is configured.
    pub open spec fn is_default(self) -> bool {
        &&& self.mode == StatusLineMode::Auto
        &&& self.command is None
        &&& self.refresh_interval_ms == STATUS_LINE_REFRESH_INTERVAL_MS
        &&& self.command_timeout_ms == STATUS_LINE_COMMAND_TIMEOUT_MS
    }
}

impl Default for StatusLineConfig {
    fn default() -> (r: Self)
        ensures
            r.is_default(),
    {
        StatusLineConfig {
            mode: default_status_line_mode(),
            command: None,
            refresh_interval_ms: default_status_line_refresh_interval_ms(),
            command_timeout_ms: default_status_line_command_timeout_ms(),
        }
    }
}

/// Settings of the interface.
#[derive(Debug, Clone)]
pub struct UiConfig {
    pub tool_output_mode: ToolOutputMode,
    pub inline_viewport_rows: u16,
    pub show_timeline_pane: bool,
    pub status_line: StatusLineConfig,
}

impl UiConfig {
    /// The settings in force when nothing is configured.
    pub open spec fn is_default(self) -> bool {
        &&& self.tool_output_mode == ToolOutputMode::Compact
        &&& self.inline_viewport_rows == DEFAULT_INLINE_VIEWPORT_ROWS
        &&& self.show_timeline_pane == INLINE_SHOW_TIMELINE_PANE
        &&& self.status_line.is_default()
    }
}

impl Default for UiConfig {
    fn default() -> (r: Self)
        ensures
            r.is_default(),
    {
        UiConfig {
            tool_output_mode: default_tool_output_mode(),
            inline_viewport_rows: default_inline_viewport_rows(),
            show_timeline_pane: default_show_timeline_pane(),
            status_line: StatusLineConfig::default(),
        }
    }
}

/// Settings of pseudo-terminals.
#[derive(Debug, Clone)]
pub struct PtyConfig {
    /// Whether pseudo-terminals may be used.
    pub enabled: bool,
    /// Rows of a new terminal.
    pub default_rows: u16,
    /// Columns of a new terminal.
    pub default_cols: u16,
    /// Most sessions that may be open at once.
    pub max_sessions: usize,
    /// Seconds a command may run.
    pub command_timeout_seconds: u64,
    /// Lines of output shown in the chat.
    pub stdout_tail_lines: usize,
    /// Lines of scrollback kept per session.
    pub scrollback_lines: usize,
}

impl PtyConfig {
    /// The settings in force when nothing is configured.
    pub open spec fn is_default(self) -> bool {
        &&& self.enabled
        &&& self.default_rows == 24
        &&& self.default_cols == 80
        &&& self.max_sessions == 10
        &&& self.command_timeout_seconds == 300
        &&& self.stdout_tail_lines == DEFAULT_PTY_STDOUT_TAIL_LINES
        &&& self.scrollback_lines == DEFAULT_PTY_SCROLLBACK_LINES
    }
}

impl Default for PtyConfig {
    fn default() -> (r: Self)
        ensures
            r.is_default(),
    {
        PtyConfig {
            enabled: default_pty_enabled(),
            default_rows: default_pty_rows(),
            default_cols: default_pty_cols(),
            max_sessions: default_max_pty_sessions(),
            command_timeout_seconds: default_pty_timeout(),
            stdout_tail_lines: default_stdout_tail_lines(),
            scrollback_lines: default_scrollback_lines(),
        }
    }
}

pub fn default_pty_enabled() -> (r: bool)
    ensures
        r,
{
    true
}

pub fn default_pty_rows() -> (r: u16)
    ensures
        r == 24,
{
    24
}

pub fn default_pty_cols() -> (r: u16)
    ensures
        r == 80,
{
    80
}

pub fn default_max_pty_sessions() -> (r: usize)
    ensures
        r == 10,
{
    10
}

pub fn default_pty_timeout() -> (r: u64)
    ensures
        r == 300,
{
    300
}

pub fn default_stdout_tail_lines() -> (r: usize)
    ensures
        r == DEFAULT_PTY_STDOUT_TAIL_LINES,
{
    DEFAULT_PTY_STDOUT_TAIL_LINES
}

pub fn default_scrollback_lines() -> (r: usize)
    ensures
        r == DEFAULT_PTY_SCROLLBACK_LINES,
{
    DEFAULT_PTY_SCROLLBACK_LINES
}

pub fn default_tool_output_mode() -> (r: ToolOutputMode)
    ensures
        r == ToolOutputMode::Compact,
{
    ToolOutputMode::Compact
}

pub fn default_inline_viewport_rows() -> (r: u16)
    ensures
        r == DEFAULT_INLINE_VIEWPORT_ROWS,
{
    DEFAULT_INLINE_VIEWPORT_ROWS
}

pub fn default_show_timeline_pane() -> (r: bool)
    ensures
        r == INLINE_SHOW_TIMELINE_PANE,
{
    INLINE_SHOW_TIMELINE_PANE
}

pub fn default_status_line_mode() -> (r: StatusLineMode)
    ensures
        r == StatusLineMode::Auto,
{
    StatusLineMode::Auto
}

pub fn default_status_line_refresh_interval_ms() -> (r: u64)
    ensures
        r == STATUS_LINE_REFRESH_INTERVAL_MS,
{
    STATUS_LINE_REFRESH_INTERVAL_MS
}

pub fn default_status_line_command_timeout_ms() -> (r: u64)
    ensures
        r == STATUS_LINE_COMMAND_TIMEOUT_MS,
{
    STATUS_LINE_COMMAND_TIMEOUT_MS
}

} // verus!
