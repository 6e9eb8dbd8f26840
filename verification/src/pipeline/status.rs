//! What a tool invocation ends with, and how a tool's JSON output is read.

use crate::json::{
    json_bool, json_i64, json_items, json_member, json_text, member, text_field,
};
use crate::text::{decimal_digits, decimal_string, from_chars_range, to_chars, trim, trim_bounds};
use serde_json::Value;
use vstd::prelude::*;
use vstd::string::StringExecFns;

verus! {

/// The timeout class of a tool.
#[derive(Debug, Clone, Copy, PartialEq, Eq, Structural)]
pub enum ToolTimeoutCategory {
    Default,
    Pty,
    Mcp,
}

impl ToolTimeoutCategory {
    /// The name of the category as it is shown to the user.
    pub open spec fn spec_label(self) -> Seq<char> {
        match self {
            ToolTimeoutCategory::Default => "standard"@,
            ToolTimeoutCategory::Pty => "PTY"@,
            ToolTimeoutCategory::Mcp => "MCP"@,
        }
    }

    pub fn label(&self) -> (r: &'static str)
        ensures
            r@ == self.spec_label(),
    {
        match self {
            ToolTimeoutCategory::Default => "standard",
            ToolTimeoutCategory::Pty => "PTY",
            ToolTimeoutCategory::Mcp => "MCP",
        }
    }
}

/// Why a tool failed, by class.
#[derive(Debug, Clone, Copy, PartialEq, Eq, Structural)]
pub enum ToolErrorType {
    InvalidParameters,
    ToolNotFound,
    ResourceNotFound,
    PermissionDenied,
    ExecutionError,
    PolicyViolation,
    Timeout,
    NetworkError,
}

/// A structured tool failure.
#[derive(Debug)]
pub struct ToolExecutionError {
    pub tool_name: String,
    pub error_type: ToolErrorType,
    pub message: String,
}

impl ToolExecutionError {
    pub fn new(tool_name: String, error_type: ToolErrorType, message: String) -> (r: Self)
        ensures
            r.tool_name == tool_name,
            r.error_type == error_type,
            r.message == message,
    {
        ToolExecutionError { tool_name, error_type, message }
    }
}

/// A progress report of a running tool.
#[derive(Debug)]
pub struct ToolProgress {
    /// Percent done, 0 to 100.
    pub progress: u8,
    pub message: String,
}

/// What a tool invocation ended with, or how far it is.
#[derive(Debug)]
#[allow(inconsistent_fields)]
pub enum ToolExecutionStatus {
    /// The tool returned; this is what its output says.
    Success {
        output: Value,
        stdout: Option<String>,
        modified_files: Vec<String>,
        command_success: bool,
        has_more: bool,
    },
    /// The tool failed.
    Failure { error: String },
    /// The tool ran into the ceiling of its timeout category.
    Timeout { error: ToolExecutionError, category: ToolTimeoutCategory, ceiling_seconds: Option<u64> },
    /// The invocation was cancelled.
    Cancelled,
    /// The tool is still running.
    Progress(ToolProgress),
}

/// What a status holds.
pub enum StatusView {
    Success {
        output: Value,
        stdout: Option<Seq<char>>,
        modified_files: Seq<Seq<char>>,
        command_success: bool,
        has_more: bool,
    },
    Failure { error: Seq<char> },
    Timeout {
        tool_name: Seq<char>,
        error_type: ToolErrorType,
        message: Seq<char>,
        category: ToolTimeoutCategory,
        ceiling_seconds: Option<u64>,
    },
    Cancelled,
    Progress { progress: u8, message: Seq<char> },
}

/// The views of a list of texts.
pub open spec fn file_views(files: Seq<String>) -> Seq<Seq<char>> {
    Seq::new(files.len(), |i: int| files[i]@)
}

impl View for ToolExecutionStatus {
    type V = StatusView;

    open spec fn view(&self) -> StatusView {
        match self {
            ToolExecutionStatus::Success {
                output,
                stdout,
                modified_files,
                command_success,
                has_more,
            } => StatusView::Success {
                output: *output,
                stdout: match stdout {
                    Some(text) => Some(text@),
                    None => None,
                },
                modified_files: file_views(modified_files@),
                command_success: *command_success,
                has_more: *has_more,
            },
            ToolExecutionStatus::Failure { error } => StatusView::Failure { error: error@ },
            ToolExecutionStatus::Timeout { error, category, ceiling_seconds } => StatusView::Timeout {
                tool_name: error.tool_name@,
                error_type: error.error_type,
                message: error.message@,
                category: *category,
                ceiling_seconds: *ceiling_seconds,
            },
            ToolExecutionStatus::Cancelled => StatusView::Cancelled,
            ToolExecutionStatus::Progress(progress) => StatusView::Progress {
                progress: progress.progress,
                message: progress.message@,
            },
        }
    }
}

/// The texts among the first `upto` of `items`: the elements that are JSON
/// strings, in order; the others are passed over.
pub open spec fn texts_among(items: Seq<Option<Seq<char>>>, upto: int) -> Seq<Seq<char>>
    decreases upto,
{
    if upto <= 0 {
        Seq::empty()
    } else {
        let rest = texts_among(items, upto - 1);
        match items[upto - 1] {
            Some(text) => rest.push(text),
            None => rest,
        }
    }
}

/// The status for a tool output from which these fields were read. A
/// missing exit code counts as zero, and zero means the command succeeded.
/// Standard output is trimmed and dropped if nothing is left. Of the
/// modified files only the entries that are strings count. `has_more`
/// defaults to false.
pub open spec fn success_status(
    output: Value,
    exit_code: Option<i64>,
    stdout: Option<Seq<char>>,
    modified_files: Option<Seq<Option<Seq<char>>>>,
    has_more: Option<bool>,
) -> StatusView {
    StatusView::Success {
        output,
        stdout: match stdout {
            Some(text) => if trim(text).len() == 0 {
                None
            } else {
                Some(trim(text))
            },
            None => None,
        },
        modified_files: match modified_files {
            Some(items) => texts_among(items, items.len() as int),
            None => Seq::empty(),
        },
        command_success: match exit_code {
            Some(code) => code == 0,
            None => true,
        },
        has_more: match has_more {
            Some(flag) => flag,
            None => false,
        },
    }
}

/// The entries of a list of optional texts.
pub open spec fn entry_views(entries: Seq<Option<String>>) -> Seq<Option<Seq<char>>> {
    Seq::new(
        entries.len(),
        |i: int|
            match entries[i] {
                Some(text) => Some(text@),
                None => None,
            },
    )
}

/// Builds the success status from the fields read from a tool's output.
pub fn synthesize_success(
    output: Value,
    exit_code: Option<i64>,
    stdout: Option<&str>,
    modified_files: Option<Vec<Option<String>>>,
    has_more: Option<bool>,
) -> (status: ToolExecutionStatus)
    ensures
        status@ == success_status(
            output,
            exit_code,
            match stdout {
                Some(text) => Some(text@),
                None => None,
            },
            match modified_files {
                Some(entries) => Some(entry_views(entries@)),
                None => None,
            },
            has_more,
        ),
{
    let command_success = match exit_code {
        Some(code) => code == 0,
        None => true,
    };
    let stdout: Option<String> = match stdout {
        Some(text) => {
            let chars = to_chars(text);
            let (a, b) = trim_bounds(&chars, 0, chars.len());
            proof {
                assert(chars@.subrange(0, chars.len() as int) =~= chars@);
            }
            if a == b {
                None
            } else {
                Some(from_chars_range(&chars, a, b))
            }
        },
        None => None,
    };
    let mut files: Vec<String> = Vec::new();
    proof {
        assert(file_views(files@) =~= Seq::<Seq<char>>::empty());
    }
    match modified_files {
        Some(entries) => {
            let ghost all = entry_views(entries@);
            for entry in it: entries
                invariant
                    entry_views(it.seq()) == all,
                    file_views(files@) == texts_among(all, it.index() as int),
            {
                let ghost before = file_views(files@);
                proof {
                    assert(all[it.index() as int] == entry_views(it.seq())[it.index() as int]);
                }
                match entry {
                    Some(text) => {
                        files.push(text);
                        proof {
                            assert(file_views(files@) =~= before.push(text@));
                        }
                    },
                    None => {},
                }
            }
        },
        None => {},
    }
    let has_more = match has_more {
        Some(flag) => flag,
        None => false,
    };
    ToolExecutionStatus::Success { output, stdout, modified_files: files, command_success, has_more }
}

/// What `output` holds under `key`, read as an integer.
pub open spec fn integer_field(output: Value, key: Seq<char>) -> Option<i64> {
    match json_member(output, key) {
        Some(value) => json_i64(value),
        None => None,
    }
}

/// What `output` holds under `key`, read as a flag.
pub open spec fn flag_field(output: Value, key: Seq<char>) -> Option<bool> {
    match json_member(output, key) {
        Some(value) => json_bool(value),
        None => None,
    }
}

/// What `output` holds under `key`, read as a list whose entries are text
/// or something else.
pub open spec fn list_field(output: Value, key: Seq<char>) -> Option<Seq<Option<Seq<char>>>> {
    match json_member(output, key) {
        Some(value) => match json_items(value) {
            Some(items) => Some(Seq::new(items.len(), |i: int| json_text(items[i]))),
            None => None,
        },
        None => None,
    }
}

/// The status that a tool's JSON output stands for. Any shape is accepted:
/// what is missing or of another type takes its default.
pub open spec fn decoded_output(output: Value) -> StatusView {
    success_status(
        output,
        integer_field(output, "exit_code"@),
        text_field(output, "stdout"@),
        list_field(output, "modified_files"@),
        flag_field(output, "has_more"@),
    )
}

/// Turns the JSON output of a tool into a status.
pub fn process_tool_output(output: Value) -> (status: ToolExecutionStatus)
    ensures
        status@ == decoded_output(output),
{
    let exit_code: Option<i64> = match member(&output, "exit_code") {
        Some(value) => value.as_i64(),
        None => None,
    };
    let stdout: Option<String> = match member(&output, "stdout") {
        Some(value) => match value.as_str() {
            Some(text) => Some(text.to_owned()),
            None => None,
        },
        None => None,
    };
    let modified_files: Option<Vec<Option<String>>> = match member(&output, "modified_files") {
        Some(value) => match value.as_array() {
            Some(items) => {
                let mut entries: Vec<Option<String>> = Vec::new();
                let mut i: usize = 0;
                while i < items.len()
                    invariant
                        i <= items.len(),
                        entries@.len() == i,
                        forall|k: int|
                            0 <= k < i ==> (match #[trigger] entries@[k] {
                                Some(text) => Some(text@),
                                None => None,
                            }) == json_text(items@[k]),
                    decreases items.len() - i,
                {
                    let entry: Option<String> = match items[i].as_str() {
                        Some(text) => Some(text.to_owned()),
                        None => None,
                    };
                    entries.push(entry);
                    i += 1;
                }
                proof {
                    assert(entry_views(entries@) =~= Seq::new(
                        items@.len(),
                        |i: int| json_text(items@[i]),
                    ));
                }
                Some(entries)
            },
            None => None,
        },
        None => None,
    };
    let has_more: Option<bool> = match member(&output, "has_more") {
        Some(value) => value.as_bool(),
        None => None,
    };
    let stdout_text: Option<&str> = match &stdout {
        Some(text) => Some(text.as_str()),
        None => None,
    };
    synthesize_success(output, exit_code, stdout_text, modified_files, has_more)
}

/// The message of a timeout: it names the tool, the category and, where
/// there is one, the ceiling in seconds.
pub open spec fn timeout_message(
    name: Seq<char>,
    category: ToolTimeoutCategory,
    ceiling_seconds: Option<u64>,
) -> Seq<char> {
    let head = "Operation '"@ + name + "' exceeded the "@ + category.spec_label()
        + " timeout ceiling"@;
    match ceiling_seconds {
        Some(seconds) => head + " ("@ + decimal_digits(seconds as nat) + "s)"@,
        None => head,
    }
}

/// The status of a tool that ran into its timeout ceiling.
pub fn create_timeout_error(
    name: &str,
    category: ToolTimeoutCategory,
    ceiling_seconds: Option<u64>,
) -> (status: ToolExecutionStatus)
    ensures
        status@ == (StatusView::Timeout {
            tool_name: name@,
            error_type: ToolErrorType::Timeout,
            message: timeout_message(name@, category, ceiling_seconds),
            category,
            ceiling_seconds,
        }),
{
    let mut message = String::from_str("Operation '");
    message.append(name);
    message.append("' exceeded the ");
    message.append(category.label());
    message.append(" timeout ceiling");
    match ceiling_seconds {
        Some(seconds) => {
            message.append(" (");
            message.append(decimal_string(seconds as u128).as_str());
            message.append("s)");
        },
        None => {},
    }
    ToolExecutionStatus::Timeout {
        error: ToolExecutionError::new(name.to_owned(), ToolErrorType::Timeout, message),
        category,
        ceiling_seconds,
    }
}

} // verus!
