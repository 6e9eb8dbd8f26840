//! Why a patch could not be read or applied.

use vstd::prelude::*;
use vstd::string::StringExecFns;

verus! {

/// Why a patch envelope could not be read. `line` counts from zero.
#[derive(Debug, Clone, Copy, PartialEq, Eq, Structural)]
pub enum PatchParseError {
    /// The text does not start with the opening marker.
    MissingBegin { line: usize },
    /// The text ends before the closing marker.
    MissingEnd,
    /// The envelope holds no operation.
    NoOperations,
    /// A `*** ` line that introduces nothing known.
    UnknownHeader { line: usize },
    /// A path that is empty, absolute or leaves the workspace.
    InvalidPath { line: usize },
    /// A body line that does not belong where it stands.
    UnexpectedLine { line: usize },
    /// A move that does not directly follow the header of an update.
    MisplacedMove { line: usize },
    /// An update without any chunk; `line` is where it ends.
    EmptyUpdate { line: usize },
    /// A chunk without any body line; `line` is where it ends.
    EmptyChunk { line: usize },
    /// Text after the closing marker.
    TrailingContent { line: usize },
}

/// Why applying a patch failed.
#[derive(Debug)]
pub enum PatchError {
    /// The patch holds no operation.
    NoOperations,
    /// An operation cannot be carried out on the workspace as it is.
    InvalidOperation { path: String, reason: String },
    /// The file to update does not exist.
    MissingFile { path: String },
    /// The lines a chunk expects were not found in the file.
    SegmentNotFound { path: String, context: String },
    /// A disk operation failed; `source` is the cause as the system gave it.
    Io { action: String, path: String, source: String },
    /// No temporary name could be made next to `path`.
    TempPath { path: String, source: String },
    /// The patch failed and undoing it failed too: the workspace may hold
    /// part of the patch.
    Recovery { original: Box<PatchError>, rollback: Box<PatchError> },
}

/// What a patch error holds.
pub enum PatchErrorView {
    NoOperations,
    InvalidOperation { path: Seq<char>, reason: Seq<char> },
    MissingFile { path: Seq<char> },
    SegmentNotFound { path: Seq<char>, context: Seq<char> },
    Io { action: Seq<char>, path: Seq<char>, source: Seq<char> },
    TempPath { path: Seq<char>, source: Seq<char> },
    Recovery { original: Box<PatchErrorView>, rollback: Box<PatchErrorView> },
}

/// What `error` holds.
pub open spec fn error_view(error: PatchError) -> PatchErrorView
    decreases error,
{
    match error {
        PatchError::NoOperations => PatchErrorView::NoOperations,
        PatchError::InvalidOperation { path, reason } => PatchErrorView::InvalidOperation {
            path: path@,
            reason: reason@,
        },
        PatchError::MissingFile { path } => PatchErrorView::MissingFile { path: path@ },
        PatchError::SegmentNotFound { path, context } => PatchErrorView::SegmentNotFound {
            path: path@,
            context: context@,
        },
        PatchError::Io { action, path, source } => PatchErrorView::Io {
            action: action@,
            path: path@,
            source: source@,
        },
        PatchError::TempPath { path, source } => PatchErrorView::TempPath {
            path: path@,
            source: source@,
        },
        PatchError::Recovery { original, rollback } => PatchErrorView::Recovery {
            original: Box::new(error_view(*original)),
            rollback: Box::new(error_view(*rollback)),
        },
    }
}

impl View for PatchError {
    type V = PatchErrorView;

    open spec fn view(&self) -> PatchErrorView {
        error_view(*self)
    }
}

impl PatchError {
    /// The text shown to the user for this error: it names the offending
    /// path and the reason, and for a failed recovery both failures.
    pub open spec fn message_view(self) -> Seq<char>
        decreases self,
    {
        match self {
            PatchError::NoOperations => "patch contains no operations"@,
            PatchError::InvalidOperation { path, reason } => "invalid patch operation for '"@
                + path@ + "': "@ + reason@,
            PatchError::MissingFile { path } => "file '"@ + path@ + "' not found"@,
            PatchError::SegmentNotFound { path, context } => "failed to locate expected lines in '"@
                + path@ + "':\n"@ + context@,
            PatchError::Io { action, path, source } => "failed to "@ + action@ + " '"@ + path@
                + "': "@ + source@,
            PatchError::TempPath { path, source } => "failed to create a temporary path for '"@
                + path@ + "': "@ + source@,
            PatchError::Recovery { original, rollback } => "patch failed: "@
                + original.message_view() + "; rollback failed as well: "@
                + rollback.message_view()
                + "; the workspace may hold partial changes and should be inspected"@,
        }
    }

    /// The text shown to the user for this error.
    pub fn message(&self) -> (r: String)
        ensures
            r@ == self.message_view(),
        decreases self,
    {
        match self {
            PatchError::NoOperations => String::from_str("patch contains no operations"),
            PatchError::InvalidOperation { path, reason } => {
                let mut text = String::from_str("invalid patch operation for '");
                text.append(path.as_str());
                text.append("': ");
                text.append(reason.as_str());
                text
            },
            PatchError::MissingFile { path } => {
                let mut text = String::from_str("file '");
                text.append(path.as_str());
                text.append("' not found");
                text
            },
            PatchError::SegmentNotFound { path, context } => {
                let mut text = String::from_str("failed to locate expected lines in '");
                text.append(path.as_str());
                text.append("':\n");
                text.append(context.as_str());
                text
            },
            PatchError::Io { action, path, source } => {
                let mut text = String::from_str("failed to ");
                text.append(action.as_str());
                text.append(" '");
                text.append(path.as_str());
                text.append("': ");
                text.append(source.as_str());
                text
            },
            PatchError::TempPath { path, source } => {
                let mut text = String::from_str("failed to create a temporary path for '");
                text.append(path.as_str());
                text.append("': ");
                text.append(source.as_str());
                text
            },
            PatchError::Recovery { original, rollback } => {
                let first = original.message();
                let second = rollback.message();
                let mut text = String::from_str("patch failed: ");
                text.append(first.as_str());
                text.append("; rollback failed as well: ");
                text.append(second.as_str());
                text.append("; the workspace may hold partial changes and should be inspected");
                text
            },
        }
    }
}

} // verus!
