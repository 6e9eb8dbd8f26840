//! Writing a file so that it appears whole or not at all.
//!
//! The content goes to a temporary file next to the target, which is then
//! renamed over the target. The steps are decided here and carried out by
//! the caller, who reports what became of each; a temporary file that did
//! not make it into place is deleted.

use crate::patch::disk::{is_faithful, DiskEntry};
use crate::patch::error::{PatchError, PatchErrorView};
use crate::patch::journal::{temporary_file_name, temporary_name, DiskRequestView};
use crate::patch::runner::DiskReplyView;
use crate::paths::{
    file_name_text, join, parent_of, path_file_name, path_from, path_joined, path_of, path_parent,
};
use std::path::PathBuf;
use vstd::prelude::*;
use vstd::string::StringExecFns;

verus! {

/// The file name that a temporary file is named after where the target has
/// none.
pub const FALLBACK_FILE_NAME: &'static str = "vtcode-patch";

/// The directory of a temporary file where the target has none.
pub const FALLBACK_DIRECTORY: &'static str = ".";

/// The path of a temporary file for `target`: in the same directory, under
/// the temporary name for the target's file name.
pub open spec fn temporary_beside(target: PathBuf, pid: u32, nanos: u128) -> PathBuf {
    path_joined(
        match path_parent(target) {
            Some(parent) => parent,
            None => path_of(FALLBACK_DIRECTORY@),
        },
        temporary_name(
            match path_file_name(target) {
                Some(name) => name,
                None => FALLBACK_FILE_NAME@,
            },
            pid,
            nanos,
        ),
    )
}

/// The path of a temporary file for `target`, made by the process `pid` at
/// `nanos` nanoseconds.
pub fn temporary_path(target: &PathBuf, pid: u32, nanos: u128) -> (path: PathBuf)
    ensures
        path == temporary_beside(*target, pid, nanos),
{
    let parent = match parent_of(target) {
        Some(parent) => parent,
        None => path_from(FALLBACK_DIRECTORY),
    };
    let name = match file_name_text(target) {
        Some(name) => temporary_file_name(name.as_str(), pid, nanos),
        None => temporary_file_name(FALLBACK_FILE_NAME, pid, nanos),
    };
    join(&parent, name.as_str())
}

/// One step of an atomic write, for the file system to carry out.
#[derive(Debug)]
pub enum WriteStep {
    /// Create the directory at `path`, and those above it, where missing.
    MakeDirectories { path: String },
    /// Create an empty file at `path`.
    Create { path: String },
    /// Write `content` to the file at `path`.
    Fill { path: String, content: String },
    /// Flush what was written to the file at `path`.
    Flush { path: String },
    /// Give the file at `path` these permission bits.
    SetPermissions { path: String, permissions: u32 },
    /// Move the file at `from` to `to`, replacing what is there.
    Rename { from: String, to: String },
    /// Delete the file at `path`.
    Remove { path: String },
}

/// What a step of an atomic write holds.
pub enum WriteStepView {
    MakeDirectories { path: Seq<char> },
    Create { path: Seq<char> },
    Fill { path: Seq<char>, content: Seq<char> },
    Flush { path: Seq<char> },
    SetPermissions { path: Seq<char>, permissions: u32 },
    Rename { from: Seq<char>, to: Seq<char> },
    Remove { path: Seq<char> },
}

impl View for WriteStep {
    type V = WriteStepView;

    open spec fn view(&self) -> WriteStepView {
        match self {
            WriteStep::MakeDirectories { path } => WriteStepView::MakeDirectories { path: path@ },
            WriteStep::Create { path } => WriteStepView::Create { path: path@ },
            WriteStep::Fill { path, content } => WriteStepView::Fill {
                path: path@,
                content: content@,
            },
            WriteStep::Flush { path } => WriteStepView::Flush { path: path@ },
            WriteStep::SetPermissions { path, permissions } => WriteStepView::SetPermissions {
                path: path@,
                permissions: *permissions,
            },
            WriteStep::Rename { from, to } => WriteStepView::Rename { from: from@, to: to@ },
            WriteStep::Remove { path } => WriteStepView::Remove { path: path@ },
        }
    }
}

/// How far an atomic write has come: the step it is waiting for.
#[derive(Debug)]
pub enum WritePhase {
    /// The directories above the target.
    MakingDirectories { parent: String },
    /// The creation of the temporary file.
    Creating,
    /// The content going into the temporary file.
    Filling,
    /// The flush of the temporary file.
    Flushing,
    /// The permission bits of the temporary file.
    SettingPermissions { permissions: u32 },
    /// The move of the temporary file over the target.
    Renaming,
    /// The removal of the temporary file after `failure`.
    Removing { failure: PatchError },
}

/// What a phase holds.
pub enum WritePhaseView {
    MakingDirectories { parent: Seq<char> },
    Creating,
    Filling,
    Flushing,
    SettingPermissions { permissions: u32 },
    Renaming,
    Removing { failure: PatchErrorView },
}

impl View for WritePhase {
    type V = WritePhaseView;

    open spec fn view(&self) -> WritePhaseView {
        match self {
            WritePhase::MakingDirectories { parent } => WritePhaseView::MakingDirectories {
                parent: parent@,
            },
            WritePhase::Creating => WritePhaseView::Creating,
            WritePhase::Filling => WritePhaseView::Filling,
            WritePhase::Flushing => WritePhaseView::Flushing,
            WritePhase::SettingPermissions { permissions } => WritePhaseView::SettingPermissions {
                permissions: *permissions,
            },
            WritePhase::Renaming => WritePhaseView::Renaming,
            WritePhase::Removing { failure } => WritePhaseView::Removing { failure: failure@ },
        }
    }
}

/// An atomic write under way.
#[derive(Debug)]
pub struct AtomicWrite {
    /// Where the file is to appear.
    pub target: String,
    /// The temporary file that is written first.
    pub temporary: String,
    /// What the file is to hold.
    pub content: String,
    /// The permission bits the file is to have, if any are asked for.
    pub permissions: Option<u32>,
    /// The step that the write is waiting for.
    pub phase: WritePhase,
}

/// What an atomic write holds.
pub struct AtomicWriteView {
    pub target: Seq<char>,
    pub temporary: Seq<char>,
    pub content: Seq<char>,
    pub permissions: Option<u32>,
    pub phase: WritePhaseView,
}

impl View for AtomicWrite {
    type V = AtomicWriteView;

    open spec fn view(&self) -> AtomicWriteView {
        AtomicWriteView {
            target: self.target@,
            temporary: self.temporary@,
            content: self.content@,
            permissions: self.permissions,
            phase: self.phase@,
        }
    }
}

/// What a step of an atomic write leads to.
#[derive(Debug)]
pub enum WriteProgress {
    /// The write goes on: carry out this step and report what became of it.
    Continue(AtomicWrite, WriteStep),
    /// The write is over: the file is in place, or the write failed.
    Finished(Result<(), PatchError>),
}

/// What the progress of an atomic write holds.
pub enum WriteProgressView {
    Continue(AtomicWriteView, WriteStepView),
    Finished(Result<(), PatchErrorView>),
}

impl View for WriteProgress {
    type V = WriteProgressView;

    open spec fn view(&self) -> WriteProgressView {
        match self {
            WriteProgress::Continue(write, step) => WriteProgressView::Continue(write@, step@),
            WriteProgress::Finished(outcome) => WriteProgressView::Finished(
                match outcome {
                    Ok(_) => Ok(()),
                    Err(error) => Err(error@),
                },
            ),
        }
    }
}

/// What became of a step: done, or failed for the reason given.
pub open spec fn step_reply_view(reply: Result<(), String>) -> Result<(), Seq<char>> {
    match reply {
        Ok(_) => Ok(()),
        Err(source) => Err(source@),
    }
}

/// The step that a write in this state is waiting for.
pub open spec fn pending_step(write: AtomicWriteView) -> WriteStepView {
    match write.phase {
        WritePhaseView::MakingDirectories { parent } => WriteStepView::MakeDirectories {
            path: parent,
        },
        WritePhaseView::Creating => WriteStepView::Create { path: write.temporary },
        WritePhaseView::Filling => WriteStepView::Fill {
            path: write.temporary,
            content: write.content,
        },
        WritePhaseView::Flushing => WriteStepView::Flush { path: write.temporary },
        WritePhaseView::SettingPermissions { permissions } => WriteStepView::SetPermissions {
            path: write.temporary,
            permissions,
        },
        WritePhaseView::Renaming => WriteStepView::Rename {
            from: write.temporary,
            to: write.target,
        },
        WritePhaseView::Removing { failure } => WriteStepView::Remove { path: write.temporary },
    }
}

/// The write in another phase, with the step it then waits for.
pub open spec fn goes_on(write: AtomicWriteView, phase: WritePhaseView) -> WriteProgressView {
    let next = AtomicWriteView { phase, ..write };
    WriteProgressView::Continue(next, pending_step(next))
}

/// The failure of the step `action` on `path`.
pub open spec fn step_failure(action: Seq<char>, path: Seq<char>, source: Seq<char>) -> PatchErrorView {
    PatchErrorView::Io { action, path, source }
}

/// The first state of the atomic write of `content` to `target` by way of
/// `temporary`: the directories above the target come first, where the
/// target has a parent.
pub open spec fn write_begun(
    target: Seq<char>,
    parent: Option<Seq<char>>,
    temporary: Seq<char>,
    content: Seq<char>,
    permissions: Option<u32>,
) -> WriteProgressView {
    goes_on(
        AtomicWriteView { target, temporary, content, permissions, phase: WritePhaseView::Creating },
        match parent {
            Some(parent) => WritePhaseView::MakingDirectories { parent },
            None => WritePhaseView::Creating,
        },
    )
}

/// What a write in state `write` does when its step was answered with
/// `reply`.
///
/// The steps follow each other: directories, create, fill, flush, the
/// permission bits where any are asked for, rename. Where the directories
/// or the temporary file cannot be made, the write is over. Where a later
/// step fails, the temporary file is removed, and the write is over with
/// the failure of that step, whatever became of the removal.
pub open spec fn write_advanced(
    write: AtomicWriteView,
    reply: Result<(), Seq<char>>,
) -> WriteProgressView {
    let temporary = write.temporary;
    match write.phase {
        WritePhaseView::MakingDirectories { parent } => match reply {
            Ok(_) => goes_on(write, WritePhaseView::Creating),
            Err(source) => WriteProgressView::Finished(
                Err(step_failure("create directories"@, parent, source)),
            ),
        },
        WritePhaseView::Creating => match reply {
            Ok(_) => goes_on(write, WritePhaseView::Filling),
            Err(source) => WriteProgressView::Finished(
                Err(step_failure("create"@, temporary, source)),
            ),
        },
        WritePhaseView::Filling => match reply {
            Ok(_) => goes_on(write, WritePhaseView::Flushing),
            Err(source) => goes_on(
                write,
                WritePhaseView::Removing { failure: step_failure("write"@, temporary, source) },
            ),
        },
        WritePhaseView::Flushing => match reply {
            Ok(_) => goes_on(
                write,
                match write.permissions {
                    Some(permissions) => WritePhaseView::SettingPermissions { permissions },
                    None => WritePhaseView::Renaming,
                },
            ),
            Err(source) => goes_on(
                write,
                WritePhaseView::Removing { failure: step_failure("flush"@, temporary, source) },
            ),
        },
        WritePhaseView::SettingPermissions { permissions } => match reply {
            Ok(_) => goes_on(write, WritePhaseView::Renaming),
            Err(source) => goes_on(
                write,
                WritePhaseView::Removing {
                    failure: step_failure("set permissions"@, temporary, source),
                },
            ),
        },
        WritePhaseView::Renaming => match reply {
            Ok(_) => WriteProgressView::Finished(Ok(())),
            Err(source) => goes_on(
                write,
                WritePhaseView::Removing { failure: step_failure("rename"@, write.target, source) },
            ),
        },
        WritePhaseView::Removing { failure } => WriteProgressView::Finished(Err(failure)),
    }
}

fn failure_of(action: &str, path: &str, source: String) -> (error: PatchError)
    ensures
        error@ == step_failure(action@, path@, source@),
{
    PatchError::Io { action: action.to_owned(), path: path.to_owned(), source }
}

impl AtomicWrite {
    fn step(&self) -> (step: WriteStep)
        ensures
            step@ == pending_step(self@),
    {
        match &self.phase {
            WritePhase::MakingDirectories { parent } => WriteStep::MakeDirectories {
                path: parent.as_str().to_owned(),
            },
            WritePhase::Creating => WriteStep::Create { path: self.temporary.as_str().to_owned() },
            WritePhase::Filling => WriteStep::Fill {
                path: self.temporary.as_str().to_owned(),
                content: self.content.as_str().to_owned(),
            },
            WritePhase::Flushing => WriteStep::Flush { path: self.temporary.as_str().to_owned() },
            WritePhase::SettingPermissions { permissions } => WriteStep::SetPermissions {
                path: self.temporary.as_str().to_owned(),
                permissions: *permissions,
            },
            WritePhase::Renaming => WriteStep::Rename {
                from: self.temporary.as_str().to_owned(),
                to: self.target.as_str().to_owned(),
            },
            WritePhase::Removing { .. } => WriteStep::Remove {
                path: self.temporary.as_str().to_owned(),
            },
        }
    }

    fn go_on(self, phase: WritePhase) -> (progress: WriteProgress)
        ensures
            progress@ == goes_on(self@, phase@),
    {
        let next = AtomicWrite {
            target: self.target,
            temporary: self.temporary,
            content: self.content,
            permissions: self.permissions,
            phase,
        };
        let step = next.step();
        WriteProgress::Continue(next, step)
    }

    /// Begins the atomic write of `content` to `target` by way of the
    /// temporary file `temporary`, and hands out its first step. `parent`
    /// is the directory of the target, where it has one.
    pub fn begin(
        target: String,
        parent: Option<String>,
        temporary: String,
        content: String,
        permissions: Option<u32>,
    ) -> (progress: WriteProgress)
        ensures
            progress@ == write_begun(
                target@,
                match parent {
                    Some(directory) => Some(directory@),
                    None => None,
                },
                temporary@,
                content@,
                permissions,
            ),
    {
        let write = AtomicWrite {
            target,
            temporary,
            content,
            permissions,
            phase: WritePhase::Creating,
        };
        match parent {
            Some(parent) => write.go_on(WritePhase::MakingDirectories { parent }),
            None => write.go_on(WritePhase::Creating),
        }
    }

    /// Tells the write what became of the step it last asked for, and gets
    /// its next step.
    pub fn advance(self, reply: Result<(), String>) -> (progress: WriteProgress)
        ensures
            progress@ == write_advanced(self@, step_reply_view(reply)),
    {
        let AtomicWrite { target, temporary, content, permissions, phase } = self;
        match phase {
            WritePhase::MakingDirectories { parent } => match reply {
                Ok(_) => AtomicWrite {
                    target,
                    temporary,
                    content,
                    permissions,
                    phase: WritePhase::Creating,
                }.go_on(WritePhase::Creating),
                Err(source) => WriteProgress::Finished(
                    Err(failure_of("create directories", parent.as_str(), source)),
                ),
            },
            WritePhase::Creating => match reply {
                Ok(_) => AtomicWrite {
                    target,
                    temporary,
                    content,
                    permissions,
                    phase: WritePhase::Creating,
                }.go_on(WritePhase::Filling),
                Err(source) => WriteProgress::Finished(
                    Err(failure_of("create", temporary.as_str(), source)),
                ),
            },
            WritePhase::Filling => {
                let next = match reply {
                    Ok(_) => WritePhase::Flushing,
                    Err(source) => WritePhase::Removing {
                        failure: failure_of("write", temporary.as_str(), source),
                    },
                };
                AtomicWrite { target, temporary, content, permissions, phase: WritePhase::Filling }.go_on(
                    next,
                )
            },
            WritePhase::Flushing => {
                let next = match reply {
                    Ok(_) => match permissions {
                        Some(bits) => WritePhase::SettingPermissions { permissions: bits },
                        None => WritePhase::Renaming,
                    },
                    Err(source) => WritePhase::Removing {
                        failure: failure_of("flush", temporary.as_str(), source),
                    },
                };
                AtomicWrite { target, temporary, content, permissions, phase: WritePhase::Flushing }.go_on(
                    next,
                )
            },
            WritePhase::SettingPermissions { .. } => {
                let next = match reply {
                    Ok(_) => WritePhase::Renaming,
                    Err(source) => WritePhase::Removing {
                        failure: failure_of("set permissions", temporary.as_str(), source),
                    },
                };
                AtomicWrite { target, temporary, content, permissions, phase: WritePhase::Renaming }.go_on(
                    next,
                )
            },
            WritePhase::Renaming => match reply {
                Ok(_) => WriteProgress::Finished(Ok(())),
                Err(source) => {
                    let failure = failure_of("rename", target.as_str(), source);
                    AtomicWrite {
                        target,
                        temporary,
                        content,
                        permissions,
                        phase: WritePhase::Renaming,
                    }.go_on(WritePhase::Removing { failure })
                },
            },
            WritePhase::Removing { failure } => WriteProgress::Finished(Err(failure)),
        }
    }
}

/// The file at `path` on `disk` with other content.
pub open spec fn refilled(disk: Map<Seq<char>, DiskEntry>, path: Seq<char>, content: Seq<char>) -> DiskEntry {
    match disk[path] {
        DiskEntry::File { permissions, .. } => DiskEntry::File { content, permissions },
        DiskEntry::Directory => DiskEntry::File { content, permissions: None },
    }
}

/// The file at `path` on `disk` with other permission bits.
pub open spec fn with_permissions(
    disk: Map<Seq<char>, DiskEntry>,
    path: Seq<char>,
    permissions: u32,
) -> DiskEntry {
    match disk[path] {
        DiskEntry::File { content, .. } => DiskEntry::File { content, permissions: Some(permissions) },
        DiskEntry::Directory => DiskEntry::Directory,
    }
}

/// The disk after `step` was carried out. The model knows the entries
/// that patches name, not the directories above them, and not what is
/// flushed.
pub open spec fn step_carried_out(
    disk: Map<Seq<char>, DiskEntry>,
    step: WriteStepView,
) -> Map<Seq<char>, DiskEntry> {
    match step {
        WriteStepView::MakeDirectories { path } => disk,
        WriteStepView::Create { path } => disk.insert(
            path,
            DiskEntry::File { content: Seq::empty(), permissions: None },
        ),
        WriteStepView::Fill { path, content } => disk.insert(path, refilled(disk, path, content)),
        WriteStepView::Flush { path } => disk,
        WriteStepView::SetPermissions { path, permissions } => disk.insert(
            path,
            with_permissions(disk, path, permissions),
        ),
        WriteStepView::Rename { from, to } => disk.remove(from).insert(to, disk[from]),
        WriteStepView::Remove { path } => disk.remove(path),
    }
}

/// `reply` is what a file system in state `disk` may answer to `step`,
/// and `after` is the state it is in then: a step that failed has changed
/// nothing, and any other step was carried out.
pub open spec fn step_is_faithful(
    disk: Map<Seq<char>, DiskEntry>,
    step: WriteStepView,
    reply: Result<(), Seq<char>>,
    after: Map<Seq<char>, DiskEntry>,
) -> bool {
    match reply {
        Ok(_) => after == step_carried_out(disk, step),
        Err(_) => after == disk,
    }
}

/// The disk is where a write in state `write` has brought it from
/// `origin`: as it was until the temporary file is made, and from then on
/// as it was but for the temporary file, which holds what was written to
/// it so far.
pub open spec fn write_fits(
    write: AtomicWriteView,
    origin: Map<Seq<char>, DiskEntry>,
    disk: Map<Seq<char>, DiskEntry>,
) -> bool {
    let temporary = write.temporary;
    match write.phase {
        WritePhaseView::MakingDirectories { .. } | WritePhaseView::Creating => disk == origin,
        WritePhaseView::Filling => disk == origin.insert(
            temporary,
            DiskEntry::File { content: Seq::empty(), permissions: None },
        ),
        WritePhaseView::Flushing => disk == origin.insert(
            temporary,
            DiskEntry::File { content: write.content, permissions: None },
        ),
        WritePhaseView::SettingPermissions { permissions } => {
            &&& write.permissions == Some(permissions)
            &&& disk == origin.insert(
                temporary,
                DiskEntry::File { content: write.content, permissions: None },
            )
        },
        WritePhaseView::Renaming => disk == origin.insert(
            temporary,
            DiskEntry::File { content: write.content, permissions: write.permissions },
        ),
        WritePhaseView::Removing { .. } => disk.remove(temporary) == origin,
    }
}

/// The request that an atomic write carries out.
pub open spec fn write_request(write: AtomicWriteView) -> DiskRequestView {
    DiskRequestView::Write {
        path: write.target,
        content: write.content,
        permissions: write.permissions,
    }
}

/// How the end of an atomic write answers the request to write.
pub open spec fn write_reply(outcome: Result<(), PatchErrorView>) -> DiskReplyView {
    match outcome {
        Ok(_) => DiskReplyView::Done,
        Err(failure) => DiskReplyView::Failed(failure),
    }
}

/// A write starts on the disk as it is.
pub proof fn law_write_begins_on_origin(
    target: Seq<char>,
    parent: Option<Seq<char>>,
    temporary: Seq<char>,
    content: Seq<char>,
    permissions: Option<u32>,
    origin: Map<Seq<char>, DiskEntry>,
)
    ensures
        write_begun(target, parent, temporary, content, permissions) matches WriteProgressView::Continue(
            write,
            step,
        ) && write_fits(write, origin, origin) && step == pending_step(write) && write.target
            == target && write.temporary == temporary && write.content == content
            && write.permissions == permissions,
{
}

/// An atomic write leaves no temporary file. On a file system that answers
/// faithfully, with a temporary path that was free and is not the target,
/// every step keeps the disk as it was but for the temporary file. A write
/// that ends well has put the file in place and nothing else, as a
/// faithful disk does for the request to write; a write that fails has
/// left the disk as it was. The one exception is a temporary file that
/// could not be removed: it is all that is left.
pub proof fn law_write_step_leaves_no_temporary(
    write: AtomicWriteView,
    origin: Map<Seq<char>, DiskEntry>,
    disk: Map<Seq<char>, DiskEntry>,
    reply: Result<(), Seq<char>>,
    after: Map<Seq<char>, DiskEntry>,
)
    requires
        !origin.contains_key(write.temporary),
        write.temporary != write.target,
        write_fits(write, origin, disk),
        step_is_faithful(disk, pending_step(write), reply, after),
    ensures
        match write_advanced(write, reply) {
            WriteProgressView::Continue(next, step) => {
                &&& write_fits(next, origin, after)
                &&& step == pending_step(next)
                &&& next.target == write.target
                &&& next.temporary == write.temporary
                &&& next.content == write.content
                &&& next.permissions == write.permissions
            },
            WriteProgressView::Finished(outcome) => if write.phase is Removing && reply is Err {
                after.remove(write.temporary) == origin
            } else {
                &&& is_faithful(origin, write_request(write), write_reply(outcome), after)
                &&& !after.contains_key(write.temporary)
            },
        },
{
    let temporary = write.temporary;
    match write.phase {
        WritePhaseView::MakingDirectories { .. } => {},
        WritePhaseView::Creating => {},
        WritePhaseView::Filling => {
            if reply is Ok {
                assert(after =~= origin.insert(
                    temporary,
                    DiskEntry::File { content: write.content, permissions: None },
                ));
            } else {
                assert(after.remove(temporary) =~= origin);
            }
        },
        WritePhaseView::Flushing => {
            if reply is Ok {
                if write.permissions is None {
                    assert(after =~= origin.insert(
                        temporary,
                        DiskEntry::File { content: write.content, permissions: write.permissions },
                    ));
                }
            } else {
                assert(after.remove(temporary) =~= origin);
            }
        },
        WritePhaseView::SettingPermissions { permissions } => {
            if reply is Ok {
                assert(after =~= origin.insert(
                    temporary,
                    DiskEntry::File { content: write.content, permissions: write.permissions },
                ));
            } else {
                assert(after.remove(temporary) =~= origin);
            }
        },
        WritePhaseView::Renaming => {
            if reply is Ok {
                assert(after =~= origin.insert(
                    write.target,
                    DiskEntry::File { content: write.content, permissions: write.permissions },
                ));
            } else {
                assert(after.remove(temporary) =~= origin);
            }
        },
        WritePhaseView::Removing { .. } => {
            if reply is Ok {
                assert(after =~= origin);
            }
        },
    }
}

/// Where a write stands after the first `steps` replies.
pub open spec fn write_after(
    start: WriteProgressView,
    replies: Seq<Result<(), Seq<char>>>,
    steps: int,
) -> WriteProgressView
    decreases steps,
{
    if steps <= 0 {
        start
    } else {
        match write_after(start, replies, steps - 1) {
            WriteProgressView::Continue(write, _) => write_advanced(write, replies[steps - 1]),
            finished => finished,
        }
    }
}

/// The first `steps` steps of a write on a model disk: `disks[i]` is the
/// disk before step `i`, and `replies[i]` is a faithful answer to that
/// step. Once the write is over, the disk stays as it is.
pub open spec fn is_faithful_write(
    start: WriteProgressView,
    replies: Seq<Result<(), Seq<char>>>,
    disks: Seq<Map<Seq<char>, DiskEntry>>,
    steps: int,
) -> bool {
    &&& 0 <= steps <= replies.len()
    &&& disks.len() == replies.len() + 1
    &&& forall|i: int|
        0 <= i < steps ==> match #[trigger] write_after(start, replies, i) {
            WriteProgressView::Continue(_, step) => step_is_faithful(
                disks[i],
                step,
                replies[i],
                disks[i + 1],
            ),
            WriteProgressView::Finished(_) => disks[i + 1] == disks[i],
        }
}

/// The step that ended the write was the removal of the temporary file,
/// and it failed.
pub open spec fn removal_failed(
    start: WriteProgressView,
    replies: Seq<Result<(), Seq<char>>>,
    steps: int,
) -> bool {
    write_after(start, replies, steps - 1) matches WriteProgressView::Continue(write, _)
        && write.phase is Removing && replies[steps - 1] is Err
}

proof fn lemma_write_stays_on_track(
    target: Seq<char>,
    parent: Option<Seq<char>>,
    temporary: Seq<char>,
    content: Seq<char>,
    permissions: Option<u32>,
    replies: Seq<Result<(), Seq<char>>>,
    disks: Seq<Map<Seq<char>, DiskEntry>>,
    steps: int,
    upto: int,
)
    requires
        0 <= upto <= steps,
        !disks[0].contains_key(temporary),
        temporary != target,
        is_faithful_write(
            write_begun(target, parent, temporary, content, permissions),
            replies,
            disks,
            steps,
        ),
    ensures
        write_after(
            write_begun(target, parent, temporary, content, permissions),
            replies,
            upto,
        ) matches WriteProgressView::Continue(write, step) ==> {
            &&& write_fits(write, disks[0], disks[upto])
            &&& step == pending_step(write)
            &&& write.target == target
            &&& write.temporary == temporary
            &&& write.content == content
            &&& write.permissions == permissions
        },
    decreases upto,
{
    let start = write_begun(target, parent, temporary, content, permissions);
    if upto == 0 {
        law_write_begins_on_origin(target, parent, temporary, content, permissions, disks[0]);
    } else {
        lemma_write_stays_on_track(
            target,
            parent,
            temporary,
            content,
            permissions,
            replies,
            disks,
            steps,
            upto - 1,
        );
        match write_after(start, replies, upto - 1) {
            WriteProgressView::Continue(write, _) => {
                law_write_step_leaves_no_temporary(
                    write,
                    disks[0],
                    disks[upto - 1],
                    replies[upto - 1],
                    disks[upto],
                );
            },
            WriteProgressView::Finished(_) => {},
        }
    }
}

/// No temporary file is left. A write on a file system that answers
/// faithfully, with a temporary path that was free and is not the target,
/// ends in one of two ways, unless the temporary file could not be
/// removed. It ends well: then the file is in place with the content and
/// the permission bits asked for, and the disk is otherwise as it was. Or
/// it fails: then the disk is as it was. Either way the temporary file is
/// gone. `steps` is the step that ended the write.
pub proof fn law_finished_write_leaves_no_temporary(
    target: Seq<char>,
    parent: Option<Seq<char>>,
    temporary: Seq<char>,
    content: Seq<char>,
    permissions: Option<u32>,
    replies: Seq<Result<(), Seq<char>>>,
    disks: Seq<Map<Seq<char>, DiskEntry>>,
    steps: int,
)
    requires
        steps >= 1,
        !disks[0].contains_key(temporary),
        temporary != target,
        is_faithful_write(
            write_begun(target, parent, temporary, content, permissions),
            replies,
            disks,
            steps,
        ),
        write_after(write_begun(target, parent, temporary, content, permissions), replies, steps - 1)
            is Continue,
        !removal_failed(
            write_begun(target, parent, temporary, content, permissions),
            replies,
            steps,
        ),
    ensures
        match write_after(
            write_begun(target, parent, temporary, content, permissions),
            replies,
            steps,
        ) {
            WriteProgressView::Continue(_, _) => true,
            WriteProgressView::Finished(Ok(_)) => disks[steps] == disks[0].insert(
                target,
                DiskEntry::File { content, permissions },
            ) && !disks[steps].contains_key(temporary),
            WriteProgressView::Finished(Err(_)) => disks[steps] == disks[0],
        },
{
    let start = write_begun(target, parent, temporary, content, permissions);
    lemma_write_stays_on_track(
        target,
        parent,
        temporary,
        content,
        permissions,
        replies,
        disks,
        steps,
        steps - 1,
    );
    match write_after(start, replies, steps - 1) {
        WriteProgressView::Continue(write, _) => {
            law_write_step_leaves_no_temporary(
                write,
                disks[0],
                disks[steps - 1],
                replies[steps - 1],
                disks[steps],
            );
        },
        WriteProgressView::Finished(_) => {},
    }
}

/// A write is over after seven replies at the latest.
pub proof fn law_write_ends(
    target: Seq<char>,
    parent: Option<Seq<char>>,
    temporary: Seq<char>,
    content: Seq<char>,
    permissions: Option<u32>,
    replies: Seq<Result<(), Seq<char>>>,
)
    ensures
        write_after(write_begun(target, parent, temporary, content, permissions), replies, 7)
            is Finished,
{
    reveal_with_fuel(write_after, 8);
}

} // verus!
