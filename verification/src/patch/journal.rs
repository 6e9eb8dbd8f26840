//! The undo journal of a patch run, and the disk work it stands for.

use crate::text::{decimal_digits, decimal_string};
use vstd::prelude::*;
use vstd::string::StringExecFns;

verus! {

/// The name of a temporary file next to the file `file_name`, made by the
/// process `pid` at `nanos` nanoseconds: `.<name>.<pid>.<nanos>.tmp`. It
/// lies in the same directory, and so on the same file system, as the file
/// it stands in for.
pub open spec fn temporary_name(file_name: Seq<char>, pid: u32, nanos: u128) -> Seq<char> {
    "."@ + file_name + "."@ + decimal_digits(pid as nat) + "."@ + decimal_digits(nanos as nat)
        + ".tmp"@
}

/// The name of a temporary file next to the file `file_name`.
pub fn temporary_file_name(file_name: &str, pid: u32, nanos: u128) -> (name: String)
    ensures
        name@ == temporary_name(file_name@, pid, nanos),
{
    let mut name = String::from_str(".");
    name.append(file_name);
    name.append(".");
    name.append(decimal_string(pid as u128).as_str());
    name.append(".");
    name.append(decimal_string(nanos).as_str());
    name.append(".tmp");
    name
}

/// What a snapshot was taken of.
#[derive(Debug, Clone, Copy, PartialEq, Eq, Structural)]
pub enum BackupKind {
    File,
    Directory,
}

/// A snapshot: an entry of the workspace that was moved aside, and where it
/// lives now.
#[derive(Debug)]
pub struct BackupEntry {
    pub path: String,
    pub kind: BackupKind,
}

/// What a snapshot holds.
pub struct BackupView {
    pub path: Seq<char>,
    pub kind: BackupKind,
}

impl View for BackupEntry {
    type V = BackupView;

    open spec fn view(&self) -> BackupView {
        BackupView { path: self.path@, kind: self.kind }
    }
}

impl BackupEntry {
    /// A second handle on the same snapshot.
    pub fn duplicate(&self) -> (copy: BackupEntry)
        ensures
            copy@ == self@,
    {
        BackupEntry { path: self.path.clone(), kind: self.kind }
    }
}

/// What an applied operation did, as far as undoing it goes.
#[derive(Debug)]
pub enum OperationState {
    /// A file was written where none was.
    AddedFile { path: String },
    /// An entry was moved aside.
    DeletedFile { original_path: String, backup: BackupEntry },
    /// A file was moved aside to be rewritten, at its own path or, if
    /// `destination` is set, at another one.
    UpdatedFile { original_path: String, backup: BackupEntry, destination: Option<String> },
}

/// What an undo record holds.
pub enum OperationStateView {
    AddedFile { path: Seq<char> },
    DeletedFile { original_path: Seq<char>, backup: BackupView },
    UpdatedFile { original_path: Seq<char>, backup: BackupView, destination: Option<Seq<char>> },
}

impl View for OperationState {
    type V = OperationStateView;

    open spec fn view(&self) -> OperationStateView {
        match self {
            OperationState::AddedFile { path } => OperationStateView::AddedFile { path: path@ },
            OperationState::DeletedFile { original_path, backup } => OperationStateView::DeletedFile {
                original_path: original_path@,
                backup: backup@,
            },
            OperationState::UpdatedFile {
                original_path,
                backup,
                destination,
            } => OperationStateView::UpdatedFile {
                original_path: original_path@,
                backup: backup@,
                destination: match destination {
                    Some(d) => Some(d@),
                    None => None,
                },
            },
        }
    }
}

/// The views of a list of undo records.
pub open spec fn state_views(states: Seq<OperationState>) -> Seq<OperationStateView> {
    Seq::new(states.len(), |i: int| states[i]@)
}

/// One piece of work for the disk. Paths are relative to the workspace
/// root, but for snapshots, which the disk names itself.
#[derive(Debug)]
pub enum DiskRequest {
    /// Read the text of the file at `path`.
    Read { path: String },
    /// Put a file with this content at `path`, whatever is there, in one
    /// step; with `permissions`, give it those bits.
    Write { path: String, content: String, permissions: Option<u32> },
    /// Move the entry at `path` aside, if there is one.
    Snapshot { path: String },
    /// Move a snapshot to `destination`, replacing what is there.
    Restore { backup: BackupEntry, destination: String },
    /// Delete a snapshot.
    Discard { backup: BackupEntry },
    /// Delete the entry at `path`, if there is one.
    Remove { path: String },
}

/// What a disk request holds.
pub enum DiskRequestView {
    Read { path: Seq<char> },
    Write { path: Seq<char>, content: Seq<char>, permissions: Option<u32> },
    Snapshot { path: Seq<char> },
    Restore { backup: BackupView, destination: Seq<char> },
    Discard { backup: BackupView },
    Remove { path: Seq<char> },
}

impl View for DiskRequest {
    type V = DiskRequestView;

    open spec fn view(&self) -> DiskRequestView {
        match self {
            DiskRequest::Read { path } => DiskRequestView::Read { path: path@ },
            DiskRequest::Write { path, content, permissions } => DiskRequestView::Write {
                path: path@,
                content: content@,
                permissions: *permissions,
            },
            DiskRequest::Snapshot { path } => DiskRequestView::Snapshot { path: path@ },
            DiskRequest::Restore { backup, destination } => DiskRequestView::Restore {
                backup: backup@,
                destination: destination@,
            },
            DiskRequest::Discard { backup } => DiskRequestView::Discard { backup: backup@ },
            DiskRequest::Remove { path } => DiskRequestView::Remove { path: path@ },
        }
    }
}

/// The views of a list of disk requests.
pub open spec fn request_views(requests: Seq<DiskRequest>) -> Seq<DiskRequestView> {
    Seq::new(requests.len(), |i: int| requests[i]@)
}

/// The disk work that undoes one applied operation: an added file is
/// deleted; a snapshot is moved back to where it was taken, after the file
/// that an update wrote elsewhere is deleted.
pub open spec fn undo_requests(state: OperationStateView) -> Seq<DiskRequestView> {
    match state {
        OperationStateView::AddedFile { path } => seq![DiskRequestView::Remove { path }],
        OperationStateView::DeletedFile { original_path, backup } => seq![
            DiskRequestView::Restore { backup, destination: original_path },
        ],
        OperationStateView::UpdatedFile { original_path, backup, destination } => match destination {
            Some(written) => seq![
                DiskRequestView::Remove { path: written },
                DiskRequestView::Restore { backup, destination: original_path },
            ],
            None => seq![DiskRequestView::Restore { backup, destination: original_path }],
        },
    }
}

/// The disk work that undoes the first `upto` records of a journal: the
/// latest record first.
pub open spec fn rollback_requests(journal: Seq<OperationStateView>, upto: int) -> Seq<
    DiskRequestView,
>
    decreases upto,
{
    if upto <= 0 {
        Seq::empty()
    } else {
        undo_requests(journal[upto - 1]) + rollback_requests(journal, upto - 1)
    }
}

/// The disk work that makes one applied operation final: its snapshot, if
/// it took one, is deleted.
pub open spec fn settle_requests(state: OperationStateView) -> Seq<DiskRequestView> {
    match state {
        OperationStateView::AddedFile { .. } => Seq::empty(),
        OperationStateView::DeletedFile { backup, .. } => seq![DiskRequestView::Discard { backup }],
        OperationStateView::UpdatedFile { backup, .. } => seq![DiskRequestView::Discard { backup }],
    }
}

/// The disk work that makes the first `upto` records of a journal final:
/// the latest record first.
pub open spec fn commit_requests(journal: Seq<OperationStateView>, upto: int) -> Seq<
    DiskRequestView,
>
    decreases upto,
{
    if upto <= 0 {
        Seq::empty()
    } else {
        settle_requests(journal[upto - 1]) + commit_requests(journal, upto - 1)
    }
}

/// The undo records of the operations applied so far, oldest first.
pub struct OperationJournal {
    applied: Vec<OperationState>,
}

impl View for OperationJournal {
    type V = Seq<OperationStateView>;

    closed spec fn view(&self) -> Seq<OperationStateView> {
        state_views(self.applied@)
    }
}

impl OperationJournal {
    pub fn new() -> (journal: Self)
        ensures
            journal@ == Seq::<OperationStateView>::empty(),
    {
        let journal = OperationJournal { applied: Vec::new() };
        proof {
            assert(journal@ =~= Seq::<OperationStateView>::empty());
        }
        journal
    }

    /// Adds the undo record of an operation that was just applied.
    pub fn record(&mut self, state: OperationState)
        ensures
            final(self)@ == old(self)@.push(state@),
    {
        self.applied.push(state);
        proof {
            assert(self@ =~= old(self)@.push(state@));
        }
    }

    /// The disk work that undoes everything recorded, latest record first.
    pub fn rollback_all(&self) -> (requests: Vec<DiskRequest>)
        ensures
            request_views(requests@) == rollback_requests(self@, self@.len() as int),
    {
        let mut requests: Vec<DiskRequest> = Vec::new();
        let mut i: usize = self.applied.len();
        proof {
            assert(request_views(requests@) =~= Seq::<DiskRequestView>::empty());
            assert(rollback_requests(self@, self@.len() as int) =~= request_views(requests@)
                + rollback_requests(self@, i as int));
        }
        while i > 0
            invariant
                i <= self.applied.len(),
                rollback_requests(self@, self@.len() as int) == request_views(requests@)
                    + rollback_requests(self@, i as int),
            decreases i,
        {
            i -= 1;
            let ghost before = request_views(requests@);
            proof {
                assert(self@[i as int] == self.applied@[i as int]@);
            }
            match &self.applied[i] {
                OperationState::AddedFile { path } => {
                    let request = DiskRequest::Remove { path: path.clone() };
                    requests.push(request);
                    proof {
                        assert(request_views(requests@) =~= before.push(request@));
                    }
                },
                OperationState::DeletedFile { original_path, backup } => {
                    let request = DiskRequest::Restore {
                        backup: backup.duplicate(),
                        destination: original_path.clone(),
                    };
                    requests.push(request);
                    proof {
                        assert(request_views(requests@) =~= before.push(request@));
                    }
                },
                OperationState::UpdatedFile { original_path, backup, destination } => {
                    let ghost mut middle = before;
                    match destination {
                        Some(written) => {
                            let request = DiskRequest::Remove { path: written.clone() };
                            requests.push(request);
                            proof {
                                assert(request_views(requests@) =~= before.push(request@));
                                middle = request_views(requests@);
                            }
                        },
                        None => {},
                    }
                    let request = DiskRequest::Restore {
                        backup: backup.duplicate(),
                        destination: original_path.clone(),
                    };
                    requests.push(request);
                    proof {
                        assert(request_views(requests@) =~= middle.push(request@));
                    }
                },
            }
            proof {
                assert(request_views(requests@) =~= before + undo_requests(self@[i as int]));
                assert(before + (undo_requests(self@[i as int]) + rollback_requests(self@, i as int))
                    =~= request_views(requests@) + rollback_requests(self@, i as int));
            }
        }
        proof {
            assert(request_views(requests@) + Seq::<DiskRequestView>::empty() =~= request_views(
                requests@,
            ));
        }
        requests
    }

    /// The disk work that makes everything recorded final, latest record
    /// first.
    pub fn commit_all(&self) -> (requests: Vec<DiskRequest>)
        ensures
            request_views(requests@) == commit_requests(self@, self@.len() as int),
    {
        let mut requests: Vec<DiskRequest> = Vec::new();
        let mut i: usize = self.applied.len();
        proof {
            assert(request_views(requests@) =~= Seq::<DiskRequestView>::empty());
            assert(commit_requests(self@, self@.len() as int) =~= request_views(requests@)
                + commit_requests(self@, i as int));
        }
        while i > 0
            invariant
                i <= self.applied.len(),
                commit_requests(self@, self@.len() as int) == request_views(requests@)
                    + commit_requests(self@, i as int),
            decreases i,
        {
            i -= 1;
            let ghost before = request_views(requests@);
            proof {
                assert(self@[i as int] == self.applied@[i as int]@);
            }
            match &self.applied[i] {
                OperationState::AddedFile { .. } => {
                    proof {
                        assert(before + (Seq::<DiskRequestView>::empty() + commit_requests(
                            self@,
                            i as int,
                        )) =~= before + commit_requests(self@, i as int));
                    }
                },
                OperationState::DeletedFile { backup, .. } => {
                    let request = DiskRequest::Discard { backup: backup.duplicate() };
                    requests.push(request);
                    proof {
                        assert(request_views(requests@) =~= before.push(request@));
                        assert(before + (seq![request@] + commit_requests(self@, i as int))
                            =~= request_views(requests@) + commit_requests(self@, i as int));
                    }
                },
                OperationState::UpdatedFile { backup, .. } => {
                    let request = DiskRequest::Discard { backup: backup.duplicate() };
                    requests.push(request);
                    proof {
                        assert(request_views(requests@) =~= before.push(request@));
                        assert(before + (seq![request@] + commit_requests(self@, i as int))
                            =~= request_views(requests@) + commit_requests(self@, i as int));
                    }
                },
            }
        }
        proof {
            assert(request_views(requests@) + Seq::<DiskRequestView>::empty() =~= request_views(
                requests@,
            ));
        }
        requests
    }
}

} // verus!
