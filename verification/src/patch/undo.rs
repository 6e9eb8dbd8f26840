//! Why undoing a journal brings the disk back: the algebra of undo work on
//! the disk model.

use crate::patch::disk::{all_carried_out, carried_out, moved_aside, DiskEntry};
use crate::patch::journal::{
    rollback_requests, undo_requests, BackupView, DiskRequestView, OperationStateView,
};
use crate::patch::planner::PreparedView;
use crate::patch::runner::moved_to;
use vstd::prelude::*;

verus! {

/// `path` is named by the operation: as its target or as the destination
/// of a move.
pub open spec fn operation_names(operation: PreparedView, path: Seq<char>) -> bool {
    match operation {
        PreparedView::Add { path: target, .. } => target == path,
        PreparedView::Delete { path: target } => target == path,
        PreparedView::Update { path: target, new_path, .. } => target == path || new_path == Some(
            path,
        ),
    }
}

/// `path` is named by some operation of the plan.
pub open spec fn plan_names(plan: Seq<PreparedView>, path: Seq<char>) -> bool {
    exists|i: int| 0 <= i < plan.len() && operation_names(#[trigger] plan[i], path)
}

/// The plan was made for this disk: where a file is to be added, and where
/// an update is to move its file, nothing stands.
pub open spec fn plan_fits(plan: Seq<PreparedView>, disk: Map<Seq<char>, DiskEntry>) -> bool {
    forall|i: int|
        0 <= i < plan.len() ==> match #[trigger] plan[i] {
            PreparedView::Add { path, .. } => !disk.contains_key(path),
            PreparedView::Delete { .. } => true,
            PreparedView::Update { path, new_path, .. } => match moved_to(path, new_path) {
                Some(destination) => !disk.contains_key(destination),
                None => true,
            },
        }
}

/// The snapshot that an undo record holds.
pub open spec fn record_backup(state: OperationStateView) -> Option<BackupView> {
    match state {
        OperationStateView::AddedFile { .. } => None,
        OperationStateView::DeletedFile { backup, .. } => Some(backup),
        OperationStateView::UpdatedFile { backup, .. } => Some(backup),
    }
}

/// No snapshot of the journal lives at a path that the plan names.
pub open spec fn backups_off_plan(plan: Seq<PreparedView>, journal: Seq<OperationStateView>) -> bool {
    forall|k: int|
        0 <= k < journal.len() ==> match record_backup(#[trigger] journal[k]) {
            Some(backup) => !plan_names(plan, backup.path),
            None => true,
        }
}

/// The requests delete entries or move snapshots back, and no snapshot
/// among them lives at `path`.
pub open spec fn is_undo_work(requests: Seq<DiskRequestView>, path: Seq<char>) -> bool {
    forall|k: int|
        0 <= k < requests.len() ==> match #[trigger] requests[k] {
            DiskRequestView::Remove { .. } => true,
            DiskRequestView::Restore { backup, .. } => backup.path != path,
            _ => false,
        }
}

/// The undo work of a journal depends only on the records it covers.
pub proof fn lemma_rollback_of_longer_journal(
    journal: Seq<OperationStateView>,
    state: OperationStateView,
    upto: int,
)
    requires
        0 <= upto <= journal.len(),
    ensures
        rollback_requests(journal.push(state), upto) == rollback_requests(journal, upto),
    decreases upto,
{
    if upto > 0 {
        lemma_rollback_of_longer_journal(journal, state, upto - 1);
    }
}

/// The undo work of a journal with one more record: the undo of that
/// record, then the undo of the rest.
pub proof fn lemma_rollback_after_record(journal: Seq<OperationStateView>, state: OperationStateView)
    ensures
        rollback_requests(journal.push(state), journal.len() as int + 1) == undo_requests(state)
            + rollback_requests(journal, journal.len() as int),
{
    lemma_rollback_of_longer_journal(journal, state, journal.len() as int);
}

/// The undo work of a journal whose snapshots are off the plan deletes and
/// restores only, and none of its snapshots lives at a path of the plan.
pub proof fn lemma_rollback_is_undo_work(
    plan: Seq<PreparedView>,
    journal: Seq<OperationStateView>,
    upto: int,
    path: Seq<char>,
)
    requires
        0 <= upto <= journal.len(),
        backups_off_plan(plan, journal),
        plan_names(plan, path),
    ensures
        is_undo_work(rollback_requests(journal, upto), path),
    decreases upto,
{
    if upto > 0 {
        lemma_rollback_is_undo_work(plan, journal, upto - 1, path);
        let head = undo_requests(journal[upto - 1]);
        let tail = rollback_requests(journal, upto - 1);
        assert(record_backup(journal[upto - 1]) matches Some(backup) ==> backup.path != path);
        assert forall|k: int| 0 <= k < (head + tail).len() implies match #[trigger] (head + tail)[k] {
            DiskRequestView::Remove { .. } => true,
            DiskRequestView::Restore { backup, .. } => backup.path != path,
            _ => false,
        } by {
            if k >= head.len() {
                assert((head + tail)[k] == tail[k - head.len()]);
            }
        }
    }
}

/// An entry that undo work leaves absent in the end may as well be absent
/// from the start.
pub proof fn lemma_undo_forgets_absent_entry(
    requests: Seq<DiskRequestView>,
    disk: Map<Seq<char>, DiskEntry>,
    path: Seq<char>,
)
    requires
        is_undo_work(requests, path),
        !all_carried_out(requests, disk).contains_key(path),
    ensures
        all_carried_out(requests, disk.remove(path)) == all_carried_out(requests, disk),
    decreases requests.len(),
{
    if requests.len() == 0 {
        assert(disk.remove(path) =~= disk);
    } else {
        let rest = requests.skip(1);
        assert(is_undo_work(rest, path)) by {
            assert forall|k: int| 0 <= k < rest.len() implies match #[trigger] rest[k] {
                DiskRequestView::Remove { .. } => true,
                DiskRequestView::Restore { backup, .. } => backup.path != path,
                _ => false,
            } by {
                assert(rest[k] == requests[k + 1]);
            }
        }
        let with = carried_out(disk, requests[0]);
        let without = carried_out(disk.remove(path), requests[0]);
        match requests[0] {
            DiskRequestView::Remove { path: gone } => {
                assert(without =~= with.remove(path));
                lemma_undo_forgets_absent_entry(rest, with, path);
            },
            DiskRequestView::Restore { backup, destination } => {
                if destination == path {
                    assert(without =~= with);
                } else {
                    assert(without =~= with.remove(path));
                    lemma_undo_forgets_absent_entry(rest, with, path);
                }
            },
            _ => {},
        }
    }
}

/// Undo work that begins by deleting or replacing an entry does not care
/// what stood there.
pub proof fn lemma_undo_overrides_written_entry(
    request: DiskRequestView,
    disk: Map<Seq<char>, DiskEntry>,
    path: Seq<char>,
    entry: DiskEntry,
)
    requires
        match request {
            DiskRequestView::Remove { path: gone } => gone == path,
            DiskRequestView::Restore { backup, destination } => destination == path && backup.path
                != path,
            _ => false,
        },
    ensures
        carried_out(disk.insert(path, entry), request) == carried_out(disk, request),
{
    assert(carried_out(disk.insert(path, entry), request) =~= carried_out(disk, request));
}

/// Moving a snapshot back undoes moving the entry aside.
pub proof fn lemma_restore_undoes_snapshot(
    disk: Map<Seq<char>, DiskEntry>,
    path: Seq<char>,
    backup: BackupView,
)
    requires
        disk.contains_key(path),
        !disk.contains_key(backup.path),
    ensures
        carried_out(
            moved_aside(disk, path, backup),
            DiskRequestView::Restore { backup, destination: path },
        ) == disk,
{
    assert(carried_out(
        moved_aside(disk, path, backup),
        DiskRequestView::Restore { backup, destination: path },
    ) =~= disk);
}

} // verus!
