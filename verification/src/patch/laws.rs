//! What a patch run does to the workspace, stated on the disk model.
//!
//! While a run goes forward, undoing its journal would bring the disk back
//! to where the run began. A run that fails before the commit and rolls
//! back without a failure therefore leaves the disk as it found it.

use crate::patch::disk::{all_carried_out, carried_out, is_faithful, DiskEntry};
use crate::patch::error::PatchErrorView;
use crate::patch::journal::{
    rollback_requests, undo_requests, DiskRequestView, OperationStateView,
};
use crate::patch::model::OperationView;
use crate::patch::planner::{
    planned, planned_patch, planned_prefix, OperationProbeView, PathProbeView, PreparedView,
};
use crate::patch::progress::progress_line;
use crate::patch::runner::{
    begin_operation, fail_with, moved_to, operation_done, progress_total, recorded,
    rollback_next, run_advanced, run_begun, write_target, DiskReplyView, ProgressView, RunView,
    StageView,
};
use crate::patch::undo::{
    backups_off_plan, lemma_restore_undoes_snapshot, lemma_rollback_after_record,
    lemma_rollback_is_undo_work, lemma_undo_forgets_absent_entry,
    lemma_undo_overrides_written_entry, operation_names, plan_fits, plan_names, record_backup,
};
use vstd::prelude::*;

verus! {

/// Undoing the journal of `run` on `disk` gives `origin`.
pub open spec fn can_undo(
    run: RunView,
    disk: Map<Seq<char>, DiskEntry>,
    origin: Map<Seq<char>, DiskEntry>,
) -> bool {
    all_carried_out(rollback_requests(run.journal, run.journal.len() as int), disk) == origin
}

/// The requests delete entries or move snapshots back.
pub open spec fn is_undo_only(requests: Seq<DiskRequestView>) -> bool {
    forall|k: int|
        0 <= k < requests.len() ==> match #[trigger] requests[k] {
            DiskRequestView::Remove { .. } => true,
            DiskRequestView::Restore { .. } => true,
            _ => false,
        }
}

/// The requests delete snapshots.
pub open spec fn is_discard_only(requests: Seq<DiskRequestView>) -> bool {
    forall|k: int| 0 <= k < requests.len() ==> #[trigger] requests[k] is Discard
}

/// The stage of the run belongs to the operation it stands at, and
/// `request` is the disk work of that stage.
pub open spec fn stage_fits(run: RunView, request: DiskRequestView) -> bool {
    match run.stage {
        StageView::Adding { path, bytes } => {
            &&& run.position < run.plan.len()
            &&& run.plan[run.position as int] matches PreparedView::Add { path: target, content }
            &&& target == path
            &&& request == DiskRequestView::Write { path, content, permissions: None }
        },
        StageView::Deleting { path } => {
            &&& run.position < run.plan.len()
            &&& run.plan[run.position as int] == PreparedView::Delete { path }
            &&& request == DiskRequestView::Snapshot { path }
        },
        StageView::Reading { path, new_path, chunks, permissions } => {
            &&& run.position < run.plan.len()
            &&& run.plan[run.position as int] == PreparedView::Update {
                path,
                new_path,
                chunks,
                permissions,
            }
            &&& request == DiskRequestView::Read { path }
        },
        StageView::Snapshotting { path, new_path, permissions, content } => {
            &&& run.position < run.plan.len()
            &&& run.plan[run.position as int] matches PreparedView::Update {
                path: target,
                new_path: moved,
                permissions: bits,
                ..
            }
            &&& target == path
            &&& moved == new_path
            &&& bits == permissions
            &&& request == DiskRequestView::Snapshot { path }
        },
        StageView::Writing { path, new_path } => {
            &&& run.position < run.plan.len()
            &&& run.plan[run.position as int] matches PreparedView::Update {
                path: target,
                new_path: moved,
                permissions: bits,
                ..
            }
            &&& target == path
            &&& moved == new_path
            &&& run.journal.len() > 0
            &&& run.journal.last() matches OperationStateView::UpdatedFile {
                original_path,
                backup,
                destination,
            }
            &&& original_path == path
            &&& destination == moved_to(path, new_path)
            &&& request matches DiskRequestView::Write { path: written, permissions: asked, .. }
            &&& written == write_target(path, new_path)
            &&& asked == bits
        },
        StageView::RollingBack { pending, .. } => is_undo_only(seq![request] + pending),
        StageView::Committing { pending } => is_discard_only(seq![request] + pending),
    }
}

/// The run can still bring `disk` back to `origin`: while it goes forward,
/// by undoing its journal; while it rolls back without a failure so far, by
/// the undo work that is left.
pub open spec fn keeps_undo(
    run: RunView,
    request: DiskRequestView,
    disk: Map<Seq<char>, DiskEntry>,
    origin: Map<Seq<char>, DiskEntry>,
) -> bool {
    &&& backups_off_plan(run.plan, run.journal)
    &&& stage_fits(run, request)
    &&& match run.stage {
        StageView::RollingBack { pending, first_failure, .. } => first_failure is None
            ==> all_carried_out(seq![request] + pending, disk) == origin,
        StageView::Committing { .. } => true,
        _ => can_undo(run, disk, origin),
    }
}

/// What a step leads to is in order: a run that goes on can still undo; a
/// run that ended in a failure before its commit either reports a failed
/// recovery or has left the disk at `origin`. `committing` says that the
/// step was one of the commit.
pub open spec fn step_is_safe(
    progress: ProgressView,
    disk: Map<Seq<char>, DiskEntry>,
    origin: Map<Seq<char>, DiskEntry>,
    committing: bool,
) -> bool {
    match progress {
        ProgressView::Continue(run, request) => keeps_undo(run, request, disk, origin),
        ProgressView::Finished(Err(error)) => committing || error is Recovery || disk == origin,
        ProgressView::Finished(Ok(_)) => true,
    }
}

proof fn lemma_rollback_is_undo_only(journal: Seq<OperationStateView>, upto: int)
    requires
        0 <= upto <= journal.len(),
    ensures
        is_undo_only(rollback_requests(journal, upto)),
    decreases upto,
{
    if upto > 0 {
        lemma_rollback_is_undo_only(journal, upto - 1);
        let head = undo_requests(journal[upto - 1]);
        let tail = rollback_requests(journal, upto - 1);
        assert forall|k: int| 0 <= k < (head + tail).len() implies match #[trigger] (head + tail)[k] {
            DiskRequestView::Remove { .. } => true,
            DiskRequestView::Restore { .. } => true,
            _ => false,
        } by {
            if k >= head.len() {
                assert((head + tail)[k] == tail[k - head.len()]);
            }
        }
    }
}

proof fn lemma_begin_is_safe(
    run: RunView,
    disk: Map<Seq<char>, DiskEntry>,
    origin: Map<Seq<char>, DiskEntry>,
)
    requires
        backups_off_plan(run.plan, run.journal),
        can_undo(run, disk, origin),
    ensures
        step_is_safe(begin_operation(run), disk, origin, false),
        !(begin_operation(run) is Finished && begin_operation(run)->Finished_0 is Err),
        begin_operation(run) matches ProgressView::Continue(next, _) ==> next.plan == run.plan,
{
    let requests = crate::patch::journal::commit_requests(run.journal, run.journal.len() as int);
    lemma_commit_is_discard_only(run.journal, run.journal.len() as int);
    if requests.len() > 0 {
        assert(seq![requests[0]] + requests.skip(1) =~= requests);
    }
}

proof fn lemma_commit_is_discard_only(journal: Seq<OperationStateView>, upto: int)
    requires
        0 <= upto <= journal.len(),
    ensures
        is_discard_only(crate::patch::journal::commit_requests(journal, upto)),
    decreases upto,
{
    if upto > 0 {
        lemma_commit_is_discard_only(journal, upto - 1);
        let head = crate::patch::journal::settle_requests(journal[upto - 1]);
        let tail = crate::patch::journal::commit_requests(journal, upto - 1);
        assert forall|k: int| 0 <= k < (head + tail).len() implies #[trigger] (head + tail)[k]
            is Discard by {
            if k >= head.len() {
                assert((head + tail)[k] == tail[k - head.len()]);
            }
        }
    }
}

proof fn lemma_committing_is_safe(
    run: RunView,
    request: DiskRequestView,
    reply: DiskReplyView,
    disk: Map<Seq<char>, DiskEntry>,
    after: Map<Seq<char>, DiskEntry>,
    origin: Map<Seq<char>, DiskEntry>,
)
    requires
        run.stage is Committing,
        keeps_undo(run, request, disk, origin),
    ensures
        step_is_safe(run_advanced(run, reply), after, origin, true),
        run_advanced(run, reply) matches ProgressView::Continue(next, _) ==> next.plan == run.plan,
{
    let pending = run.stage->Committing_pending;
    let all = seq![request] + pending;
    assert(is_discard_only(pending)) by {
        assert forall|k: int| 0 <= k < pending.len() implies #[trigger] pending[k] is Discard by {
            assert(pending[k] == all[k + 1]);
        }
    }
    if pending.len() > 0 {
        assert(seq![pending[0]] + pending.skip(1) =~= pending);
    }
}

proof fn lemma_done_is_safe(
    run: RunView,
    detail: Seq<char>,
    disk: Map<Seq<char>, DiskEntry>,
    origin: Map<Seq<char>, DiskEntry>,
)
    requires
        backups_off_plan(run.plan, run.journal),
        can_undo(run, disk, origin),
    ensures
        step_is_safe(operation_done(run, detail), disk, origin, false),
        operation_done(run, detail) matches ProgressView::Continue(next, _) ==> next.plan
            == run.plan,
{
    let next = RunView {
        position: run.position + 1,
        results: run.results.push(
            progress_line(
                run.position + 1,
                progress_total(run.plan.len()),
                detail,
            ),
        ),
        ..run
    };
    lemma_begin_is_safe(next, disk, origin);
}

proof fn lemma_fail_is_safe(
    run: RunView,
    error: PatchErrorView,
    disk: Map<Seq<char>, DiskEntry>,
    origin: Map<Seq<char>, DiskEntry>,
)
    requires
        backups_off_plan(run.plan, run.journal),
        can_undo(run, disk, origin),
    ensures
        step_is_safe(fail_with(run, error), disk, origin, false),
        fail_with(run, error) matches ProgressView::Continue(next, _) ==> next.plan == run.plan,
{
    let requests = rollback_requests(run.journal, run.journal.len() as int);
    lemma_rollback_is_undo_only(run.journal, run.journal.len() as int);
    if requests.len() > 0 {
        assert(seq![requests[0]] + requests.skip(1) =~= requests);
    }
}

proof fn lemma_rolling_back_is_safe(
    run: RunView,
    request: DiskRequestView,
    reply: DiskReplyView,
    disk: Map<Seq<char>, DiskEntry>,
    after: Map<Seq<char>, DiskEntry>,
    origin: Map<Seq<char>, DiskEntry>,
)
    requires
        run.stage is RollingBack,
        keeps_undo(run, request, disk, origin),
        is_faithful(disk, request, reply, after),
    ensures
        step_is_safe(run_advanced(run, reply), after, origin, false),
        run_advanced(run, reply) matches ProgressView::Continue(next, _) ==> next.plan == run.plan,
{
    let pending = run.stage->RollingBack_pending;
    let first_failure = run.stage->RollingBack_first_failure;
    let all = seq![request] + pending;
    assert(all[0] == request);
    assert(all.skip(1) =~= pending);
    assert(is_undo_only(pending)) by {
        assert forall|k: int| 0 <= k < pending.len() implies match #[trigger] pending[k] {
            DiskRequestView::Remove { .. } => true,
            DiskRequestView::Restore { .. } => true,
            _ => false,
        } by {
            assert(pending[k] == all[k + 1]);
        }
    }
    if pending.len() > 0 {
        assert(seq![pending[0]] + pending.skip(1) =~= pending);
    }
    if !(reply is Failed) && first_failure is None {
        assert(after == carried_out(disk, request));
        assert(all_carried_out(all, disk) == all_carried_out(pending, after));
    }
}

/// `path` is named by the operation the run stands at.
proof fn lemma_current_path_is_named(run: RunView, path: Seq<char>)
    requires
        run.position < run.plan.len(),
        operation_names(run.plan[run.position as int], path),
    ensures
        plan_names(run.plan, path),
{
}

proof fn lemma_adding_is_safe(
    run: RunView,
    request: DiskRequestView,
    reply: DiskReplyView,
    disk: Map<Seq<char>, DiskEntry>,
    after: Map<Seq<char>, DiskEntry>,
    origin: Map<Seq<char>, DiskEntry>,
)
    requires
        run.stage is Adding,
        keeps_undo(run, request, disk, origin),
        plan_fits(run.plan, origin),
        is_faithful(disk, request, reply, after),
    ensures
        step_is_safe(run_advanced(run, reply), after, origin, false),
        run_advanced(run, reply) matches ProgressView::Continue(next, _) ==> next.plan == run.plan,
{
    let path = run.stage->Adding_path;
    let bytes = run.stage->Adding_bytes;
    match reply {
        DiskReplyView::Failed(error) => {
            lemma_fail_is_safe(run, error, after, origin);
        },
        _ => {
            let state = OperationStateView::AddedFile { path };
            let next = recorded(run, state);
            let rest = rollback_requests(run.journal, run.journal.len() as int);
            lemma_rollback_after_record(run.journal, state);
            lemma_current_path_is_named(run, path);
            lemma_rollback_is_undo_work(run.plan, run.journal, run.journal.len() as int, path);
            let undo = undo_requests(state) + rest;
            assert(undo[0] == DiskRequestView::Remove { path });
            assert(undo.skip(1) =~= rest);
            assert(carried_out(after, undo[0]) =~= disk.remove(path));
            assert(!origin.contains_key(path));
            lemma_undo_forgets_absent_entry(rest, disk, path);
            assert(can_undo(next, after, origin));
            assert(backups_off_plan(next.plan, next.journal)) by {
                assert forall|k: int| 0 <= k < next.journal.len() implies match record_backup(
                    #[trigger] next.journal[k],
                ) {
                    Some(backup) => !plan_names(next.plan, backup.path),
                    None => true,
                } by {
                    if k < run.journal.len() {
                        assert(next.journal[k] == run.journal[k]);
                    }
                }
            }
            lemma_done_is_safe(next, crate::patch::runner::added_detail(path, bytes), after, origin);
        },
    }
}

proof fn lemma_record_keeps_backups_off_plan(run: RunView, state: OperationStateView)
    requires
        backups_off_plan(run.plan, run.journal),
        match record_backup(state) {
            Some(backup) => !plan_names(run.plan, backup.path),
            None => true,
        },
    ensures
        backups_off_plan(run.plan, recorded(run, state).journal),
{
    let next = recorded(run, state);
    assert forall|k: int| 0 <= k < next.journal.len() implies match record_backup(
        #[trigger] next.journal[k],
    ) {
        Some(backup) => !plan_names(next.plan, backup.path),
        None => true,
    } by {
        if k < run.journal.len() {
            assert(next.journal[k] == run.journal[k]);
        }
    }
}

proof fn lemma_deleting_is_safe(
    run: RunView,
    request: DiskRequestView,
    reply: DiskReplyView,
    disk: Map<Seq<char>, DiskEntry>,
    after: Map<Seq<char>, DiskEntry>,
    origin: Map<Seq<char>, DiskEntry>,
)
    requires
        run.stage is Deleting,
        keeps_undo(run, request, disk, origin),
        is_faithful(disk, request, reply, after),
        reply matches DiskReplyView::Snapshot(Some(backup)) ==> !plan_names(run.plan, backup.path),
    ensures
        step_is_safe(run_advanced(run, reply), after, origin, false),
        run_advanced(run, reply) matches ProgressView::Continue(next, _) ==> next.plan == run.plan,
{
    let path = run.stage->Deleting_path;
    match reply {
        DiskReplyView::Failed(error) => {
            lemma_fail_is_safe(run, error, after, origin);
        },
        DiskReplyView::Snapshot(Some(backup)) => {
            let state = OperationStateView::DeletedFile { original_path: path, backup };
            let next = recorded(run, state);
            let rest = rollback_requests(run.journal, run.journal.len() as int);
            lemma_rollback_after_record(run.journal, state);
            let undo = undo_requests(state) + rest;
            assert(undo[0] == DiskRequestView::Restore { backup, destination: path });
            assert(undo.skip(1) =~= rest);
            lemma_restore_undoes_snapshot(disk, path, backup);
            assert(can_undo(next, after, origin));
            lemma_record_keeps_backups_off_plan(run, state);
            lemma_done_is_safe(next, crate::patch::runner::deleted_detail(path), after, origin);
        },
        _ => {
            lemma_done_is_safe(run, crate::patch::runner::skipped_detail(path), after, origin);
        },
    }
}

proof fn lemma_reading_is_safe(
    run: RunView,
    request: DiskRequestView,
    reply: DiskReplyView,
    disk: Map<Seq<char>, DiskEntry>,
    after: Map<Seq<char>, DiskEntry>,
    origin: Map<Seq<char>, DiskEntry>,
)
    requires
        run.stage is Reading,
        keeps_undo(run, request, disk, origin),
        is_faithful(disk, request, reply, after),
    ensures
        step_is_safe(run_advanced(run, reply), after, origin, false),
        run_advanced(run, reply) matches ProgressView::Continue(next, _) ==> next.plan == run.plan,
{
    let path = run.stage->Reading_path;
    let chunks = run.stage->Reading_chunks;
    match reply {
        DiskReplyView::Failed(error) => {
            lemma_fail_is_safe(run, error, after, origin);
        },
        DiskReplyView::Text(text) => {
            match crate::patch::chunks::patched_text(text, chunks) {
                Ok(content) => {},
                Err(index) => {
                    lemma_fail_is_safe(
                        run,
                        crate::patch::chunks::segment_not_found(path, chunks[index]),
                        after,
                        origin,
                    );
                },
            }
        },
        _ => {},
    }
}

proof fn lemma_snapshotting_is_safe(
    run: RunView,
    request: DiskRequestView,
    reply: DiskReplyView,
    disk: Map<Seq<char>, DiskEntry>,
    after: Map<Seq<char>, DiskEntry>,
    origin: Map<Seq<char>, DiskEntry>,
)
    requires
        run.stage is Snapshotting,
        keeps_undo(run, request, disk, origin),
        plan_fits(run.plan, origin),
        is_faithful(disk, request, reply, after),
        reply matches DiskReplyView::Snapshot(Some(backup)) ==> !plan_names(run.plan, backup.path),
    ensures
        step_is_safe(run_advanced(run, reply), after, origin, false),
        run_advanced(run, reply) matches ProgressView::Continue(next, _) ==> next.plan == run.plan,
{
    let path = run.stage->Snapshotting_path;
    let new_path = run.stage->Snapshotting_new_path;
    match reply {
        DiskReplyView::Failed(error) => {
            lemma_fail_is_safe(run, error, after, origin);
        },
        DiskReplyView::Snapshot(Some(backup)) => {
            let state = OperationStateView::UpdatedFile {
                original_path: path,
                backup,
                destination: moved_to(path, new_path),
            };
            let next = recorded(run, state);
            let rest = rollback_requests(run.journal, run.journal.len() as int);
            lemma_rollback_after_record(run.journal, state);
            lemma_record_keeps_backups_off_plan(run, state);
            let undo = undo_requests(state) + rest;
            let restore = DiskRequestView::Restore { backup, destination: path };
            match moved_to(path, new_path) {
                None => {
                    assert(undo[0] == restore);
                    assert(undo.skip(1) =~= rest);
                    lemma_restore_undoes_snapshot(disk, path, backup);
                    assert(all_carried_out(undo, after) == all_carried_out(rest, disk));
                },
                Some(written) => {
                    lemma_current_path_is_named(run, written);
                    lemma_rollback_is_undo_work(
                        run.plan,
                        run.journal,
                        run.journal.len() as int,
                        written,
                    );
                    let remove = DiskRequestView::Remove { path: written };
                    assert(undo[0] == remove);
                    assert(undo.skip(1)[0] == restore);
                    assert(undo.skip(1).skip(1) =~= rest);
                    assert(carried_out(carried_out(after, remove), restore) =~= disk.remove(written));
                    assert(!origin.contains_key(written));
                    lemma_undo_forgets_absent_entry(rest, disk, written);
                    assert(all_carried_out(undo, after) == all_carried_out(
                        undo.skip(1),
                        carried_out(after, remove),
                    ));
                    assert(all_carried_out(undo.skip(1), carried_out(after, remove))
                        == all_carried_out(rest, disk.remove(written)));
                },
            }
            assert(can_undo(next, after, origin));
        },
        DiskReplyView::Snapshot(None) => {
            lemma_fail_is_safe(
                run,
                PatchErrorView::MissingFile { path },
                after,
                origin,
            );
        },
        _ => {},
    }
}

proof fn lemma_writing_is_safe(
    run: RunView,
    request: DiskRequestView,
    reply: DiskReplyView,
    disk: Map<Seq<char>, DiskEntry>,
    after: Map<Seq<char>, DiskEntry>,
    origin: Map<Seq<char>, DiskEntry>,
)
    requires
        run.stage is Writing,
        keeps_undo(run, request, disk, origin),
        is_faithful(disk, request, reply, after),
    ensures
        step_is_safe(run_advanced(run, reply), after, origin, false),
        run_advanced(run, reply) matches ProgressView::Continue(next, _) ==> next.plan == run.plan,
{
    let path = run.stage->Writing_path;
    let new_path = run.stage->Writing_new_path;
    match reply {
        DiskReplyView::Failed(error) => {
            lemma_fail_is_safe(run, error, after, origin);
        },
        _ => {
            let last = run.journal.last();
            let backup = last->UpdatedFile_backup;
            let target = write_target(path, new_path);
            let undo = rollback_requests(run.journal, run.journal.len() as int);
            let rest = rollback_requests(run.journal, run.journal.len() - 1);
            assert(undo == undo_requests(last) + rest);
            lemma_current_path_is_named(run, path);
            assert(record_backup(last) == Some(backup));
            assert(backup.path != path);
            let entry = DiskEntry::File {
                content: request->Write_content,
                permissions: request->Write_permissions,
            };
            assert(after == disk.insert(target, entry));
            assert(undo.len() > 0);
            lemma_undo_overrides_written_entry(undo[0], disk, target, entry);
            assert(all_carried_out(undo, after) == all_carried_out(undo, disk));
            lemma_done_is_safe(
                run,
                crate::patch::runner::updated_detail(path, new_path),
                after,
                origin,
            );
        },
    }
}

/// One step keeps the way back open. If a run can still bring the disk
/// back to `origin`, and the disk answers its request faithfully, taking
/// snapshots only at paths that the plan does not name, then after its next
/// step the run can still bring the disk back, or it has ended; and if it
/// ended in a failure before its commit, it either reports a failed
/// recovery or has left the disk at `origin`.
pub proof fn law_step_keeps_undo(
    run: RunView,
    request: DiskRequestView,
    reply: DiskReplyView,
    disk: Map<Seq<char>, DiskEntry>,
    after: Map<Seq<char>, DiskEntry>,
    origin: Map<Seq<char>, DiskEntry>,
)
    requires
        keeps_undo(run, request, disk, origin),
        plan_fits(run.plan, origin),
        is_faithful(disk, request, reply, after),
        reply matches DiskReplyView::Snapshot(Some(backup)) ==> !plan_names(run.plan, backup.path),
    ensures
        step_is_safe(run_advanced(run, reply), after, origin, run.stage is Committing),
        run_advanced(run, reply) matches ProgressView::Continue(next, _) ==> next.plan == run.plan,
{
    match run.stage {
        StageView::Adding { .. } => lemma_adding_is_safe(run, request, reply, disk, after, origin),
        StageView::Deleting { .. } => lemma_deleting_is_safe(
            run,
            request,
            reply,
            disk,
            after,
            origin,
        ),
        StageView::Reading { .. } => lemma_reading_is_safe(run, request, reply, disk, after, origin),
        StageView::Snapshotting { .. } => lemma_snapshotting_is_safe(
            run,
            request,
            reply,
            disk,
            after,
            origin,
        ),
        StageView::Writing { .. } => lemma_writing_is_safe(run, request, reply, disk, after, origin),
        StageView::RollingBack { .. } => lemma_rolling_back_is_safe(
            run,
            request,
            reply,
            disk,
            after,
            origin,
        ),
        StageView::Committing { .. } => lemma_committing_is_safe(
            run,
            request,
            reply,
            disk,
            after,
            origin,
        ),
    }
}

/// A run begins with the way back open: nothing is done yet.
pub proof fn law_begin_keeps_undo(plan: Seq<PreparedView>, origin: Map<Seq<char>, DiskEntry>)
    ensures
        step_is_safe(run_begun(plan), origin, origin, false),
        run_begun(plan) matches ProgressView::Continue(next, _) ==> next.plan == plan,
{
    let run = RunView {
        plan,
        position: 0,
        stage: StageView::Committing { pending: Seq::empty() },
        journal: Seq::empty(),
        results: Seq::empty(),
    };
    lemma_begin_is_safe(run, origin, origin);
}

/// Where a run stands after the first `steps` replies.
pub open spec fn progress_after(start: ProgressView, replies: Seq<DiskReplyView>, steps: int) -> ProgressView
    decreases steps,
{
    if steps <= 0 {
        start
    } else {
        match progress_after(start, replies, steps - 1) {
            ProgressView::Continue(run, _) => run_advanced(run, replies[steps - 1]),
            finished => finished,
        }
    }
}

/// The first `steps` steps of a run over `plan` on a model disk:
/// `disks[i]` is the disk before step `i`, and `replies[i]` is a faithful
/// answer to the request of that step, with snapshots taken only at paths
/// that the plan does not name. Once the run is over, the disk stays as it
/// is.
pub open spec fn is_faithful_run(
    plan: Seq<PreparedView>,
    replies: Seq<DiskReplyView>,
    disks: Seq<Map<Seq<char>, DiskEntry>>,
    steps: int,
) -> bool {
    &&& 0 <= steps <= replies.len()
    &&& disks.len() == replies.len() + 1
    &&& forall|i: int|
        0 <= i < steps ==> match #[trigger] progress_after(run_begun(plan), replies, i) {
            ProgressView::Continue(run, request) => {
                &&& is_faithful(disks[i], request, replies[i], disks[i + 1])
                &&& replies[i] matches DiskReplyView::Snapshot(Some(backup)) ==> !plan_names(
                    plan,
                    backup.path,
                )
            },
            ProgressView::Finished(_) => disks[i + 1] == disks[i],
        }
}

proof fn lemma_run_stays_safe(
    plan: Seq<PreparedView>,
    replies: Seq<DiskReplyView>,
    disks: Seq<Map<Seq<char>, DiskEntry>>,
    steps: int,
    upto: int,
)
    requires
        0 <= upto <= steps,
        plan_fits(plan, disks[0]),
        is_faithful_run(plan, replies, disks, steps),
    ensures
        progress_after(run_begun(plan), replies, upto) matches ProgressView::Continue(run, request)
            ==> run.plan == plan && keeps_undo(run, request, disks[upto], disks[0]),
    decreases upto,
{
    if upto == 0 {
        law_begin_keeps_undo(plan, disks[0]);
    } else {
        lemma_run_stays_safe(plan, replies, disks, steps, upto - 1);
        match progress_after(run_begun(plan), replies, upto - 1) {
            ProgressView::Continue(run, request) => {
                law_step_keeps_undo(
                    run,
                    request,
                    replies[upto - 1],
                    disks[upto - 1],
                    disks[upto],
                    disks[0],
                );
            },
            ProgressView::Finished(_) => {},
        }
    }
}

/// Atomicity. A run that ends in a failure before its commit, and whose
/// rollback does not fail, leaves the disk exactly as it found it: every
/// path holds what it held before, and no snapshot is left. `steps` is the
/// step that ended the run.
pub proof fn law_failed_run_changes_nothing(
    plan: Seq<PreparedView>,
    replies: Seq<DiskReplyView>,
    disks: Seq<Map<Seq<char>, DiskEntry>>,
    steps: int,
)
    requires
        steps >= 1,
        plan_fits(plan, disks[0]),
        is_faithful_run(plan, replies, disks, steps),
        progress_after(run_begun(plan), replies, steps - 1) matches ProgressView::Continue(run, _)
            && !(run.stage is Committing),
        progress_after(run_begun(plan), replies, steps) matches ProgressView::Finished(Err(error))
            && !(error is Recovery),
    ensures
        disks[steps] == disks[0],
{
    lemma_run_stays_safe(plan, replies, disks, steps, steps - 1);
    match progress_after(run_begun(plan), replies, steps - 1) {
        ProgressView::Continue(run, request) => {
            law_step_keeps_undo(
                run,
                request,
                replies[steps - 1],
                disks[steps - 1],
                disks[steps],
                disks[0],
            );
        },
        ProgressView::Finished(_) => {},
    }
}

/// Permissions are kept. The write of an update asks for the permission
/// bits that the plan recorded for the file, and a faithful disk gives the
/// written file exactly those bits.
pub proof fn law_update_keeps_permissions(
    run: RunView,
    request: DiskRequestView,
    disk: Map<Seq<char>, DiskEntry>,
    after: Map<Seq<char>, DiskEntry>,
)
    requires
        run.stage is Writing,
        stage_fits(run, request),
        is_faithful(disk, request, DiskReplyView::Done, after),
    ensures
        ({
            let target = write_target(run.stage->Writing_path, run.stage->Writing_new_path);
            &&& after.contains_key(target)
            &&& after[target] matches DiskEntry::File { permissions, .. }
            &&& run.plan[run.position as int] matches PreparedView::Update { permissions: kept, .. }
            &&& permissions == kept
        }),
{
}

/// Record `k` of the journal holds a snapshot that lives at `path`.
pub open spec fn holds_at(journal: Seq<OperationStateView>, k: int, path: Seq<char>) -> bool {
    &&& 0 <= k < journal.len()
    &&& match record_backup(journal[k]) {
        Some(backup) => backup.path == path,
        None => false,
    }
}

/// Some record of the journal holds a snapshot that lives at `path`.
pub open spec fn journal_holds(journal: Seq<OperationStateView>, path: Seq<char>) -> bool {
    exists|k: int| holds_at(journal, k, path)
}

/// Request `k` deletes the snapshot that lives at `path`.
pub open spec fn discards_at(requests: Seq<DiskRequestView>, k: int, path: Seq<char>) -> bool {
    &&& 0 <= k < requests.len()
    &&& match requests[k] {
        DiskRequestView::Discard { backup } => backup.path == path,
        _ => false,
    }
}

/// Some request deletes the snapshot that lives at `path`.
pub open spec fn discards(requests: Seq<DiskRequestView>, path: Seq<char>) -> bool {
    exists|k: int| discards_at(requests, k, path)
}

/// Every snapshot taken so far is accounted for: while the run goes
/// forward, the journal holds it; during the commit, it is deleted already
/// or its deletion is still to come.
pub open spec fn accounts_for(
    run: RunView,
    request: DiskRequestView,
    disk: Map<Seq<char>, DiskEntry>,
    taken: Set<Seq<char>>,
) -> bool {
    match run.stage {
        StageView::Committing { pending } => forall|path: Seq<char>|
            taken.contains(path) ==> !disk.contains_key(path) || discards(
                seq![request] + pending,
                path,
            ),
        StageView::RollingBack { .. } => true,
        _ => forall|path: Seq<char>| taken.contains(path) ==> journal_holds(run.journal, path),
    }
}

/// What a step leads to accounts for every snapshot: a run that goes on
/// does; a run that ended well has left none on the disk.
pub open spec fn step_accounts(
    progress: ProgressView,
    disk: Map<Seq<char>, DiskEntry>,
    taken: Set<Seq<char>>,
) -> bool {
    match progress {
        ProgressView::Continue(run, request) => accounts_for(run, request, disk, taken),
        ProgressView::Finished(Ok(_)) => forall|path: Seq<char>|
            taken.contains(path) ==> !disk.contains_key(path),
        ProgressView::Finished(Err(_)) => true,
    }
}

/// The snapshots taken so far, with the one that `reply` reports.
pub open spec fn taken_with(taken: Set<Seq<char>>, reply: DiskReplyView) -> Set<Seq<char>> {
    match reply {
        DiskReplyView::Snapshot(Some(backup)) => taken.insert(backup.path),
        _ => taken,
    }
}

proof fn lemma_commit_discards_backups(journal: Seq<OperationStateView>, upto: int, at: int)
    requires
        0 <= at < upto <= journal.len(),
        record_backup(journal[at]) is Some,
    ensures
        discards(
            crate::patch::journal::commit_requests(journal, upto),
            record_backup(journal[at])->0.path,
        ),
    decreases upto,
{
    let head = crate::patch::journal::settle_requests(journal[upto - 1]);
    let tail = crate::patch::journal::commit_requests(journal, upto - 1);
    let path = record_backup(journal[at])->0.path;
    if at == upto - 1 {
        assert((head + tail)[0] == head[0]);
        assert(discards_at(head + tail, 0, path));
    } else {
        lemma_commit_discards_backups(journal, upto - 1, at);
        let k = choose|k: int| discards_at(tail, k, path);
        assert((head + tail)[k + head.len()] == tail[k]);
        assert(discards_at(head + tail, k + head.len(), path));
    }
}

proof fn lemma_begin_accounts(run: RunView, disk: Map<Seq<char>, DiskEntry>, taken: Set<Seq<char>>)
    requires
        forall|path: Seq<char>| taken.contains(path) ==> journal_holds(run.journal, path),
    ensures
        step_accounts(begin_operation(run), disk, taken),
{
    let requests = crate::patch::journal::commit_requests(run.journal, run.journal.len() as int);
    if run.position >= run.plan.len() {
        assert forall|path: Seq<char>| taken.contains(path) implies discards(requests, path) by {
            let k = choose|k: int| holds_at(run.journal, k, path);
            lemma_commit_discards_backups(run.journal, run.journal.len() as int, k);
        }
        if requests.len() > 0 {
            assert(seq![requests[0]] + requests.skip(1) =~= requests);
        }
    }
}

proof fn lemma_done_accounts(
    run: RunView,
    detail: Seq<char>,
    disk: Map<Seq<char>, DiskEntry>,
    taken: Set<Seq<char>>,
)
    requires
        forall|path: Seq<char>| taken.contains(path) ==> journal_holds(run.journal, path),
    ensures
        step_accounts(operation_done(run, detail), disk, taken),
{
    let next = RunView {
        position: run.position + 1,
        results: run.results.push(
            progress_line(
                run.position + 1,
                progress_total(run.plan.len()),
                detail,
            ),
        ),
        ..run
    };
    lemma_begin_accounts(next, disk, taken);
}

proof fn lemma_record_accounts(
    run: RunView,
    state: OperationStateView,
    taken: Set<Seq<char>>,
    reply: DiskReplyView,
)
    requires
        forall|path: Seq<char>| taken.contains(path) ==> journal_holds(run.journal, path),
        reply matches DiskReplyView::Snapshot(Some(backup)) ==> record_backup(state) == Some(
            backup,
        ),
    ensures
        forall|path: Seq<char>|
            taken_with(taken, reply).contains(path) ==> journal_holds(
                recorded(run, state).journal,
                path,
            ),
{
    let journal = recorded(run, state).journal;
    assert forall|path: Seq<char>| taken_with(taken, reply).contains(path) implies journal_holds(
        journal,
        path,
    ) by {
        if taken.contains(path) {
            let k = choose|k: int| holds_at(run.journal, k, path);
            assert(journal[k] == run.journal[k]);
            assert(holds_at(journal, k, path));
        } else {
            assert(journal[run.journal.len() as int] == state);
            assert(holds_at(journal, run.journal.len() as int, path));
        }
    }
}

/// One step keeps the snapshots accounted for. If every snapshot taken so
/// far is accounted for and the disk answers faithfully, then after the
/// next step every snapshot, with the one just taken if any, is accounted
/// for; and if the run has ended well, none is left on the disk.
pub proof fn law_step_accounts_for_snapshots(
    run: RunView,
    request: DiskRequestView,
    reply: DiskReplyView,
    disk: Map<Seq<char>, DiskEntry>,
    after: Map<Seq<char>, DiskEntry>,
    taken: Set<Seq<char>>,
)
    requires
        stage_fits(run, request),
        accounts_for(run, request, disk, taken),
        is_faithful(disk, request, reply, after),
    ensures
        step_accounts(run_advanced(run, reply), after, taken_with(taken, reply)),
{
    let now = taken_with(taken, reply);
    match run.stage {
        StageView::Adding { path, bytes } => {
            if reply is Done {
                let state = OperationStateView::AddedFile { path };
                lemma_record_accounts(run, state, taken, reply);
                lemma_done_accounts(
                    recorded(run, state),
                    crate::patch::runner::added_detail(path, bytes),
                    after,
                    now,
                );
            }
        },
        StageView::Deleting { path } => {
            match reply {
                DiskReplyView::Snapshot(Some(backup)) => {
                    let state = OperationStateView::DeletedFile { original_path: path, backup };
                    lemma_record_accounts(run, state, taken, reply);
                    lemma_done_accounts(
                        recorded(run, state),
                        crate::patch::runner::deleted_detail(path),
                        after,
                        now,
                    );
                },
                DiskReplyView::Snapshot(None) => {
                    lemma_done_accounts(run, crate::patch::runner::skipped_detail(path), after, now);
                },
                _ => {},
            }
        },
        StageView::Reading { .. } => {},
        StageView::Snapshotting { path, new_path, .. } => {
            match reply {
                DiskReplyView::Snapshot(Some(backup)) => {
                    let state = OperationStateView::UpdatedFile {
                        original_path: path,
                        backup,
                        destination: moved_to(path, new_path),
                    };
                    lemma_record_accounts(run, state, taken, reply);
                },
                _ => {},
            }
        },
        StageView::Writing { path, new_path } => {
            if reply is Done {
                lemma_done_accounts(
                    run,
                    crate::patch::runner::updated_detail(path, new_path),
                    after,
                    now,
                );
            }
        },
        StageView::RollingBack { .. } => {},
        StageView::Committing { pending } => {
            let all = seq![request] + pending;
            assert(all[0] == request);
            if !(reply is Failed) {
                assert(request is Discard);
                let gone = request->Discard_backup.path;
                assert(after == disk.remove(gone));
                assert forall|path: Seq<char>| now.contains(path) && after.contains_key(
                    path,
                ) implies discards(pending, path) by {
                    let k = choose|k: int| discards_at(all, k, path);
                    assert(k > 0);
                    assert(pending[k - 1] == all[k]);
                    assert(discards_at(pending, k - 1, path));
                }
                if pending.len() > 0 {
                    assert(seq![pending[0]] + pending.skip(1) =~= pending);
                }
            }
        },
    }
}

/// The snapshots that a run has taken in its first `steps` steps.
pub open spec fn taken_after(
    plan: Seq<PreparedView>,
    replies: Seq<DiskReplyView>,
    steps: int,
) -> Set<Seq<char>>
    decreases steps,
{
    if steps <= 0 {
        Set::empty()
    } else {
        match progress_after(run_begun(plan), replies, steps - 1) {
            ProgressView::Continue(_, _) => taken_with(
                taken_after(plan, replies, steps - 1),
                replies[steps - 1],
            ),
            ProgressView::Finished(_) => taken_after(plan, replies, steps - 1),
        }
    }
}

proof fn lemma_run_accounts(
    plan: Seq<PreparedView>,
    replies: Seq<DiskReplyView>,
    disks: Seq<Map<Seq<char>, DiskEntry>>,
    steps: int,
    upto: int,
)
    requires
        0 <= upto <= steps,
        plan_fits(plan, disks[0]),
        is_faithful_run(plan, replies, disks, steps),
    ensures
        step_accounts(
            progress_after(run_begun(plan), replies, upto),
            disks[upto],
            taken_after(plan, replies, upto),
        ),
    decreases upto,
{
    if upto == 0 {
        let run = RunView {
            plan,
            position: 0,
            stage: StageView::Committing { pending: Seq::empty() },
            journal: Seq::empty(),
            results: Seq::empty(),
        };
        lemma_begin_accounts(run, disks[0], Set::empty());
    } else {
        lemma_run_accounts(plan, replies, disks, steps, upto - 1);
        lemma_run_stays_safe(plan, replies, disks, steps, upto - 1);
        match progress_after(run_begun(plan), replies, upto - 1) {
            ProgressView::Continue(run, request) => {
                law_step_accounts_for_snapshots(
                    run,
                    request,
                    replies[upto - 1],
                    disks[upto - 1],
                    disks[upto],
                    taken_after(plan, replies, upto - 1),
                );
            },
            ProgressView::Finished(_) => {},
        }
    }
}

/// The commit removes the snapshots. After a run that ended well, no
/// snapshot that the run has taken is left on the disk.
pub proof fn law_successful_run_leaves_no_snapshot(
    plan: Seq<PreparedView>,
    replies: Seq<DiskReplyView>,
    disks: Seq<Map<Seq<char>, DiskEntry>>,
    steps: int,
    path: Seq<char>,
)
    requires
        plan_fits(plan, disks[0]),
        is_faithful_run(plan, replies, disks, steps),
        progress_after(run_begun(plan), replies, steps) matches ProgressView::Finished(Ok(_)),
        taken_after(plan, replies, steps).contains(path),
    ensures
        !disks[steps].contains_key(path),
{
    lemma_run_accounts(plan, replies, disks, steps, steps);
}

/// Every entry of `disk` was on `origin`, stands at a path that the plan
/// names, or is a snapshot that the run has taken.
pub open spec fn is_within(
    disk: Map<Seq<char>, DiskEntry>,
    origin: Map<Seq<char>, DiskEntry>,
    plan: Seq<PreparedView>,
    taken: Set<Seq<char>>,
) -> bool {
    forall|path: Seq<char>| #[trigger]
        disk.contains_key(path) ==> origin.contains_key(path) || plan_names(plan, path)
            || taken.contains(path)
}

/// What a step leads to has put nothing on the disk but at the paths of
/// the plan and its snapshots. A run that rolls back or has failed is not
/// held to this.
pub open spec fn step_stays_within(
    progress: ProgressView,
    disk: Map<Seq<char>, DiskEntry>,
    origin: Map<Seq<char>, DiskEntry>,
    plan: Seq<PreparedView>,
    taken: Set<Seq<char>>,
) -> bool {
    match progress {
        ProgressView::Continue(run, _) => run.stage is RollingBack || is_within(
            disk,
            origin,
            plan,
            taken,
        ),
        ProgressView::Finished(Ok(_)) => is_within(disk, origin, plan, taken),
        ProgressView::Finished(Err(_)) => true,
    }
}

proof fn lemma_rollback_goes_on(
    run: RunView,
    requests: Seq<DiskRequestView>,
    original: PatchErrorView,
    first_failure: Option<PatchErrorView>,
)
    ensures
        match rollback_next(run, requests, original, first_failure) {
            ProgressView::Continue(next, _) => next.stage is RollingBack,
            ProgressView::Finished(outcome) => outcome is Err,
        },
{
}

proof fn lemma_entries_stay_within(
    plan: Seq<PreparedView>,
    request: DiskRequestView,
    reply: DiskReplyView,
    disk: Map<Seq<char>, DiskEntry>,
    after: Map<Seq<char>, DiskEntry>,
    origin: Map<Seq<char>, DiskEntry>,
    taken: Set<Seq<char>>,
)
    requires
        is_within(disk, origin, plan, taken),
        is_faithful(disk, request, reply, after),
        match request {
            DiskRequestView::Write { path, .. } => plan_names(plan, path),
            DiskRequestView::Restore { .. } => false,
            _ => true,
        },
    ensures
        is_within(after, origin, plan, taken_with(taken, reply)),
{
    let now = taken_with(taken, reply);
    assert forall|path: Seq<char>| #[trigger] after.contains_key(path) implies origin.contains_key(
        path,
    ) || plan_names(plan, path) || now.contains(path) by {
        if disk.contains_key(path) {
            assert(taken.contains(path) ==> now.contains(path));
        }
    }
}

/// A step of a run writes only where the plan says, and moves aside only
/// to the snapshot it reports.
pub proof fn law_step_stays_within(
    run: RunView,
    request: DiskRequestView,
    reply: DiskReplyView,
    disk: Map<Seq<char>, DiskEntry>,
    after: Map<Seq<char>, DiskEntry>,
    origin: Map<Seq<char>, DiskEntry>,
    taken: Set<Seq<char>>,
)
    requires
        stage_fits(run, request),
        run.stage is RollingBack || is_within(disk, origin, run.plan, taken),
        is_faithful(disk, request, reply, after),
    ensures
        step_stays_within(
            run_advanced(run, reply),
            after,
            origin,
            run.plan,
            taken_with(taken, reply),
        ),
{
    let now = taken_with(taken, reply);
    match run.stage {
        StageView::RollingBack { pending, original, first_failure } => {
            match reply {
                DiskReplyView::Failed(error) => {
                    lemma_rollback_goes_on(
                        run,
                        pending,
                        original,
                        match first_failure {
                            Some(first) => Some(first),
                            None => Some(error),
                        },
                    );
                },
                _ => {
                    lemma_rollback_goes_on(run, pending, original, first_failure);
                },
            }
        },
        StageView::Committing { pending } => {
            let requests = seq![request] + pending;
            assert(requests[0] is Discard);
            lemma_entries_stay_within(run.plan, request, reply, disk, after, origin, taken);
        },
        StageView::Adding { path, .. } => {
            lemma_current_path_is_named(run, path);
            lemma_entries_stay_within(run.plan, request, reply, disk, after, origin, taken);
        },
        StageView::Writing { path, new_path } => {
            lemma_current_path_is_named(run, write_target(path, new_path));
            lemma_entries_stay_within(run.plan, request, reply, disk, after, origin, taken);
        },
        _ => {
            lemma_entries_stay_within(run.plan, request, reply, disk, after, origin, taken);
        },
    }
}

proof fn lemma_run_stays_within(
    plan: Seq<PreparedView>,
    replies: Seq<DiskReplyView>,
    disks: Seq<Map<Seq<char>, DiskEntry>>,
    steps: int,
    upto: int,
)
    requires
        0 <= upto <= steps,
        plan_fits(plan, disks[0]),
        is_faithful_run(plan, replies, disks, steps),
    ensures
        step_stays_within(
            progress_after(run_begun(plan), replies, upto),
            disks[upto],
            disks[0],
            plan,
            taken_after(plan, replies, upto),
        ),
    decreases upto,
{
    if upto > 0 {
        lemma_run_stays_within(plan, replies, disks, steps, upto - 1);
        lemma_run_stays_safe(plan, replies, disks, steps, upto - 1);
        match progress_after(run_begun(plan), replies, upto - 1) {
            ProgressView::Continue(run, request) => {
                law_step_stays_within(
                    run,
                    request,
                    replies[upto - 1],
                    disks[upto - 1],
                    disks[upto],
                    disks[0],
                    taken_after(plan, replies, upto - 1),
                );
            },
            ProgressView::Finished(_) => {},
        }
    }
}

/// Nothing is left behind. After a run that ended well, every entry of the
/// disk was there before the run or stands at a path that the plan names:
/// no snapshot and no other file of the run's making is left.
pub proof fn law_successful_run_leaves_no_stray_entry(
    plan: Seq<PreparedView>,
    replies: Seq<DiskReplyView>,
    disks: Seq<Map<Seq<char>, DiskEntry>>,
    steps: int,
    path: Seq<char>,
)
    requires
        plan_fits(plan, disks[0]),
        is_faithful_run(plan, replies, disks, steps),
        progress_after(run_begun(plan), replies, steps) matches ProgressView::Finished(Ok(_)),
        disks[steps].contains_key(path),
    ensures
        disks[0].contains_key(path) || plan_names(plan, path),
{
    lemma_run_stays_within(plan, replies, disks, steps, steps);
    if taken_after(plan, replies, steps).contains(path) {
        law_successful_run_leaves_no_snapshot(plan, replies, disks, steps, path);
    }
}

/// What inspecting `path` on the model disk finds.
pub open spec fn probe_of(disk: Map<Seq<char>, DiskEntry>, path: Seq<char>) -> PathProbeView {
    if !disk.contains_key(path) {
        PathProbeView::Missing
    } else {
        match disk[path] {
            DiskEntry::File { permissions, .. } => PathProbeView::File { permissions },
            DiskEntry::Directory => PathProbeView::Directory,
        }
    }
}

/// The probes say what stands on the disk: for each operation, at the path
/// it names and, for an update with a destination, there too.
pub open spec fn probes_reflect(
    operations: Seq<OperationView>,
    probes: Seq<OperationProbeView>,
    disk: Map<Seq<char>, DiskEntry>,
) -> bool {
    &&& probes.len() == operations.len()
    &&& forall|i: int|
        0 <= i < operations.len() ==> match #[trigger] operations[i] {
            OperationView::AddFile { path, .. } => probes[i].target == probe_of(disk, path),
            OperationView::DeleteFile { path } => probes[i].target == probe_of(disk, path),
            OperationView::UpdateFile { path, new_path, .. } => {
                &&& probes[i].target == probe_of(disk, path)
                &&& match new_path {
                    Some(destination) => probes[i].destination == probe_of(disk, destination),
                    None => true,
                }
            },
        }
}

proof fn lemma_plan_is_made_of_planned(
    operations: Seq<OperationView>,
    probes: Seq<OperationProbeView>,
    upto: int,
)
    requires
        0 <= upto,
        planned_prefix(operations, probes, upto) is Ok,
    ensures
        planned_prefix(operations, probes, upto)->Ok_0.len() == upto,
        forall|i: int|
            0 <= i < upto ==> planned(operations[i], probes[i]) == Ok::<
                PreparedView,
                PatchErrorView,
            >(#[trigger] planned_prefix(operations, probes, upto)->Ok_0[i]),
    decreases upto,
{
    if upto > 0 {
        lemma_plan_is_made_of_planned(operations, probes, upto - 1);
    }
}

/// A plan made from what stands on the disk fits that disk, and each
/// update in it carries the permission bits that its file has on the disk.
pub proof fn law_plan_fits_probed_disk(
    operations: Seq<OperationView>,
    probes: Seq<OperationProbeView>,
    disk: Map<Seq<char>, DiskEntry>,
)
    requires
        probes_reflect(operations, probes, disk),
        planned_patch(operations, probes) is Ok,
    ensures
        plan_fits(planned_patch(operations, probes)->Ok_0, disk),
        forall|i: int|
            0 <= i < planned_patch(operations, probes)->Ok_0.len() ==> match #[trigger] planned_patch(
                operations,
                probes,
            )->Ok_0[i] {
                PreparedView::Update { path, permissions, .. } => disk.contains_key(path)
                    && disk[path] == (DiskEntry::File {
                    content: disk[path]->File_content,
                    permissions,
                }),
                _ => true,
            },
{
    let plan = planned_patch(operations, probes)->Ok_0;
    lemma_plan_is_made_of_planned(operations, probes, operations.len() as int);
    assert forall|i: int| 0 <= i < plan.len() implies match #[trigger] plan[i] {
        PreparedView::Add { path, .. } => !disk.contains_key(path),
        PreparedView::Delete { .. } => true,
        PreparedView::Update { path, new_path, .. } => match moved_to(path, new_path) {
            Some(destination) => !disk.contains_key(destination),
            None => true,
        },
    } by {
        assert(planned(operations[i], probes[i]) == Ok::<PreparedView, PatchErrorView>(plan[i]));
    }
    assert forall|i: int| 0 <= i < plan.len() implies match #[trigger] plan[i] {
        PreparedView::Update { path, permissions, .. } => disk.contains_key(path) && disk[path]
            == (DiskEntry::File { content: disk[path]->File_content, permissions }),
        _ => true,
    } by {
        assert(planned(operations[i], probes[i]) == Ok::<PreparedView, PatchErrorView>(plan[i]));
    }
}

/// `line` is a progress line of step `index + 1` of `total`.
pub open spec fn is_line_of_step(line: Seq<char>, index: int, total: nat) -> bool {
    exists|detail: Seq<char>| line == #[trigger] progress_line((index + 1) as nat, total, detail)
}

/// The lines are the progress lines of the first steps of `total`, in
/// order: line `i` carries the marker `[i+1/total]`.
pub open spec fn are_step_lines(lines: Seq<Seq<char>>, total: nat) -> bool {
    forall|i: int| 0 <= i < lines.len() ==> is_line_of_step(#[trigger] lines[i], i, total)
}

/// The run has one progress line for each operation done, and stands at an
/// operation of the plan while it goes forward and behind the last one
/// while it commits.
pub open spec fn follows_plan(run: RunView) -> bool {
    &&& run.results.len() == run.position
    &&& are_step_lines(run.results, progress_total(run.plan.len()))
    &&& match run.stage {
        StageView::RollingBack { .. } => run.position <= run.plan.len(),
        StageView::Committing { .. } => run.position == run.plan.len(),
        _ => run.position < run.plan.len(),
    }
}

/// What a step leads to follows the plan: a run that goes on does; a run
/// that ended well has one progress line for each operation of the plan.
pub open spec fn step_follows_plan(progress: ProgressView, plan: Seq<PreparedView>) -> bool {
    match progress {
        ProgressView::Continue(run, _) => run.plan == plan && follows_plan(run),
        ProgressView::Finished(Ok(lines)) => lines.len() == plan.len() && are_step_lines(
            lines,
            progress_total(plan.len()),
        ),
        ProgressView::Finished(Err(_)) => true,
    }
}

proof fn lemma_begin_follows_plan(run: RunView)
    requires
        run.results.len() == run.position,
        run.position <= run.plan.len(),
        are_step_lines(run.results, progress_total(run.plan.len())),
    ensures
        step_follows_plan(begin_operation(run), run.plan),
{
}

proof fn lemma_done_follows_plan(run: RunView, detail: Seq<char>)
    requires
        run.results.len() == run.position,
        run.position < run.plan.len(),
        are_step_lines(run.results, progress_total(run.plan.len())),
    ensures
        step_follows_plan(operation_done(run, detail), run.plan),
{
    let total = progress_total(run.plan.len());
    let line = progress_line(run.position + 1, total, detail);
    let next = RunView { position: run.position + 1, results: run.results.push(line), ..run };
    assert(are_step_lines(next.results, total)) by {
        assert forall|i: int| 0 <= i < next.results.len() implies is_line_of_step(
            #[trigger] next.results[i],
            i,
            total,
        ) by {
            if i < run.results.len() {
                assert(next.results[i] == run.results[i]);
            }
        }
    }
    lemma_begin_follows_plan(next);
}

/// One step follows the plan. Whatever the reply, a run that has one
/// progress line per operation done keeps it so, and a run that ends well
/// hands out one progress line for each operation of the plan, the `i`-th
/// marked `[i/N]` with `N` the number of operations.
pub proof fn law_step_follows_plan(run: RunView, reply: DiskReplyView)
    requires
        follows_plan(run),
    ensures
        step_follows_plan(run_advanced(run, reply), run.plan),
{
    match run.stage {
        StageView::Adding { path, bytes } => {
            lemma_done_follows_plan(
                recorded(run, OperationStateView::AddedFile { path }),
                crate::patch::runner::added_detail(path, bytes),
            );
        },
        StageView::Deleting { path } => {
            lemma_done_follows_plan(run, crate::patch::runner::skipped_detail(path));
            if let DiskReplyView::Snapshot(Some(backup)) = reply {
                lemma_done_follows_plan(
                    recorded(run, OperationStateView::DeletedFile { original_path: path, backup }),
                    crate::patch::runner::deleted_detail(path),
                );
            }
        },
        StageView::Reading { .. } => {},
        StageView::Snapshotting { .. } => {},
        StageView::Writing { path, new_path } => {
            lemma_done_follows_plan(run, crate::patch::runner::updated_detail(path, new_path));
        },
        StageView::RollingBack { .. } => {},
        StageView::Committing { .. } => {},
    }
}

/// A run that ends well reports every operation, in order: it hands out as
/// many progress lines as the plan has operations, and the `i`-th line
/// carries the marker `[i/N]`.
pub proof fn law_successful_run_reports_each_operation(
    plan: Seq<PreparedView>,
    replies: Seq<DiskReplyView>,
    steps: int,
)
    requires
        0 <= steps,
    ensures
        step_follows_plan(progress_after(run_begun(plan), replies, steps), plan),
    decreases steps,
{
    if steps == 0 {
        let run = RunView {
            plan,
            position: 0,
            stage: StageView::Committing { pending: Seq::empty() },
            journal: Seq::empty(),
            results: Seq::empty(),
        };
        lemma_begin_follows_plan(run);
    } else {
        law_successful_run_reports_each_operation(plan, replies, steps - 1);
        match progress_after(run_begun(plan), replies, steps - 1) {
            ProgressView::Continue(run, _) => {
                law_step_follows_plan(run, replies[steps - 1]);
            },
            ProgressView::Finished(_) => {},
        }
    }
}

} // verus!
