//! The execute phase of a patch, as a state machine.
//!
//! The run hands out one disk request at a time and is told what became of
//! it. It applies the planned operations in order and records how to undo
//! each. When every operation is applied, it commits: the snapshots are
//! deleted. When one fails, it rolls back: the records are undone, latest
//! first, and the failure is reported; if undoing fails too, both failures
//! are reported together.

use crate::patch::chunks::{apply_chunks, patched_text, segment_not_found};
use crate::patch::error::{PatchError, PatchErrorView};
use crate::patch::journal::{
    commit_requests, request_views, rollback_requests, BackupEntry, BackupView, DiskRequest,
    DiskRequestView, OperationJournal, OperationState, OperationStateView,
};
use crate::patch::model::{chunk_views, PatchChunk, PatchLineView};
use crate::patch::planner::{plan_views, PreparedOperation, PreparedView};
use crate::patch::progress::{progress_line, ProgressMarker};
use crate::text::{decimal_digits, decimal_string, same_chars, to_chars};
use vstd::prelude::*;
use vstd::string::{StringExecFns, StringSliceAdditionalSpecFns};
use vstd::utf8::encode_utf8;

verus! {

/// What became of a disk request.
#[derive(Debug)]
pub enum DiskReply {
    /// The work was done.
    Done,
    /// The text that was read.
    Text(String),
    /// The snapshot that was taken, or none if nothing was at the path.
    Snapshot(Option<BackupEntry>),
    /// The work failed and left the disk as it was.
    Failed(PatchError),
}

/// What a disk reply holds.
pub enum DiskReplyView {
    Done,
    Text(Seq<char>),
    Snapshot(Option<BackupView>),
    Failed(PatchErrorView),
}

impl View for DiskReply {
    type V = DiskReplyView;

    open spec fn view(&self) -> DiskReplyView {
        match self {
            DiskReply::Done => DiskReplyView::Done,
            DiskReply::Text(text) => DiskReplyView::Text(text@),
            DiskReply::Snapshot(backup) => DiskReplyView::Snapshot(
                match backup {
                    Some(entry) => Some(entry@),
                    None => None,
                },
            ),
            DiskReply::Failed(error) => DiskReplyView::Failed(error@),
        }
    }
}

/// What the run is waiting for.
pub enum StageView {
    /// The write of an added file of `bytes` bytes.
    Adding { path: Seq<char>, bytes: nat },
    /// The snapshot of a file to delete.
    Deleting { path: Seq<char> },
    /// The text of a file to update.
    Reading {
        path: Seq<char>,
        new_path: Option<Seq<char>>,
        chunks: Seq<Seq<PatchLineView>>,
        permissions: Option<u32>,
    },
    /// The snapshot of a file to update, whose new text is `content`.
    Snapshotting {
        path: Seq<char>,
        new_path: Option<Seq<char>>,
        permissions: Option<u32>,
        content: Seq<char>,
    },
    /// The write of an updated file.
    Writing { path: Seq<char>, new_path: Option<Seq<char>> },
    /// One step of the rollback after `original`; `pending` comes next.
    RollingBack {
        pending: Seq<DiskRequestView>,
        original: PatchErrorView,
        first_failure: Option<PatchErrorView>,
    },
    /// One step of the commit; `pending` comes next.
    Committing { pending: Seq<DiskRequestView> },
}

/// The state of a run.
pub struct RunView {
    pub plan: Seq<PreparedView>,
    /// How many operations are done.
    pub position: nat,
    pub stage: StageView,
    pub journal: Seq<OperationStateView>,
    /// The progress lines so far, one per operation done.
    pub results: Seq<Seq<char>>,
}

/// What a step of the run leads to.
pub enum ProgressView {
    /// The run goes on and asks for this disk work.
    Continue(RunView, DiskRequestView),
    /// The run is over: the progress lines, or the failure.
    Finished(Result<Seq<Seq<char>>, PatchErrorView>),
}

/// The destination of an update that really moves its file.
pub open spec fn moved_to(path: Seq<char>, new_path: Option<Seq<char>>) -> Option<Seq<char>> {
    match new_path {
        Some(destination) => if destination == path {
            None
        } else {
            Some(destination)
        },
        None => None,
    }
}

/// Where an update writes the new text.
pub open spec fn write_target(path: Seq<char>, new_path: Option<Seq<char>>) -> Seq<char> {
    match moved_to(path, new_path) {
        Some(destination) => destination,
        None => path,
    }
}

/// The failure for a reply that does not answer the request.
pub open spec fn unexpected_reply(path: Seq<char>) -> PatchErrorView {
    PatchErrorView::InvalidOperation { path, reason: "unexpected reply from the disk"@ }
}

pub open spec fn added_detail(path: Seq<char>, bytes: nat) -> Seq<char> {
    "Added file: "@ + path + " ("@ + decimal_digits(bytes) + " bytes)"@
}

pub open spec fn deleted_detail(path: Seq<char>) -> Seq<char> {
    "Deleted file: "@ + path
}

pub open spec fn skipped_detail(path: Seq<char>) -> Seq<char> {
    "File not found, skipped deletion: "@ + path
}

pub open spec fn updated_detail(path: Seq<char>, new_path: Option<Seq<char>>) -> Seq<char> {
    match moved_to(path, new_path) {
        Some(destination) => "Updated file: "@ + path + " (moved to "@ + destination + ")"@,
        None => "Updated file: "@ + path,
    }
}

/// The number behind the slash of a progress marker.
pub open spec fn progress_total(plan_len: nat) -> nat {
    if plan_len == 0 {
        1
    } else {
        plan_len
    }
}

/// Hands out the first of `requests` as a commit step, or ends the run
/// with its progress lines if none is left.
pub open spec fn commit_next(run: RunView, requests: Seq<DiskRequestView>) -> ProgressView {
    if requests.len() == 0 {
        ProgressView::Finished(Ok(run.results))
    } else {
        ProgressView::Continue(
            RunView { stage: StageView::Committing { pending: requests.skip(1) }, ..run },
            requests[0],
        )
    }
}

/// What a rollback reports at its end: the failure that caused it, together
/// with the first failure of the rollback itself if there was one.
pub open spec fn rollback_verdict(
    original: PatchErrorView,
    first_failure: Option<PatchErrorView>,
) -> PatchErrorView {
    match first_failure {
        Some(rollback) => PatchErrorView::Recovery {
            original: Box::new(original),
            rollback: Box::new(rollback),
        },
        None => original,
    }
}

/// Hands out the first of `requests` as a rollback step, or ends the run
/// with the verdict if none is left.
pub open spec fn rollback_next(
    run: RunView,
    requests: Seq<DiskRequestView>,
    original: PatchErrorView,
    first_failure: Option<PatchErrorView>,
) -> ProgressView {
    if requests.len() == 0 {
        ProgressView::Finished(Err(rollback_verdict(original, first_failure)))
    } else {
        ProgressView::Continue(
            RunView {
                stage: StageView::RollingBack { pending: requests.skip(1), original, first_failure },
                ..run
            },
            requests[0],
        )
    }
}

/// The run after `error` stopped it: everything recorded is undone.
pub open spec fn fail_with(run: RunView, error: PatchErrorView) -> ProgressView {
    rollback_next(run, rollback_requests(run.journal, run.journal.len() as int), error, None)
}

/// Begins the operation at `run.position`, or the commit if none is left.
pub open spec fn begin_operation(run: RunView) -> ProgressView {
    if run.position >= run.plan.len() {
        commit_next(run, commit_requests(run.journal, run.journal.len() as int))
    } else {
        match run.plan[run.position as int] {
            PreparedView::Add { path, content } => ProgressView::Continue(
                RunView {
                    stage: StageView::Adding { path, bytes: encode_utf8(content).len() },
                    ..run
                },
                DiskRequestView::Write { path, content, permissions: None },
            ),
            PreparedView::Delete { path } => ProgressView::Continue(
                RunView { stage: StageView::Deleting { path }, ..run },
                DiskRequestView::Snapshot { path },
            ),
            PreparedView::Update { path, new_path, chunks, permissions } => ProgressView::Continue(
                RunView {
                    stage: StageView::Reading { path, new_path, chunks, permissions },
                    ..run
                },
                DiskRequestView::Read { path },
            ),
        }
    }
}

/// The run once the operation at `run.position` is done: its progress line
/// is added and the next operation begins.
pub open spec fn operation_done(run: RunView, detail: Seq<char>) -> ProgressView {
    begin_operation(
        RunView {
            position: run.position + 1,
            results: run.results.push(
                progress_line(run.position + 1, progress_total(run.plan.len()), detail),
            ),
            ..run
        },
    )
}

/// The run with one more undo record.
pub open spec fn recorded(run: RunView, state: OperationStateView) -> RunView {
    RunView { journal: run.journal.push(state), ..run }
}

/// The first step of a run over `plan`.
pub open spec fn run_begun(plan: Seq<PreparedView>) -> ProgressView {
    begin_operation(
        RunView {
            plan,
            position: 0,
            stage: StageView::Committing { pending: Seq::empty() },
            journal: Seq::empty(),
            results: Seq::empty(),
        },
    )
}

/// The step that the reply to the outstanding request leads to.
pub open spec fn run_advanced(run: RunView, reply: DiskReplyView) -> ProgressView {
    match run.stage {
        StageView::Adding { path, bytes } => match reply {
            DiskReplyView::Done => operation_done(
                recorded(run, OperationStateView::AddedFile { path }),
                added_detail(path, bytes),
            ),
            DiskReplyView::Failed(error) => fail_with(run, error),
            _ => fail_with(run, unexpected_reply(path)),
        },
        StageView::Deleting { path } => match reply {
            DiskReplyView::Snapshot(Some(backup)) => operation_done(
                recorded(run, OperationStateView::DeletedFile { original_path: path, backup }),
                deleted_detail(path),
            ),
            DiskReplyView::Snapshot(None) => operation_done(run, skipped_detail(path)),
            DiskReplyView::Failed(error) => fail_with(run, error),
            _ => fail_with(run, unexpected_reply(path)),
        },
        StageView::Reading { path, new_path, chunks, permissions } => match reply {
            DiskReplyView::Text(text) => match patched_text(text, chunks) {
                Ok(content) => ProgressView::Continue(
                    RunView {
                        stage: StageView::Snapshotting { path, new_path, permissions, content },
                        ..run
                    },
                    DiskRequestView::Snapshot { path },
                ),
                Err(index) => fail_with(run, segment_not_found(path, chunks[index])),
            },
            DiskReplyView::Failed(error) => fail_with(run, error),
            _ => fail_with(run, unexpected_reply(path)),
        },
        StageView::Snapshotting { path, new_path, permissions, content } => match reply {
            DiskReplyView::Snapshot(Some(backup)) => ProgressView::Continue(
                RunView {
                    stage: StageView::Writing { path, new_path },
                    ..recorded(
                        run,
                        OperationStateView::UpdatedFile {
                            original_path: path,
                            backup,
                            destination: moved_to(path, new_path),
                        },
                    )
                },
                DiskRequestView::Write { path: write_target(path, new_path), content, permissions },
            ),
            DiskReplyView::Snapshot(None) => fail_with(run, PatchErrorView::MissingFile { path }),
            DiskReplyView::Failed(error) => fail_with(run, error),
            _ => fail_with(run, unexpected_reply(path)),
        },
        StageView::Writing { path, new_path } => match reply {
            DiskReplyView::Done => operation_done(run, updated_detail(path, new_path)),
            DiskReplyView::Failed(error) => fail_with(run, error),
            _ => fail_with(run, unexpected_reply(path)),
        },
        StageView::RollingBack { pending, original, first_failure } => match reply {
            DiskReplyView::Failed(error) => rollback_next(
                run,
                pending,
                original,
                match first_failure {
                    Some(first) => Some(first),
                    None => Some(error),
                },
            ),
            _ => rollback_next(run, pending, original, first_failure),
        },
        StageView::Committing { pending } => match reply {
            DiskReplyView::Failed(error) => ProgressView::Finished(Err(error)),
            _ => commit_next(run, pending),
        },
    }
}

/// The views of a list of texts.
pub open spec fn text_views(texts: Seq<String>) -> Seq<Seq<char>> {
    Seq::new(texts.len(), |i: int| texts[i]@)
}

enum Stage<'a> {
    Adding { path: &'a str, bytes: usize },
    Deleting { path: &'a str },
    Reading {
        path: &'a str,
        new_path: Option<&'a str>,
        chunks: &'a Vec<PatchChunk>,
        permissions: Option<u32>,
    },
    Snapshotting {
        path: &'a str,
        new_path: Option<&'a str>,
        permissions: Option<u32>,
        content: String,
    },
    Writing { path: &'a str, new_path: Option<&'a str> },
    RollingBack { pending: Vec<DiskRequest>, original: PatchError, first_failure: Option<PatchError> },
    Committing { pending: Vec<DiskRequest> },
}

spec fn optional_text(text: Option<&str>) -> Option<Seq<char>> {
    match text {
        Some(t) => Some(t@),
        None => None,
    }
}

spec fn optional_error(error: Option<PatchError>) -> Option<PatchErrorView> {
    match error {
        Some(e) => Some(e@),
        None => None,
    }
}

impl<'a> View for Stage<'a> {
    type V = StageView;

    closed spec fn view(&self) -> StageView {
        match self {
            Stage::Adding { path, bytes } => StageView::Adding { path: path@, bytes: *bytes as nat },
            Stage::Deleting { path } => StageView::Deleting { path: path@ },
            Stage::Reading { path, new_path, chunks, permissions } => StageView::Reading {
                path: path@,
                new_path: optional_text(*new_path),
                chunks: chunk_views(chunks@),
                permissions: *permissions,
            },
            Stage::Snapshotting { path, new_path, permissions, content } => StageView::Snapshotting {
                path: path@,
                new_path: optional_text(*new_path),
                permissions: *permissions,
                content: content@,
            },
            Stage::Writing { path, new_path } => StageView::Writing {
                path: path@,
                new_path: optional_text(*new_path),
            },
            Stage::RollingBack { pending, original, first_failure } => StageView::RollingBack {
                pending: request_views(pending@),
                original: original@,
                first_failure: optional_error(*first_failure),
            },
            Stage::Committing { pending } => StageView::Committing {
                pending: request_views(pending@),
            },
        }
    }
}

/// A patch being applied: the plan, how far it has come, and how to undo
/// what was done.
pub struct PatchRun<'a> {
    plan: Vec<PreparedOperation<'a>>,
    position: usize,
    stage: Stage<'a>,
    journal: OperationJournal,
    results: Vec<String>,
}

impl<'a> View for PatchRun<'a> {
    type V = RunView;

    closed spec fn view(&self) -> RunView {
        RunView {
            plan: plan_views(self.plan@),
            position: self.position as nat,
            stage: self.stage@,
            journal: self.journal@,
            results: text_views(self.results@),
        }
    }
}

/// What a step of a run leads to.
pub enum RunProgress<'a> {
    /// The run goes on: do this disk work and tell the run what became of it.
    Continue(PatchRun<'a>, DiskRequest),
    /// The run is over: one progress line per operation, or the failure.
    Finished(Result<Vec<String>, PatchError>),
}

impl<'a> View for RunProgress<'a> {
    type V = ProgressView;

    open spec fn view(&self) -> ProgressView {
        match self {
            RunProgress::Continue(run, request) => ProgressView::Continue(run@, request@),
            RunProgress::Finished(outcome) => ProgressView::Finished(
                match outcome {
                    Ok(lines) => Ok(text_views(lines@)),
                    Err(error) => Err(error@),
                },
            ),
        }
    }
}

fn same_path(a: &str, b: &str) -> (r: bool)
    ensures
        r == (a@ == b@),
{
    let x = to_chars(a);
    let y = to_chars(b);
    same_chars(&x, &y)
}

/// The destination of an update that really moves its file.
fn moved_destination<'a>(path: &'a str, new_path: Option<&'a str>) -> (r: Option<&'a str>)
    ensures
        optional_text(r) == moved_to(path@, optional_text(new_path)),
{
    match new_path {
        Some(destination) => if same_path(destination, path) {
            None
        } else {
            Some(destination)
        },
        None => None,
    }
}

fn unexpected(path: &str) -> (error: PatchError)
    ensures
        error@ == unexpected_reply(path@),
{
    PatchError::InvalidOperation {
        path: path.to_owned(),
        reason: String::from_str("unexpected reply from the disk"),
    }
}

impl<'a> PatchRun<'a> {
    #[verifier::type_invariant]
    spec fn inv(self) -> bool {
        match self.stage {
            Stage::RollingBack { .. } | Stage::Committing { .. } => true,
            _ => self.position < self.plan@.len(),
        }
    }

    fn commit_next(self, requests: Vec<DiskRequest>) -> (progress: RunProgress<'a>)
        ensures
            progress@ == commit_next(self@, request_views(requests@)),
    {
        let mut requests = requests;
        if requests.len() == 0 {
            RunProgress::Finished(Ok(self.results))
        } else {
            let ghost all = request_views(requests@);
            let request = requests.remove(0);
            proof {
                assert(request_views(requests@) =~= all.skip(1));
            }
            RunProgress::Continue(
                PatchRun {
                    plan: self.plan,
                    position: self.position,
                    stage: Stage::Committing { pending: requests },
                    journal: self.journal,
                    results: self.results,
                },
                request,
            )
        }
    }

    fn rollback_next(
        self,
        requests: Vec<DiskRequest>,
        original: PatchError,
        first_failure: Option<PatchError>,
    ) -> (progress: RunProgress<'a>)
        ensures
            progress@ == rollback_next(
                self@,
                request_views(requests@),
                original@,
                optional_error(first_failure),
            ),
    {
        let mut requests = requests;
        if requests.len() == 0 {
            let verdict = match first_failure {
                Some(rollback) => PatchError::Recovery {
                    original: Box::new(original),
                    rollback: Box::new(rollback),
                },
                None => original,
            };
            RunProgress::Finished(Err(verdict))
        } else {
            let ghost all = request_views(requests@);
            let request = requests.remove(0);
            proof {
                assert(request_views(requests@) =~= all.skip(1));
            }
            RunProgress::Continue(
                PatchRun {
                    plan: self.plan,
                    position: self.position,
                    stage: Stage::RollingBack { pending: requests, original, first_failure },
                    journal: self.journal,
                    results: self.results,
                },
                request,
            )
        }
    }

    fn fail_with(self, error: PatchError) -> (progress: RunProgress<'a>)
        ensures
            progress@ == fail_with(self@, error@),
    {
        let requests = self.journal.rollback_all();
        self.rollback_next(requests, error, None)
    }

    fn begin_operation(
        plan: Vec<PreparedOperation<'a>>,
        position: usize,
        journal: OperationJournal,
        results: Vec<String>,
        Ghost(stage): Ghost<StageView>,
    ) -> (progress: RunProgress<'a>)
        requires
            position <= plan@.len(),
        ensures
            progress@ == begin_operation(
                RunView {
                    plan: plan_views(plan@),
                    position: position as nat,
                    stage,
                    journal: journal@,
                    results: text_views(results@),
                },
            ),
    {
        if position >= plan.len() {
            let requests = journal.commit_all();
            let run = PatchRun {
                plan,
                position,
                stage: Stage::Committing { pending: Vec::new() },
                journal,
                results,
            };
            return run.commit_next(requests);
        }
        proof {
            assert(plan_views(plan@)[position as int] == plan@[position as int]@);
        }
        match &plan[position] {
            PreparedOperation::Add { path, content } => {
                let path: &'a str = *path;
                let content: &'a str = *content;
                let request = DiskRequest::Write {
                    path: path.to_owned(),
                    content: content.to_owned(),
                    permissions: None,
                };
                RunProgress::Continue(
                    PatchRun {
                        plan,
                        position,
                        stage: Stage::Adding { path, bytes: content.as_bytes().len() },
                        journal,
                        results,
                    },
                    request,
                )
            },
            PreparedOperation::Delete { path } => {
                let path: &'a str = *path;
                let request = DiskRequest::Snapshot { path: path.to_owned() };
                RunProgress::Continue(
                    PatchRun { plan, position, stage: Stage::Deleting { path }, journal, results },
                    request,
                )
            },
            PreparedOperation::Update { path, new_path, chunks, permissions } => {
                let path: &'a str = *path;
                let new_path: Option<&'a str> = *new_path;
                let chunks: &'a Vec<PatchChunk> = *chunks;
                let permissions: Option<u32> = *permissions;
                let request = DiskRequest::Read { path: path.to_owned() };
                RunProgress::Continue(
                    PatchRun {
                        plan,
                        position,
                        stage: Stage::Reading { path, new_path, chunks, permissions },
                        journal,
                        results,
                    },
                    request,
                )
            },
        }
    }

    fn operation_done(self, detail: String) -> (progress: RunProgress<'a>)
        requires
            self.position < self.plan@.len(),
        ensures
            progress@ == operation_done(self@, detail@),
    {
        let total = self.plan.len();
        let marker = ProgressMarker::new(self.position + 1, total);
        let line = marker.annotate(detail.as_str());
        let ghost before = text_views(self.results@);
        let ghost stage = self.stage@;
        let PatchRun { plan, position, stage: _, journal, results } = self;
        let mut results = results;
        results.push(line);
        proof {
            assert(text_views(results@) =~= before.push(line@));
        }
        Self::begin_operation(plan, position + 1, journal, results, Ghost(stage))
    }

    /// Begins a run over `plan` and hands out its first step.
    pub fn begin(plan: Vec<PreparedOperation<'a>>) -> (progress: RunProgress<'a>)
        ensures
            progress@ == run_begun(plan_views(plan@)),
    {
        let journal = OperationJournal::new();
        let results: Vec<String> = Vec::new();
        proof {
            assert(text_views(results@) =~= Seq::<Seq<char>>::empty());
        }
        Self::begin_operation(
            plan,
            0,
            journal,
            results,
            Ghost(StageView::Committing { pending: Seq::empty() }),
        )
    }

    /// Tells the run what became of the disk work it last asked for, and
    /// gets its next step.
    pub fn advance(self, reply: DiskReply) -> (progress: RunProgress<'a>)
        ensures
            progress@ == run_advanced(self@, reply@),
    {
        proof {
            use_type_invariant(&self);
        }
        let PatchRun { plan, position, stage, journal, results } = self;
        let mut journal = journal;
        match stage {
            Stage::Adding { path, bytes } => {
                let stage = Stage::Adding { path, bytes };
                match reply {
                    DiskReply::Done => {
                        journal.record(OperationState::AddedFile { path: path.to_owned() });
                        let mut detail = String::from_str("Added file: ");
                        detail.append(path);
                        detail.append(" (");
                        detail.append(decimal_string(bytes as u128).as_str());
                        detail.append(" bytes)");
                        PatchRun { plan, position, stage, journal, results }.operation_done(detail)
                    },
                    DiskReply::Failed(error) => PatchRun {
                        plan,
                        position,
                        stage,
                        journal,
                        results,
                    }.fail_with(error),
                    _ => PatchRun { plan, position, stage, journal, results }.fail_with(
                        unexpected(path),
                    ),
                }
            },
            Stage::Deleting { path } => {
                let stage = Stage::Deleting { path };
                match reply {
                    DiskReply::Snapshot(Some(backup)) => {
                        journal.record(
                            OperationState::DeletedFile { original_path: path.to_owned(), backup },
                        );
                        let detail = String::from_str("Deleted file: ").concat(path);
                        PatchRun { plan, position, stage, journal, results }.operation_done(detail)
                    },
                    DiskReply::Snapshot(None) => {
                        let detail = String::from_str("File not found, skipped deletion: ").concat(
                            path,
                        );
                        PatchRun { plan, position, stage, journal, results }.operation_done(detail)
                    },
                    DiskReply::Failed(error) => PatchRun {
                        plan,
                        position,
                        stage,
                        journal,
                        results,
                    }.fail_with(error),
                    _ => PatchRun { plan, position, stage, journal, results }.fail_with(
                        unexpected(path),
                    ),
                }
            },
            Stage::Reading { path, new_path, chunks, permissions } => {
                match reply {
                    DiskReply::Text(text) => match apply_chunks(path, text.as_str(), chunks) {
                        Ok(content) => RunProgress::Continue(
                            PatchRun {
                                plan,
                                position,
                                stage: Stage::Snapshotting { path, new_path, permissions, content },
                                journal,
                                results,
                            },
                            DiskRequest::Snapshot { path: path.to_owned() },
                        ),
                        Err(error) => PatchRun {
                            plan,
                            position,
                            stage: Stage::Reading { path, new_path, chunks, permissions },
                            journal,
                            results,
                        }.fail_with(error),
                    },
                    DiskReply::Failed(error) => PatchRun {
                        plan,
                        position,
                        stage: Stage::Reading { path, new_path, chunks, permissions },
                        journal,
                        results,
                    }.fail_with(error),
                    _ => PatchRun {
                        plan,
                        position,
                        stage: Stage::Reading { path, new_path, chunks, permissions },
                        journal,
                        results,
                    }.fail_with(unexpected(path)),
                }
            },
            Stage::Snapshotting { path, new_path, permissions, content } => {
                match reply {
                    DiskReply::Snapshot(Some(backup)) => {
                        let moved = moved_destination(path, new_path);
                        let destination: Option<String> = match moved {
                            Some(d) => Some(d.to_owned()),
                            None => None,
                        };
                        let target: String = match moved {
                            Some(d) => d.to_owned(),
                            None => path.to_owned(),
                        };
                        journal.record(
                            OperationState::UpdatedFile {
                                original_path: path.to_owned(),
                                backup,
                                destination,
                            },
                        );
                        RunProgress::Continue(
                            PatchRun {
                                plan,
                                position,
                                stage: Stage::Writing { path, new_path },
                                journal,
                                results,
                            },
                            DiskRequest::Write { path: target, content, permissions },
                        )
                    },
                    DiskReply::Snapshot(None) => PatchRun {
                        plan,
                        position,
                        stage: Stage::Snapshotting { path, new_path, permissions, content },
                        journal,
                        results,
                    }.fail_with(PatchError::MissingFile { path: path.to_owned() }),
                    DiskReply::Failed(error) => PatchRun {
                        plan,
                        position,
                        stage: Stage::Snapshotting { path, new_path, permissions, content },
                        journal,
                        results,
                    }.fail_with(error),
                    _ => PatchRun {
                        plan,
                        position,
                        stage: Stage::Snapshotting { path, new_path, permissions, content },
                        journal,
                        results,
                    }.fail_with(unexpected(path)),
                }
            },
            Stage::Writing { path, new_path } => {
                let stage = Stage::Writing { path, new_path };
                match reply {
                    DiskReply::Done => {
                        let mut detail = String::from_str("Updated file: ");
                        detail.append(path);
                        match moved_destination(path, new_path) {
                            Some(destination) => {
                                detail.append(" (moved to ");
                                detail.append(destination);
                                detail.append(")");
                            },
                            None => {},
                        }
                        PatchRun { plan, position, stage, journal, results }.operation_done(detail)
                    },
                    DiskReply::Failed(error) => PatchRun {
                        plan,
                        position,
                        stage,
                        journal,
                        results,
                    }.fail_with(error),
                    _ => PatchRun { plan, position, stage, journal, results }.fail_with(
                        unexpected(path),
                    ),
                }
            },
            Stage::RollingBack { pending, original, first_failure } => {
                let run = PatchRun {
                    plan,
                    position,
                    stage: Stage::Committing { pending: Vec::new() },
                    journal,
                    results,
                };
                match reply {
                    DiskReply::Failed(error) => {
                        let first = match first_failure {
                            Some(first) => Some(first),
                            None => Some(error),
                        };
                        run.rollback_next(pending, original, first)
                    },
                    _ => run.rollback_next(pending, original, first_failure),
                }
            },
            Stage::Committing { pending } => {
                match reply {
                    DiskReply::Failed(error) => RunProgress::Finished(Err(error)),
                    _ => PatchRun {
                        plan,
                        position,
                        stage: Stage::Committing { pending: Vec::new() },
                        journal,
                        results,
                    }.commit_next(pending),
                }
            },
        }
    }
}

} // verus!
