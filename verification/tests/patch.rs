use std::collections::BTreeMap;

use vtcode_core::patch::chunks::{apply_chunks, join_segments, split_segments};
use vtcode_core::patch::error::{PatchError, PatchParseError};
use vtcode_core::patch::journal::{
    temporary_file_name, BackupEntry, BackupKind, DiskRequest, OperationJournal, OperationState,
};
use vtcode_core::patch::model::{check_workspace_path, PatchChunk, PatchLine, PatchOperation};
use vtcode_core::patch::parser::{parse_operations, Patch};
use vtcode_core::patch::planner::{
    plan_operation, plan_operations, OperationProbe, PathProbe, PreparedOperation,
};
use vtcode_core::patch::progress::ProgressMarker;
use vtcode_core::patch::runner::{DiskReply, PatchRun, RunProgress};

/// A workspace held in memory: files with their permission bits, and the
/// snapshots taken of them.
struct MemoryDisk {
    files: BTreeMap<String, (String, Option<u32>)>,
    snapshots: usize,
    /// Requests that fail, by their position in the order of arrival.
    failing: Vec<usize>,
    seen: Vec<String>,
}

impl MemoryDisk {
    fn new(files: &[(&str, &str, Option<u32>)]) -> Self {
        MemoryDisk {
            files: files
                .iter()
                .map(|(path, text, mode)| (path.to_string(), (text.to_string(), *mode)))
                .collect(),
            snapshots: 0,
            failing: Vec::new(),
            seen: Vec::new(),
        }
    }

    fn text(&self, path: &str) -> Option<&str> {
        self.files.get(path).map(|(text, _)| text.as_str())
    }

    fn probe(&self, path: &str) -> PathProbe {
        match self.files.get(path) {
            Some((_, permissions)) => PathProbe::File { permissions: *permissions },
            None => PathProbe::Missing,
        }
    }

    fn probes(&self, operations: &[PatchOperation]) -> Vec<OperationProbe> {
        operations
            .iter()
            .map(|operation| match operation {
                PatchOperation::AddFile { path, .. } | PatchOperation::DeleteFile { path } => {
                    OperationProbe { target: self.probe(path), destination: PathProbe::Missing }
                }
                PatchOperation::UpdateFile { path, new_path, .. } => OperationProbe {
                    target: self.probe(path),
                    destination: match new_path {
                        Some(destination) => self.probe(destination),
                        None => PathProbe::Missing,
                    },
                },
            })
            .collect()
    }

    fn perform(&mut self, request: DiskRequest) -> DiskReply {
        let position = self.seen.len();
        self.seen.push(format!("{:?}", request));
        if self.failing.contains(&position) {
            return DiskReply::Failed(PatchError::Io {
                action: "simulate".to_string(),
                path: String::new(),
                source: "injected failure".to_string(),
            });
        }
        match request {
            DiskRequest::Read { path } => match self.files.get(&path) {
                Some((text, _)) => DiskReply::Text(text.clone()),
                None => DiskReply::Failed(PatchError::Io {
                    action: "read".to_string(),
                    path,
                    source: "not found".to_string(),
                }),
            },
            DiskRequest::Write { path, content, permissions } => {
                self.files.insert(path, (content, permissions));
                DiskReply::Done
            }
            DiskRequest::Snapshot { path } => match self.files.remove(&path) {
                Some(entry) => {
                    self.snapshots += 1;
                    let backup = format!(".{}.{}.tmp", path, self.snapshots);
                    self.files.insert(backup.clone(), entry);
                    DiskReply::Snapshot(Some(BackupEntry { path: backup, kind: BackupKind::File }))
                }
                None => DiskReply::Snapshot(None),
            },
            DiskRequest::Restore { backup, destination } => match self.files.remove(&backup.path) {
                Some(entry) => {
                    self.files.insert(destination, entry);
                    DiskReply::Done
                }
                None => DiskReply::Failed(PatchError::Io {
                    action: "restore".to_string(),
                    path: destination,
                    source: "snapshot is gone".to_string(),
                }),
            },
            DiskRequest::Discard { backup } => {
                self.files.remove(&backup.path);
                DiskReply::Done
            }
            DiskRequest::Remove { path } => {
                self.files.remove(&path);
                DiskReply::Done
            }
        }
    }

    /// Plans and runs `text` against this disk, as the applicator does.
    fn apply(&mut self, text: &str) -> Result<Vec<String>, PatchError> {
        let patch = Patch::parse(text).unwrap();
        let probes = self.probes(patch.operations());
        let plan = plan_operations(patch.operations(), &probes)?;
        let mut progress = PatchRun::begin(plan);
        loop {
            match progress {
                RunProgress::Finished(outcome) => return outcome,
                RunProgress::Continue(run, request) => {
                    let reply = self.perform(request);
                    progress = run.advance(reply);
                }
            }
        }
    }
}

#[test]
fn update_failure_preserves_original_content() {
    let mut disk = MemoryDisk::new(&[("file.txt", "original\n", None)]);
    let before = disk.files.clone();
    let patch_text =
        "*** Begin Patch\n*** Update File: file.txt\n@@\n-missing\n+changed\n*** End Patch";

    let err = disk.apply(patch_text).unwrap_err();
    assert!(matches!(err, PatchError::SegmentNotFound { .. }));

    assert_eq!(disk.text("file.txt"), Some("original\n"));
    assert_eq!(disk.files, before);
}

#[test]
fn update_failure_restores_file_after_partial_write() {
    let mut disk = MemoryDisk::new(&[("source.txt", "line\n", None)]);
    let before = disk.files.clone();
    // Read and snapshot succeed; the write to the new place fails.
    disk.failing = vec![2];
    let patch_text = "*** Begin Patch\n*** Update File: source.txt\n*** Move to: locked/target.txt\n@@\n-line\n+line updated\n*** End Patch";

    let err = disk.apply(patch_text).unwrap_err();
    match &err {
        PatchError::Io { action, .. } => assert_eq!(action, "simulate"),
        other => panic!("expected I/O error, got {other:?}"),
    }

    assert_eq!(disk.text("source.txt"), Some("line\n"));
    assert!(disk.text("locked/target.txt").is_none());
    assert_eq!(disk.files, before);
}

#[test]
fn add_file_validation_errors_when_target_exists() {
    let mut disk = MemoryDisk::new(&[("duplicate.txt", "original\n", None)]);
    let patch_text = "*** Begin Patch\n*** Add File: duplicate.txt\n+hello\n*** End Patch";

    let err = disk.apply(patch_text).unwrap_err();
    assert!(matches!(err, PatchError::InvalidOperation { .. }));
    assert_eq!(err.message(), "invalid patch operation for 'duplicate.txt': target already exists");

    assert_eq!(disk.text("duplicate.txt"), Some("original\n"));
    assert!(disk.seen.is_empty());
}

#[test]
fn update_move_writes_destination_and_cleans_backup() {
    let mut disk = MemoryDisk::new(&[("source.txt", "alpha\n", None)]);
    let patch_text = "*** Begin Patch\n*** Update File: source.txt\n*** Move to: renamed.txt\n@@\n-alpha\n+beta\n*** End Patch";

    let messages = disk.apply(patch_text).unwrap();
    assert_eq!(messages.len(), 1);
    assert!(messages[0].contains("renamed.txt"));
    assert_eq!(messages[0], "[1/1] Updated file: source.txt (moved to renamed.txt)");

    assert!(disk.text("source.txt").is_none());
    assert_eq!(disk.text("renamed.txt"), Some("beta\n"));
    // Nothing but the new file is left: the snapshot is gone.
    assert_eq!(disk.files.len(), 1);
}

#[test]
fn update_preserves_file_permissions() {
    let mut disk = MemoryDisk::new(&[("mode.txt", "keep\n", Some(0o444))]);
    let patch_text =
        "*** Begin Patch\n*** Update File: mode.txt\n@@\n-keep\n+changed\n*** End Patch";

    disk.apply(patch_text).unwrap();

    assert_eq!(disk.files.get("mode.txt"), Some(&("changed\n".to_string(), Some(0o444))));
}

#[test]
fn batch_applies_in_order_and_reports_each_operation() {
    let mut disk = MemoryDisk::new(&[("old.txt", "bye\n", None), ("edit.txt", "one\ntwo\n", None)]);
    let patch_text = "*** Begin Patch\n*** Add File: new.txt\n+héllo\n+world\n*** Delete File: old.txt\n*** Delete File: absent.txt\n*** Update File: edit.txt\n@@\n one\n-two\n+2\n*** End Patch\n";
    let messages = disk.apply(patch_text).unwrap();
    assert_eq!(
        messages,
        vec![
            "[1/4] Added file: new.txt (13 bytes)",
            "[2/4] Deleted file: old.txt",
            "[3/4] File not found, skipped deletion: absent.txt",
            "[4/4] Updated file: edit.txt",
        ]
    );
    assert_eq!(disk.text("new.txt"), Some("héllo\nworld\n"));
    assert_eq!(disk.text("edit.txt"), Some("one\n2\n"));
    assert!(disk.text("old.txt").is_none());
    assert_eq!(disk.files.len(), 2);
}

#[test]
fn successful_run_leaves_nothing_but_what_the_patch_names() {
    let mut disk = MemoryDisk::new(&[
        ("bystander.txt", "untouched\n", Some(0o600)),
        ("old.txt", "bye\n", None),
        ("edit.txt", "one\n", None),
        ("from.txt", "alpha\n", None),
    ]);
    let patch_text = "*** Begin Patch\n*** Add File: new.txt\n+hello\n*** Delete File: old.txt\n*** Update File: edit.txt\n@@\n-one\n+1\n*** Update File: from.txt\n*** Move to: to.txt\n@@\n-alpha\n+beta\n*** End Patch\n";
    disk.apply(patch_text).unwrap();
    // Snapshots were taken on the way, and none is left.
    assert_eq!(disk.snapshots, 3);
    assert_eq!(
        disk.files.keys().map(String::as_str).collect::<Vec<_>>(),
        ["bystander.txt", "edit.txt", "new.txt", "to.txt"]
    );
    assert_eq!(disk.files["bystander.txt"], ("untouched\n".to_string(), Some(0o600)));
    assert!(!disk.files.keys().any(|path| path.ends_with(".tmp")));
}

#[test]
fn failure_in_a_later_operation_undoes_the_earlier_ones() {
    let files = [
        ("old.txt", "bye\n", Some(0o600)),
        ("edit.txt", "one\n", None),
        ("other.txt", "zzz\n", None),
    ];
    let mut disk = MemoryDisk::new(&files);
    let before = disk.files.clone();
    let patch_text = "*** Begin Patch\n*** Add File: new.txt\n+hello\n*** Delete File: old.txt\n*** Update File: edit.txt\n*** Move to: moved.txt\n@@\n-one\n+1\n*** Update File: other.txt\n@@\n-nowhere\n+x\n*** End Patch";
    let err = disk.apply(patch_text).unwrap_err();
    assert_eq!(
        err.message(),
        "failed to locate expected lines in 'other.txt':\nnowhere"
    );
    assert_eq!(disk.files, before);
    // The undo runs latest first: the moved update, the deletion, the addition.
    let undo: Vec<&str> = disk
        .seen
        .iter()
        .map(|request| request.split(' ').next().unwrap())
        .skip_while(|kind| *kind != "Remove")
        .collect();
    assert_eq!(undo, vec!["Remove", "Restore", "Restore", "Remove"]);
}

#[test]
fn failed_rollback_reports_both_failures() {
    let mut disk = MemoryDisk::new(&[("old.txt", "bye\n", None)]);
    // The snapshot works, the write of the added file fails, and so does the
    // restore of the snapshot.
    disk.failing = vec![1, 2];
    let patch_text = "*** Begin Patch\n*** Delete File: old.txt\n*** Add File: new.txt\n+x\n*** End Patch";
    let err = disk.apply(patch_text).unwrap_err();
    match &err {
        PatchError::Recovery { original, rollback } => {
            assert!(matches!(**original, PatchError::Io { .. }));
            assert!(matches!(**rollback, PatchError::Io { .. }));
        }
        other => panic!("expected a failed recovery, got {other:?}"),
    }
    assert!(err.message().starts_with("patch failed: failed to simulate"));
    assert!(err.message().contains("rollback failed as well"));
    assert!(err.message().ends_with("should be inspected"));
}

#[test]
fn commit_failure_is_reported_as_it_is() {
    let mut disk = MemoryDisk::new(&[("old.txt", "bye\n", None)]);
    disk.failing = vec![1];
    let err = disk
        .apply("*** Begin Patch\n*** Delete File: old.txt\n*** End Patch")
        .unwrap_err();
    assert!(matches!(err, PatchError::Io { .. }));
}

#[test]
fn unexpected_reply_stops_the_run() {
    let operations = vec![PatchOperation::AddFile { path: "a".to_string(), content: "x".to_string() }];
    let probes = vec![OperationProbe { target: PathProbe::Missing, destination: PathProbe::Missing }];
    let plan = plan_operations(&operations, &probes).unwrap();
    match PatchRun::begin(plan) {
        RunProgress::Continue(run, DiskRequest::Write { path, content, permissions }) => {
            assert_eq!((path.as_str(), content.as_str(), permissions), ("a", "x", None));
            match run.advance(DiskReply::Text("what".to_string())) {
                RunProgress::Finished(Err(PatchError::InvalidOperation { path, reason })) => {
                    assert_eq!(path, "a");
                    assert_eq!(reason, "unexpected reply from the disk");
                }
                _ => panic!("expected the run to stop"),
            }
        }
        _ => panic!("expected a write request"),
    }
}

#[test]
fn file_vanishing_before_the_snapshot_is_a_missing_file() {
    let operations = vec![PatchOperation::UpdateFile {
        path: "a".to_string(),
        new_path: None,
        chunks: vec![PatchChunk { lines: vec![PatchLine::Addition("x".to_string())] }],
    }];
    let probes = vec![OperationProbe {
        target: PathProbe::File { permissions: None },
        destination: PathProbe::Missing,
    }];
    let plan = plan_operations(&operations, &probes).unwrap();
    let run = match PatchRun::begin(plan) {
        RunProgress::Continue(run, DiskRequest::Read { .. }) => run,
        _ => panic!("expected a read request"),
    };
    let run = match run.advance(DiskReply::Text(String::new())) {
        RunProgress::Continue(run, DiskRequest::Snapshot { .. }) => run,
        _ => panic!("expected a snapshot request"),
    };
    match run.advance(DiskReply::Snapshot(None)) {
        RunProgress::Finished(Err(PatchError::MissingFile { path })) => assert_eq!(path, "a"),
        _ => panic!("expected a missing file"),
    }
}

#[test]
fn parse_reads_every_kind_of_operation() {
    let text = "\n*** Begin Patch\n*** Add File: dir/new.txt\n+first\n+\n+ third\n*** Delete File:  gone.txt \n*** Update File: a.rs\n*** Move to: b.rs\n@@\n ctx\n-old\n+new\n@@  \n+tail\n*** End Patch\n\n";
    let patch = Patch::parse(text).unwrap();
    assert!(!patch.is_empty());
    let expected = vec![
        PatchOperation::AddFile {
            path: "dir/new.txt".to_string(),
            content: "first\n\n third\n".to_string(),
        },
        PatchOperation::DeleteFile { path: "gone.txt".to_string() },
        PatchOperation::UpdateFile {
            path: "a.rs".to_string(),
            new_path: Some("b.rs".to_string()),
            chunks: vec![
                PatchChunk {
                    lines: vec![
                        PatchLine::Context("ctx".to_string()),
                        PatchLine::Removal("old".to_string()),
                        PatchLine::Addition("new".to_string()),
                    ],
                },
                PatchChunk { lines: vec![PatchLine::Addition("tail".to_string())] },
            ],
        },
    ];
    assert_eq!(patch.operations(), &expected);
    assert_eq!(patch.into_operations(), expected);
}

#[test]
fn parse_reports_each_error() {
    let cases: Vec<(&str, PatchParseError)> = vec![
        ("", PatchParseError::MissingBegin { line: 0 }),
        ("\n\n", PatchParseError::MissingBegin { line: 2 }),
        ("hello\n*** Begin Patch", PatchParseError::MissingBegin { line: 0 }),
        ("*** Begin Patch\n*** Delete File: a", PatchParseError::MissingEnd),
        ("*** Begin Patch\n*** End Patch", PatchParseError::NoOperations),
        ("*** Begin Patch\n*** Rename File: a\n*** End Patch", PatchParseError::UnknownHeader { line: 1 }),
        ("*** Begin Patch\n*** Add File: /etc/passwd\n*** End Patch", PatchParseError::InvalidPath { line: 1 }),
        ("*** Begin Patch\n*** Delete File: a/../../b\n*** End Patch", PatchParseError::InvalidPath { line: 1 }),
        ("*** Begin Patch\n*** Update File: \n*** End Patch", PatchParseError::InvalidPath { line: 1 }),
        ("*** Begin Patch\n*** Update File: a\n*** Move to: ..\n@@\n+x\n*** End Patch", PatchParseError::InvalidPath { line: 2 }),
        ("*** Begin Patch\nstray\n*** End Patch", PatchParseError::UnexpectedLine { line: 1 }),
        ("*** Begin Patch\n*** Add File: a\n+x\nstray\n*** End Patch", PatchParseError::UnexpectedLine { line: 3 }),
        ("*** Begin Patch\n*** Delete File: a\n+x\n*** End Patch", PatchParseError::UnexpectedLine { line: 2 }),
        ("*** Begin Patch\n*** Update File: a\n+x\n*** End Patch", PatchParseError::UnexpectedLine { line: 2 }),
        ("*** Begin Patch\n*** Update File: a\n@@\n+x\n\n*** End Patch", PatchParseError::UnexpectedLine { line: 4 }),
        ("*** Begin Patch\n*** Update File: a\n@@ fn main\n+x\n*** End Patch", PatchParseError::UnexpectedLine { line: 2 }),
        ("*** Begin Patch\n*** Add File: a\n*** Move to: b\n*** End Patch", PatchParseError::MisplacedMove { line: 2 }),
        ("*** Begin Patch\n*** Update File: a\n@@\n+x\n*** Move to: b\n*** End Patch", PatchParseError::MisplacedMove { line: 4 }),
        ("*** Begin Patch\n*** Update File: a\n*** Move to: b\n*** Move to: c\n@@\n+x\n*** End Patch", PatchParseError::MisplacedMove { line: 3 }),
        ("*** Begin Patch\n*** Update File: a\n*** End Patch", PatchParseError::EmptyUpdate { line: 2 }),
        ("*** Begin Patch\n*** Update File: a\n@@\n*** End Patch", PatchParseError::EmptyChunk { line: 3 }),
        ("*** Begin Patch\n*** Update File: a\n@@\n@@\n+x\n*** End Patch", PatchParseError::EmptyChunk { line: 3 }),
        ("*** Begin Patch\n*** Delete File: a\n*** End Patch\nmore", PatchParseError::TrailingContent { line: 3 }),
    ];
    for (text, expected) in cases {
        assert_eq!(parse_operations(text), Err(expected), "for {text:?}");
    }
}

#[test]
fn parse_accepts_windows_line_ends() {
    let operations =
        parse_operations("*** Begin Patch\r\n*** Add File: a\r\n+x\r\n*** End Patch\r\n").unwrap();
    assert_eq!(
        operations,
        vec![PatchOperation::AddFile { path: "a".to_string(), content: "x\n".to_string() }]
    );
}

#[test]
fn workspace_paths_are_relative_and_stay_inside() {
    let check = |path: &str| check_workspace_path(&path.chars().collect());
    assert!(check("a"));
    assert!(check("a/b/c.txt"));
    assert!(check("a/../b"));
    assert!(check("./a"));
    assert!(check("a//b"));
    assert!(check("..."));
    assert!(!check(""));
    assert!(!check("/a"));
    assert!(!check(".."));
    assert!(!check("../a"));
    assert!(!check("a/../../b"));
    assert!(!check("a/b/../../.."));
}

fn chunk(lines: &[(char, &str)]) -> PatchChunk {
    PatchChunk {
        lines: lines
            .iter()
            .map(|(kind, text)| match kind {
                '-' => PatchLine::Removal(text.to_string()),
                '+' => PatchLine::Addition(text.to_string()),
                _ => PatchLine::Context(text.to_string()),
            })
            .collect(),
    }
}

#[test]
fn chunks_apply_one_after_the_other_at_the_first_occurrence() {
    let text = "a\nb\na\nb\n";
    let chunks = vec![chunk(&[(' ', "a"), ('-', "b"), ('+', "B")]), chunk(&[('-', "B"), ('+', "b")])];
    // The second chunk finds what the first one wrote.
    assert_eq!(apply_chunks("f", text, &chunks).unwrap(), text);
    let once = vec![chunk(&[(' ', "a"), ('-', "b"), ('+', "B")])];
    assert_eq!(apply_chunks("f", text, &once).unwrap(), "a\nB\na\nb\n");
    let twice = vec![once[0].clone(), once[0].clone()];
    assert_eq!(apply_chunks("f", text, &twice).unwrap(), "a\nB\na\nB\n");
}

#[test]
fn chunks_keep_the_rest_of_the_text_as_it_is() {
    assert_eq!(
        apply_chunks("f", "keep\r\nx\nno newline at end", &vec![chunk(&[('-', "x"), ('+', "y"), ('+', "z")])]).unwrap(),
        "keep\r\ny\nz\nno newline at end"
    );
    assert_eq!(apply_chunks("f", "only", &vec![chunk(&[('-', "only")])]).unwrap(), "");
    assert_eq!(apply_chunks("f", "a\n", &vec![chunk(&[('+', "top")])]).unwrap(), "top\na\n");
    assert_eq!(apply_chunks("f", "untouched\n", &Vec::new()).unwrap(), "untouched\n");
}

#[test]
fn chunk_that_is_not_found_names_path_and_lines() {
    let chunks = vec![chunk(&[('-', "a")]), chunk(&[(' ', "x"), ('-', "y"), ('+', "z")])];
    match apply_chunks("dir/f.txt", "a\nx\n", &chunks) {
        Err(PatchError::SegmentNotFound { path, context }) => {
            assert_eq!(path, "dir/f.txt");
            assert_eq!(context, "x\ny");
        }
        other => panic!("expected a missing segment, got {other:?}"),
    }
}

#[test]
fn segments_split_and_join_back() {
    for text in ["", "a", "a\n", "\n", "a\n\nb", "a\r\nb\n"] {
        let chars: Vec<char> = text.chars().collect();
        let segments = split_segments(&chars);
        assert_eq!(segments.len(), text.matches('\n').count() + 1);
        assert_eq!(join_segments(&segments), chars);
    }
}

fn probe(target: PathProbe, destination: PathProbe) -> OperationProbe {
    OperationProbe { target, destination }
}

fn failed_probe() -> PathProbe {
    PathProbe::Failed { path: "/ws/p".to_string(), source: "denied".to_string() }
}

#[test]
fn planner_checks_each_precondition() {
    let add = PatchOperation::AddFile { path: "a".to_string(), content: "x".to_string() };
    assert!(matches!(
        plan_operation(&add, &probe(PathProbe::Missing, PathProbe::Missing)),
        Ok(PreparedOperation::Add { path: "a", content: "x" })
    ));
    for found in [PathProbe::File { permissions: None }, PathProbe::Directory] {
        let err = plan_operation(&add, &probe(found, PathProbe::Missing)).unwrap_err();
        assert_eq!(err.message(), "invalid patch operation for 'a': target already exists");
    }
    let err = plan_operation(&add, &probe(failed_probe(), PathProbe::Missing)).unwrap_err();
    assert_eq!(err.message(), "failed to inspect '/ws/p': denied");

    let delete = PatchOperation::DeleteFile { path: "d".to_string() };
    for found in [PathProbe::Missing, PathProbe::Directory, failed_probe()] {
        assert!(matches!(
            plan_operation(&delete, &probe(found, PathProbe::Missing)),
            Ok(PreparedOperation::Delete { path: "d" })
        ));
    }

    let update = PatchOperation::UpdateFile {
        path: "u".to_string(),
        new_path: Some("v".to_string()),
        chunks: vec![chunk(&[('+', "x")])],
    };
    let file = || PathProbe::File { permissions: Some(0o640) };
    match plan_operation(&update, &probe(file(), PathProbe::Missing)) {
        Ok(PreparedOperation::Update { path, new_path, chunks, permissions }) => {
            assert_eq!((path, new_path, chunks.len(), permissions), ("u", Some("v"), 1, Some(0o640)));
        }
        other => panic!("expected an update, got {other:?}"),
    }
    let message = |target: PathProbe, destination: PathProbe| {
        plan_operation(&update, &probe(target, destination)).unwrap_err().message()
    };
    assert_eq!(message(PathProbe::Missing, PathProbe::Missing), "file 'u' not found");
    assert_eq!(
        message(PathProbe::Directory, PathProbe::Missing),
        "invalid patch operation for 'u': cannot apply text diff to directory"
    );
    assert_eq!(message(failed_probe(), PathProbe::Missing), "failed to inspect '/ws/p': denied");
    assert_eq!(
        message(file(), file()),
        "invalid patch operation for 'v': destination file already exists"
    );
    assert_eq!(
        message(file(), PathProbe::Directory),
        "invalid patch operation for 'v': destination is a directory"
    );
    assert_eq!(message(file(), failed_probe()), "failed to inspect '/ws/p': denied");

    // A move to the file's own path is no move: the destination is not looked at.
    let in_place = PatchOperation::UpdateFile {
        path: "u".to_string(),
        new_path: Some("u".to_string()),
        chunks: vec![chunk(&[('+', "x")])],
    };
    assert!(plan_operation(&in_place, &probe(file(), file())).is_ok());
}

#[test]
fn planner_refuses_an_empty_patch_and_stops_at_the_first_failure() {
    let err = plan_operations(&Vec::new(), &Vec::new()).unwrap_err();
    assert!(matches!(err, PatchError::NoOperations));
    assert_eq!(err.message(), "patch contains no operations");

    let operations = vec![
        PatchOperation::DeleteFile { path: "d".to_string() },
        PatchOperation::UpdateFile { path: "first".to_string(), new_path: None, chunks: vec![] },
        PatchOperation::AddFile { path: "second".to_string(), content: String::new() },
    ];
    let probes = vec![
        probe(PathProbe::Missing, PathProbe::Missing),
        probe(PathProbe::Missing, PathProbe::Missing),
        probe(PathProbe::Directory, PathProbe::Missing),
    ];
    match plan_operations(&operations, &probes) {
        Err(PatchError::MissingFile { path }) => assert_eq!(path, "first"),
        other => panic!("expected a missing file, got {other:?}"),
    }
}

#[test]
fn progress_marker_formats_step_and_total() {
    let marker = ProgressMarker::new(3, 12);
    assert_eq!(marker.annotate("Added file: a"), "[3/12] Added file: a");
    assert_eq!(ProgressMarker::new(0, 1).annotate(""), "[0/1] ");
    assert_eq!(
        ProgressMarker::new(usize::MAX, 10).annotate("x"),
        format!("[{}/10] x", usize::MAX)
    );
}

#[test]
fn journal_lists_undo_and_commit_work_latest_first() {
    let backup = |name: &str| BackupEntry { path: name.to_string(), kind: BackupKind::File };
    let mut journal = OperationJournal::new();
    assert!(journal.rollback_all().is_empty());
    assert!(journal.commit_all().is_empty());
    journal.record(OperationState::AddedFile { path: "a".to_string() });
    journal.record(OperationState::DeletedFile { original_path: "d".to_string(), backup: backup("bd") });
    journal.record(OperationState::UpdatedFile {
        original_path: "u".to_string(),
        backup: backup("bu"),
        destination: Some("v".to_string()),
    });
    journal.record(OperationState::UpdatedFile {
        original_path: "w".to_string(),
        backup: backup("bw"),
        destination: None,
    });
    let show = |requests: Vec<DiskRequest>| -> Vec<String> {
        requests
            .into_iter()
            .map(|request| match request {
                DiskRequest::Remove { path } => format!("remove {path}"),
                DiskRequest::Restore { backup, destination } => {
                    format!("restore {} to {destination}", backup.path)
                }
                DiskRequest::Discard { backup } => format!("discard {}", backup.path),
                other => format!("{other:?}"),
            })
            .collect()
    };
    assert_eq!(
        show(journal.rollback_all()),
        vec!["restore bw to w", "remove v", "restore bu to u", "restore bd to d", "remove a"]
    );
    assert_eq!(show(journal.commit_all()), vec!["discard bw", "discard bu", "discard bd"]);
}

#[test]
fn patch_error_messages_name_path_and_reason() {
    assert_eq!(
        PatchError::TempPath { path: "a".to_string(), source: "clock".to_string() }.message(),
        "failed to create a temporary path for 'a': clock"
    );
    assert_eq!(PatchError::MissingFile { path: "m".to_string() }.message(), "file 'm' not found");
    let recovery = PatchError::Recovery {
        original: Box::new(PatchError::MissingFile { path: "m".to_string() }),
        rollback: Box::new(PatchError::NoOperations),
    };
    assert_eq!(
        recovery.message(),
        "patch failed: file 'm' not found; rollback failed as well: patch contains no operations; the workspace may hold partial changes and should be inspected"
    );
}

#[test]
fn temporary_names_are_hidden_siblings() {
    assert_eq!(temporary_file_name("file.txt", 4242, 1_700_000_000_123_456_789), ".file.txt.4242.1700000000123456789.tmp");
    assert_eq!(temporary_file_name("", 0, 0), "..0.0.tmp");
    assert_eq!(
        temporary_file_name("a", u32::MAX, u128::MAX),
        format!(".a.{}.{}.tmp", u32::MAX, u128::MAX)
    );
}
