use std::collections::BTreeMap;
use std::path::PathBuf;

use vtcode_core::patch::atomic::{
    temporary_path, AtomicWrite, WriteProgress, WriteStep, FALLBACK_DIRECTORY, FALLBACK_FILE_NAME,
};
use vtcode_core::patch::error::PatchError;

type Files = BTreeMap<String, (String, Option<u32>)>;

/// Carries out a step on files held in memory.
fn carry_out(files: &mut Files, step: &WriteStep) {
    match step {
        WriteStep::MakeDirectories { .. } | WriteStep::Flush { .. } => {}
        WriteStep::Create { path } => {
            files.insert(path.clone(), (String::new(), None));
        }
        WriteStep::Fill { path, content } => {
            files.get_mut(path).expect("the file was created").0 = content.clone();
        }
        WriteStep::SetPermissions { path, permissions } => {
            files.get_mut(path).expect("the file was created").1 = Some(*permissions);
        }
        WriteStep::Rename { from, to } => {
            let entry = files.remove(from).expect("the file was created");
            files.insert(to.clone(), entry);
        }
        WriteStep::Remove { path } => {
            files.remove(path);
        }
    }
}

fn name_of(step: &WriteStep) -> &'static str {
    match step {
        WriteStep::MakeDirectories { .. } => "directories",
        WriteStep::Create { .. } => "create",
        WriteStep::Fill { .. } => "fill",
        WriteStep::Flush { .. } => "flush",
        WriteStep::SetPermissions { .. } => "permissions",
        WriteStep::Rename { .. } => "rename",
        WriteStep::Remove { .. } => "remove",
    }
}

/// Runs a write of `new text` to `dir/file.txt`; the step named `failing`
/// fails. Gives the steps asked for and how the write ended.
fn run_write(
    files: &mut Files,
    parent: Option<&str>,
    permissions: Option<u32>,
    failing: &[&str],
) -> (Vec<&'static str>, Result<(), PatchError>) {
    let mut asked = Vec::new();
    let mut progress = AtomicWrite::begin(
        "dir/file.txt".to_string(),
        parent.map(str::to_string),
        "dir/.file.txt.1.2.tmp".to_string(),
        "new text".to_string(),
        permissions,
    );
    loop {
        match progress {
            WriteProgress::Finished(outcome) => return (asked, outcome),
            WriteProgress::Continue(write, step) => {
                assert!(asked.len() < 7, "a write takes seven steps at most");
                let name = name_of(&step);
                asked.push(name);
                let reply = if failing.contains(&name) {
                    Err(format!("{name} refused"))
                } else {
                    carry_out(files, &step);
                    Ok(())
                };
                progress = write.advance(reply);
            }
        }
    }
}

fn before() -> Files {
    let mut files = Files::new();
    files.insert("dir/file.txt".to_string(), ("old text".to_string(), Some(0o600)));
    files.insert("dir/other.txt".to_string(), ("other".to_string(), None));
    files
}

fn io_failure(error: PatchError) -> (String, String, String) {
    match error {
        PatchError::Io { action, path, source } => (action, path, source),
        other => panic!("expected an I/O failure, got {other:?}"),
    }
}

#[test]
fn atomic_write_puts_the_file_in_place_and_leaves_no_temporary() {
    let mut files = before();
    let (asked, outcome) = run_write(&mut files, Some("dir"), Some(0o644), &[]);
    assert!(outcome.is_ok());
    assert_eq!(asked, ["directories", "create", "fill", "flush", "permissions", "rename"]);
    let mut expected = before();
    expected.insert("dir/file.txt".to_string(), ("new text".to_string(), Some(0o644)));
    assert_eq!(files, expected);
    assert!(!files.contains_key("dir/.file.txt.1.2.tmp"));
}

#[test]
fn atomic_write_skips_what_is_not_asked_for() {
    let mut files = Files::new();
    let (asked, outcome) = run_write(&mut files, None, None, &[]);
    assert!(outcome.is_ok());
    assert_eq!(asked, ["create", "fill", "flush", "rename"]);
    assert_eq!(files.len(), 1);
    assert_eq!(files["dir/file.txt"], ("new text".to_string(), None));
}

#[test]
fn atomic_write_names_its_steps() {
    let progress = AtomicWrite::begin(
        "dir/file.txt".to_string(),
        Some("dir".to_string()),
        "dir/.file.txt.1.2.tmp".to_string(),
        "new text".to_string(),
        Some(0o640),
    );
    let mut steps = Vec::new();
    let mut progress = progress;
    while let WriteProgress::Continue(write, step) = progress {
        steps.push(format!("{step:?}"));
        progress = write.advance(Ok(()));
    }
    assert_eq!(
        steps,
        [
            r#"MakeDirectories { path: "dir" }"#,
            r#"Create { path: "dir/.file.txt.1.2.tmp" }"#,
            r#"Fill { path: "dir/.file.txt.1.2.tmp", content: "new text" }"#,
            r#"Flush { path: "dir/.file.txt.1.2.tmp" }"#,
            r#"SetPermissions { path: "dir/.file.txt.1.2.tmp", permissions: 416 }"#,
            r#"Rename { from: "dir/.file.txt.1.2.tmp", to: "dir/file.txt" }"#,
        ]
    );
}

#[test]
fn atomic_write_that_cannot_start_asks_for_nothing_more() {
    let mut files = before();
    let (asked, outcome) = run_write(&mut files, Some("dir"), None, &["directories"]);
    assert_eq!(asked, ["directories"]);
    assert_eq!(
        io_failure(outcome.unwrap_err()),
        ("create directories".to_string(), "dir".to_string(), "directories refused".to_string())
    );
    assert_eq!(files, before());

    let (asked, outcome) = run_write(&mut files, Some("dir"), None, &["create"]);
    assert_eq!(asked, ["directories", "create"]);
    assert_eq!(
        io_failure(outcome.unwrap_err()),
        ("create".to_string(), "dir/.file.txt.1.2.tmp".to_string(), "create refused".to_string())
    );
    assert_eq!(files, before());
}

#[test]
fn atomic_write_removes_the_temporary_file_when_a_step_fails() {
    let cases = [
        ("fill", "write", "dir/.file.txt.1.2.tmp", 3),
        ("flush", "flush", "dir/.file.txt.1.2.tmp", 4),
        ("permissions", "set permissions", "dir/.file.txt.1.2.tmp", 5),
        ("rename", "rename", "dir/file.txt", 6),
    ];
    for (failing, action, path, steps) in cases {
        let mut files = before();
        let (asked, outcome) = run_write(&mut files, Some("dir"), Some(0o644), &[failing]);
        assert_eq!(asked.len(), steps + 1, "{failing}");
        assert_eq!(asked[steps - 1], failing);
        assert_eq!(asked[steps], "remove");
        assert_eq!(
            io_failure(outcome.unwrap_err()),
            (action.to_string(), path.to_string(), format!("{failing} refused"))
        );
        assert_eq!(files, before(), "{failing}");
    }
}

#[test]
fn atomic_write_reports_the_first_failure_when_removal_fails_too() {
    let mut files = before();
    let (asked, outcome) = run_write(&mut files, None, None, &["rename", "remove"]);
    assert_eq!(asked, ["create", "fill", "flush", "rename", "remove"]);
    assert_eq!(
        io_failure(outcome.unwrap_err()),
        ("rename".to_string(), "dir/file.txt".to_string(), "rename refused".to_string())
    );
    // The temporary file is all that is left.
    let mut expected = before();
    expected.insert("dir/.file.txt.1.2.tmp".to_string(), ("new text".to_string(), None));
    assert_eq!(files, expected);
}

#[test]
fn temporary_paths_are_siblings_of_their_targets() {
    assert_eq!(
        temporary_path(&PathBuf::from("dir/sub/file.txt"), 7, 9),
        PathBuf::from("dir/sub/.file.txt.7.9.tmp")
    );
    assert_eq!(
        temporary_path(&PathBuf::from("/work/file.txt"), 4242, 1_700_000_000_123_456_789),
        PathBuf::from("/work/.file.txt.4242.1700000000123456789.tmp")
    );
    assert_eq!(temporary_path(&PathBuf::from("file.txt"), 7, 9), PathBuf::from(".file.txt.7.9.tmp"));
    // Without a file name or a parent, the fallbacks stand in.
    assert_eq!((FALLBACK_DIRECTORY, FALLBACK_FILE_NAME), (".", "vtcode-patch"));
    assert_eq!(temporary_path(&PathBuf::from("/"), 7, 9), PathBuf::from("./.vtcode-patch.7.9.tmp"));
    assert_eq!(temporary_path(&PathBuf::from("dir/.."), 7, 9), PathBuf::from("dir/.vtcode-patch.7.9.tmp"));
    assert_eq!(temporary_path(&PathBuf::from(""), 7, 9), PathBuf::from("./.vtcode-patch.7.9.tmp"));
}
