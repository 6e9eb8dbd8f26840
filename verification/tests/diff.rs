use vtcode_core::utils::diff::{
    build_hunk, build_hunks, clamp_context, compute_diff, line_kind, ChangeGroup, DiffLineKind,
    DiffOptions, LineChange, MAX_CONTEXT_LINES,
};

#[test]
fn computes_structured_diff() {
    let before = "a\nb\nc\n";
    let after = "a\nc\nd\n";
    let bundle = compute_diff(
        before,
        after,
        DiffOptions {
            context_lines: 2,
            old_label: Some("old"),
            new_label: Some("new"),
            ..Default::default()
        },
    );

    assert!(!bundle.is_empty);
    assert_eq!(bundle.hunks.len(), 1);
    let hunk = &bundle.hunks[0];
    assert_eq!(hunk.old_start, 1);
    assert_eq!(hunk.new_start, 1);
    assert!(bundle.formatted.contains("@@"));
    assert!(bundle.formatted.contains("-b"));
    assert!(bundle.formatted.contains("+d"));
}

#[test]
fn diff_hunk_lists_every_line_with_its_numbers() {
    let bundle = compute_diff("a\nb\nc\n", "a\nc\nd\n", DiffOptions::default());
    assert_eq!(
        bundle.formatted,
        "@@ -1,3 +1,3 @@\n a\n-b\n c\n+d\n"
    );
    let hunk = &bundle.hunks[0];
    assert_eq!((hunk.old_start, hunk.old_lines, hunk.new_start, hunk.new_lines), (1, 3, 1, 3));
    let lines: Vec<(DiffLineKind, Option<usize>, Option<usize>, &str)> = hunk
        .lines
        .iter()
        .map(|line| (line.kind, line.old_line, line.new_line, line.text.as_str()))
        .collect();
    assert_eq!(
        lines,
        vec![
            (DiffLineKind::Context, Some(1), Some(1), "a\n"),
            (DiffLineKind::Deletion, Some(2), None, "b\n"),
            (DiffLineKind::Context, Some(3), Some(2), "c\n"),
            (DiffLineKind::Addition, None, Some(3), "d\n"),
        ]
    );
}

#[test]
fn diff_of_equal_texts_is_empty() {
    let bundle = compute_diff("same\n", "same\n", DiffOptions::default());
    assert!(bundle.is_empty);
    assert!(bundle.hunks.is_empty());
    assert_eq!(bundle.formatted, "");
}

#[test]
fn diff_header_uses_the_labels_given() {
    let both = DiffOptions { old_label: Some("a.txt"), new_label: Some("b.txt"), ..Default::default() };
    assert!(compute_diff("x\n", "y\n", both).formatted.starts_with("--- a.txt\n+++ b.txt\n@@"));
    let old_only = DiffOptions { old_label: Some("a.txt"), ..Default::default() };
    assert!(compute_diff("x\n", "y\n", old_only).formatted.starts_with("--- a.txt\n+++ a.txt\n@@"));
    let new_only = DiffOptions { new_label: Some("b.txt"), ..Default::default() };
    assert!(compute_diff("x\n", "y\n", new_only).formatted.starts_with("--- b.txt\n+++ b.txt\n@@"));
    assert!(compute_diff("x\n", "y\n", DiffOptions::default()).formatted.starts_with("@@"));
}

#[test]
fn diff_context_and_newline_hint_follow_the_options() {
    let old = "1\n2\n3\n4\n5\n6\n7\n8\n9\n";
    let new = "1\n2\n3\n4\nfive\n6\n7\n8\n9\n";
    let narrow = compute_diff(old, new, DiffOptions { context_lines: 1, ..Default::default() });
    assert_eq!(narrow.formatted, "@@ -4,3 +4,3 @@\n 4\n-5\n+five\n 6\n");
    assert_eq!(narrow.hunks[0].lines.len(), 4);
    assert_eq!((narrow.hunks[0].old_start, narrow.hunks[0].old_lines), (4, 3));
    let far = compute_diff(
        "a\n1\n2\n3\n4\n5\n6\n7\nz\n",
        "A\n1\n2\n3\n4\n5\n6\n7\nZ\n",
        DiffOptions { context_lines: 1, ..Default::default() },
    );
    assert_eq!(far.hunks.len(), 2);
    assert_eq!((far.hunks[1].old_start, far.hunks[1].new_start), (8, 8));
    let hinted = compute_diff("a", "b", DiffOptions::default());
    assert!(hinted.formatted.contains("\\ No newline at end of file"));
    let bare = compute_diff("a", "b", DiffOptions { missing_newline_hint: false, ..Default::default() });
    assert!(!bare.formatted.contains("No newline"));
}

#[test]
fn diff_of_a_pure_insertion_starts_where_the_operation_does() {
    let bundle = compute_diff("", "new\n", DiffOptions::default());
    let hunk = &bundle.hunks[0];
    assert_eq!((hunk.old_start, hunk.old_lines, hunk.new_start, hunk.new_lines), (1, 0, 1, 1));
}

fn change(kind: DiffLineKind, old: Option<usize>, new: Option<usize>) -> LineChange {
    LineChange { kind, old_index: old, new_index: new, text: "t\n".to_string() }
}

#[test]
fn hunks_are_built_from_the_clusters_that_have_operations() {
    let groups = vec![
        ChangeGroup { first: None, changes: Vec::new() },
        ChangeGroup {
            first: Some((4, 9)),
            changes: vec![
                change(DiffLineKind::Context, Some(4), Some(9)),
                change(DiffLineKind::Addition, None, Some(10)),
                change(DiffLineKind::Addition, None, Some(11)),
            ],
        },
        ChangeGroup { first: Some((7, 2)), changes: Vec::new() },
    ];
    let hunks = build_hunks(groups);
    assert_eq!(hunks.len(), 2);
    assert_eq!(
        (hunks[0].old_start, hunks[0].old_lines, hunks[0].new_start, hunks[0].new_lines),
        (5, 1, 10, 3)
    );
    assert_eq!(hunks[0].lines[1].new_line, Some(11));
    assert_eq!(
        (hunks[1].old_start, hunks[1].old_lines, hunks[1].new_start, hunks[1].new_lines),
        (8, 0, 3, 0)
    );
    let edge = build_hunk(
        ChangeGroup {
            first: Some((0, 0)),
            changes: vec![change(DiffLineKind::Deletion, Some(usize::MAX), None)],
        },
        (0, 0),
    );
    assert_eq!((edge.old_start, edge.old_lines, edge.new_start), (usize::MAX, 1, 1));
}

#[test]
fn change_tags_map_to_line_kinds() {
    assert_eq!(line_kind(similar::ChangeTag::Equal), DiffLineKind::Context);
    assert_eq!(line_kind(similar::ChangeTag::Delete), DiffLineKind::Deletion);
    assert_eq!(line_kind(similar::ChangeTag::Insert), DiffLineKind::Addition);
}

#[test]
fn diff_context_beyond_the_widest_is_cut() {
    assert_eq!(MAX_CONTEXT_LINES, usize::MAX / 2);
    assert_eq!(clamp_context(0), 0);
    assert_eq!(clamp_context(3), 3);
    assert_eq!(clamp_context(MAX_CONTEXT_LINES), MAX_CONTEXT_LINES);
    assert_eq!(clamp_context(MAX_CONTEXT_LINES + 1), MAX_CONTEXT_LINES);
    assert_eq!(clamp_context(usize::MAX), MAX_CONTEXT_LINES);
    // Equal texts have no hunk, however wide the context.
    let same = compute_diff("a\n", "a\n", DiffOptions { context_lines: usize::MAX, ..Default::default() });
    assert!(same.is_empty);
    assert_eq!(same.formatted, "");
    // A context wider than the text shows all of it, in one hunk.
    let old = "1\n2\n3\n4\n5\n6\n7\n8\n9\n";
    let new = "1\n2\n3\n4\nfive\n6\n7\n8\n9\n";
    let whole = compute_diff(old, new, DiffOptions { context_lines: 100, ..Default::default() });
    for context_lines in [MAX_CONTEXT_LINES, MAX_CONTEXT_LINES + 1, usize::MAX] {
        let widest = compute_diff(old, new, DiffOptions { context_lines, ..Default::default() });
        assert_eq!(widest.formatted, whole.formatted);
        assert_eq!(widest.hunks.len(), 1);
        assert_eq!(widest.hunks[0].lines.len(), 10);
        assert_eq!((widest.hunks[0].old_start, widest.hunks[0].old_lines), (1, 9));
    }
    let labelled = compute_diff(
        old,
        new,
        DiffOptions {
            context_lines: usize::MAX,
            old_label: Some("a.txt"),
            new_label: Some("b.txt"),
            missing_newline_hint: true,
        },
    );
    assert!(labelled.formatted.starts_with("--- a.txt\n+++ b.txt\n@@ -1,9 +1,9 @@\n"));
}
