//! Structured diffs: hunks with line numbers, beside the unified text.
//!
//! The line diff and its unified rendering come from the `similar` crate
//! and are named here, not described; the hunks are computed from the line
//! diff by this module.

use similar::{ChangeTag, TextDiff};
use vstd::prelude::*;

verus! {

/// Options for diff generation.
#[derive(Debug, Clone)]
pub struct DiffOptions<'a> {
    /// Number of context lines around changes.
    pub context_lines: usize,
    /// Label for the old side of the diff.
    pub old_label: Option<&'a str>,
    /// Label for the new side of the diff.
    pub new_label: Option<&'a str>,
    /// Whether to say so when a side does not end in a line feed.
    pub missing_newline_hint: bool,
}

impl<'a> Default for DiffOptions<'a> {
    /// Three lines of context, no labels, and the missing-newline hint.
    fn default() -> (r: Self)
        ensures
            r.context_lines == 3,
            r.old_label is None,
            r.new_label is None,
            r.missing_newline_hint,
    {
        DiffOptions { context_lines: 3, old_label: None, new_label: None, missing_newline_hint: true }
    }
}

/// What a line of a hunk is.
#[derive(Debug, Clone, Copy, PartialEq, Eq, Structural)]
pub enum DiffLineKind {
    /// Unchanged between the versions.
    Context,
    /// Added in the new version.
    Addition,
    /// Removed from the old version.
    Deletion,
}

/// A line of a hunk.
#[derive(Debug, Clone)]
pub struct DiffLine {
    pub kind: DiffLineKind,
    /// Line number in the old text, from one.
    pub old_line: Option<usize>,
    /// Line number in the new text, from one.
    pub new_line: Option<usize>,
    /// The line, with its line feed if it has one.
    pub text: String,
}

/// A run of changes with the context around them.
#[derive(Debug, Clone)]
pub struct DiffHunk {
    /// First line of the hunk in the old text, from one.
    pub old_start: usize,
    /// Lines of the old text that the hunk spans.
    pub old_lines: usize,
    /// First line of the hunk in the new text, from one.
    pub new_start: usize,
    /// Lines of the new text that the hunk spans.
    pub new_lines: usize,
    pub lines: Vec<DiffLine>,
}

/// A diff as hunks and as unified text.
#[derive(Debug, Clone)]
pub struct DiffBundle {
    pub hunks: Vec<DiffHunk>,
    /// The diff in unified format.
    pub formatted: String,
    /// Whether the two texts are the same.
    pub is_empty: bool,
}

/// One line of a line diff, as `similar` reports it: what happened to the
/// line, its positions in the old and the new text, counted from zero, and
/// the line itself.
#[derive(Debug, Clone)]
pub struct LineChange {
    pub kind: DiffLineKind,
    pub old_index: Option<usize>,
    pub new_index: Option<usize>,
    pub text: String,
}

/// A cluster of changes with its context, as `similar` groups them:
/// where its first operation starts in the old and the new text, counted
/// from zero, or `None` for a cluster without operations; and its lines.
#[derive(Debug, Clone)]
pub struct ChangeGroup {
    pub first: Option<(usize, usize)>,
    pub changes: Vec<LineChange>,
}

/// What a line of a line diff holds.
pub struct LineChangeView {
    pub kind: DiffLineKind,
    pub old_index: Option<usize>,
    pub new_index: Option<usize>,
    pub text: Seq<char>,
}

/// What a cluster of changes holds.
pub struct ChangeGroupView {
    pub first: Option<(usize, usize)>,
    pub changes: Seq<LineChangeView>,
}

impl View for LineChange {
    type V = LineChangeView;

    open spec fn view(&self) -> LineChangeView {
        LineChangeView {
            kind: self.kind,
            old_index: self.old_index,
            new_index: self.new_index,
            text: self.text@,
        }
    }
}

/// The views of a list of line changes.
pub open spec fn change_views(changes: Seq<LineChange>) -> Seq<LineChangeView> {
    Seq::new(changes.len(), |i: int| changes[i]@)
}

impl View for ChangeGroup {
    type V = ChangeGroupView;

    open spec fn view(&self) -> ChangeGroupView {
        ChangeGroupView { first: self.first, changes: change_views(self.changes@) }
    }
}

/// The views of a list of clusters.
pub open spec fn group_views(groups: Seq<ChangeGroup>) -> Seq<ChangeGroupView> {
    Seq::new(groups.len(), |i: int| groups[i]@)
}

/// The line diff of two texts, clustered with `context_lines` lines of
/// context, as `similar` computes it.
pub uninterp spec fn similar_groups(
    old: Seq<char>,
    new: Seq<char>,
    context_lines: usize,
) -> Seq<ChangeGroupView>;

/// The unified rendering of the line diff of two texts, as `similar`
/// writes it, with the given context, newline hint and header.
pub uninterp spec fn similar_unified(
    old: Seq<char>,
    new: Seq<char>,
    context_lines: usize,
    missing_newline_hint: bool,
    header: Option<(Seq<char>, Seq<char>)>,
) -> Seq<char>;

/// The widest context that a line diff is made with: `similar` doubles the
/// context while it clusters, and the double has to fit.
pub const MAX_CONTEXT_LINES: usize = usize::MAX / 2;

/// The context that a diff is made with: the one asked for, cut to the
/// widest.
pub open spec fn effective_context(context_lines: usize) -> usize {
    if context_lines <= MAX_CONTEXT_LINES {
        context_lines
    } else {
        MAX_CONTEXT_LINES
    }
}

/// Cuts a context to the widest that a line diff is made with.
pub fn clamp_context(context_lines: usize) -> (r: usize)
    ensures
        r == effective_context(context_lines),
        r <= MAX_CONTEXT_LINES,
{
    if context_lines <= MAX_CONTEXT_LINES {
        context_lines
    } else {
        MAX_CONTEXT_LINES
    }
}

/// `similar::ChangeTag`: what happened to a line.
#[verifier::external_type_specification]
pub struct ExChangeTag(ChangeTag);

/// The kind of hunk line for a change: equal lines are context.
pub fn line_kind(tag: ChangeTag) -> (kind: DiffLineKind)
    ensures
        kind == match tag {
            ChangeTag::Equal => DiffLineKind::Context,
            ChangeTag::Delete => DiffLineKind::Deletion,
            ChangeTag::Insert => DiffLineKind::Addition,
        },
{
    match tag {
        ChangeTag::Equal => DiffLineKind::Context,
        ChangeTag::Delete => DiffLineKind::Deletion,
        ChangeTag::Insert => DiffLineKind::Addition,
    }
}

/// `TextDiff::from_lines`, `grouped_ops` and `iter_changes`: the clusters of
/// the line diff, each with the start of its first operation and with its
/// lines in order. The context is one that `grouped_ops` can double.
#[verifier::external_body]
fn diff_groups(old: &str, new: &str, context_lines: usize) -> (groups: Vec<ChangeGroup>)
    requires
        context_lines <= MAX_CONTEXT_LINES,
    ensures
        group_views(groups@) == similar_groups(old@, new@, context_lines),
{
    let diff = TextDiff::from_lines(old, new);
    let line = |change: similar::Change<&str>| LineChange {
        kind: line_kind(change.tag()),
        old_index: change.old_index(),
        new_index: change.new_index(),
        text: change.value().to_string(),
    };
    let group = |ops: &Vec<similar::DiffOp>| ChangeGroup {
        first: ops.first().map(|op| (op.old_range().start, op.new_range().start)),
        changes: ops.iter().flat_map(|op| diff.iter_changes(op)).map(line).collect(),
    };
    diff.grouped_ops(context_lines).iter().map(group).collect()
}

/// `TextDiff::unified_diff`, written out without a header. The context is
/// one that the clustering behind it can double.
#[verifier::external_body]
fn unified_text(old: &str, new: &str, context_lines: usize, missing_newline_hint: bool) -> (text:
    String)
    requires
        context_lines <= MAX_CONTEXT_LINES,
    ensures
        text@ == similar_unified(old@, new@, context_lines, missing_newline_hint, None),
{
    let diff = TextDiff::from_lines(old, new);
    let mut unified = diff.unified_diff();
    unified.context_radius(context_lines).missing_newline_hint(missing_newline_hint);
    unified.to_string()
}

/// `TextDiff::unified_diff`, written out under a header with the two
/// labels. The context is one that the clustering behind it can double.
#[verifier::external_body]
fn unified_text_with_header(
    old: &str,
    new: &str,
    context_lines: usize,
    missing_newline_hint: bool,
    old_label: &str,
    new_label: &str,
) -> (text: String)
    requires
        context_lines <= MAX_CONTEXT_LINES,
    ensures
        text@ == similar_unified(
            old@,
            new@,
            context_lines,
            missing_newline_hint,
            Some((old_label@, new_label@)),
        ),
{
    let diff = TextDiff::from_lines(old, new);
    let mut unified = diff.unified_diff();
    unified.context_radius(context_lines).missing_newline_hint(missing_newline_hint);
    unified.header(old_label, new_label).to_string()
}

/// The line number, counted from one, of the line at `index`, counted from
/// zero.
pub open spec fn line_number(index: usize) -> usize {
    if index == usize::MAX {
        usize::MAX
    } else {
        (index + 1) as usize
    }
}

/// The line number of an optional position.
pub open spec fn optional_line_number(index: Option<usize>) -> Option<usize> {
    match index {
        Some(i) => Some(line_number(i)),
        None => None,
    }
}

/// What a line of a hunk holds.
pub struct DiffLineView {
    pub kind: DiffLineKind,
    pub old_line: Option<usize>,
    pub new_line: Option<usize>,
    pub text: Seq<char>,
}

impl View for DiffLine {
    type V = DiffLineView;

    open spec fn view(&self) -> DiffLineView {
        DiffLineView {
            kind: self.kind,
            old_line: self.old_line,
            new_line: self.new_line,
            text: self.text@,
        }
    }
}

/// The views of a list of hunk lines.
pub open spec fn line_views(lines: Seq<DiffLine>) -> Seq<DiffLineView> {
    Seq::new(lines.len(), |i: int| lines[i]@)
}

/// What a hunk holds.
pub struct DiffHunkView {
    pub old_start: usize,
    pub old_lines: usize,
    pub new_start: usize,
    pub new_lines: usize,
    pub lines: Seq<DiffLineView>,
}

impl View for DiffHunk {
    type V = DiffHunkView;

    open spec fn view(&self) -> DiffHunkView {
        DiffHunkView {
            old_start: self.old_start,
            old_lines: self.old_lines,
            new_start: self.new_start,
            new_lines: self.new_lines,
            lines: line_views(self.lines@),
        }
    }
}

/// The views of a list of hunks.
pub open spec fn hunk_views(hunks: Seq<DiffHunk>) -> Seq<DiffHunkView> {
    Seq::new(hunks.len(), |i: int| hunks[i]@)
}

/// The line of a hunk for a line of the diff: the same line, with its
/// positions as line numbers.
pub open spec fn hunk_line(change: LineChangeView) -> DiffLineView {
    DiffLineView {
        kind: change.kind,
        old_line: optional_line_number(change.old_index),
        new_line: optional_line_number(change.new_index),
        text: change.text,
    }
}

/// The smaller of an optional bound and a value.
pub open spec fn lower(bound: Option<usize>, value: Option<usize>) -> Option<usize> {
    match (bound, value) {
        (Some(b), Some(v)) => Some(if v < b {
            v
        } else {
            b
        }),
        (None, Some(v)) => Some(v),
        (b, None) => b,
    }
}

/// The larger of an optional bound and a value.
pub open spec fn upper(bound: Option<usize>, value: Option<usize>) -> Option<usize> {
    match (bound, value) {
        (Some(b), Some(v)) => Some(if v > b {
            v
        } else {
            b
        }),
        (None, Some(v)) => Some(v),
        (b, None) => b,
    }
}

/// The lowest line number on one side among the first `upto` lines.
pub open spec fn first_line(changes: Seq<LineChangeView>, old_side: bool, upto: int) -> Option<usize>
    decreases upto,
{
    if upto <= 0 {
        None
    } else {
        lower(
            first_line(changes, old_side, upto - 1),
            optional_line_number(
                if old_side {
                    changes[upto - 1].old_index
                } else {
                    changes[upto - 1].new_index
                },
            ),
        )
    }
}

/// The highest line number on one side among the first `upto` lines.
pub open spec fn last_line(changes: Seq<LineChangeView>, old_side: bool, upto: int) -> Option<usize>
    decreases upto,
{
    if upto <= 0 {
        None
    } else {
        upper(
            last_line(changes, old_side, upto - 1),
            optional_line_number(
                if old_side {
                    changes[upto - 1].old_index
                } else {
                    changes[upto - 1].new_index
                },
            ),
        )
    }
}

/// How many lines lie between two line numbers, both included; zero where
/// the side has no line.
pub open spec fn span(first: Option<usize>, last: Option<usize>) -> usize {
    match (first, last) {
        (Some(min), Some(max)) => if max < min {
            1
        } else if max - min == usize::MAX {
            usize::MAX
        } else {
            (max - min + 1) as usize
        },
        _ => 0,
    }
}

/// The hunk of a cluster whose first operation starts at `first`: its
/// lines with their line numbers; on each side the first line number that
/// occurs, or else the start of the first operation; and on each side the
/// span from the first to the last line number that occurs.
pub open spec fn hunk_of(group: ChangeGroupView, first: (usize, usize)) -> DiffHunkView {
    let count = group.changes.len() as int;
    let old_first = first_line(group.changes, true, count);
    let new_first = first_line(group.changes, false, count);
    DiffHunkView {
        old_start: match old_first {
            Some(line) => line,
            None => line_number(first.0),
        },
        old_lines: span(old_first, last_line(group.changes, true, count)),
        new_start: match new_first {
            Some(line) => line,
            None => line_number(first.1),
        },
        new_lines: span(new_first, last_line(group.changes, false, count)),
        lines: Seq::new(group.changes.len(), |i: int| hunk_line(group.changes[i])),
    }
}

/// The hunks of the first `upto` clusters: one for each cluster that has
/// operations.
pub open spec fn hunks_of(groups: Seq<ChangeGroupView>, upto: int) -> Seq<DiffHunkView>
    decreases upto,
{
    if upto <= 0 {
        Seq::empty()
    } else {
        let rest = hunks_of(groups, upto - 1);
        match groups[upto - 1].first {
            Some(first) => rest.push(hunk_of(groups[upto - 1], first)),
            None => rest,
        }
    }
}

fn number_of(index: usize) -> (r: usize)
    ensures
        r == line_number(index),
{
    if index == usize::MAX {
        usize::MAX
    } else {
        index + 1
    }
}

fn optional_number(index: Option<usize>) -> (r: Option<usize>)
    ensures
        r == optional_line_number(index),
{
    match index {
        Some(i) => Some(number_of(i)),
        None => None,
    }
}

fn lower_of(bound: Option<usize>, value: Option<usize>) -> (r: Option<usize>)
    ensures
        r == lower(bound, value),
{
    match (bound, value) {
        (Some(b), Some(v)) => Some(if v < b {
            v
        } else {
            b
        }),
        (None, Some(v)) => Some(v),
        (b, None) => b,
    }
}

fn upper_of(bound: Option<usize>, value: Option<usize>) -> (r: Option<usize>)
    ensures
        r == upper(bound, value),
{
    match (bound, value) {
        (Some(b), Some(v)) => Some(if v > b {
            v
        } else {
            b
        }),
        (None, Some(v)) => Some(v),
        (b, None) => b,
    }
}

fn span_of(first: Option<usize>, last: Option<usize>) -> (r: usize)
    ensures
        r == span(first, last),
{
    match (first, last) {
        (Some(min), Some(max)) => if max < min {
            1
        } else if max - min == usize::MAX {
            usize::MAX
        } else {
            max - min + 1
        },
        _ => 0,
    }
}

/// Builds the hunk of a cluster whose first operation starts at `first`.
pub fn build_hunk(group: ChangeGroup, first: (usize, usize)) -> (hunk: DiffHunk)
    ensures
        hunk@ == hunk_of(group@, first),
{
    let ghost changes = change_views(group.changes@);
    let mut lines: Vec<DiffLine> = Vec::new();
    let mut old_min: Option<usize> = None;
    let mut old_max: Option<usize> = None;
    let mut new_min: Option<usize> = None;
    let mut new_max: Option<usize> = None;
    for change in it: group.changes
        invariant
            change_views(it.seq()) == changes,
            lines@.len() == it.index(),
            forall|k: int| 0 <= k < it.index() ==> (#[trigger] lines@[k])@ == hunk_line(changes[k]),
            old_min == first_line(changes, true, it.index() as int),
            old_max == last_line(changes, true, it.index() as int),
            new_min == first_line(changes, false, it.index() as int),
            new_max == last_line(changes, false, it.index() as int),
    {
        proof {
            assert(changes[it.index() as int] == change@);
        }
        let old_line = optional_number(change.old_index);
        let new_line = optional_number(change.new_index);
        old_min = lower_of(old_min, old_line);
        old_max = upper_of(old_max, old_line);
        new_min = lower_of(new_min, new_line);
        new_max = upper_of(new_max, new_line);
        lines.push(DiffLine { kind: change.kind, old_line, new_line, text: change.text });
    }
    proof {
        assert(line_views(lines@) =~= Seq::new(changes.len(), |i: int| hunk_line(changes[i])));
    }
    DiffHunk {
        old_start: match old_min {
            Some(line) => line,
            None => number_of(first.0),
        },
        old_lines: span_of(old_min, old_max),
        new_start: match new_min {
            Some(line) => line,
            None => number_of(first.1),
        },
        new_lines: span_of(new_min, new_max),
        lines,
    }
}

/// Builds the hunks of a line diff: one for each cluster that has
/// operations.
pub fn build_hunks(groups: Vec<ChangeGroup>) -> (hunks: Vec<DiffHunk>)
    ensures
        hunk_views(hunks@) == hunks_of(group_views(groups@), groups@.len() as int),
{
    let ghost all = group_views(groups@);
    let mut hunks: Vec<DiffHunk> = Vec::new();
    proof {
        assert(hunk_views(hunks@) =~= Seq::<DiffHunkView>::empty());
    }
    for group in it: groups
        invariant
            group_views(it.seq()) == all,
            hunk_views(hunks@) == hunks_of(all, it.index() as int),
    {
        let ghost before = hunk_views(hunks@);
        proof {
            assert(all[it.index() as int] == group@);
        }
        match group.first {
            Some(first) => {
                let hunk = build_hunk(group, first);
                hunks.push(hunk);
                proof {
                    assert(hunk_views(hunks@) =~= before.push(hunk@));
                }
            },
            None => {},
        }
    }
    hunks
}

/// The header of the unified text: both labels where both are given, and a
/// single label on both sides where only one is given.
pub open spec fn header_labels(old_label: Option<Seq<char>>, new_label: Option<Seq<char>>) -> Option<
    (Seq<char>, Seq<char>),
> {
    match (old_label, new_label) {
        (Some(old), Some(new)) => Some((old, new)),
        (Some(old), None) => Some((old, old)),
        (None, Some(new)) => Some((new, new)),
        (None, None) => None,
    }
}

/// The label behind an optional reference.
pub open spec fn label_view(label: Option<&str>) -> Option<Seq<char>> {
    match label {
        Some(text) => Some(text@),
        None => None,
    }
}

/// Computes the diff of two texts: the hunks of their line diff, and the
/// diff in unified format under the labels of `options`. The diff is empty
/// where there is no hunk. A context wider than `MAX_CONTEXT_LINES` is cut
/// to it.
pub fn compute_diff(old: &str, new: &str, options: DiffOptions<'_>) -> (bundle: DiffBundle)
    ensures
        hunk_views(bundle.hunks@) == hunks_of(
            similar_groups(old@, new@, effective_context(options.context_lines)),
            similar_groups(old@, new@, effective_context(options.context_lines)).len() as int,
        ),
        bundle.formatted@ == similar_unified(
            old@,
            new@,
            effective_context(options.context_lines),
            options.missing_newline_hint,
            header_labels(label_view(options.old_label), label_view(options.new_label)),
        ),
        bundle.is_empty == (bundle.hunks@.len() == 0),
{
    let context_lines = clamp_context(options.context_lines);
    let groups = diff_groups(old, new, context_lines);
    let hunks = build_hunks(groups);
    let formatted = match (options.old_label, options.new_label) {
        (Some(old_label), Some(new_label)) => unified_text_with_header(
            old,
            new,
            context_lines,
            options.missing_newline_hint,
            old_label,
            new_label,
        ),
        (Some(old_label), None) => unified_text_with_header(
            old,
            new,
            context_lines,
            options.missing_newline_hint,
            old_label,
            old_label,
        ),
        (None, Some(new_label)) => unified_text_with_header(
            old,
            new,
            context_lines,
            options.missing_newline_hint,
            new_label,
            new_label,
        ),
        (None, None) => unified_text(old, new, context_lines, options.missing_newline_hint),
    };
    let is_empty = hunks.len() == 0;
    DiffBundle { hunks, formatted, is_empty }
}

} // verus!
