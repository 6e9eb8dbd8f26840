//! The envelope as it is written, and the proof that what is written is
//! what is read.

use crate::patch::error::PatchParseError;
use crate::patch::model::{is_workspace_path, OperationView, PatchLineView};
use crate::patch::parser::{
    add_prefix, begin_marker, chunk_line, chunk_mark, closed_operations, delete_prefix,
    end_marker, header_mark, header_value, move_prefix, parse_lines, parse_outcome,
    parse_start, parse_step, parsed_patch, update_prefix, ParsePhase, ParseView, SectionView,
};
use crate::text::{
    is_white_space, lines_scan, occurs_at, strip_cr, trim, trim_end, trim_start,
};
use vstd::prelude::*;

verus! {

/// What the markers of the envelope are made of.
pub proof fn lemma_marker_texts()
    ensures
        header_mark() == seq!['*', '*', '*', ' '],
        chunk_mark() == seq!['@', '@'],
        begin_marker().len() == 15 && begin_marker().subrange(0, 4) == header_mark()
            && begin_marker()[4] == 'B' && begin_marker()[14] == 'h',
        end_marker().len() == 13 && end_marker().subrange(0, 4) == header_mark() && end_marker()[4]
            == 'E' && end_marker()[12] == 'h',
        add_prefix().len() == 14 && add_prefix().subrange(0, 4) == header_mark() && add_prefix()[4]
            == 'A',
        delete_prefix().len() == 17 && delete_prefix().subrange(0, 4) == header_mark()
            && delete_prefix()[4] == 'D',
        update_prefix().len() == 17 && update_prefix().subrange(0, 4) == header_mark()
            && update_prefix()[4] == 'U',
        move_prefix().len() == 13 && move_prefix().subrange(0, 4) == header_mark() && move_prefix()[4]
            == 'M',
{
    reveal_strlit("*** ");
    reveal_strlit("@@");
    reveal_strlit("*** Begin Patch");
    reveal_strlit("*** End Patch");
    reveal_strlit("*** Add File: ");
    reveal_strlit("*** Delete File: ");
    reveal_strlit("*** Update File: ");
    reveal_strlit("*** Move to: ");
    assert(header_mark() =~= seq!['*', '*', '*', ' ']);
    assert(chunk_mark() =~= seq!['@', '@']);
    assert(begin_marker().subrange(0, 4) =~= header_mark());
    assert(end_marker().subrange(0, 4) =~= header_mark());
    assert(add_prefix().subrange(0, 4) =~= header_mark());
    assert(delete_prefix().subrange(0, 4) =~= header_mark());
    assert(update_prefix().subrange(0, 4) =~= header_mark());
    assert(move_prefix().subrange(0, 4) =~= header_mark());
}

/// A text that neither begins nor ends with white space is its own trim.
pub proof fn lemma_trim_of_tight_text(s: Seq<char>)
    requires
        s.len() > 0,
        !is_white_space(s[0]),
        !is_white_space(s.last()),
    ensures
        trim_start(s) == s,
        trim_end(s) == s,
        trim(s) == s,
{
}

/// Trimming the end leaves a prefix.
pub proof fn lemma_trim_end_is_prefix(s: Seq<char>)
    ensures
        trim_end(s).len() <= s.len(),
        trim_end(s) == s.take(trim_end(s).len() as int),
    decreases s.len(),
{
    if s.len() > 0 && is_white_space(s.last()) {
        lemma_trim_end_is_prefix(s.drop_last());
        assert(s.drop_last().take(trim_end(s).len() as int) =~= s.take(trim_end(s).len() as int));
    } else {
        assert(s.take(s.len() as int) =~= s);
    }
}

/// The text neither begins nor ends with white space, and is not empty.
pub open spec fn is_tight(s: Seq<char>) -> bool {
    s.len() > 0 && !is_white_space(s[0]) && !is_white_space(s.last())
}

/// A path as it can be written behind a header: a workspace path without
/// white space around it.
pub open spec fn is_written_path(path: Seq<char>) -> bool {
    is_workspace_path(path) && is_tight(path)
}

/// A patch operation as it is written: an added file by its lines.
pub enum WrittenOperation {
    Add { path: Seq<char>, lines: Seq<Seq<char>> },
    Delete { path: Seq<char> },
    Update { path: Seq<char>, new_path: Option<Seq<char>>, chunks: Seq<Seq<PatchLineView>> },
}

/// The content of an added file whose first `upto` lines are given: each
/// line followed by a line feed.
pub open spec fn content_of(lines: Seq<Seq<char>>, upto: int) -> Seq<char>
    decreases upto,
{
    if upto <= 0 {
        Seq::empty()
    } else {
        content_of(lines, upto - 1) + lines[upto - 1] + seq!['\n']
    }
}

/// The operation that is written.
pub open spec fn operation_of(written: WrittenOperation) -> OperationView {
    match written {
        WrittenOperation::Add { path, lines } => OperationView::AddFile {
            path,
            content: content_of(lines, lines.len() as int),
        },
        WrittenOperation::Delete { path } => OperationView::DeleteFile { path },
        WrittenOperation::Update { path, new_path, chunks } => OperationView::UpdateFile {
            path,
            new_path,
            chunks,
        },
    }
}

/// The operations that are written.
pub open spec fn operations_of(written: Seq<WrittenOperation>) -> Seq<OperationView> {
    Seq::new(written.len(), |i: int| operation_of(written[i]))
}

/// The operation can be written and read back: its paths are written
/// paths, and an update has at least one chunk, each with at least one
/// line.
pub open spec fn is_writable(written: WrittenOperation) -> bool {
    match written {
        WrittenOperation::Add { path, .. } => is_written_path(path),
        WrittenOperation::Delete { path } => is_written_path(path),
        WrittenOperation::Update { path, new_path, chunks } => {
            &&& is_written_path(path)
            &&& match new_path {
                Some(destination) => is_written_path(destination),
                None => true,
            }
            &&& chunks.len() > 0
            &&& forall|k: int| 0 <= k < chunks.len() ==> (#[trigger] chunks[k]).len() > 0
        },
    }
}

/// The first `upto` lines of an added file as they are written: each with a
/// plus sign in front.
pub open spec fn added_lines(lines: Seq<Seq<char>>, upto: int) -> Seq<Seq<char>>
    decreases upto,
{
    if upto <= 0 {
        Seq::empty()
    } else {
        added_lines(lines, upto - 1).push(seq!['+'] + lines[upto - 1])
    }
}

/// A body line of a chunk as it is written: its sign, then its text.
pub open spec fn entry_line(entry: PatchLineView) -> Seq<char> {
    match entry {
        PatchLineView::Context(text) => seq![' '] + text,
        PatchLineView::Removal(text) => seq!['-'] + text,
        PatchLineView::Addition(text) => seq!['+'] + text,
    }
}

/// The first `upto` body lines of a chunk as they are written.
pub open spec fn entry_lines(chunk: Seq<PatchLineView>, upto: int) -> Seq<Seq<char>>
    decreases upto,
{
    if upto <= 0 {
        Seq::empty()
    } else {
        entry_lines(chunk, upto - 1).push(entry_line(chunk[upto - 1]))
    }
}

/// A chunk as it is written: the chunk mark, then its body lines.
pub open spec fn chunk_lines(chunk: Seq<PatchLineView>) -> Seq<Seq<char>> {
    seq![chunk_mark()] + entry_lines(chunk, chunk.len() as int)
}

/// The first `upto` chunks as they are written.
pub open spec fn chunks_lines(chunks: Seq<Seq<PatchLineView>>, upto: int) -> Seq<Seq<char>>
    decreases upto,
{
    if upto <= 0 {
        Seq::empty()
    } else {
        chunks_lines(chunks, upto - 1) + chunk_lines(chunks[upto - 1])
    }
}

/// The header lines of an update: its path and, if it moves, where to.
pub open spec fn update_header(path: Seq<char>, new_path: Option<Seq<char>>) -> Seq<Seq<char>> {
    match new_path {
        Some(destination) => seq![update_prefix() + path, move_prefix() + destination],
        None => seq![update_prefix() + path],
    }
}

/// An operation as it is written, line by line.
pub open spec fn written_lines(written: WrittenOperation) -> Seq<Seq<char>> {
    match written {
        WrittenOperation::Add { path, lines } => seq![add_prefix() + path] + added_lines(
            lines,
            lines.len() as int,
        ),
        WrittenOperation::Delete { path } => seq![delete_prefix() + path],
        WrittenOperation::Update { path, new_path, chunks } => update_header(path, new_path)
            + chunks_lines(chunks, chunks.len() as int),
    }
}

/// The first `upto` operations as they are written.
pub open spec fn operations_lines(written: Seq<WrittenOperation>, upto: int) -> Seq<Seq<char>>
    decreases upto,
{
    if upto <= 0 {
        Seq::empty()
    } else {
        operations_lines(written, upto - 1) + written_lines(written[upto - 1])
    }
}

/// The envelope of the operations, line by line: the opening marker, the
/// operations, the closing marker.
pub open spec fn envelope_lines(written: Seq<WrittenOperation>) -> Seq<Seq<char>> {
    seq![begin_marker()] + operations_lines(written, written.len() as int) + seq![end_marker()]
}

/// The reader's state after it has gone on from `state` over the first
/// `upto` of `lines`, which are numbered from `base`.
pub open spec fn read_on(state: ParseView, lines: Seq<Seq<char>>, base: int, upto: int) -> ParseView
    decreases upto,
{
    if upto <= 0 {
        state
    } else {
        parse_step(read_on(state, lines, base, upto - 1), lines[upto - 1], (base + upto - 1) as usize)
    }
}

proof fn lemma_read_on_agrees(
    state: ParseView,
    a: Seq<Seq<char>>,
    b: Seq<Seq<char>>,
    base: int,
    upto: int,
)
    requires
        0 <= upto <= a.len(),
        upto <= b.len(),
        forall|i: int| 0 <= i < upto ==> a[i] == b[i],
    ensures
        read_on(state, a, base, upto) == read_on(state, b, base, upto),
    decreases upto,
{
    if upto > 0 {
        lemma_read_on_agrees(state, a, b, base, upto - 1);
    }
}

/// Reading two lists of lines one after the other is reading their
/// concatenation.
proof fn lemma_read_on_in_turn(
    state: ParseView,
    first: Seq<Seq<char>>,
    second: Seq<Seq<char>>,
    base: int,
    upto: int,
)
    requires
        0 <= upto <= second.len(),
    ensures
        read_on(state, first + second, base, first.len() + upto) == read_on(
            read_on(state, first, base, first.len() as int),
            second,
            base + first.len(),
            upto,
        ),
    decreases upto,
{
    let all = first + second;
    if upto == 0 {
        lemma_read_on_agrees(state, all, first, base, first.len() as int);
    } else {
        lemma_read_on_in_turn(state, first, second, base, upto - 1);
        assert(all[first.len() + upto - 1] == second[upto - 1]);
    }
}

proof fn lemma_parse_lines_is_read_on(lines: Seq<Seq<char>>, upto: int)
    requires
        0 <= upto,
    ensures
        parse_lines(lines, upto) == read_on(parse_start(), lines, 0, upto),
    decreases upto,
{
    if upto > 0 {
        lemma_parse_lines_is_read_on(lines, upto - 1);
    }
}

/// The reader stands between two operations, with `done` read so far:
/// closing what is open gives `done`.
pub open spec fn is_ready(state: ParseView, done: Seq<OperationView>) -> bool {
    &&& state.error is None
    &&& state.phase == ParsePhase::Body
    &&& forall|index: usize|
        #[trigger] closed_operations(state, index) == Ok::<Seq<OperationView>, PatchParseError>(done)
}

/// A header line `prefix + path` is tight, starts with the header mark, and
/// has the prefix's letter at the fifth place.
proof fn lemma_header_line(prefix: Seq<char>, path: Seq<char>)
    requires
        is_tight(path),
        prefix.len() >= 5,
        prefix.subrange(0, 4) == header_mark(),
    ensures
        occurs_at(prefix + path, 0, header_mark()),
        trim(prefix + path) == prefix + path,
        (prefix + path)[4] == prefix[4],
        occurs_at(prefix + path, 0, prefix),
        header_value(prefix + path, prefix) == path,
{
    lemma_marker_texts();
    let line = prefix + path;
    assert(line.subrange(0, 4) =~= prefix.subrange(0, 4));
    assert(line[0] == '*');
    assert(line.last() == path.last());
    lemma_trim_of_tight_text(line);
    assert(line.subrange(0, prefix.len() as int) =~= prefix);
    assert(line.skip(prefix.len() as int) =~= path);
    lemma_trim_of_tight_text(path);
}

/// A line whose fifth character is not that of `prefix` does not start
/// with `prefix`.
proof fn lemma_other_prefix(line: Seq<char>, prefix: Seq<char>)
    requires
        line.len() >= 5,
        prefix.len() >= 5,
        line[4] != prefix[4],
    ensures
        !occurs_at(line, 0, prefix),
        line != prefix,
{
    if occurs_at(line, 0, prefix) {
        assert(line.subrange(0, prefix.len() as int)[4] == line[4]);
    }
}

/// A state between the markers, without an error.
pub open spec fn reading(operations: Seq<OperationView>, section: SectionView) -> ParseView {
    ParseView { phase: ParsePhase::Body, operations, section, error: None }
}

proof fn lemma_read_add_header(state: ParseView, done: Seq<OperationView>, path: Seq<char>, index: usize)
    requires
        is_ready(state, done),
        is_written_path(path),
    ensures
        parse_step(state, add_prefix() + path, index) == reading(
            done,
            SectionView::Add { path, content: Seq::empty() },
        ),
{
    lemma_marker_texts();
    let line = add_prefix() + path;
    lemma_header_line(add_prefix(), path);
    lemma_other_prefix(line, move_prefix());
    lemma_other_prefix(line, end_marker());
    assert(closed_operations(state, index) == Ok::<Seq<OperationView>, PatchParseError>(done));
}

proof fn lemma_read_delete_header(
    state: ParseView,
    done: Seq<OperationView>,
    path: Seq<char>,
    index: usize,
)
    requires
        is_ready(state, done),
        is_written_path(path),
    ensures
        parse_step(state, delete_prefix() + path, index) == reading(
            done.push(OperationView::DeleteFile { path }),
            SectionView::Idle,
        ),
{
    lemma_marker_texts();
    let line = delete_prefix() + path;
    lemma_header_line(delete_prefix(), path);
    lemma_other_prefix(line, move_prefix());
    lemma_other_prefix(line, end_marker());
    lemma_other_prefix(line, add_prefix());
    assert(closed_operations(state, index) == Ok::<Seq<OperationView>, PatchParseError>(done));
}

proof fn lemma_read_update_header(
    state: ParseView,
    done: Seq<OperationView>,
    path: Seq<char>,
    index: usize,
)
    requires
        is_ready(state, done),
        is_written_path(path),
    ensures
        parse_step(state, update_prefix() + path, index) == reading(
            done,
            SectionView::Update { path, new_path: None, chunks: Seq::empty(), open: None },
        ),
{
    lemma_marker_texts();
    let line = update_prefix() + path;
    lemma_header_line(update_prefix(), path);
    lemma_other_prefix(line, move_prefix());
    lemma_other_prefix(line, end_marker());
    lemma_other_prefix(line, add_prefix());
    lemma_other_prefix(line, delete_prefix());
    assert(closed_operations(state, index) == Ok::<Seq<OperationView>, PatchParseError>(done));
}

proof fn lemma_read_move_line(
    done: Seq<OperationView>,
    path: Seq<char>,
    destination: Seq<char>,
    index: usize,
)
    requires
        is_written_path(destination),
    ensures
        parse_step(
            reading(
                done,
                SectionView::Update { path, new_path: None, chunks: Seq::empty(), open: None },
            ),
            move_prefix() + destination,
            index,
        ) == reading(
            done,
            SectionView::Update {
                path,
                new_path: Some(destination),
                chunks: Seq::empty(),
                open: None,
            },
        ),
{
    lemma_marker_texts();
    lemma_header_line(move_prefix(), destination);
}

proof fn lemma_read_added_line(
    done: Seq<OperationView>,
    path: Seq<char>,
    content: Seq<char>,
    text: Seq<char>,
    index: usize,
)
    ensures
        parse_step(reading(done, SectionView::Add { path, content }), seq!['+'] + text, index)
            == reading(done, SectionView::Add { path, content: content + text + seq!['\n'] }),
{
    lemma_marker_texts();
    let line = seq!['+'] + text;
    assert(line[0] == '+');
    assert(line.skip(1) =~= text);
    if occurs_at(line, 0, header_mark()) {
        assert(line.subrange(0, 4)[0] == line[0]);
    }
}

proof fn lemma_read_chunk_mark(
    done: Seq<OperationView>,
    path: Seq<char>,
    new_path: Option<Seq<char>>,
    chunks: Seq<Seq<PatchLineView>>,
    open: Option<Seq<PatchLineView>>,
    index: usize,
)
    requires
        open matches Some(lines) ==> lines.len() > 0,
    ensures
        parse_step(
            reading(done, SectionView::Update { path, new_path, chunks, open }),
            chunk_mark(),
            index,
        ) == reading(
            done,
            SectionView::Update {
                path,
                new_path,
                chunks: match open {
                    Some(lines) => chunks.push(lines),
                    None => chunks,
                },
                open: Some(Seq::empty()),
            },
        ),
{
    lemma_marker_texts();
    let line = chunk_mark();
    if occurs_at(line, 0, header_mark()) {
        assert(line.subrange(0, 4)[0] == line[0]);
    }
    lemma_trim_of_tight_text(line);
}

proof fn lemma_read_entry(
    done: Seq<OperationView>,
    path: Seq<char>,
    new_path: Option<Seq<char>>,
    chunks: Seq<Seq<PatchLineView>>,
    lines: Seq<PatchLineView>,
    entry: PatchLineView,
    index: usize,
)
    ensures
        parse_step(
            reading(done, SectionView::Update { path, new_path, chunks, open: Some(lines) }),
            entry_line(entry),
            index,
        ) == reading(
            done,
            SectionView::Update { path, new_path, chunks, open: Some(lines.push(entry)) },
        ),
{
    lemma_marker_texts();
    let line = entry_line(entry);
    let text = match entry {
        PatchLineView::Context(text) => text,
        PatchLineView::Removal(text) => text,
        PatchLineView::Addition(text) => text,
    };
    assert(line.skip(1) =~= text);
    assert(line[0] != '*' && line[0] != '@');
    if occurs_at(line, 0, header_mark()) {
        assert(line.subrange(0, 4)[0] == line[0]);
    }
    lemma_trim_end_is_prefix(line);
    if trim_end(line) == chunk_mark() {
        assert(line.take(2)[0] == line[0]);
    }
    assert(chunk_line(line) == Some(entry));
}

proof fn lemma_read_end(state: ParseView, done: Seq<OperationView>, index: usize)
    requires
        is_ready(state, done),
        done.len() > 0,
    ensures
        parse_step(state, end_marker(), index) == (ParseView {
            phase: ParsePhase::Done,
            operations: done,
            section: SectionView::Idle,
            error: None,
        }),
{
    lemma_marker_texts();
    let line = end_marker();
    assert(line.subrange(0, 4) == header_mark());
    lemma_other_prefix(line, move_prefix());
    lemma_trim_of_tight_text(line);
    assert(closed_operations(state, index) == Ok::<Seq<OperationView>, PatchParseError>(done));
}

proof fn lemma_read_begin(index: usize)
    ensures
        parse_step(parse_start(), begin_marker(), index) == reading(Seq::empty(), SectionView::Idle),
        is_ready(reading(Seq::empty(), SectionView::Idle), Seq::empty()),
{
    lemma_marker_texts();
    lemma_trim_of_tight_text(begin_marker());
}

proof fn lemma_added_lines_at(lines: Seq<Seq<char>>, upto: int, i: int)
    requires
        0 <= i < upto <= lines.len(),
    ensures
        added_lines(lines, upto).len() == upto,
        added_lines(lines, upto)[i] == seq!['+'] + lines[i],
    decreases upto,
{
    lemma_added_lines_len(lines, upto);
    if i < upto - 1 {
        lemma_added_lines_at(lines, upto - 1, i);
    } else {
        lemma_added_lines_len(lines, upto - 1);
    }
}

proof fn lemma_added_lines_len(lines: Seq<Seq<char>>, upto: int)
    requires
        0 <= upto,
    ensures
        added_lines(lines, upto).len() == upto,
    decreases upto,
{
    if upto > 0 {
        lemma_added_lines_len(lines, upto - 1);
    }
}

proof fn lemma_entry_lines_len(chunk: Seq<PatchLineView>, upto: int)
    requires
        0 <= upto,
    ensures
        entry_lines(chunk, upto).len() == upto,
    decreases upto,
{
    if upto > 0 {
        lemma_entry_lines_len(chunk, upto - 1);
    }
}

proof fn lemma_entry_lines_at(chunk: Seq<PatchLineView>, upto: int, i: int)
    requires
        0 <= i < upto <= chunk.len(),
    ensures
        entry_lines(chunk, upto)[i] == entry_line(chunk[i]),
    decreases upto,
{
    lemma_entry_lines_len(chunk, upto - 1);
    if i < upto - 1 {
        lemma_entry_lines_at(chunk, upto - 1, i);
    }
}

proof fn lemma_read_added_lines(
    done: Seq<OperationView>,
    path: Seq<char>,
    lines: Seq<Seq<char>>,
    base: int,
    upto: int,
)
    requires
        0 <= upto <= lines.len(),
    ensures
        read_on(
            reading(done, SectionView::Add { path, content: Seq::empty() }),
            added_lines(lines, lines.len() as int),
            base,
            upto,
        ) == reading(done, SectionView::Add { path, content: content_of(lines, upto) }),
    decreases upto,
{
    if upto > 0 {
        lemma_read_added_lines(done, path, lines, base, upto - 1);
        lemma_added_lines_at(lines, lines.len() as int, upto - 1);
        lemma_read_added_line(
            done,
            path,
            content_of(lines, upto - 1),
            lines[upto - 1],
            (base + upto - 1) as usize,
        );
    }
}

proof fn lemma_read_entries(
    done: Seq<OperationView>,
    path: Seq<char>,
    new_path: Option<Seq<char>>,
    chunks: Seq<Seq<PatchLineView>>,
    chunk: Seq<PatchLineView>,
    base: int,
    upto: int,
)
    requires
        0 <= upto <= chunk.len(),
    ensures
        read_on(
            reading(
                done,
                SectionView::Update { path, new_path, chunks, open: Some(Seq::empty()) },
            ),
            entry_lines(chunk, chunk.len() as int),
            base,
            upto,
        ) == reading(
            done,
            SectionView::Update { path, new_path, chunks, open: Some(chunk.take(upto)) },
        ),
    decreases upto,
{
    if upto > 0 {
        lemma_read_entries(done, path, new_path, chunks, chunk, base, upto - 1);
        lemma_entry_lines_at(chunk, chunk.len() as int, upto - 1);
        lemma_read_entry(
            done,
            path,
            new_path,
            chunks,
            chunk.take(upto - 1),
            chunk[upto - 1],
            (base + upto - 1) as usize,
        );
        assert(chunk.take(upto - 1).push(chunk[upto - 1]) =~= chunk.take(upto));
    } else {
        assert(chunk.take(0) =~= Seq::<PatchLineView>::empty());
    }
}

proof fn lemma_read_chunk(
    done: Seq<OperationView>,
    path: Seq<char>,
    new_path: Option<Seq<char>>,
    chunks: Seq<Seq<PatchLineView>>,
    open: Option<Seq<PatchLineView>>,
    chunk: Seq<PatchLineView>,
    base: int,
)
    requires
        open matches Some(lines) ==> lines.len() > 0,
    ensures
        read_on(
            reading(done, SectionView::Update { path, new_path, chunks, open }),
            chunk_lines(chunk),
            base,
            chunk_lines(chunk).len() as int,
        ) == reading(
            done,
            SectionView::Update {
                path,
                new_path,
                chunks: match open {
                    Some(lines) => chunks.push(lines),
                    None => chunks,
                },
                open: Some(chunk),
            },
        ),
{
    let start = reading(done, SectionView::Update { path, new_path, chunks, open });
    let mark = seq![chunk_mark()];
    let entries = entry_lines(chunk, chunk.len() as int);
    let closed = match open {
        Some(lines) => chunks.push(lines),
        None => chunks,
    };
    lemma_entry_lines_len(chunk, chunk.len() as int);
    lemma_read_on_in_turn(start, mark, entries, base, entries.len() as int);
    assert(read_on(start, mark, base, 1) == parse_step(
        read_on(start, mark, base, 0),
        mark[0],
        base as usize,
    ));
    lemma_read_chunk_mark(done, path, new_path, chunks, open, base as usize);
    lemma_read_entries(done, path, new_path, closed, chunk, base + 1, chunk.len() as int);
    assert(chunk.take(chunk.len() as int) =~= chunk);
}

proof fn lemma_read_chunks(
    done: Seq<OperationView>,
    path: Seq<char>,
    new_path: Option<Seq<char>>,
    chunks: Seq<Seq<PatchLineView>>,
    base: int,
    upto: int,
)
    requires
        1 <= upto <= chunks.len(),
        forall|k: int| 0 <= k < chunks.len() ==> (#[trigger] chunks[k]).len() > 0,
    ensures
        read_on(
            reading(
                done,
                SectionView::Update { path, new_path, chunks: Seq::empty(), open: None },
            ),
            chunks_lines(chunks, upto),
            base,
            chunks_lines(chunks, upto).len() as int,
        ) == reading(
            done,
            SectionView::Update {
                path,
                new_path,
                chunks: chunks.take(upto - 1),
                open: Some(chunks[upto - 1]),
            },
        ),
    decreases upto,
{
    let start = reading(
        done,
        SectionView::Update { path, new_path, chunks: Seq::empty(), open: None },
    );
    let before = chunks_lines(chunks, upto - 1);
    let last = chunk_lines(chunks[upto - 1]);
    lemma_read_on_in_turn(start, before, last, base, last.len() as int);
    if upto == 1 {
        assert(before =~= Seq::<Seq<char>>::empty());
        lemma_read_chunk(done, path, new_path, Seq::empty(), None, chunks[0], base);
        assert(chunks.take(0) =~= Seq::<Seq<PatchLineView>>::empty());
    } else {
        lemma_read_chunks(done, path, new_path, chunks, base, upto - 1);
        lemma_read_chunk(
            done,
            path,
            new_path,
            chunks.take(upto - 2),
            Some(chunks[upto - 2]),
            chunks[upto - 1],
            base + before.len(),
        );
        assert(chunks.take(upto - 2).push(chunks[upto - 2]) =~= chunks.take(upto - 1));
    }
}

proof fn lemma_read_written_add(
    state: ParseView,
    done: Seq<OperationView>,
    path: Seq<char>,
    content: Seq<Seq<char>>,
    base: int,
)
    requires
        is_ready(state, done),
        is_written_path(path),
    ensures
        ({
            let lines = seq![add_prefix() + path] + added_lines(content, content.len() as int);
            read_on(state, lines, base, lines.len() as int) == reading(
                done,
                SectionView::Add { path, content: content_of(content, content.len() as int) },
            )
        }),
{
    let header = seq![add_prefix() + path];
    let body = added_lines(content, content.len() as int);
    lemma_added_lines_len(content, content.len() as int);
    lemma_read_on_in_turn(state, header, body, base, body.len() as int);
    assert(read_on(state, header, base, 1) == parse_step(
        read_on(state, header, base, 0),
        header[0],
        base as usize,
    ));
    lemma_read_add_header(state, done, path, base as usize);
    lemma_read_added_lines(done, path, content, base + 1, content.len() as int);
}

proof fn lemma_read_written_header(
    state: ParseView,
    done: Seq<OperationView>,
    path: Seq<char>,
    new_path: Option<Seq<char>>,
    base: int,
)
    requires
        is_ready(state, done),
        is_written_path(path),
        new_path matches Some(destination) ==> is_written_path(destination),
    ensures
        read_on(
            state,
            update_header(path, new_path),
            base,
            update_header(path, new_path).len() as int,
        ) == reading(
            done,
            SectionView::Update { path, new_path, chunks: Seq::empty(), open: None },
        ),
{
    let header = update_header(path, new_path);
    lemma_read_update_header(state, done, path, base as usize);
    assert(read_on(state, header, base, 1) == parse_step(
        read_on(state, header, base, 0),
        header[0],
        base as usize,
    ));
    match new_path {
        Some(destination) => {
            lemma_read_move_line(done, path, destination, (base + 1) as usize);
            assert(read_on(state, header, base, 2) == parse_step(
                read_on(state, header, base, 1),
                header[1],
                (base + 1) as usize,
            ));
        },
        None => {},
    }
}

proof fn lemma_read_written_update(
    state: ParseView,
    done: Seq<OperationView>,
    path: Seq<char>,
    new_path: Option<Seq<char>>,
    chunks: Seq<Seq<PatchLineView>>,
    base: int,
)
    requires
        is_ready(state, done),
        is_writable(WrittenOperation::Update { path, new_path, chunks }),
    ensures
        ({
            let lines = update_header(path, new_path) + chunks_lines(chunks, chunks.len() as int);
            read_on(state, lines, base, lines.len() as int) == reading(
                done,
                SectionView::Update {
                    path,
                    new_path,
                    chunks: chunks.take(chunks.len() - 1),
                    open: Some(chunks[chunks.len() - 1]),
                },
            )
        }),
{
    let header = update_header(path, new_path);
    let body = chunks_lines(chunks, chunks.len() as int);
    lemma_read_on_in_turn(state, header, body, base, body.len() as int);
    lemma_read_written_header(state, done, path, new_path, base);
    lemma_read_chunks(done, path, new_path, chunks, base + header.len(), chunks.len() as int);
}

/// Reading an operation as it is written, from between two operations,
/// leads between two operations again, with that operation read.
proof fn lemma_read_operation(
    state: ParseView,
    done: Seq<OperationView>,
    written: WrittenOperation,
    base: int,
)
    requires
        is_ready(state, done),
        is_writable(written),
    ensures
        is_ready(
            read_on(state, written_lines(written), base, written_lines(written).len() as int),
            done.push(operation_of(written)),
        ),
{
    let after = read_on(state, written_lines(written), base, written_lines(written).len() as int);
    let read = done.push(operation_of(written));
    match written {
        WrittenOperation::Add { path, lines } => {
            lemma_read_written_add(state, done, path, lines, base);
        },
        WrittenOperation::Delete { path } => {
            let header = seq![delete_prefix() + path];
            assert(read_on(state, header, base, 1) == parse_step(
                read_on(state, header, base, 0),
                header[0],
                base as usize,
            ));
            lemma_read_delete_header(state, done, path, base as usize);
        },
        WrittenOperation::Update { path, new_path, chunks } => {
            lemma_read_written_update(state, done, path, new_path, chunks, base);
            assert(chunks.take(chunks.len() - 1).push(chunks[chunks.len() - 1]) =~= chunks);
        },
    }
    assert forall|index: usize|
        #[trigger] closed_operations(after, index) == Ok::<Seq<OperationView>, PatchParseError>(
            read,
        ) by {}
}

proof fn lemma_read_operations(
    state: ParseView,
    written: Seq<WrittenOperation>,
    base: int,
    upto: int,
)
    requires
        is_ready(state, Seq::empty()),
        0 <= upto <= written.len(),
        forall|i: int| 0 <= i < written.len() ==> is_writable(#[trigger] written[i]),
    ensures
        is_ready(
            read_on(
                state,
                operations_lines(written, upto),
                base,
                operations_lines(written, upto).len() as int,
            ),
            operations_of(written).take(upto),
        ),
    decreases upto,
{
    if upto == 0 {
        assert(operations_of(written).take(0) =~= Seq::<OperationView>::empty());
    } else {
        lemma_read_operations(state, written, base, upto - 1);
        let before = operations_lines(written, upto - 1);
        let last = written_lines(written[upto - 1]);
        lemma_read_on_in_turn(state, before, last, base, last.len() as int);
        lemma_read_operation(
            read_on(state, before, base, before.len() as int),
            operations_of(written).take(upto - 1),
            written[upto - 1],
            base + before.len(),
        );
        assert(operations_of(written).take(upto - 1).push(operation_of(written[upto - 1]))
            =~= operations_of(written).take(upto));
    }
}

/// What is written is what is read. The envelope of a list of operations
/// that can be written, and is not empty, is read as exactly those
/// operations.
pub proof fn law_written_envelope_is_read(written: Seq<WrittenOperation>)
    requires
        written.len() > 0,
        forall|i: int| 0 <= i < written.len() ==> is_writable(#[trigger] written[i]),
    ensures
        parse_outcome(
            parse_lines(envelope_lines(written), envelope_lines(written).len() as int),
            envelope_lines(written).len() as usize,
        ) == Ok::<Seq<OperationView>, PatchParseError>(operations_of(written)),
{
    let begin = seq![begin_marker()];
    let middle = operations_lines(written, written.len() as int);
    let end = seq![end_marker()];
    let all = envelope_lines(written);
    let done = operations_of(written);
    lemma_parse_lines_is_read_on(all, all.len() as int);
    lemma_read_on_in_turn(parse_start(), begin + middle, end, 0, 1);
    lemma_read_on_in_turn(parse_start(), begin, middle, 0, middle.len() as int);
    assert(read_on(parse_start(), begin, 0, 1) == parse_step(
        read_on(parse_start(), begin, 0, 0),
        begin[0],
        0usize,
    ));
    lemma_read_begin(0);
    let opened = reading(Seq::empty(), SectionView::Idle);
    lemma_read_operations(opened, written, 1, written.len() as int);
    assert(done.take(written.len() as int) =~= done);
    let ready = read_on(opened, middle, 1, middle.len() as int);
    lemma_read_end(ready, done, (1 + middle.len()) as usize);
    let last = 1 + middle.len() as int;
    assert(read_on(ready, end, last, 1) == parse_step(
        read_on(ready, end, last, 0),
        end[0],
        last as usize,
    ));
}

/// The line holds no line feed and does not end in a carriage return, so
/// that it is a line of any text it is written into.
pub open spec fn is_plain_line(line: Seq<char>) -> bool {
    &&& forall|i: int| 0 <= i < line.len() ==> line[i] != '\n'
    &&& line.len() > 0 ==> line.last() != '\r'
}

/// Every line is plain.
pub open spec fn are_plain_lines(lines: Seq<Seq<char>>) -> bool {
    forall|i: int| 0 <= i < lines.len() ==> is_plain_line(#[trigger] lines[i])
}

/// The envelope of the operations as text: its lines, each followed by a
/// line feed.
pub open spec fn envelope_text(written: Seq<WrittenOperation>) -> Seq<char> {
    content_of(envelope_lines(written), envelope_lines(written).len() as int)
}

proof fn lemma_content_grows(lines: Seq<Seq<char>>, shorter: int, longer: int)
    requires
        0 <= shorter <= longer,
    ensures
        content_of(lines, shorter).len() <= content_of(lines, longer).len(),
        content_of(lines, longer).subrange(0, content_of(lines, shorter).len() as int)
            == content_of(lines, shorter),
    decreases longer - shorter,
{
    if shorter < longer {
        lemma_content_grows(lines, shorter, longer - 1);
        let before = content_of(lines, longer - 1);
        let all = content_of(lines, longer);
        let prefix = content_of(lines, shorter).len() as int;
        assert(all.subrange(0, prefix) =~= before.subrange(0, prefix));
    } else {
        let all = content_of(lines, longer);
        assert(all.subrange(0, all.len() as int) =~= all);
    }
}

/// Scanning over characters that are no line feeds does not end the line.
proof fn lemma_scan_within_line(text: Seq<char>, start: int, pos: int, end: int)
    requires
        0 <= pos <= end <= text.len(),
        forall|i: int| pos <= i < end ==> text[i] != '\n',
    ensures
        lines_scan(text, start, pos) == lines_scan(text, start, end),
    decreases end - pos,
{
    if pos < end {
        lemma_scan_within_line(text, start, pos + 1, end);
    }
}

/// The lines of a text made of plain lines, each followed by a line feed,
/// are those lines.
proof fn lemma_lines_of_content(lines: Seq<Seq<char>>, from: int)
    requires
        0 <= from <= lines.len(),
        are_plain_lines(lines),
    ensures
        ({
            let text = content_of(lines, lines.len() as int);
            let at = content_of(lines, from).len() as int;
            lines_scan(text, at, at) == lines.skip(from)
        }),
    decreases lines.len() - from,
{
    let text = content_of(lines, lines.len() as int);
    let at = content_of(lines, from).len() as int;
    lemma_content_grows(lines, from, lines.len() as int);
    if from == lines.len() {
        assert(lines.skip(from) =~= Seq::<Seq<char>>::empty());
    } else {
        let line = lines[from];
        let feed = at + line.len();
        lemma_content_grows(lines, from + 1, lines.len() as int);
        let longer = content_of(lines, from + 1);
        assert(longer == content_of(lines, from) + line + seq!['\n']);
        assert(longer.len() == feed + 1);
        let window = text.subrange(at, feed + 1);
        assert(window =~= line + seq!['\n']) by {
            assert(text.subrange(0, longer.len() as int).subrange(at, feed + 1) =~= window);
            assert(longer.subrange(at, feed + 1) =~= line + seq!['\n']);
        }
        assert(is_plain_line(line));
        assert forall|i: int| at <= i < feed implies text[i] != '\n' by {
            assert(window[i - at] == text[i]);
            assert(window[i - at] == line[i - at]);
        }
        lemma_scan_within_line(text, at, at, feed);
        assert(text[feed] == '\n') by {
            assert(window[line.len() as int] == text[feed]);
        }
        assert(text.subrange(at, feed) =~= line) by {
            assert(text.subrange(at, feed) =~= window.subrange(0, line.len() as int));
        }
        assert(strip_cr(line) == line);
        lemma_lines_of_content(lines, from + 1);
        assert(seq![line] + lines.skip(from + 1) =~= lines.skip(from));
    }
}

/// What is written is what is read, as text. Of the envelope of a list of
/// operations that can be written, is not empty and whose lines are plain,
/// the text is read as exactly those operations.
pub proof fn law_written_text_is_read(written: Seq<WrittenOperation>)
    requires
        written.len() > 0,
        forall|i: int| 0 <= i < written.len() ==> is_writable(#[trigger] written[i]),
        are_plain_lines(envelope_lines(written)),
    ensures
        parsed_patch(envelope_text(written)) == Ok::<Seq<OperationView>, PatchParseError>(
            operations_of(written),
        ),
{
    let lines = envelope_lines(written);
    lemma_lines_of_content(lines, 0);
    assert(lines.skip(0) =~= lines);
    law_written_envelope_is_read(written);
}

} // verus!
