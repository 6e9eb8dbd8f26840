//! Reading the textual patch envelope.
//!
//! ```text
//! *** Begin Patch
//! *** Add File: <path>        then lines that start with `+`
//! *** Delete File: <path>
//! *** Update File: <path>     then, optionally, `*** Move to: <path>`,
//! @@                          then one or more chunks, each opened by `@@`
//! -old line                   and made of `-`, `+` and space-prefixed lines
//! +new line
//! *** End Patch
//! ```
//!
//! The envelope is read line by line; each line moves a small state machine
//! one step, and the first line that does not fit decides the error.

use crate::patch::error::PatchParseError;
use crate::patch::model::{
    check_workspace_path, chunk_views, is_workspace_path, line_views, operation_views,
    OperationView, PatchChunk, PatchLine, PatchLineView, PatchOperation,
};
use crate::text::{
    from_chars, from_chars_range, lines_of, matches_at, occurs_at, push_range, split_lines,
    to_chars, trim, trim_bounds, trim_end, trim_end_index, views,
};
use vstd::prelude::*;

verus! {

/// Where the reader stands in the envelope.
#[derive(Debug, Clone, Copy, PartialEq, Eq, Structural)]
pub enum ParsePhase {
    /// The opening marker has not been seen.
    BeforeBegin,
    /// Between the markers.
    Body,
    /// The closing marker has been seen.
    Done,
}

/// The operation that is being read.
pub enum SectionView {
    /// None: the next line must be a header.
    Idle,
    /// An added file and its content so far.
    Add { path: Seq<char>, content: Seq<char> },
    /// An update: its closed chunks, and the lines of the open one.
    Update {
        path: Seq<char>,
        new_path: Option<Seq<char>>,
        chunks: Seq<Seq<PatchLineView>>,
        open: Option<Seq<PatchLineView>>,
    },
}

/// The reader's state.
pub struct ParseView {
    pub phase: ParsePhase,
    /// The operations read so far.
    pub operations: Seq<OperationView>,
    pub section: SectionView,
    /// The first error met; once set, nothing changes any more.
    pub error: Option<PatchParseError>,
}

pub open spec fn begin_marker() -> Seq<char> {
    "*** Begin Patch"@
}

pub open spec fn end_marker() -> Seq<char> {
    "*** End Patch"@
}

pub open spec fn header_mark() -> Seq<char> {
    "*** "@
}

pub open spec fn add_prefix() -> Seq<char> {
    "*** Add File: "@
}

pub open spec fn delete_prefix() -> Seq<char> {
    "*** Delete File: "@
}

pub open spec fn update_prefix() -> Seq<char> {
    "*** Update File: "@
}

pub open spec fn move_prefix() -> Seq<char> {
    "*** Move to: "@
}

pub open spec fn chunk_mark() -> Seq<char> {
    "@@"@
}

/// What follows `prefix` on a header line, trimmed.
pub open spec fn header_value(line: Seq<char>, prefix: Seq<char>) -> Seq<char> {
    trim(line.skip(prefix.len() as int))
}

/// The state with `error` recorded.
pub open spec fn failed(state: ParseView, error: PatchParseError) -> ParseView {
    ParseView { error: Some(error), ..state }
}

/// The operations read once the open section is closed at line `index`. An
/// update must hold at least one chunk, and a chunk at least one line.
pub open spec fn closed_operations(state: ParseView, index: usize) -> Result<
    Seq<OperationView>,
    PatchParseError,
> {
    match state.section {
        SectionView::Idle => Ok(state.operations),
        SectionView::Add { path, content } => Ok(
            state.operations.push(OperationView::AddFile { path, content }),
        ),
        SectionView::Update { path, new_path, chunks, open } => {
            if open matches Some(lines) && lines.len() == 0 {
                Err(PatchParseError::EmptyChunk { line: index })
            } else {
                let all = match open {
                    Some(lines) => chunks.push(lines),
                    None => chunks,
                };
                if all.len() == 0 {
                    Err(PatchParseError::EmptyUpdate { line: index })
                } else {
                    Ok(state.operations.push(OperationView::UpdateFile { path, new_path, chunks: all }))
                }
            }
        },
    }
}

/// The step for a move line: it must directly follow the header of an
/// update and name a workspace path.
pub open spec fn move_step(state: ParseView, line: Seq<char>, index: usize) -> ParseView {
    match state.section {
        SectionView::Update { path, new_path, chunks, open } => {
            if new_path is None && open is None && chunks.len() == 0 {
                let destination = header_value(line, move_prefix());
                if is_workspace_path(destination) {
                    ParseView {
                        section: SectionView::Update {
                            path,
                            new_path: Some(destination),
                            chunks,
                            open,
                        },
                        ..state
                    }
                } else {
                    failed(state, PatchParseError::InvalidPath { line: index })
                }
            } else {
                failed(state, PatchParseError::MisplacedMove { line: index })
            }
        },
        _ => failed(state, PatchParseError::MisplacedMove { line: index }),
    }
}

/// The step for a header line other than a move, once the open section is
/// closed: the closing marker, or the start of the next operation.
pub open spec fn opening_step(
    state: ParseView,
    operations: Seq<OperationView>,
    line: Seq<char>,
    index: usize,
) -> ParseView {
    if trim(line) == end_marker() {
        if operations.len() == 0 {
            failed(state, PatchParseError::NoOperations)
        } else {
            ParseView {
                phase: ParsePhase::Done,
                operations,
                section: SectionView::Idle,
                error: None,
            }
        }
    } else if occurs_at(line, 0, add_prefix()) {
        let path = header_value(line, add_prefix());
        if is_workspace_path(path) {
            ParseView {
                phase: ParsePhase::Body,
                operations,
                section: SectionView::Add { path, content: Seq::empty() },
                error: None,
            }
        } else {
            failed(state, PatchParseError::InvalidPath { line: index })
        }
    } else if occurs_at(line, 0, delete_prefix()) {
        let path = header_value(line, delete_prefix());
        if is_workspace_path(path) {
            ParseView {
                phase: ParsePhase::Body,
                operations: operations.push(OperationView::DeleteFile { path }),
                section: SectionView::Idle,
                error: None,
            }
        } else {
            failed(state, PatchParseError::InvalidPath { line: index })
        }
    } else if occurs_at(line, 0, update_prefix()) {
        let path = header_value(line, update_prefix());
        if is_workspace_path(path) {
            ParseView {
                phase: ParsePhase::Body,
                operations,
                section: SectionView::Update {
                    path,
                    new_path: None,
                    chunks: Seq::empty(),
                    open: None,
                },
                error: None,
            }
        } else {
            failed(state, PatchParseError::InvalidPath { line: index })
        }
    } else {
        failed(state, PatchParseError::UnknownHeader { line: index })
    }
}

/// The step for a line that starts with `*** `.
pub open spec fn header_step(state: ParseView, line: Seq<char>, index: usize) -> ParseView {
    if occurs_at(line, 0, move_prefix()) {
        move_step(state, line, index)
    } else {
        match closed_operations(state, index) {
            Err(error) => failed(state, error),
            Ok(operations) => opening_step(state, operations, line, index),
        }
    }
}

/// The body line that `line` stands for inside a chunk, by its first
/// character: `-` removes, `+` adds, a space keeps.
pub open spec fn chunk_line(line: Seq<char>) -> Option<PatchLineView> {
    if line.len() == 0 {
        None
    } else if line[0] == '-' {
        Some(PatchLineView::Removal(line.skip(1)))
    } else if line[0] == '+' {
        Some(PatchLineView::Addition(line.skip(1)))
    } else if line[0] == ' ' {
        Some(PatchLineView::Context(line.skip(1)))
    } else {
        None
    }
}

/// The step for a line that is no header.
pub open spec fn body_step(state: ParseView, line: Seq<char>, index: usize) -> ParseView {
    match state.section {
        SectionView::Idle => failed(state, PatchParseError::UnexpectedLine { line: index }),
        SectionView::Add { path, content } => {
            if line.len() > 0 && line[0] == '+' {
                ParseView {
                    section: SectionView::Add {
                        path,
                        content: content + line.skip(1) + seq!['\n'],
                    },
                    ..state
                }
            } else {
                failed(state, PatchParseError::UnexpectedLine { line: index })
            }
        },
        SectionView::Update { path, new_path, chunks, open } => {
            if trim_end(line) == chunk_mark() {
                match open {
                    Some(lines) => {
                        if lines.len() == 0 {
                            failed(state, PatchParseError::EmptyChunk { line: index })
                        } else {
                            ParseView {
                                section: SectionView::Update {
                                    path,
                                    new_path,
                                    chunks: chunks.push(lines),
                                    open: Some(Seq::empty()),
                                },
                                ..state
                            }
                        }
                    },
                    None => ParseView {
                        section: SectionView::Update {
                            path,
                            new_path,
                            chunks,
                            open: Some(Seq::empty()),
                        },
                        ..state
                    },
                }
            } else {
                match (open, chunk_line(line)) {
                    (Some(lines), Some(entry)) => ParseView {
                        section: SectionView::Update {
                            path,
                            new_path,
                            chunks,
                            open: Some(lines.push(entry)),
                        },
                        ..state
                    },
                    _ => failed(state, PatchParseError::UnexpectedLine { line: index }),
                }
            }
        },
    }
}

/// The state after the line `line`, which is line number `index`.
pub open spec fn parse_step(state: ParseView, line: Seq<char>, index: usize) -> ParseView {
    if state.error is Some {
        state
    } else {
        match state.phase {
            ParsePhase::BeforeBegin => {
                if trim(line) == begin_marker() {
                    ParseView { phase: ParsePhase::Body, ..state }
                } else if trim(line).len() == 0 {
                    state
                } else {
                    failed(state, PatchParseError::MissingBegin { line: index })
                }
            },
            ParsePhase::Done => {
                if trim(line).len() == 0 {
                    state
                } else {
                    failed(state, PatchParseError::TrailingContent { line: index })
                }
            },
            ParsePhase::Body => {
                if occurs_at(line, 0, header_mark()) {
                    header_step(state, line, index)
                } else {
                    body_step(state, line, index)
                }
            },
        }
    }
}

/// The state before any line.
pub open spec fn parse_start() -> ParseView {
    ParseView {
        phase: ParsePhase::BeforeBegin,
        operations: Seq::empty(),
        section: SectionView::Idle,
        error: None,
    }
}

/// The state after the first `upto` lines.
pub open spec fn parse_lines(lines: Seq<Seq<char>>, upto: int) -> ParseView
    decreases upto,
{
    if upto <= 0 {
        parse_start()
    } else {
        parse_step(parse_lines(lines, upto - 1), lines[upto - 1], (upto - 1) as usize)
    }
}

/// What the reader concludes at the end of the text.
pub open spec fn parse_outcome(state: ParseView, line_count: usize) -> Result<
    Seq<OperationView>,
    PatchParseError,
> {
    match state.error {
        Some(error) => Err(error),
        None => match state.phase {
            ParsePhase::Done => Ok(state.operations),
            ParsePhase::BeforeBegin => Err(PatchParseError::MissingBegin { line: line_count }),
            ParsePhase::Body => Err(PatchParseError::MissingEnd),
        },
    }
}

/// The operations that the envelope `text` holds, or why it cannot be read.
pub open spec fn parsed_patch(text: Seq<char>) -> Result<Seq<OperationView>, PatchParseError> {
    let lines = lines_of(text);
    parse_outcome(parse_lines(lines, lines.len() as int), lines.len() as usize)
}

/// The reader's state stands for `expected`: both hold the same error, and
/// without an error they are the same state.
spec fn agrees(actual: ParseView, expected: ParseView) -> bool {
    &&& actual.error == expected.error
    &&& expected.error is None ==> actual == expected
}

enum SectionBuf {
    Idle,
    Add { path: String, content: Vec<char> },
    Update {
        path: String,
        new_path: Option<String>,
        chunks: Vec<PatchChunk>,
        open: Option<Vec<PatchLine>>,
    },
}

impl View for SectionBuf {
    type V = SectionView;

    closed spec fn view(&self) -> SectionView {
        match self {
            SectionBuf::Idle => SectionView::Idle,
            SectionBuf::Add { path, content } => SectionView::Add {
                path: path@,
                content: content@,
            },
            SectionBuf::Update { path, new_path, chunks, open } => SectionView::Update {
                path: path@,
                new_path: match new_path {
                    Some(p) => Some(p@),
                    None => None,
                },
                chunks: chunk_views(chunks@),
                open: match open {
                    Some(lines) => Some(line_views(lines@)),
                    None => None,
                },
            },
        }
    }
}

struct Reader {
    phase: ParsePhase,
    operations: Vec<PatchOperation>,
    section: SectionBuf,
    error: Option<PatchParseError>,
}

impl View for Reader {
    type V = ParseView;

    closed spec fn view(&self) -> ParseView {
        ParseView {
            phase: self.phase,
            operations: operation_views(self.operations@),
            section: self.section@,
            error: self.error,
        }
    }
}

/// The literal texts of the envelope, as character buffers.
struct Marks {
    begin: Vec<char>,
    end: Vec<char>,
    header: Vec<char>,
    add: Vec<char>,
    delete: Vec<char>,
    update: Vec<char>,
    move_to: Vec<char>,
    chunk: Vec<char>,
}

impl Marks {
    spec fn ok(&self) -> bool {
        &&& self.begin@ == begin_marker()
        &&& self.end@ == end_marker()
        &&& self.header@ == header_mark()
        &&& self.add@ == add_prefix()
        &&& self.delete@ == delete_prefix()
        &&& self.update@ == update_prefix()
        &&& self.move_to@ == move_prefix()
        &&& self.chunk@ == chunk_mark()
    }

    fn new() -> (marks: Marks)
        ensures
            marks.ok(),
    {
        Marks {
            begin: to_chars("*** Begin Patch"),
            end: to_chars("*** End Patch"),
            header: to_chars("*** "),
            add: to_chars("*** Add File: "),
            delete: to_chars("*** Delete File: "),
            update: to_chars("*** Update File: "),
            move_to: to_chars("*** Move to: "),
            chunk: to_chars("@@"),
        }
    }
}

fn fail(reader: Reader, error: PatchParseError) -> (next: Reader)
    ensures
        next@ == failed(reader@, error),
{
    Reader { error: Some(error), ..reader }
}

/// The trimmed text of `line` after its first `skip` characters.
fn value_after(line: &Vec<char>, skip: usize) -> (value: Vec<char>)
    requires
        skip <= line.len(),
    ensures
        value@ == trim(line@.skip(skip as int)),
{
    let (a, b) = trim_bounds(line, skip, line.len());
    let mut value: Vec<char> = Vec::new();
    push_range(&mut value, line, a, b);
    proof {
        assert(line@.skip(skip as int) =~= line@.subrange(skip as int, line.len() as int));
        assert(value@ =~= line@.subrange(a as int, b as int));
    }
    value
}

/// Whether `line`, trimmed on both sides, is exactly `text`.
fn trimmed_is(line: &Vec<char>, text: &Vec<char>) -> (r: bool)
    ensures
        r == (trim(line@) == text@),
{
    let (a, b) = trim_bounds(line, 0, line.len());
    proof {
        assert(line@.subrange(0, line.len() as int) =~= line@);
    }
    if b - a != text.len() {
        return false;
    }
    let found = matches_at(line, a, text);
    proof {
        assert(b == a + text.len());
    }
    found
}

/// Whether `line` is blank.
fn is_blank(line: &Vec<char>) -> (r: bool)
    ensures
        r == (trim(line@).len() == 0),
{
    let (a, b) = trim_bounds(line, 0, line.len());
    proof {
        assert(line@.subrange(0, line.len() as int) =~= line@);
    }
    a == b
}

fn close_section(operations: Vec<PatchOperation>, section: SectionBuf, index: usize) -> (r: Result<
    Vec<PatchOperation>,
    PatchParseError,
>)
    ensures
        match r {
            Ok(all) => closed_operations(
                ParseView {
                    phase: ParsePhase::Body,
                    operations: operation_views(operations@),
                    section: section@,
                    error: None,
                },
                index,
            ) == Ok::<Seq<OperationView>, PatchParseError>(operation_views(all@)),
            Err(error) => closed_operations(
                ParseView {
                    phase: ParsePhase::Body,
                    operations: operation_views(operations@),
                    section: section@,
                    error: None,
                },
                index,
            ) == Err::<Seq<OperationView>, PatchParseError>(error),
        },
{
    let mut operations = operations;
    let ghost before = operation_views(operations@);
    match section {
        SectionBuf::Idle => Ok(operations),
        SectionBuf::Add { path, content } => {
            let operation = PatchOperation::AddFile { path, content: from_chars(&content) };
            operations.push(operation);
            proof {
                assert(operation_views(operations@) =~= before.push(operation@));
            }
            Ok(operations)
        },
        SectionBuf::Update { path, new_path, chunks, open } => {
            let mut chunks = chunks;
            let ghost closed = chunk_views(chunks@);
            match open {
                Some(lines) => {
                    if lines.len() == 0 {
                        return Err(PatchParseError::EmptyChunk { line: index });
                    }
                    let chunk = PatchChunk { lines };
                    chunks.push(chunk);
                    proof {
                        assert(chunk_views(chunks@) =~= closed.push(chunk@));
                    }
                },
                None => {},
            }
            if chunks.len() == 0 {
                return Err(PatchParseError::EmptyUpdate { line: index });
            }
            let operation = PatchOperation::UpdateFile { path, new_path, chunks };
            operations.push(operation);
            proof {
                assert(operation_views(operations@) =~= before.push(operation@));
            }
            Ok(operations)
        },
    }
}

fn read_move(reader: Reader, line: &Vec<char>, index: usize, marks: &Marks) -> (next: Reader)
    requires
        marks.ok(),
        reader.error is None,
        occurs_at(line@, 0, move_prefix()),
    ensures
        agrees(next@, move_step(reader@, line@, index)),
{
    let Reader { phase, operations, section, error } = reader;
    match section {
        SectionBuf::Update { path, new_path, chunks, open } => {
            if new_path.is_none() && open.is_none() && chunks.len() == 0 {
                let destination = value_after(line, marks.move_to.len());
                if check_workspace_path(&destination) {
                    Reader {
                        phase,
                        operations,
                        section: SectionBuf::Update {
                            path,
                            new_path: Some(from_chars(&destination)),
                            chunks,
                            open,
                        },
                        error,
                    }
                } else {
                    Reader {
                        phase,
                        operations,
                        section: SectionBuf::Update { path, new_path, chunks, open },
                        error: Some(PatchParseError::InvalidPath { line: index }),
                    }
                }
            } else {
                Reader {
                    phase,
                    operations,
                    section: SectionBuf::Update { path, new_path, chunks, open },
                    error: Some(PatchParseError::MisplacedMove { line: index }),
                }
            }
        },
        other => Reader {
            phase,
            operations,
            section: other,
            error: Some(PatchParseError::MisplacedMove { line: index }),
        },
    }
}

fn read_opening(
    operations: Vec<PatchOperation>,
    line: &Vec<char>,
    index: usize,
    marks: &Marks,
    Ghost(state): Ghost<ParseView>,
) -> (next: Reader)
    requires
        marks.ok(),
        state.error is None,
    ensures
        agrees(next@, opening_step(state, operation_views(operations@), line@, index)),
{
    let mut operations = operations;
    if trimmed_is(line, &marks.end) {
        if operations.len() == 0 {
            return Reader {
                phase: ParsePhase::Body,
                operations,
                section: SectionBuf::Idle,
                error: Some(PatchParseError::NoOperations),
            };
        }
        return Reader { phase: ParsePhase::Done, operations, section: SectionBuf::Idle, error: None };
    }
    let invalid = Some(PatchParseError::InvalidPath { line: index });
    if matches_at(line, 0, &marks.add) {
        let path = value_after(line, marks.add.len());
        if check_workspace_path(&path) {
            Reader {
                phase: ParsePhase::Body,
                operations,
                section: SectionBuf::Add { path: from_chars(&path), content: Vec::new() },
                error: None,
            }
        } else {
            Reader { phase: ParsePhase::Body, operations, section: SectionBuf::Idle, error: invalid }
        }
    } else if matches_at(line, 0, &marks.delete) {
        let path = value_after(line, marks.delete.len());
        if check_workspace_path(&path) {
            let ghost before = operation_views(operations@);
            let operation = PatchOperation::DeleteFile { path: from_chars(&path) };
            operations.push(operation);
            proof {
                assert(operation_views(operations@) =~= before.push(operation@));
            }
            Reader { phase: ParsePhase::Body, operations, section: SectionBuf::Idle, error: None }
        } else {
            Reader { phase: ParsePhase::Body, operations, section: SectionBuf::Idle, error: invalid }
        }
    } else if matches_at(line, 0, &marks.update) {
        let path = value_after(line, marks.update.len());
        if check_workspace_path(&path) {
            let chunks: Vec<PatchChunk> = Vec::new();
            proof {
                assert(chunk_views(chunks@) =~= Seq::<Seq<PatchLineView>>::empty());
            }
            Reader {
                phase: ParsePhase::Body,
                operations,
                section: SectionBuf::Update {
                    path: from_chars(&path),
                    new_path: None,
                    chunks,
                    open: None,
                },
                error: None,
            }
        } else {
            Reader { phase: ParsePhase::Body, operations, section: SectionBuf::Idle, error: invalid }
        }
    } else {
        Reader {
            phase: ParsePhase::Body,
            operations,
            section: SectionBuf::Idle,
            error: Some(PatchParseError::UnknownHeader { line: index }),
        }
    }
}

/// The body line that `line` stands for inside a chunk.
fn read_chunk_line(line: &Vec<char>) -> (entry: Option<PatchLine>)
    ensures
        match entry {
            Some(found) => chunk_line(line@) == Some(found@),
            None => chunk_line(line@) is None,
        },
{
    if line.len() == 0 {
        return None;
    }
    let first = line[0];
    if first != '-' && first != '+' && first != ' ' {
        return None;
    }
    let text = from_chars_range(line, 1, line.len());
    proof {
        assert(line@.skip(1) =~= line@.subrange(1, line.len() as int));
    }
    if first == '-' {
        Some(PatchLine::Removal(text))
    } else if first == '+' {
        Some(PatchLine::Addition(text))
    } else {
        Some(PatchLine::Context(text))
    }
}

fn read_header(reader: Reader, line: &Vec<char>, index: usize, marks: &Marks) -> (next: Reader)
    requires
        marks.ok(),
        reader.error is None,
    ensures
        agrees(next@, header_step(reader@, line@, index)),
{
    if matches_at(line, 0, &marks.move_to) {
        return read_move(reader, line, index, marks);
    }
    let ghost state = reader@;
    let Reader { phase, operations, section, error } = reader;
    let ghost section_view = section@;
    let ghost operations_view = operation_views(operations@);
    proof {
        assert(state == ParseView {
            phase,
            operations: operations_view,
            section: section_view,
            error: None,
        });
    }
    match close_section(operations, section, index) {
        Err(found) => {
            Reader { phase, operations: Vec::new(), section: SectionBuf::Idle, error: Some(found) }
        },
        Ok(all) => read_opening(all, line, index, marks, Ghost(state)),
    }
}

fn read_body(reader: Reader, line: &Vec<char>, index: usize, marks: &Marks) -> (next: Reader)
    requires
        marks.ok(),
        reader.error is None,
    ensures
        agrees(next@, body_step(reader@, line@, index)),
{
    let Reader { phase, operations, section, error } = reader;
    let unexpected = Some(PatchParseError::UnexpectedLine { line: index });
    match section {
        SectionBuf::Idle => Reader { phase, operations, section: SectionBuf::Idle, error: unexpected },
        SectionBuf::Add { path, content } => {
            let mut content = content;
            if line.len() > 0 && line[0] == '+' {
                let ghost before = content@;
                push_range(&mut content, line, 1, line.len());
                content.push('\n');
                proof {
                    assert(line@.skip(1) =~= line@.subrange(1, line.len() as int));
                    assert(content@ =~= before + line@.skip(1) + seq!['\n']);
                }
                Reader { phase, operations, section: SectionBuf::Add { path, content }, error }
            } else {
                Reader {
                    phase,
                    operations,
                    section: SectionBuf::Add { path, content },
                    error: unexpected,
                }
            }
        },
        SectionBuf::Update { path, new_path, chunks, open } => {
            let mut chunks = chunks;
            let end = trim_end_index(line, 0, line.len());
            proof {
                assert(line@.subrange(0, line.len() as int) =~= line@);
            }
            let marked = end == marks.chunk.len() && matches_at(line, 0, &marks.chunk);
            proof {
                if end == marks.chunk.len() {
                    assert(line@.subrange(0, 0 + marks.chunk@.len() as int) =~= line@.subrange(
                        0,
                        end as int,
                    ));
                }
                assert(marked == (trim_end(line@) == chunk_mark()));
            }
            if marked {
                match open {
                    Some(lines) => {
                        if lines.len() == 0 {
                            Reader {
                                phase,
                                operations,
                                section: SectionBuf::Idle,
                                error: Some(PatchParseError::EmptyChunk { line: index }),
                            }
                        } else {
                            let ghost closed = chunk_views(chunks@);
                            let chunk = PatchChunk { lines };
                            chunks.push(chunk);
                            let fresh: Vec<PatchLine> = Vec::new();
                            proof {
                                assert(chunk_views(chunks@) =~= closed.push(chunk@));
                                assert(line_views(fresh@) =~= Seq::<PatchLineView>::empty());
                            }
                            Reader {
                                phase,
                                operations,
                                section: SectionBuf::Update {
                                    path,
                                    new_path,
                                    chunks,
                                    open: Some(fresh),
                                },
                                error,
                            }
                        }
                    },
                    None => {
                        let fresh: Vec<PatchLine> = Vec::new();
                        proof {
                            assert(line_views(fresh@) =~= Seq::<PatchLineView>::empty());
                        }
                        Reader {
                            phase,
                            operations,
                            section: SectionBuf::Update { path, new_path, chunks, open: Some(fresh) },
                            error,
                        }
                    },
                }
            } else {
                match open {
                    Some(lines) => {
                        let mut lines = lines;
                        match read_chunk_line(line) {
                            Some(entry) => {
                                let ghost before = line_views(lines@);
                                lines.push(entry);
                                proof {
                                    assert(line_views(lines@) =~= before.push(entry@));
                                }
                                Reader {
                                    phase,
                                    operations,
                                    section: SectionBuf::Update {
                                        path,
                                        new_path,
                                        chunks,
                                        open: Some(lines),
                                    },
                                    error,
                                }
                            },
                            None => Reader {
                                phase,
                                operations,
                                section: SectionBuf::Idle,
                                error: unexpected,
                            },
                        }
                    },
                    None => Reader {
                        phase,
                        operations,
                        section: SectionBuf::Idle,
                        error: unexpected,
                    },
                }
            }
        },
    }
}

fn read_line(reader: Reader, line: &Vec<char>, index: usize, marks: &Marks) -> (next: Reader)
    requires
        marks.ok(),
        reader.error is None,
    ensures
        agrees(next@, parse_step(reader@, line@, index)),
{
    match reader.phase {
        ParsePhase::BeforeBegin => {
            if trimmed_is(line, &marks.begin) {
                Reader { phase: ParsePhase::Body, ..reader }
            } else if is_blank(line) {
                reader
            } else {
                fail(reader, PatchParseError::MissingBegin { line: index })
            }
        },
        ParsePhase::Done => {
            if is_blank(line) {
                reader
            } else {
                fail(reader, PatchParseError::TrailingContent { line: index })
            }
        },
        ParsePhase::Body => {
            if matches_at(line, 0, &marks.header) {
                read_header(reader, line, index, marks)
            } else {
                read_body(reader, line, index, marks)
            }
        },
    }
}

/// Once an error is recorded, further lines change nothing.
proof fn lemma_error_is_final(lines: Seq<Seq<char>>, from: int, upto: int)
    requires
        0 <= from <= upto,
        parse_lines(lines, from).error is Some,
    ensures
        parse_lines(lines, upto) == parse_lines(lines, from),
    decreases upto - from,
{
    if from < upto {
        lemma_error_is_final(lines, from, upto - 1);
    }
}

/// Reads the operations of the envelope `text`.
pub fn parse_operations(text: &str) -> (r: Result<Vec<PatchOperation>, PatchParseError>)
    ensures
        match r {
            Ok(operations) => parsed_patch(text@) == Ok::<Seq<OperationView>, PatchParseError>(
                operation_views(operations@),
            ),
            Err(error) => parsed_patch(text@) == Err::<Seq<OperationView>, PatchParseError>(error),
        },
{
    let chars = to_chars(text);
    let lines = split_lines(&chars);
    let marks = Marks::new();
    let empty: Vec<PatchOperation> = Vec::new();
    proof {
        assert(operation_views(empty@) =~= Seq::<OperationView>::empty());
    }
    let mut reader = Reader {
        phase: ParsePhase::BeforeBegin,
        operations: empty,
        section: SectionBuf::Idle,
        error: None,
    };
    let mut i: usize = 0;
    while i < lines.len()
        invariant
            i <= lines.len(),
            marks.ok(),
            views(lines@) == lines_of(text@),
            reader.error is None,
            reader@ == parse_lines(views(lines@), i as int),
        decreases lines.len() - i,
    {
        proof {
            assert(views(lines@)[i as int] == lines@[i as int]@);
        }
        let next = read_line(reader, &lines[i], i, &marks);
        match next.error {
            Some(error) => {
                proof {
                    lemma_error_is_final(views(lines@), i + 1, lines.len() as int);
                }
                return Err(error);
            },
            None => {},
        }
        reader = next;
        i += 1;
    }
    match reader.phase {
        ParsePhase::Done => Ok(reader.operations),
        ParsePhase::BeforeBegin => Err(PatchParseError::MissingBegin { line: lines.len() }),
        ParsePhase::Body => Err(PatchParseError::MissingEnd),
    }
}

/// A patch: the operations of one envelope, in order.
#[derive(Debug)]
pub struct Patch {
    operations: Vec<PatchOperation>,
}

impl View for Patch {
    type V = Seq<OperationView>;

    closed spec fn view(&self) -> Seq<OperationView> {
        operation_views(self.operations@)
    }
}

impl Patch {
    /// Reads a patch from its envelope.
    pub fn parse(text: &str) -> (r: Result<Patch, PatchParseError>)
        ensures
            match r {
                Ok(patch) => parsed_patch(text@) == Ok::<Seq<OperationView>, PatchParseError>(
                    patch@,
                ),
                Err(error) => parsed_patch(text@) == Err::<Seq<OperationView>, PatchParseError>(
                    error,
                ),
            },
    {
        match parse_operations(text) {
            Ok(operations) => Ok(Patch { operations }),
            Err(error) => Err(error),
        }
    }

    /// The operations of the patch, in order.
    pub fn operations(&self) -> (operations: &Vec<PatchOperation>)
        ensures
            operation_views(operations@) == self@,
    {
        &self.operations
    }

    /// The operations of the patch, in order.
    pub fn into_operations(self) -> (operations: Vec<PatchOperation>)
        ensures
            operation_views(operations@) == self@,
    {
        self.operations
    }

    /// Whether the patch holds no operation.
    pub fn is_empty(&self) -> (r: bool)
        ensures
            r == (self@.len() == 0),
    {
        self.operations.len() == 0
    }
}

/// A patch that was read from an envelope holds at least one operation.
pub proof fn law_parsed_patch_is_not_empty(text: Seq<char>)
    ensures
        parsed_patch(text) matches Ok(operations) ==> operations.len() > 0,
{
    let lines = lines_of(text);
    lemma_done_means_operations(lines, lines.len() as int);
}

proof fn lemma_done_means_operations(lines: Seq<Seq<char>>, upto: int)
    requires
        0 <= upto,
    ensures
        parse_lines(lines, upto).phase == ParsePhase::Done ==> parse_lines(
            lines,
            upto,
        ).operations.len() > 0,
    decreases upto,
{
    if upto > 0 {
        lemma_done_means_operations(lines, upto - 1);
    }
}

/// The paths of the operation may be named by a patch.
pub open spec fn has_workspace_paths(operation: OperationView) -> bool {
    match operation {
        OperationView::AddFile { path, .. } => is_workspace_path(path),
        OperationView::DeleteFile { path } => is_workspace_path(path),
        OperationView::UpdateFile { path, new_path, .. } => is_workspace_path(path) && match new_path {
            Some(destination) => is_workspace_path(destination),
            None => true,
        },
    }
}

/// An update holds at least one chunk, and each of its chunks at least one
/// line.
pub open spec fn has_full_chunks(operation: OperationView) -> bool {
    match operation {
        OperationView::UpdateFile { chunks, .. } => chunks.len() > 0 && forall|k: int|
            0 <= k < chunks.len() ==> (#[trigger] chunks[k]).len() > 0,
        _ => true,
    }
}

/// The state holds only well-formed operations, and the operation that is
/// being read is well-formed as far as it is read.
spec fn reads_well(state: ParseView) -> bool {
    &&& forall|i: int|
        0 <= i < state.operations.len() ==> has_workspace_paths(#[trigger] state.operations[i])
            && has_full_chunks(state.operations[i])
    &&& match state.section {
        SectionView::Idle => true,
        SectionView::Add { path, .. } => is_workspace_path(path),
        SectionView::Update { path, new_path, chunks, .. } => {
            &&& is_workspace_path(path)
            &&& match new_path {
                Some(destination) => is_workspace_path(destination),
                None => true,
            }
            &&& forall|k: int| 0 <= k < chunks.len() ==> (#[trigger] chunks[k]).len() > 0
        },
    }
}

proof fn lemma_step_reads_well(state: ParseView, line: Seq<char>, index: usize)
    requires
        reads_well(state),
    ensures
        reads_well(parse_step(state, line, index)),
{
    if state.error is None && state.phase == ParsePhase::Body && occurs_at(line, 0, header_mark())
        && !occurs_at(line, 0, move_prefix()) {
        match closed_operations(state, index) {
            Ok(operations) => {
                assert forall|i: int| 0 <= i < operations.len() implies has_workspace_paths(
                    #[trigger] operations[i],
                ) && has_full_chunks(operations[i]) by {
                    if i < state.operations.len() {
                        assert(operations[i] == state.operations[i]);
                    }
                }
                let next = opening_step(state, operations, line, index);
                assert forall|i: int| 0 <= i < next.operations.len() implies has_workspace_paths(
                    #[trigger] next.operations[i],
                ) && has_full_chunks(next.operations[i]) by {
                    if i < operations.len() {
                        assert(next.operations[i] == operations[i] || next.operations[i]
                            == state.operations[i]);
                    }
                }
            },
            Err(_) => {},
        }
    }
}

proof fn lemma_lines_read_well(lines: Seq<Seq<char>>, upto: int)
    requires
        0 <= upto,
    ensures
        reads_well(parse_lines(lines, upto)),
    decreases upto,
{
    if upto > 0 {
        lemma_lines_read_well(lines, upto - 1);
        lemma_step_reads_well(parse_lines(lines, upto - 1), lines[upto - 1], (upto - 1) as usize);
    }
}

/// What is read is well-formed. Every operation of a patch that was read
/// from an envelope names workspace paths only: relative paths that do not
/// leave the workspace. And every update among them holds at least one
/// chunk, each with at least one line.
pub proof fn law_parsed_operations_are_well_formed(text: Seq<char>, i: int)
    requires
        parsed_patch(text) is Ok,
        0 <= i < parsed_patch(text)->Ok_0.len(),
    ensures
        has_workspace_paths(parsed_patch(text)->Ok_0[i]),
        has_full_chunks(parsed_patch(text)->Ok_0[i]),
{
    let lines = lines_of(text);
    lemma_lines_read_well(lines, lines.len() as int);
}

} // verus!
