//! The operations a patch is made of.

use vstd::prelude::*;

verus! {

/// One body line of a chunk.
#[derive(Debug, Clone, PartialEq, Eq)]
pub enum PatchLine {
    /// A line that must be present and stays.
    Context(String),
    /// A line that must be present and goes.
    Removal(String),
    /// A line that is put in.
    Addition(String),
}

/// What a body line holds.
pub enum PatchLineView {
    Context(Seq<char>),
    Removal(Seq<char>),
    Addition(Seq<char>),
}

impl View for PatchLine {
    type V = PatchLineView;

    open spec fn view(&self) -> PatchLineView {
        match self {
            PatchLine::Context(text) => PatchLineView::Context(text@),
            PatchLine::Removal(text) => PatchLineView::Removal(text@),
            PatchLine::Addition(text) => PatchLineView::Addition(text@),
        }
    }
}

/// The views of a list of body lines.
pub open spec fn line_views(lines: Seq<PatchLine>) -> Seq<PatchLineView> {
    Seq::new(lines.len(), |i: int| lines[i]@)
}

/// One contextual replacement inside an update.
#[derive(Debug, Clone, PartialEq, Eq)]
pub struct PatchChunk {
    pub lines: Vec<PatchLine>,
}

impl View for PatchChunk {
    type V = Seq<PatchLineView>;

    open spec fn view(&self) -> Seq<PatchLineView> {
        line_views(self.lines@)
    }
}

/// The views of a list of chunks.
pub open spec fn chunk_views(chunks: Seq<PatchChunk>) -> Seq<Seq<PatchLineView>> {
    Seq::new(chunks.len(), |i: int| chunks[i]@)
}

/// One operation of a patch. Paths are relative to the workspace root.
#[derive(Debug, Clone, PartialEq, Eq)]
pub enum PatchOperation {
    AddFile { path: String, content: String },
    DeleteFile { path: String },
    UpdateFile { path: String, new_path: Option<String>, chunks: Vec<PatchChunk> },
}

/// What an operation holds.
pub enum OperationView {
    AddFile { path: Seq<char>, content: Seq<char> },
    DeleteFile { path: Seq<char> },
    UpdateFile { path: Seq<char>, new_path: Option<Seq<char>>, chunks: Seq<Seq<PatchLineView>> },
}

impl View for PatchOperation {
    type V = OperationView;

    open spec fn view(&self) -> OperationView {
        match self {
            PatchOperation::AddFile { path, content } => OperationView::AddFile {
                path: path@,
                content: content@,
            },
            PatchOperation::DeleteFile { path } => OperationView::DeleteFile { path: path@ },
            PatchOperation::UpdateFile { path, new_path, chunks } => OperationView::UpdateFile {
                path: path@,
                new_path: match new_path {
                    Some(p) => Some(p@),
                    None => None,
                },
                chunks: chunk_views(chunks@),
            },
        }
    }
}

/// The views of a list of operations.
pub open spec fn operation_views(operations: Seq<PatchOperation>) -> Seq<OperationView> {
    Seq::new(operations.len(), |i: int| operations[i]@)
}

/// The lines a chunk expects to find: its context and removal lines.
pub open spec fn pre_image(chunk: Seq<PatchLineView>, upto: int) -> Seq<Seq<char>>
    decreases upto,
{
    if upto <= 0 {
        Seq::empty()
    } else {
        let rest = pre_image(chunk, upto - 1);
        match chunk[upto - 1] {
            PatchLineView::Context(text) => rest.push(text),
            PatchLineView::Removal(text) => rest.push(text),
            PatchLineView::Addition(_) => rest,
        }
    }
}

/// The lines a chunk leaves in their place: its context and addition lines.
pub open spec fn post_image(chunk: Seq<PatchLineView>, upto: int) -> Seq<Seq<char>>
    decreases upto,
{
    if upto <= 0 {
        Seq::empty()
    } else {
        let rest = post_image(chunk, upto - 1);
        match chunk[upto - 1] {
            PatchLineView::Context(text) => rest.push(text),
            PatchLineView::Addition(text) => rest.push(text),
            PatchLineView::Removal(_) => rest,
        }
    }
}

/// Depth of the path after its first `pos` characters, counted in
/// directories below the workspace root, or `None` once the path has left
/// the root. `start` is where the current component began.
pub open spec fn depth_after(path: Seq<char>, pos: int, start: int, depth: int) -> Option<int>
    decreases path.len() - pos,
{
    if pos < 0 || pos > path.len() {
        None
    } else if pos == path.len() || path[pos] == '/' {
        let component = path.subrange(start, pos);
        let next: Option<int> = if component == seq!['.', '.'] {
            if depth == 0 {
                None
            } else {
                Some(depth - 1)
            }
        } else if component.len() == 0 || component == seq!['.'] {
            Some(depth)
        } else {
            Some(depth + 1)
        };
        if pos == path.len() {
            next
        } else {
            match next {
                Some(d) => depth_after(path, pos + 1, pos + 1, d),
                None => None,
            }
        }
    } else {
        depth_after(path, pos + 1, start, depth)
    }
}

/// A path a patch may name: not empty, not absolute, and never stepping
/// above the workspace root through `..`.
pub open spec fn is_workspace_path(path: Seq<char>) -> bool {
    &&& path.len() > 0
    &&& path[0] != '/'
    &&& depth_after(path, 0, 0, 0) is Some
}

/// Whether `path` may be named by a patch.
pub fn check_workspace_path(path: &Vec<char>) -> (ok: bool)
    ensures
        ok == is_workspace_path(path@),
{
    if path.len() == 0 || path[0] == '/' {
        return false;
    }
    let mut depth: usize = 0;
    let mut start: usize = 0;
    let mut pos: usize = 0;
    loop
        invariant
            start <= pos <= path.len(),
            path@.len() > 0,
            path@[0] != '/',
            depth <= start,
            depth_after(path@, 0, 0, 0) == depth_after(path@, pos as int, start as int, depth as int),
        decreases path.len() - pos,
    {
        if pos == path.len() || path[pos] == '/' {
            let length = pos - start;
            let ghost component = path@.subrange(start as int, pos as int);
            let dots = length == 2 && path[start] == '.' && path[start + 1] == '.';
            let dot = length == 1 && path[start] == '.';
            proof {
                assert(component.len() == length);
                assert(seq!['.', '.'].len() == 2);
                assert(seq!['.'].len() == 1);
                if length >= 1 {
                    assert(component[0] == path@[start as int]);
                }
                if length >= 2 {
                    assert(component[1] == path@[start + 1]);
                }
                if dots {
                    assert(component =~= seq!['.', '.']);
                } else if component == seq!['.', '.'] {
                    assert(component[0] == '.' && component[1] == '.');
                }
                if dot {
                    assert(component =~= seq!['.']);
                } else if component == seq!['.'] {
                    assert(component[0] == '.');
                }
            }
            let ghost entered = depth as int;
            if dots {
                if depth == 0 {
                    return false;
                }
                depth -= 1;
            } else if length == 0 || dot {
            } else {
                depth += 1;
            }
            if pos == path.len() {
                proof {
                    assert(depth_after(path@, pos as int, start as int, entered) == Some(
                        depth as int,
                    ));
                }
                return true;
            }
            proof {
                assert(depth_after(path@, pos as int, start as int, entered) == depth_after(
                    path@,
                    pos + 1,
                    pos + 1,
                    depth as int,
                ));
            }
            pos += 1;
            start = pos;
        } else {
            pos += 1;
        }
    }
}

} // verus!
