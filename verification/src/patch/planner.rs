//! The plan phase: checking every operation against the workspace before
//! anything is touched.

use crate::patch::error::{PatchError, PatchErrorView};
use crate::patch::model::{
    chunk_views, operation_views, OperationView, PatchChunk, PatchLineView, PatchOperation,
};
use vstd::prelude::*;
use vstd::string::StringExecFns;

verus! {

/// What inspecting a path of the workspace found.
#[derive(Debug)]
pub enum PathProbe {
    /// Nothing exists at the path.
    Missing,
    /// A file, with its permission bits where the platform has them.
    File { permissions: Option<u32> },
    /// A directory.
    Directory,
    /// The path could not be inspected; `path` is the full path and
    /// `source` the cause as the system gave it.
    Failed { path: String, source: String },
}

/// What a probe holds.
pub enum PathProbeView {
    Missing,
    File { permissions: Option<u32> },
    Directory,
    Failed { path: Seq<char>, source: Seq<char> },
}

impl View for PathProbe {
    type V = PathProbeView;

    open spec fn view(&self) -> PathProbeView {
        match self {
            PathProbe::Missing => PathProbeView::Missing,
            PathProbe::File { permissions } => PathProbeView::File { permissions: *permissions },
            PathProbe::Directory => PathProbeView::Directory,
            PathProbe::Failed { path, source } => PathProbeView::Failed {
                path: path@,
                source: source@,
            },
        }
    }
}

/// What inspecting the workspace found for one operation: the state of the
/// path it names and, for an update that moves, of its destination.
#[derive(Debug)]
pub struct OperationProbe {
    pub target: PathProbe,
    pub destination: PathProbe,
}

/// What the probes of an operation hold.
pub struct OperationProbeView {
    pub target: PathProbeView,
    pub destination: PathProbeView,
}

impl View for OperationProbe {
    type V = OperationProbeView;

    open spec fn view(&self) -> OperationProbeView {
        OperationProbeView { target: self.target@, destination: self.destination@ }
    }
}

/// The views of a list of probes.
pub open spec fn probe_views(probes: Seq<OperationProbe>) -> Seq<OperationProbeView> {
    Seq::new(probes.len(), |i: int| probes[i]@)
}

/// An operation that passed the plan phase.
#[derive(Debug)]
pub enum PreparedOperation<'a> {
    Add { path: &'a str, content: &'a str },
    Delete { path: &'a str },
    Update {
        path: &'a str,
        new_path: Option<&'a str>,
        chunks: &'a Vec<PatchChunk>,
        permissions: Option<u32>,
    },
}

/// What a prepared operation holds.
pub enum PreparedView {
    Add { path: Seq<char>, content: Seq<char> },
    Delete { path: Seq<char> },
    Update {
        path: Seq<char>,
        new_path: Option<Seq<char>>,
        chunks: Seq<Seq<PatchLineView>>,
        permissions: Option<u32>,
    },
}

impl<'a> View for PreparedOperation<'a> {
    type V = PreparedView;

    open spec fn view(&self) -> PreparedView {
        match self {
            PreparedOperation::Add { path, content } => PreparedView::Add {
                path: path@,
                content: content@,
            },
            PreparedOperation::Delete { path } => PreparedView::Delete { path: path@ },
            PreparedOperation::Update { path, new_path, chunks, permissions } => PreparedView::Update {
                path: path@,
                new_path: match new_path {
                    Some(p) => Some(p@),
                    None => None,
                },
                chunks: chunk_views(chunks@),
                permissions: *permissions,
            },
        }
    }
}

/// The views of a plan.
pub open spec fn plan_views(plan: Seq<PreparedOperation>) -> Seq<PreparedView> {
    Seq::new(plan.len(), |i: int| plan[i]@)
}

/// The error for a path that could not be inspected.
pub open spec fn inspect_failure(path: Seq<char>, source: Seq<char>) -> PatchErrorView {
    PatchErrorView::Io { action: "inspect"@, path, source }
}

/// An operation refused because of what is in the workspace.
pub open spec fn refused(path: Seq<char>, reason: Seq<char>) -> PatchErrorView {
    PatchErrorView::InvalidOperation { path, reason }
}

/// The check of the destination of an update that moves: nothing may
/// exist there.
pub open spec fn destination_checked(destination: Seq<char>, probe: PathProbeView) -> Option<
    PatchErrorView,
> {
    match probe {
        PathProbeView::Missing => None,
        PathProbeView::File { .. } => Some(
            refused(destination, "destination file already exists"@),
        ),
        PathProbeView::Directory => Some(refused(destination, "destination is a directory"@)),
        PathProbeView::Failed { path, source } => Some(inspect_failure(path, source)),
    }
}

/// The plan for one operation, or why it cannot be carried out.
///
/// A file is added only where nothing exists. A deletion always passes. An
/// update needs an existing file that is no directory; if it moves the file
/// to another path, nothing may exist there. The update keeps the
/// permission bits that the file has.
pub open spec fn planned(operation: OperationView, probe: OperationProbeView) -> Result<
    PreparedView,
    PatchErrorView,
> {
    match operation {
        OperationView::AddFile { path, content } => match probe.target {
            PathProbeView::Missing => Ok(PreparedView::Add { path, content }),
            PathProbeView::Failed { path: full, source } => Err(inspect_failure(full, source)),
            _ => Err(refused(path, "target already exists"@)),
        },
        OperationView::DeleteFile { path } => Ok(PreparedView::Delete { path }),
        OperationView::UpdateFile { path, new_path, chunks } => match probe.target {
            PathProbeView::Missing => Err(PatchErrorView::MissingFile { path }),
            PathProbeView::Failed { path: full, source } => Err(inspect_failure(full, source)),
            PathProbeView::Directory => Err(
                refused(path, "cannot apply text diff to directory"@),
            ),
            PathProbeView::File { permissions } => {
                let blocked = match new_path {
                    Some(destination) => if destination == path {
                        None
                    } else {
                        destination_checked(destination, probe.destination)
                    },
                    None => None,
                };
                match blocked {
                    Some(error) => Err(error),
                    None => Ok(PreparedView::Update { path, new_path, chunks, permissions }),
                }
            },
        },
    }
}

/// The plan for the first `upto` operations, or the error of the first one
/// that cannot be carried out.
pub open spec fn planned_prefix(
    operations: Seq<OperationView>,
    probes: Seq<OperationProbeView>,
    upto: int,
) -> Result<Seq<PreparedView>, PatchErrorView>
    decreases upto,
{
    if upto <= 0 {
        Ok(Seq::empty())
    } else {
        match planned_prefix(operations, probes, upto - 1) {
            Err(error) => Err(error),
            Ok(plan) => match planned(operations[upto - 1], probes[upto - 1]) {
                Ok(prepared) => Ok(plan.push(prepared)),
                Err(error) => Err(error),
            },
        }
    }
}

/// The plan for a patch: a patch without operations is refused.
pub open spec fn planned_patch(
    operations: Seq<OperationView>,
    probes: Seq<OperationProbeView>,
) -> Result<Seq<PreparedView>, PatchErrorView> {
    if operations.len() == 0 {
        Err(PatchErrorView::NoOperations)
    } else {
        planned_prefix(operations, probes, operations.len() as int)
    }
}

fn refuse(path: &str, reason: &str) -> (error: PatchError)
    ensures
        error@ == refused(path@, reason@),
{
    PatchError::InvalidOperation { path: path.to_owned(), reason: reason.to_owned() }
}

fn inspect_error(path: &String, source: &String) -> (error: PatchError)
    ensures
        error@ == inspect_failure(path@, source@),
{
    PatchError::Io {
        action: String::from_str("inspect"),
        path: path.clone(),
        source: source.clone(),
    }
}

fn same_text(a: &str, b: &str) -> (r: bool)
    ensures
        r == (a@ == b@),
{
    let x = crate::text::to_chars(a);
    let y = crate::text::to_chars(b);
    crate::text::same_chars(&x, &y)
}

/// Plans one operation against what was found in the workspace.
pub fn plan_operation<'a>(operation: &'a PatchOperation, probe: &OperationProbe) -> (r: Result<
    PreparedOperation<'a>,
    PatchError,
>)
    ensures
        match r {
            Ok(prepared) => planned(operation@, probe@) == Ok::<PreparedView, PatchErrorView>(
                prepared@,
            ),
            Err(error) => planned(operation@, probe@) == Err::<PreparedView, PatchErrorView>(error@),
        },
{
    match operation {
        PatchOperation::AddFile { path, content } => match &probe.target {
            PathProbe::Missing => Ok(
                PreparedOperation::Add { path: path.as_str(), content: content.as_str() },
            ),
            PathProbe::Failed { path: full, source } => Err(inspect_error(full, source)),
            _ => Err(refuse(path.as_str(), "target already exists")),
        },
        PatchOperation::DeleteFile { path } => Ok(PreparedOperation::Delete { path: path.as_str() }),
        PatchOperation::UpdateFile { path, new_path, chunks } => match &probe.target {
            PathProbe::Missing => Err(PatchError::MissingFile { path: path.clone() }),
            PathProbe::Failed { path: full, source } => Err(inspect_error(full, source)),
            PathProbe::Directory => Err(
                refuse(path.as_str(), "cannot apply text diff to directory"),
            ),
            PathProbe::File { permissions } => {
                match new_path {
                    Some(destination) => {
                        if !same_text(destination.as_str(), path.as_str()) {
                            match &probe.destination {
                                PathProbe::Missing => {},
                                PathProbe::File { .. } => {
                                    return Err(
                                        refuse(
                                            destination.as_str(),
                                            "destination file already exists",
                                        ),
                                    );
                                },
                                PathProbe::Directory => {
                                    return Err(
                                        refuse(destination.as_str(), "destination is a directory"),
                                    );
                                },
                                PathProbe::Failed { path: full, source } => {
                                    return Err(inspect_error(full, source));
                                },
                            }
                        }
                    },
                    None => {},
                }
                let moved: Option<&'a str> = match new_path {
                    Some(destination) => Some(destination.as_str()),
                    None => None,
                };
                Ok(
                    PreparedOperation::Update {
                        path: path.as_str(),
                        new_path: moved,
                        chunks,
                        permissions: *permissions,
                    },
                )
            },
        },
    }
}

/// Plans a patch: every operation is checked, in order, against what was
/// found in the workspace, and the first one that cannot be carried out
/// decides the error. Nothing is touched.
pub fn plan_operations<'a>(operations: &'a Vec<PatchOperation>, probes: &Vec<OperationProbe>) -> (r:
    Result<Vec<PreparedOperation<'a>>, PatchError>)
    requires
        probes@.len() == operations@.len(),
    ensures
        match r {
            Ok(plan) => planned_patch(operation_views(operations@), probe_views(probes@)) == Ok::<
                Seq<PreparedView>,
                PatchErrorView,
            >(plan_views(plan@)),
            Err(error) => planned_patch(operation_views(operations@), probe_views(probes@)) == Err::<
                Seq<PreparedView>,
                PatchErrorView,
            >(error@),
        },
{
    if operations.len() == 0 {
        return Err(PatchError::NoOperations);
    }
    let ghost ops = operation_views(operations@);
    let ghost found = probe_views(probes@);
    let mut plan: Vec<PreparedOperation<'a>> = Vec::new();
    let mut i: usize = 0;
    proof {
        assert(plan_views(plan@) =~= Seq::<PreparedView>::empty());
    }
    while i < operations.len()
        invariant
            i <= operations.len(),
            probes@.len() == operations@.len(),
            ops == operation_views(operations@),
            found == probe_views(probes@),
            planned_prefix(ops, found, i as int) == Ok::<Seq<PreparedView>, PatchErrorView>(
                plan_views(plan@),
            ),
        decreases operations.len() - i,
    {
        let ghost before = plan_views(plan@);
        match plan_operation(&operations[i], &probes[i]) {
            Ok(prepared) => {
                plan.push(prepared);
                proof {
                    assert(plan_views(plan@) =~= before.push(prepared@));
                }
            },
            Err(error) => {
                proof {
                    lemma_plan_failure_is_final(ops, found, i + 1, operations@.len() as int);
                }
                return Err(error);
            },
        }
        i += 1;
    }
    Ok(plan)
}

proof fn lemma_plan_failure_is_final(
    operations: Seq<OperationView>,
    probes: Seq<OperationProbeView>,
    from: int,
    upto: int,
)
    requires
        0 <= from <= upto,
        planned_prefix(operations, probes, from) is Err,
    ensures
        planned_prefix(operations, probes, upto) == planned_prefix(operations, probes, from),
    decreases upto - from,
{
    if from < upto {
        lemma_plan_failure_is_final(operations, probes, from, upto - 1);
    }
}

} // verus!
