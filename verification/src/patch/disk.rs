//! A model of the disk that a patch run works on, used to state what a run
//! does to the workspace.
//!
//! The model knows paths and what stands at them, nothing else. Two paths
//! are the same entry exactly when they are the same text. A request that
//! is answered with a failure has changed nothing.

use crate::patch::journal::{BackupView, DiskRequestView};
use crate::patch::runner::DiskReplyView;
use vstd::prelude::*;

verus! {

/// What stands at a path.
pub enum DiskEntry {
    File { content: Seq<char>, permissions: Option<u32> },
    Directory,
}

/// The disk after `request` was carried out. Requests that only read, and
/// snapshots, whose new name the disk chooses, are not covered here: for
/// them the disk is returned as it is.
pub open spec fn carried_out(
    disk: Map<Seq<char>, DiskEntry>,
    request: DiskRequestView,
) -> Map<Seq<char>, DiskEntry> {
    match request {
        DiskRequestView::Write { path, content, permissions } => disk.insert(
            path,
            DiskEntry::File { content, permissions },
        ),
        DiskRequestView::Restore { backup, destination } => disk.remove(backup.path).insert(
            destination,
            disk[backup.path],
        ),
        DiskRequestView::Discard { backup } => disk.remove(backup.path),
        DiskRequestView::Remove { path } => disk.remove(path),
        _ => disk,
    }
}

/// The disk after the entry at `path` was moved aside to `backup`.
pub open spec fn moved_aside(
    disk: Map<Seq<char>, DiskEntry>,
    path: Seq<char>,
    backup: BackupView,
) -> Map<Seq<char>, DiskEntry> {
    disk.remove(path).insert(backup.path, disk[path])
}

/// `reply` is what a disk in state `disk` may answer to `request`, and
/// `after` is the state it is in then.
///
/// A failure changes nothing. A read returns the text of the file. A write
/// puts the file in place, with the permission bits asked for. A snapshot
/// of an existing entry moves it to a name that was free; a snapshot of
/// nothing reports nothing. A restore moves the snapshot back over
/// whatever stands at the destination. Discarding and removing delete.
pub open spec fn is_faithful(
    disk: Map<Seq<char>, DiskEntry>,
    request: DiskRequestView,
    reply: DiskReplyView,
    after: Map<Seq<char>, DiskEntry>,
) -> bool {
    match reply {
        DiskReplyView::Failed(_) => after == disk,
        _ => match request {
            DiskRequestView::Read { path } => {
                &&& disk.contains_key(path)
                &&& disk[path] matches DiskEntry::File { content, .. } && reply
                    == DiskReplyView::Text(content)
                &&& after == disk
            },
            DiskRequestView::Snapshot { path } => {
                if disk.contains_key(path) {
                    &&& reply matches DiskReplyView::Snapshot(Some(backup))
                    &&& !disk.contains_key(backup.path)
                    &&& backup.path != path
                    &&& after == moved_aside(disk, path, backup)
                } else {
                    &&& reply == DiskReplyView::Snapshot(None)
                    &&& after == disk
                }
            },
            DiskRequestView::Restore { backup, destination } => {
                &&& reply == DiskReplyView::Done
                &&& disk.contains_key(backup.path)
                &&& after == carried_out(disk, request)
            },
            _ => {
                &&& reply == DiskReplyView::Done
                &&& after == carried_out(disk, request)
            },
        },
    }
}

/// The disk after every request of `requests` was carried out, in order.
pub open spec fn all_carried_out(
    requests: Seq<DiskRequestView>,
    disk: Map<Seq<char>, DiskEntry>,
) -> Map<Seq<char>, DiskEntry>
    decreases requests.len(),
{
    if requests.len() == 0 {
        disk
    } else {
        all_carried_out(requests.skip(1), carried_out(disk, requests[0]))
    }
}

} // verus!
