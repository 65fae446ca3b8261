//! The status of the working tree and the index, file by file.

use vstd::prelude::*;
use crate::git::types::{FileStatus, FileStatusKind, FileStatusView, RepoStatus, StagingState};
use crate::text::convert::{chars_of, string_of};

verus! {

/// What the repository reports of one path: how the index differs from the
/// last commit, how the working tree differs from the index, and whether the
/// path is in conflict.
#[derive(Debug, Clone, Copy, PartialEq, Eq, Structural)]
pub struct StatusFlags {
    pub index_new: bool,
    pub index_modified: bool,
    pub index_deleted: bool,
    pub index_renamed: bool,
    pub index_typechange: bool,
    pub wt_new: bool,
    pub wt_modified: bool,
    pub wt_deleted: bool,
    pub wt_renamed: bool,
    pub wt_typechange: bool,
    pub conflicted: bool,
}

/// A path and what the repository reports of it.
#[derive(Debug, Clone)]
pub struct StatusEntry {
    pub path: String,
    pub flags: StatusFlags,
}

/// Whether the index differs from the last commit.
pub open spec fn has_index_change(f: StatusFlags) -> bool {
    f.index_new || f.index_modified || f.index_deleted || f.index_renamed || f.index_typechange
}

/// Whether the working tree differs from the index.
pub open spec fn has_wt_change(f: StatusFlags) -> bool {
    f.wt_new || f.wt_modified || f.wt_deleted || f.wt_renamed || f.wt_typechange
}

/// The kind of a staged change: the first that applies of new, modified,
/// deleted, renamed; else a change of type.
pub open spec fn index_kind(f: StatusFlags) -> FileStatusKind {
    if f.index_new {
        FileStatusKind::Untracked
    } else if f.index_modified {
        FileStatusKind::Modified
    } else if f.index_deleted {
        FileStatusKind::Deleted
    } else if f.index_renamed {
        FileStatusKind::Renamed
    } else {
        FileStatusKind::Typechange
    }
}

/// The kind of an unstaged change, found in the same order.
pub open spec fn wt_kind(f: StatusFlags) -> FileStatusKind {
    if f.wt_new {
        FileStatusKind::Untracked
    } else if f.wt_modified {
        FileStatusKind::Modified
    } else if f.wt_deleted {
        FileStatusKind::Deleted
    } else if f.wt_renamed {
        FileStatusKind::Renamed
    } else {
        FileStatusKind::Typechange
    }
}

/// The kind of a staged change.
pub fn index_status_to_kind(status: StatusFlags) -> (kind: FileStatusKind)
    ensures
        kind == index_kind(status),
{
    if status.index_new {
        FileStatusKind::Untracked
    } else if status.index_modified {
        FileStatusKind::Modified
    } else if status.index_deleted {
        FileStatusKind::Deleted
    } else if status.index_renamed {
        FileStatusKind::Renamed
    } else {
        FileStatusKind::Typechange
    }
}

/// The kind of an unstaged change.
pub fn wt_status_to_kind(status: StatusFlags) -> (kind: FileStatusKind)
    ensures
        kind == wt_kind(status),
{
    if status.wt_new {
        FileStatusKind::Untracked
    } else if status.wt_modified {
        FileStatusKind::Modified
    } else if status.wt_deleted {
        FileStatusKind::Deleted
    } else if status.wt_renamed {
        FileStatusKind::Renamed
    } else {
        FileStatusKind::Typechange
    }
}

/// An entry of the status.
pub open spec fn entry(path: Seq<char>, kind: FileStatusKind, staging: StagingState) -> FileStatusView {
    FileStatusView { path, kind, staging }
}

/// The entries that one path contributes: a conflicted path one unstaged
/// entry and no other; else one staged entry where the index changed, then
/// one unstaged entry where the working tree changed.
pub open spec fn path_entries(path: Seq<char>, f: StatusFlags) -> Seq<FileStatusView> {
    if f.conflicted {
        seq![entry(path, FileStatusKind::Conflicted, StagingState::Unstaged)]
    } else {
        (if has_index_change(f) {
            seq![entry(path, index_kind(f), StagingState::Staged)]
        } else {
            Seq::empty()
        }) + (if has_wt_change(f) {
            seq![entry(path, wt_kind(f), StagingState::Unstaged)]
        } else {
            Seq::empty()
        })
    }
}

/// The entries of the first `n` paths, in order.
pub open spec fn status_entries(entries: Seq<StatusEntry>, n: int) -> Seq<FileStatusView>
    decreases n,
{
    if n <= 0 || n > entries.len() {
        Seq::empty()
    } else {
        status_entries(entries, n - 1) + path_entries(entries[n - 1].path@, entries[n - 1].flags)
    }
}

fn push_file(files: &mut Vec<FileStatus>, path: &str, kind: FileStatusKind, staging: StagingState)
    ensures
        final(files).deep_view() == old(files).deep_view().push(entry(path@, kind, staging)),
{
    let file = FileStatus { path: string_of(&chars_of(path)), kind, staging };
    files.push(file);
    assert(files.deep_view() =~= old(files).deep_view().push(entry(path@, kind, staging)));
}

/// The status of the repository from what it reports of each path.
pub fn status(entries: &Vec<StatusEntry>) -> (r: RepoStatus)
    ensures
        r.files.deep_view() == status_entries(entries@, entries.len() as int),
{
    let mut files: Vec<FileStatus> = Vec::new();
    let mut i: usize = 0;
    assert(files.deep_view() =~= Seq::<FileStatusView>::empty());
    while i < entries.len()
        invariant
            i <= entries.len(),
            files.deep_view() == status_entries(entries@, i as int),
        decreases entries.len() - i,
    {
        let e = &entries[i];
        let f = e.flags;
        let ghost before = files.deep_view();
        if f.conflicted {
            push_file(
                &mut files,
                e.path.as_str(),
                FileStatusKind::Conflicted,
                StagingState::Unstaged,
            );
            assert(files.deep_view() =~= before + path_entries(e.path@, f));
        } else {
            if f.index_new || f.index_modified || f.index_deleted || f.index_renamed
                || f.index_typechange {
                let kind = index_status_to_kind(f);
                push_file(&mut files, e.path.as_str(), kind, StagingState::Staged);
            }
            if f.wt_new || f.wt_modified || f.wt_deleted || f.wt_renamed || f.wt_typechange {
                let kind = wt_status_to_kind(f);
                push_file(&mut files, e.path.as_str(), kind, StagingState::Unstaged);
            }
            assert(files.deep_view() =~= before + path_entries(e.path@, f));
        }
        i += 1;
    }
    RepoStatus { files }
}

} // verus!
