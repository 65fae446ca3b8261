//! Small decisions of everyday operations: what to do with the index when a
//! path is staged or unstaged, how a commit is made, and which error a
//! failure becomes.

use vstd::prelude::*;
use crate::git::error::GitError;
use crate::git::types::{
    CommitDetail,
    CommitFileChange,
    CommitInfo,
    CommitResult,
    CommitStats,
    FetchResult,
    PushResult,
    RemoteInfo,
};
use crate::text::convert::{chars_of, string_of};

verus! {

/// The error of opening a repository: where none was found at the path,
/// that; else the cause.
pub fn open_failure(not_found: bool, path: &str, cause: &str) -> (e: GitError)
    ensures
        not_found ==> e is RepositoryNotFound && e.detail() == path@,
        !not_found ==> e is OpenFailed && e.detail() == cause@,
{
    if not_found {
        GitError::RepositoryNotFound { path: string_of(&chars_of(path)) }
    } else {
        GitError::OpenFailed(string_of(&chars_of(cause)))
    }
}

/// The error of opening a repository that has no working tree.
pub fn bare_repository() -> (e: GitError)
    ensures
        e is OpenFailed,
        e.detail() == "bare repository"@,
{
    GitError::OpenFailed(string_of(&chars_of("bare repository")))
}

/// The error of naming a commit that is not there.
pub fn commit_not_found(oid: &str) -> (e: GitError)
    ensures
        e is CommitNotFound,
        e.detail() == oid@,
{
    GitError::CommitNotFound { oid: string_of(&chars_of(oid)) }
}

/// What staging a path does to the index.
#[derive(Debug, Clone, Copy, PartialEq, Eq, Structural)]
pub enum StageAction {
    /// Take the file as it is on disk.
    Add,
    /// Take the path out: the file is gone from disk.
    Remove,
}

/// Decides what staging a path does, by whether the file is on disk.
pub fn stage(exists_on_disk: bool) -> (action: StageAction)
    ensures
        action == if exists_on_disk {
            StageAction::Add
        } else {
            StageAction::Remove
        },
{
    if exists_on_disk {
        StageAction::Add
    } else {
        StageAction::Remove
    }
}

/// What unstaging does to the index.
#[derive(Debug, Clone, Copy, PartialEq, Eq, Structural)]
pub enum UnstageAction {
    /// Put back what the current commit holds.
    ResetToHead,
    /// There is no commit yet: take the entries out.
    RemoveFromIndex,
}

/// Decides what unstaging does, by whether there is a current commit.
pub fn unstage(has_head: bool) -> (action: UnstageAction)
    ensures
        action == if has_head {
            UnstageAction::ResetToHead
        } else {
            UnstageAction::RemoveFromIndex
        },
{
    if has_head {
        UnstageAction::ResetToHead
    } else {
        UnstageAction::RemoveFromIndex
    }
}

/// How a commit is made.
#[derive(Debug, Clone, Copy, PartialEq, Eq, Structural)]
pub enum CommitPlan {
    /// Replace the current commit.
    Amend,
    /// A new commit on top of the current one.
    OnHead,
    /// The first commit: it has no parent.
    Initial,
}

/// Amending replaces the current commit; else the commit goes on top of the
/// current one, or is the first.
pub open spec fn commit_plan(amend: bool, has_head: bool) -> CommitPlan {
    if amend {
        CommitPlan::Amend
    } else if has_head {
        CommitPlan::OnHead
    } else {
        CommitPlan::Initial
    }
}

/// Decides how a commit is made.
pub fn commit(amend: bool, has_head: bool) -> (plan: CommitPlan)
    ensures
        plan == commit_plan(amend, has_head),
{
    if amend {
        CommitPlan::Amend
    } else if has_head {
        CommitPlan::OnHead
    } else {
        CommitPlan::Initial
    }
}

/// The result of a commit.
pub fn commit_result(oid: &str) -> (r: CommitResult)
    ensures
        r.oid@ == oid@,
{
    CommitResult { oid: string_of(&chars_of(oid)) }
}

/// The name of the current branch: its short name, or `HEAD` where it has
/// none.
pub fn current_branch(shorthand: Option<&str>) -> (name: String)
    ensures
        name@ == match shorthand {
            Some(s) => s@,
            None => "HEAD"@,
        },
{
    match shorthand {
        Some(s) => string_of(&chars_of(s)),
        None => string_of(&chars_of("HEAD")),
    }
}

/// Which kind of tag is made: with a message an annotated one, without a
/// lightweight one.
pub fn create_tag(message: Option<&str>) -> (annotated: bool)
    ensures
        annotated == message is Some,
{
    message.is_some()
}

/// A remote as a value. A remote without an address has an empty one.
pub fn remote_info(name: &str, url: Option<&str>) -> (info: RemoteInfo)
    ensures
        info.name@ == name@,
        info.url@ == match url {
            Some(u) => u@,
            None => Seq::<char>::empty(),
        },
{
    RemoteInfo {
        name: string_of(&chars_of(name)),
        url: match url {
            Some(u) => string_of(&chars_of(u)),
            None => String::new(),
        },
    }
}

/// The result of a fetch from a remote.
pub fn fetch_result(remote_name: &str) -> (r: FetchResult)
    ensures
        r.remote_name@ == remote_name@,
{
    FetchResult { remote_name: string_of(&chars_of(remote_name)) }
}

/// The result of a push of a branch to a remote.
pub fn push_result(remote_name: &str, branch: &str) -> (r: PushResult)
    ensures
        r.remote_name@ == remote_name@,
        r.branch@ == branch@,
{
    PushResult { remote_name: string_of(&chars_of(remote_name)), branch: string_of(&chars_of(branch)) }
}

/// The totals of a commit's changes.
pub fn commit_stats(insertions: usize, deletions: usize, files_changed: usize) -> (stats: CommitStats)
    ensures
        stats.additions == insertions as u32,
        stats.deletions == deletions as u32,
        stats.files_changed == files_changed as u32,
{
    CommitStats {
        additions: #[verifier::truncate]
        (insertions as u32),
        deletions: #[verifier::truncate]
        (deletions as u32),
        files_changed: #[verifier::truncate]
        (files_changed as u32),
    }
}

/// A commit with its changes.
pub fn get_commit_detail(info: CommitInfo, files: Vec<CommitFileChange>, stats: CommitStats) -> (d:
    CommitDetail)
    ensures
        d.info == info,
        d.files == files,
        d.stats == stats,
{
    CommitDetail { info, files, stats }
}

} // verus!
