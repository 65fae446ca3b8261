//! The errors of the engine. Each says which operation failed and carries
//! the cause as text.

use vstd::prelude::*;
use crate::text::convert::{push_str, string_of};

verus! {

/// What can go wrong in the engine: one variant for each operation, with
/// the cause as text.
#[derive(Debug, Clone)]
pub enum GitError {
    RepositoryNotFound { path: String },
    CommitNotFound { oid: String },
    OpenFailed(String),
    StatusFailed(String),
    DiffFailed(String),
    StageFailed(String),
    UnstageFailed(String),
    CommitFailed(String),
    AmendFailed(String),
    BranchNotFound(String),
    ConfigReadFailed(String),
    ConfigWriteFailed(String),
    BranchListFailed(String),
    BranchCreateFailed(String),
    CheckoutFailed(String),
    BranchDeleteFailed(String),
    BranchRenameFailed(String),
    MergeFailed(String),
    FetchFailed(String),
    PullFailed(String),
    PushFailed(String),
    RemoteFailed(String),
    AuthFailed(String),
    LogFailed(String),
    BlameFailed(String),
    DiscardFailed(String),
    StashFailed(String),
    TagFailed(String),
    ConflictFailed(String),
    RebaseFailed(String),
    CherryPickFailed(String),
    RevertFailed(String),
    ResetFailed(String),
    SearchFailed(String),
    SubmoduleFailed(String),
    WorktreeFailed(String),
}

pub type GitResult<T> = Result<T, GitError>;

impl GitError {
    /// What the message of this error begins with.
    pub open spec fn prefix(self) -> Seq<char> {
        match self {
            GitError::RepositoryNotFound { .. } => "repository not found: "@,
            GitError::CommitNotFound { .. } => "commit not found: "@,
            GitError::OpenFailed(_) => "failed to open repository: "@,
            GitError::StatusFailed(_) => "failed to get status: "@,
            GitError::DiffFailed(_) => "failed to get diff: "@,
            GitError::StageFailed(_) => "failed to stage file: "@,
            GitError::UnstageFailed(_) => "failed to unstage file: "@,
            GitError::CommitFailed(_) => "failed to commit: "@,
            GitError::AmendFailed(_) => "failed to amend commit: "@,
            GitError::BranchNotFound(_) => "failed to get current branch: "@,
            GitError::ConfigReadFailed(_) => "failed to read config: "@,
            GitError::ConfigWriteFailed(_) => "failed to write config: "@,
            GitError::BranchListFailed(_) => "failed to list branches: "@,
            GitError::BranchCreateFailed(_) => "failed to create branch: "@,
            GitError::CheckoutFailed(_) => "failed to checkout branch: "@,
            GitError::BranchDeleteFailed(_) => "failed to delete branch: "@,
            GitError::BranchRenameFailed(_) => "failed to rename branch: "@,
            GitError::MergeFailed(_) => "failed to merge branch: "@,
            GitError::FetchFailed(_) => "failed to fetch: "@,
            GitError::PullFailed(_) => "failed to pull: "@,
            GitError::PushFailed(_) => "failed to push: "@,
            GitError::RemoteFailed(_) => "failed to manage remote: "@,
            GitError::AuthFailed(_) => "authentication failed: "@,
            GitError::LogFailed(_) => "failed to get commit log: "@,
            GitError::BlameFailed(_) => "failed to get blame: "@,
            GitError::DiscardFailed(_) => "failed to discard changes: "@,
            GitError::StashFailed(_) => "failed to stash: "@,
            GitError::TagFailed(_) => "failed to manage tag: "@,
            GitError::ConflictFailed(_) => "failed to resolve conflict: "@,
            GitError::RebaseFailed(_) => "failed to rebase: "@,
            GitError::CherryPickFailed(_) => "failed to cherry-pick: "@,
            GitError::RevertFailed(_) => "failed to revert: "@,
            GitError::ResetFailed(_) => "failed to reset: "@,
            GitError::SearchFailed(_) => "failed to search: "@,
            GitError::SubmoduleFailed(_) => "failed to manage submodule: "@,
            GitError::WorktreeFailed(_) => "failed to manage worktree: "@,
        }
    }

    /// The cause that this error carries.
    pub open spec fn detail(self) -> Seq<char> {
        match self {
            GitError::RepositoryNotFound { path } => path@,
            GitError::CommitNotFound { oid } => oid@,
            GitError::OpenFailed(cause) => cause@,
            GitError::StatusFailed(cause) => cause@,
            GitError::DiffFailed(cause) => cause@,
            GitError::StageFailed(cause) => cause@,
            GitError::UnstageFailed(cause) => cause@,
            GitError::CommitFailed(cause) => cause@,
            GitError::AmendFailed(cause) => cause@,
            GitError::BranchNotFound(cause) => cause@,
            GitError::ConfigReadFailed(cause) => cause@,
            GitError::ConfigWriteFailed(cause) => cause@,
            GitError::BranchListFailed(cause) => cause@,
            GitError::BranchCreateFailed(cause) => cause@,
            GitError::CheckoutFailed(cause) => cause@,
            GitError::BranchDeleteFailed(cause) => cause@,
            GitError::BranchRenameFailed(cause) => cause@,
            GitError::MergeFailed(cause) => cause@,
            GitError::FetchFailed(cause) => cause@,
            GitError::PullFailed(cause) => cause@,
            GitError::PushFailed(cause) => cause@,
            GitError::RemoteFailed(cause) => cause@,
            GitError::AuthFailed(cause) => cause@,
            GitError::LogFailed(cause) => cause@,
            GitError::BlameFailed(cause) => cause@,
            GitError::DiscardFailed(cause) => cause@,
            GitError::StashFailed(cause) => cause@,
            GitError::TagFailed(cause) => cause@,
            GitError::ConflictFailed(cause) => cause@,
            GitError::RebaseFailed(cause) => cause@,
            GitError::CherryPickFailed(cause) => cause@,
            GitError::RevertFailed(cause) => cause@,
            GitError::ResetFailed(cause) => cause@,
            GitError::SearchFailed(cause) => cause@,
            GitError::SubmoduleFailed(cause) => cause@,
            GitError::WorktreeFailed(cause) => cause@,
        }
    }

    /// The text of the message: what failed, then the cause.
    pub open spec fn message_text(self) -> Seq<char> {
        self.prefix() + self.detail()
    }

    /// The message for a reader: what failed, then the cause.
    pub fn message(&self) -> (out: String)
        ensures
            out@ == self.message_text(),
    {
        let mut text: Vec<char> = Vec::new();
        match self {
            GitError::RepositoryNotFound { path } => {
                push_str(&mut text, "repository not found: ");
                push_str(&mut text, path.as_str());
            },
            GitError::CommitNotFound { oid } => {
                push_str(&mut text, "commit not found: ");
                push_str(&mut text, oid.as_str());
            },
            GitError::OpenFailed(cause) => {
                push_str(&mut text, "failed to open repository: ");
                push_str(&mut text, cause.as_str());
            },
            GitError::StatusFailed(cause) => {
                push_str(&mut text, "failed to get status: ");
                push_str(&mut text, cause.as_str());
            },
            GitError::DiffFailed(cause) => {
                push_str(&mut text, "failed to get diff: ");
                push_str(&mut text, cause.as_str());
            },
            GitError::StageFailed(cause) => {
                push_str(&mut text, "failed to stage file: ");
                push_str(&mut text, cause.as_str());
            },
            GitError::UnstageFailed(cause) => {
                push_str(&mut text, "failed to unstage file: ");
                push_str(&mut text, cause.as_str());
            },
            GitError::CommitFailed(cause) => {
                push_str(&mut text, "failed to commit: ");
                push_str(&mut text, cause.as_str());
            },
            GitError::AmendFailed(cause) => {
                push_str(&mut text, "failed to amend commit: ");
                push_str(&mut text, cause.as_str());
            },
            GitError::BranchNotFound(cause) => {
                push_str(&mut text, "failed to get current branch: ");
                push_str(&mut text, cause.as_str());
            },
            GitError::ConfigReadFailed(cause) => {
                push_str(&mut text, "failed to read config: ");
                push_str(&mut text, cause.as_str());
            },
            GitError::ConfigWriteFailed(cause) => {
                push_str(&mut text, "failed to write config: ");
                push_str(&mut text, cause.as_str());
            },
            GitError::BranchListFailed(cause) => {
                push_str(&mut text, "failed to list branches: ");
                push_str(&mut text, cause.as_str());
            },
            GitError::BranchCreateFailed(cause) => {
                push_str(&mut text, "failed to create branch: ");
                push_str(&mut text, cause.as_str());
            },
            GitError::CheckoutFailed(cause) => {
                push_str(&mut text, "failed to checkout branch: ");
                push_str(&mut text, cause.as_str());
            },
            GitError::BranchDeleteFailed(cause) => {
                push_str(&mut text, "failed to delete branch: ");
                push_str(&mut text, cause.as_str());
            },
            GitError::BranchRenameFailed(cause) => {
                push_str(&mut text, "failed to rename branch: ");
                push_str(&mut text, cause.as_str());
            },
            GitError::MergeFailed(cause) => {
                push_str(&mut text, "failed to merge branch: ");
                push_str(&mut text, cause.as_str());
            },
            GitError::FetchFailed(cause) => {
                push_str(&mut text, "failed to fetch: ");
                push_str(&mut text, cause.as_str());
            },
            GitError::PullFailed(cause) => {
                push_str(&mut text, "failed to pull: ");
                push_str(&mut text, cause.as_str());
            },
            GitError::PushFailed(cause) => {
                push_str(&mut text, "failed to push: ");
                push_str(&mut text, cause.as_str());
            },
            GitError::RemoteFailed(cause) => {
                push_str(&mut text, "failed to manage remote: ");
                push_str(&mut text, cause.as_str());
            },
            GitError::AuthFailed(cause) => {
                push_str(&mut text, "authentication failed: ");
                push_str(&mut text, cause.as_str());
            },
            GitError::LogFailed(cause) => {
                push_str(&mut text, "failed to get commit log: ");
                push_str(&mut text, cause.as_str());
            },
            GitError::BlameFailed(cause) => {
                push_str(&mut text, "failed to get blame: ");
                push_str(&mut text, cause.as_str());
            },
            GitError::DiscardFailed(cause) => {
                push_str(&mut text, "failed to discard changes: ");
                push_str(&mut text, cause.as_str());
            },
            GitError::StashFailed(cause) => {
                push_str(&mut text, "failed to stash: ");
                push_str(&mut text, cause.as_str());
            },
            GitError::TagFailed(cause) => {
                push_str(&mut text, "failed to manage tag: ");
                push_str(&mut text, cause.as_str());
            },
            GitError::ConflictFailed(cause) => {
                push_str(&mut text, "failed to resolve conflict: ");
                push_str(&mut text, cause.as_str());
            },
            GitError::RebaseFailed(cause) => {
                push_str(&mut text, "failed to rebase: ");
                push_str(&mut text, cause.as_str());
            },
            GitError::CherryPickFailed(cause) => {
                push_str(&mut text, "failed to cherry-pick: ");
                push_str(&mut text, cause.as_str());
            },
            GitError::RevertFailed(cause) => {
                push_str(&mut text, "failed to revert: ");
                push_str(&mut text, cause.as_str());
            },
            GitError::ResetFailed(cause) => {
                push_str(&mut text, "failed to reset: ");
                push_str(&mut text, cause.as_str());
            },
            GitError::SearchFailed(cause) => {
                push_str(&mut text, "failed to search: ");
                push_str(&mut text, cause.as_str());
            },
            GitError::SubmoduleFailed(cause) => {
                push_str(&mut text, "failed to manage submodule: ");
                push_str(&mut text, cause.as_str());
            },
            GitError::WorktreeFailed(cause) => {
                push_str(&mut text, "failed to manage worktree: ");
                push_str(&mut text, cause.as_str());
            },
        }
        assert(text@ =~= self.message_text());
        string_of(&text)
    }
}

} // verus!
