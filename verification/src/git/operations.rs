//! The state that merge, rebase, cherry-pick and revert share: idle, or one
//! of them in progress, with or without conflicts.

use vstd::prelude::*;
use crate::git::error::GitError;
use crate::git::merge::{merge_policy, MergeAnalysis, MergeStep};
use crate::git::types::{CherryPickMode, CherryPickResult, MergeOption, RevertMode, RevertResult};
use crate::text::convert::{chars_of, string_of};

verus! {

/// The operations that run in several steps.
#[derive(Debug, Clone, Copy, PartialEq, Eq, Structural)]
pub enum OperationKind {
    Merge,
    Rebase,
    CherryPick,
    Revert,
}

/// Idle, or one operation in progress.
#[derive(Debug, Clone, Copy, PartialEq, Eq, Structural)]
pub enum OperationState {
    Idle,
    InProgress { kind: OperationKind, has_conflicts: bool },
}

/// What the repository records of itself.
#[derive(Debug, Clone, Copy, PartialEq, Eq, Structural)]
pub enum RepositoryMarker {
    Clean,
    Merge,
    Revert,
    RevertSequence,
    CherryPick,
    CherryPickSequence,
    Bisect,
    Rebase,
    RebaseInteractive,
    RebaseMerge,
    ApplyMailbox,
    ApplyMailboxOrRebase,
}

/// The operation that a marker of the repository stands for, if any.
pub open spec fn marked_operation(marker: RepositoryMarker) -> Option<OperationKind> {
    match marker {
        RepositoryMarker::Merge => Some(OperationKind::Merge),
        RepositoryMarker::Rebase | RepositoryMarker::RebaseInteractive | RepositoryMarker::RebaseMerge => Some(
            OperationKind::Rebase,
        ),
        RepositoryMarker::CherryPick | RepositoryMarker::CherryPickSequence => Some(
            OperationKind::CherryPick,
        ),
        RepositoryMarker::Revert | RepositoryMarker::RevertSequence => Some(OperationKind::Revert),
        _ => None,
    }
}

/// The state that the repository is in, from its marker and from whether
/// its index holds conflicts.
pub open spec fn state_of(marker: RepositoryMarker, has_conflicts: bool) -> OperationState {
    match marked_operation(marker) {
        Some(kind) => OperationState::InProgress { kind, has_conflicts },
        None => OperationState::Idle,
    }
}

/// The state that the repository is in.
pub fn operation_state(marker: RepositoryMarker, has_conflicts: bool) -> (state: OperationState)
    ensures
        state == state_of(marker, has_conflicts),
{
    match marker {
        RepositoryMarker::Merge => OperationState::InProgress {
            kind: OperationKind::Merge,
            has_conflicts,
        },
        RepositoryMarker::Rebase | RepositoryMarker::RebaseInteractive | RepositoryMarker::RebaseMerge => OperationState::InProgress {
            kind: OperationKind::Rebase,
            has_conflicts,
        },
        RepositoryMarker::CherryPick | RepositoryMarker::CherryPickSequence => OperationState::InProgress {
            kind: OperationKind::CherryPick,
            has_conflicts,
        },
        RepositoryMarker::Revert | RepositoryMarker::RevertSequence => OperationState::InProgress {
            kind: OperationKind::Revert,
            has_conflicts,
        },
        _ => OperationState::Idle,
    }
}

/// Whether the given operation is in progress.
pub fn is_in_progress(marker: RepositoryMarker, kind: OperationKind) -> (r: bool)
    ensures
        r == (marked_operation(marker) == Some(kind)),
{
    match operation_state(marker, false) {
        OperationState::InProgress { kind: k, .. } => k == kind,
        OperationState::Idle => false,
    }
}

/// The state after an attempt of an operation: in progress where the
/// attempt left conflicts in the index, idle where it went through.
pub open spec fn after_attempt(kind: OperationKind, conflicts_left: bool) -> OperationState {
    if conflicts_left {
        OperationState::InProgress { kind, has_conflicts: true }
    } else {
        OperationState::Idle
    }
}

/// Starts an operation. Only one can be in progress: the caller starts none
/// while another is.
pub fn begin(state: OperationState, kind: OperationKind, conflicts_left: bool) -> (next:
    OperationState)
    requires
        state is Idle,
    ensures
        next == after_attempt(kind, conflicts_left),
{
    if conflicts_left {
        OperationState::InProgress { kind, has_conflicts: true }
    } else {
        OperationState::Idle
    }
}

/// Gives an operation up: whatever the state, the repository is idle
/// afterwards.
pub fn abort(state: OperationState) -> (next: OperationState)
    ensures
        next is Idle,
{
    OperationState::Idle
}

/// Whether an error is the failure to give an operation of the given kind
/// up, with the given cause.
pub open spec fn is_abort_failure(e: GitError, kind: OperationKind, cause: Seq<char>) -> bool {
    &&& e.detail() == cause
    &&& match kind {
        OperationKind::Merge => e is ConflictFailed,
        OperationKind::Rebase => e is RebaseFailed,
        OperationKind::CherryPick => e is CherryPickFailed,
        OperationKind::Revert => e is RevertFailed,
    }
}

/// What giving an operation up came to, from the outcome of its two steps:
/// clearing the markers of the operation, and putting the working tree
/// back. Both steps are taken whatever the other comes to, and each is given
/// here by the cause of its failure, if it failed. The result is a success
/// where both went through; else the failure of the first step that failed,
/// with its cause.
pub fn abort_outcome(
    kind: OperationKind,
    cleanup_failure: Option<&str>,
    restore_failure: Option<&str>,
) -> (r: Result<(), GitError>)
    ensures
        match cleanup_failure {
            Some(cause) => r matches Err(e) && is_abort_failure(e, kind, cause@),
            None => match restore_failure {
                Some(cause) => r matches Err(e) && is_abort_failure(e, kind, cause@),
                None => r is Ok,
            },
        },
{
    let cause = match cleanup_failure {
        Some(cause) => string_of(&chars_of(cause)),
        None => match restore_failure {
            Some(cause) => string_of(&chars_of(cause)),
            None => {
                return Ok(());
            },
        },
    };
    match kind {
        OperationKind::Merge => Err(GitError::ConflictFailed(cause)),
        OperationKind::Rebase => Err(GitError::RebaseFailed(cause)),
        OperationKind::CherryPick => Err(GitError::CherryPickFailed(cause)),
        OperationKind::Revert => Err(GitError::RevertFailed(cause)),
    }
}

/// Whether an error says that conflicts stand in the way of going on with
/// an operation of the given kind.
pub open spec fn is_unresolved(e: GitError, kind: OperationKind) -> bool {
    &&& e.detail() == "unresolved conflicts remain"@
    &&& match kind {
        OperationKind::Merge => e is ConflictFailed,
        OperationKind::Rebase => e is RebaseFailed,
        OperationKind::CherryPick => e is CherryPickFailed,
        OperationKind::Revert => e is RevertFailed,
    }
}

/// The error that says that conflicts stand in the way of going on.
pub fn unresolved_conflicts(kind: OperationKind) -> (e: GitError)
    ensures
        is_unresolved(e, kind),
{
    let cause = string_of(&chars_of("unresolved conflicts remain"));
    match kind {
        OperationKind::Merge => GitError::ConflictFailed(cause),
        OperationKind::Rebase => GitError::RebaseFailed(cause),
        OperationKind::CherryPick => GitError::CherryPickFailed(cause),
        OperationKind::Revert => GitError::RevertFailed(cause),
    }
}

/// Checks that an operation in progress can go on: it cannot while the
/// index holds conflicts. The refusal leaves the state as it is; after the
/// permission the caller finalises the step and reports what it left with
/// `after_step`.
pub fn continue_operation(state: OperationState, index_has_conflicts: bool) -> (r: (
    OperationState,
    Result<(), GitError>,
))
    requires
        state is InProgress,
    ensures
        r.0 == state,
        index_has_conflicts ==> (r.1 matches Err(e) && is_unresolved(e, state->kind)),
        !index_has_conflicts ==> r.1 is Ok,
{
    match state {
        OperationState::InProgress { kind, .. } => {
            if index_has_conflicts {
                (state, Err(unresolved_conflicts(kind)))
            } else {
                (state, Ok(()))
            }
        },
        OperationState::Idle => (state, Ok(())),
    }
}

/// The state after a step of an operation in progress has been finalised:
/// still in progress where the next step left conflicts, idle where the
/// operation is complete.
pub fn after_step(state: OperationState, conflicts_left: bool) -> (next: OperationState)
    requires
        state is InProgress,
    ensures
        next == after_attempt(state->kind, conflicts_left),
{
    match state {
        OperationState::InProgress { kind, .. } => begin(OperationState::Idle, kind, conflicts_left),
        OperationState::Idle => OperationState::Idle,
    }
}

/// The result of a cherry-pick: complete unless conflicted paths are left.
pub fn cherry_pick_result(conflicts: Vec<String>, oid: Option<String>) -> (r: CherryPickResult)
    ensures
        r.completed == (conflicts.len() == 0),
        r.conflicts == conflicts,
        r.oid == oid,
{
    CherryPickResult { completed: conflicts.len() == 0, conflicts, oid }
}

/// The result of a revert: complete unless conflicted paths are left.
pub fn revert_result(conflicts: Vec<String>, oid: Option<String>) -> (r: RevertResult)
    ensures
        r.completed == (conflicts.len() == 0),
        r.conflicts == conflicts,
        r.oid == oid,
{
    RevertResult { completed: conflicts.len() == 0, conflicts, oid }
}

/// What follows the attempt to apply one commit.
#[derive(Debug, Clone, Copy, PartialEq, Eq, Structural)]
pub enum ApplyStep {
    /// The index holds conflicts: stop, and report them.
    Stop,
    /// Commit what the index holds, and go on.
    Commit,
    /// Leave what the index holds uncommitted, and go on.
    Leave,
}

/// What follows the attempt to cherry-pick one commit: conflicts stop the
/// run; else the change is committed unless the caller asked for none.
pub fn cherry_pick(has_conflicts: bool, mode: CherryPickMode) -> (step: ApplyStep)
    ensures
        step == if has_conflicts {
            ApplyStep::Stop
        } else if mode == CherryPickMode::NoCommit {
            ApplyStep::Leave
        } else {
            ApplyStep::Commit
        },
{
    if has_conflicts {
        ApplyStep::Stop
    } else if mode == CherryPickMode::NoCommit {
        ApplyStep::Leave
    } else {
        ApplyStep::Commit
    }
}

/// What follows the attempt to revert a commit: conflicts stop it; else the
/// change is committed where the caller asked for that, and left in the
/// index where the caller wants to look at it or to word the message first.
pub fn revert(has_conflicts: bool, mode: RevertMode) -> (step: ApplyStep)
    ensures
        step == if has_conflicts {
            ApplyStep::Stop
        } else if mode == RevertMode::Auto {
            ApplyStep::Commit
        } else {
            ApplyStep::Leave
        },
{
    if has_conflicts {
        ApplyStep::Stop
    } else if mode == RevertMode::Auto {
        ApplyStep::Commit
    } else {
        ApplyStep::Leave
    }
}

/// The merge policy decides by the analysis and the option alone: a branch
/// that the current one already holds is up to date whatever the option; a
/// branch strictly ahead is fast-forwarded by default, and merged with a
/// commit of two parents where fast-forward is forbidden.
pub proof fn lemma_merge_policy(analysis: MergeAnalysis)
    ensures
        analysis.up_to_date ==> forall|option: MergeOption|
            merge_policy(analysis, option) == MergeStep::UpToDate,
        !analysis.up_to_date && analysis.fast_forward ==> {
            &&& merge_policy(analysis, MergeOption::Default) == MergeStep::FastForward
            &&& merge_policy(analysis, MergeOption::FastForwardOnly) == MergeStep::FastForward
            &&& merge_policy(analysis, MergeOption::NoFastForward) == MergeStep::ThreeWay
        },
        !analysis.up_to_date && !analysis.fast_forward ==> {
            &&& merge_policy(analysis, MergeOption::Default) == MergeStep::ThreeWay
            &&& merge_policy(analysis, MergeOption::NoFastForward) == MergeStep::ThreeWay
            &&& merge_policy(analysis, MergeOption::FastForwardOnly) == MergeStep::Refuse
        },
{
}

} // verus!
