use rocket_git::git::error::GitError;
use rocket_git::git::merge::{
    as_pull_error, continue_merge, merge_after_fetch, merge_branch, merge_normal_commit,
    merged_result, plan_merge, pull, rebase_after_fetch, remote_ref_name, MergeAnalysis,
    MergeDecision, MergeFollowUp, MergeStep, PullDecision,
};
use rocket_git::git::operations::{
    abort, abort_outcome, after_step, begin, cherry_pick, cherry_pick_result, continue_operation,
    is_in_progress, operation_state, revert, revert_result, ApplyStep, OperationKind,
    OperationState, RepositoryMarker,
};
use rocket_git::git::types::{CherryPickMode, MergeKind, MergeOption, PullOption, RevertMode};

const UP_TO_DATE: MergeAnalysis = MergeAnalysis { up_to_date: true, fast_forward: false };
const AHEAD: MergeAnalysis = MergeAnalysis { up_to_date: false, fast_forward: true };
const DIVERGED: MergeAnalysis = MergeAnalysis { up_to_date: false, fast_forward: false };

#[test]
fn merging_an_ancestor_is_up_to_date_whatever_the_option() {
    for option in [MergeOption::Default, MergeOption::FastForwardOnly, MergeOption::NoFastForward] {
        match merge_branch("topic", "abc", UP_TO_DATE, option) {
            MergeDecision::Finished(r) => {
                assert_eq!(r.kind, MergeKind::UpToDate);
                assert_eq!(r.oid, None);
                assert!(r.conflicts.is_empty());
            }
            _ => panic!("an ancestor needs no merge"),
        }
    }
}

#[test]
fn merging_a_branch_ahead_fast_forwards_by_default() {
    match merge_branch("topic", "abc123", AHEAD, MergeOption::Default) {
        MergeDecision::FastForward { reflog_message, result } => {
            assert_eq!(reflog_message, "Fast-forward to topic");
            assert_eq!(result.kind, MergeKind::FastForward);
            assert_eq!(result.oid, Some("abc123".to_string()));
            assert!(result.conflicts.is_empty());
        }
        _ => panic!("a branch ahead is fast-forwarded"),
    }
    assert_eq!(plan_merge(AHEAD, MergeOption::FastForwardOnly), MergeStep::FastForward);
}

#[test]
fn forbidding_fast_forward_makes_a_merge_commit() {
    match merge_branch("topic", "abc123", AHEAD, MergeOption::NoFastForward) {
        MergeDecision::ThreeWay { commit_message } => {
            assert_eq!(commit_message, "Merge branch 'topic'");
        }
        _ => panic!("a merge commit is asked for"),
    }
    assert!(matches!(merge_normal_commit(false, Vec::new()), MergeFollowUp::Commit));
    let r = merged_result(MergeKind::Normal, "newcommit");
    assert_eq!(r.kind, MergeKind::Normal);
    assert_eq!(r.oid, Some("newcommit".to_string()));
}

#[test]
fn diverged_branches_merge_unless_fast_forward_only() {
    assert_eq!(plan_merge(DIVERGED, MergeOption::Default), MergeStep::ThreeWay);
    assert_eq!(plan_merge(DIVERGED, MergeOption::NoFastForward), MergeStep::ThreeWay);
    match merge_branch("topic", "abc", DIVERGED, MergeOption::FastForwardOnly) {
        MergeDecision::Refused(e) => {
            assert!(matches!(&e, GitError::MergeFailed(m) if m == "fast-forward not possible"));
            assert_eq!(e.message(), "failed to merge branch: fast-forward not possible");
        }
        _ => panic!("fast-forward alone is not possible"),
    }
}

#[test]
fn merge_with_conflicts_reports_the_paths() {
    let paths = vec!["a.txt".to_string(), "b.txt".to_string()];
    match merge_normal_commit(true, paths.clone()) {
        MergeFollowUp::Conflicted(r) => {
            assert_eq!(r.kind, MergeKind::Conflict);
            assert_eq!(r.oid, None);
            assert_eq!(r.conflicts, paths);
        }
        _ => panic!("conflicts stop the merge"),
    }
}

#[test]
fn continue_merge_is_refused_while_conflicts_remain() {
    let err = continue_merge(true, "message", Some("prepared")).unwrap_err();
    assert!(matches!(&err, GitError::ConflictFailed(m) if m == "unresolved conflicts remain"));
    assert_eq!(err.message(), "failed to resolve conflict: unresolved conflicts remain");
}

#[test]
fn continue_merge_chooses_the_message() {
    assert_eq!(continue_merge(false, "mine", Some("prepared")).unwrap(), "mine");
    assert_eq!(continue_merge(false, "", Some("  Merge branch 'x'\n\n")).unwrap(), "Merge branch 'x'");
    assert_eq!(continue_merge(false, "", None).unwrap(), "Merge commit");
}

#[test]
fn pull_decides_by_analysis_and_option() {
    assert!(matches!(pull(UP_TO_DATE, PullOption::Rebase), PullDecision::Finished(r) if r.kind == MergeKind::UpToDate && r.oid.is_none()));
    assert!(matches!(pull(AHEAD, PullOption::Merge), PullDecision::Merge));
    assert!(matches!(pull(DIVERGED, PullOption::Rebase), PullDecision::Rebase));
    assert_eq!(remote_ref_name("origin", "main"), "origin/main");
}

#[test]
fn merge_after_fetch_prefers_fast_forward() {
    match merge_after_fetch("origin/main", "abc", AHEAD) {
        MergeDecision::FastForward { reflog_message, result } => {
            assert_eq!(reflog_message, "Fast-forward to origin/main");
            assert_eq!(result.oid, Some("abc".to_string()));
        }
        _ => panic!("fast-forward is possible"),
    }
    match merge_after_fetch("origin/main", "abc", DIVERGED) {
        MergeDecision::ThreeWay { commit_message } => {
            assert_eq!(commit_message, "Merge branch 'origin/main'")
        }
        _ => panic!("a merge is needed"),
    }
}

#[test]
fn pull_errors_take_the_place_of_merge_errors() {
    let e = as_pull_error(GitError::MergeFailed("boom".to_string()));
    assert!(matches!(&e, GitError::PullFailed(m) if m == "boom"));
    let e = as_pull_error(GitError::FetchFailed("net".to_string()));
    assert!(matches!(&e, GitError::FetchFailed(m) if m == "net"));
}

#[test]
fn rebase_after_fetch_gives_up_on_conflicts() {
    assert!(rebase_after_fetch(false).is_ok());
    let e = rebase_after_fetch(true).unwrap_err();
    assert_eq!(e.message(), "failed to pull: rebase conflicts detected");
}

#[test]
fn operation_goes_idle_in_progress_idle() {
    let started = begin(OperationState::Idle, OperationKind::Merge, true);
    assert_eq!(started, OperationState::InProgress { kind: OperationKind::Merge, has_conflicts: true });
    let (state, r) = continue_operation(started, true);
    assert_eq!(state, started);
    assert!(matches!(r, Err(GitError::ConflictFailed(m)) if m == "unresolved conflicts remain"));
    let (state, r) = continue_operation(started, false);
    assert_eq!(state, started);
    assert!(r.is_ok());
    assert_eq!(after_step(started, false), OperationState::Idle);
    assert_eq!(
        after_step(started, true),
        OperationState::InProgress { kind: OperationKind::Merge, has_conflicts: true }
    );
    assert_eq!(abort(started), OperationState::Idle);
    assert_eq!(abort(OperationState::Idle), OperationState::Idle);
    assert_eq!(begin(OperationState::Idle, OperationKind::Revert, false), OperationState::Idle);
}

#[test]
fn each_operation_has_its_own_refusal() {
    let rebase = OperationState::InProgress { kind: OperationKind::Rebase, has_conflicts: true };
    assert!(matches!(continue_operation(rebase, true).1, Err(GitError::RebaseFailed(_))));
    let pick = OperationState::InProgress { kind: OperationKind::CherryPick, has_conflicts: true };
    assert!(matches!(continue_operation(pick, true).1, Err(GitError::CherryPickFailed(_))));
    let revert = OperationState::InProgress { kind: OperationKind::Revert, has_conflicts: true };
    assert!(matches!(continue_operation(revert, true).1, Err(GitError::RevertFailed(_))));
}

#[test]
fn markers_tell_the_operation() {
    assert!(is_in_progress(RepositoryMarker::Merge, OperationKind::Merge));
    assert!(!is_in_progress(RepositoryMarker::Clean, OperationKind::Merge));
    for m in [RepositoryMarker::Rebase, RepositoryMarker::RebaseInteractive, RepositoryMarker::RebaseMerge] {
        assert!(is_in_progress(m, OperationKind::Rebase));
        assert!(!is_in_progress(m, OperationKind::Merge));
    }
    assert!(is_in_progress(RepositoryMarker::CherryPickSequence, OperationKind::CherryPick));
    assert!(is_in_progress(RepositoryMarker::Revert, OperationKind::Revert));
    assert!(!is_in_progress(RepositoryMarker::Bisect, OperationKind::Rebase));
    assert_eq!(operation_state(RepositoryMarker::ApplyMailbox, true), OperationState::Idle);
    assert_eq!(
        operation_state(RepositoryMarker::Merge, true),
        OperationState::InProgress { kind: OperationKind::Merge, has_conflicts: true }
    );
}

#[test]
fn pick_and_revert_results_are_complete_without_conflicts() {
    let r = cherry_pick_result(Vec::new(), Some("abc".to_string()));
    assert!(r.completed);
    assert_eq!(r.oid, Some("abc".to_string()));
    let r = cherry_pick_result(vec!["f".to_string()], None);
    assert!(!r.completed);
    assert_eq!(r.conflicts, vec!["f"]);
    let r = revert_result(vec!["f".to_string()], None);
    assert!(!r.completed);
    assert!(revert_result(Vec::new(), None).completed);
}

#[test]
fn pick_and_revert_stop_on_conflicts() {
    assert_eq!(cherry_pick(true, CherryPickMode::Normal), ApplyStep::Stop);
    assert_eq!(cherry_pick(false, CherryPickMode::Normal), ApplyStep::Commit);
    assert_eq!(cherry_pick(false, CherryPickMode::Merge), ApplyStep::Commit);
    assert_eq!(cherry_pick(false, CherryPickMode::NoCommit), ApplyStep::Leave);
    assert_eq!(revert(true, RevertMode::Auto), ApplyStep::Stop);
    assert_eq!(revert(false, RevertMode::Auto), ApplyStep::Commit);
    assert_eq!(revert(false, RevertMode::NoCommit), ApplyStep::Leave);
    assert_eq!(revert(false, RevertMode::Edit), ApplyStep::Leave);
}

#[test]
fn giving_up_reports_the_first_step_that_failed() {
    assert!(abort_outcome(OperationKind::Merge, None, None).is_ok());
    let e = abort_outcome(OperationKind::Merge, Some("markers"), Some("tree")).unwrap_err();
    assert!(matches!(&e, GitError::ConflictFailed(m) if m == "markers"));
    let e = abort_outcome(OperationKind::Merge, None, Some("tree")).unwrap_err();
    assert!(matches!(&e, GitError::ConflictFailed(m) if m == "tree"));
    let e = abort_outcome(OperationKind::Rebase, Some("markers"), None).unwrap_err();
    assert!(matches!(&e, GitError::RebaseFailed(m) if m == "markers"));
    let e = abort_outcome(OperationKind::CherryPick, None, Some("tree")).unwrap_err();
    assert!(matches!(&e, GitError::CherryPickFailed(m) if m == "tree"));
    let e = abort_outcome(OperationKind::Revert, None, Some("tree")).unwrap_err();
    assert_eq!(e.message(), "failed to revert: tree");
}
