//! Merging: which way a merge goes, and what each way hands back.

use vstd::prelude::*;
use crate::git::error::GitError;
use crate::git::types::{MergeKind, MergeOption, MergeResult, PullOption};
use crate::text::convert::{chars_of, push_str, string_of};
use crate::text::trim::{chars_trim, trim};

verus! {

/// What the repository says of the commit to merge: whether the current
/// branch already holds it, and whether the current branch is an ancestor of
/// it.
#[derive(Debug, Clone, Copy, PartialEq, Eq, Structural)]
pub struct MergeAnalysis {
    pub up_to_date: bool,
    pub fast_forward: bool,
}

/// The way a merge goes.
#[derive(Debug, Clone, Copy, PartialEq, Eq, Structural)]
pub enum MergeStep {
    /// Nothing to do.
    UpToDate,
    /// Move the branch to the target and check it out.
    FastForward,
    /// Merge the trees and commit with two parents.
    ThreeWay,
    /// Fast-forward alone was asked for and is not possible.
    Refuse,
}

/// The policy: up to date first, then fast-forward unless the caller forbids
/// it, then a three-way merge unless the caller allows fast-forward alone.
pub open spec fn merge_policy(analysis: MergeAnalysis, option: MergeOption) -> MergeStep {
    if analysis.up_to_date {
        MergeStep::UpToDate
    } else if analysis.fast_forward {
        if option == MergeOption::NoFastForward {
            MergeStep::ThreeWay
        } else {
            MergeStep::FastForward
        }
    } else if option == MergeOption::FastForwardOnly {
        MergeStep::Refuse
    } else {
        MergeStep::ThreeWay
    }
}

/// Decides the way a merge goes.
pub fn plan_merge(analysis: MergeAnalysis, option: MergeOption) -> (step: MergeStep)
    ensures
        step == merge_policy(analysis, option),
{
    if analysis.up_to_date {
        MergeStep::UpToDate
    } else if analysis.fast_forward {
        if option == MergeOption::NoFastForward {
            MergeStep::ThreeWay
        } else {
            MergeStep::FastForward
        }
    } else if option == MergeOption::FastForwardOnly {
        MergeStep::Refuse
    } else {
        MergeStep::ThreeWay
    }
}

/// Whether a result is of the given kind, names the given commit (or none)
/// and lists the given conflicted paths.
pub open spec fn is_result(
    r: MergeResult,
    kind: MergeKind,
    oid: Option<Seq<char>>,
    conflicts: Seq<Seq<char>>,
) -> bool {
    r.kind == kind && r.oid.deep_view() == oid && r.conflicts.deep_view() == conflicts
}

/// The result of a merge that found nothing to do.
pub fn up_to_date_result() -> (r: MergeResult)
    ensures
        is_result(r, MergeKind::UpToDate, None, Seq::empty()),
{
    let r = MergeResult { kind: MergeKind::UpToDate, oid: None, conflicts: Vec::new() };
    assert(r.conflicts.deep_view() =~= Seq::<Seq<char>>::empty());
    r
}

/// The result of a merge that ended with the commit `oid` and no conflict.
pub fn merged_result(kind: MergeKind, oid: &str) -> (r: MergeResult)
    ensures
        is_result(r, kind, Some(oid@), Seq::empty()),
{
    let r = MergeResult { kind, oid: Some(string_of(&chars_of(oid))), conflicts: Vec::new() };
    assert(r.conflicts.deep_view() =~= Seq::<Seq<char>>::empty());
    r
}

/// The result of a merge that stopped on conflicts in the given paths.
pub fn conflict_result(paths: Vec<String>) -> (r: MergeResult)
    ensures
        is_result(r, MergeKind::Conflict, None, paths.deep_view()),
{
    MergeResult { kind: MergeKind::Conflict, oid: None, conflicts: paths }
}

/// The reflog message of a fast-forward to `name`.
pub open spec fn fast_forward_text(name: Seq<char>) -> Seq<char> {
    "Fast-forward to "@ + name
}

/// The message of the commit that merges `name`.
pub open spec fn merge_message_text(name: Seq<char>) -> Seq<char> {
    "Merge branch '"@ + name + "'"@
}

/// The reflog message of a fast-forward.
pub fn fast_forward_message(name: &str) -> (out: String)
    ensures
        out@ == fast_forward_text(name@),
{
    let mut text: Vec<char> = Vec::new();
    push_str(&mut text, "Fast-forward to ");
    push_str(&mut text, name);
    assert(text@ =~= fast_forward_text(name@));
    string_of(&text)
}

/// The message of a merge commit.
pub fn merge_commit_message(name: &str) -> (out: String)
    ensures
        out@ == merge_message_text(name@),
{
    let mut text: Vec<char> = Vec::new();
    push_str(&mut text, "Merge branch '");
    push_str(&mut text, name);
    push_str(&mut text, "'");
    assert(text@ =~= merge_message_text(name@));
    string_of(&text)
}

/// What is to be done for a merge, or what it has come to already.
#[derive(Debug, Clone)]
pub enum MergeDecision {
    /// Nothing is to be done: this is the result.
    Finished(MergeResult),
    /// Point the current branch at the target, with this reflog message,
    /// check it out, and hand back this result.
    FastForward { reflog_message: String, result: MergeResult },
    /// Merge the target into the index and the working tree, then go on with
    /// `merge_normal_commit`. Where that ends in a commit, this is its
    /// message, and its parents are the current commit and the target, in
    /// this order.
    ThreeWay { commit_message: String },
    /// The merge is refused with this error; nothing is to be changed.
    Refused(GitError),
}

/// Whether a decision is the one that the policy asks for when the branch
/// `name`, which points at the commit `target`, is merged.
pub open spec fn is_merge_decision(
    d: MergeDecision,
    step: MergeStep,
    name: Seq<char>,
    target: Seq<char>,
) -> bool {
    match step {
        MergeStep::UpToDate => d matches MergeDecision::Finished(r) && is_result(
            r,
            MergeKind::UpToDate,
            None,
            Seq::empty(),
        ),
        MergeStep::FastForward => d matches MergeDecision::FastForward { reflog_message, result }
            && reflog_message@ == fast_forward_text(name) && is_result(
            result,
            MergeKind::FastForward,
            Some(target),
            Seq::empty(),
        ),
        MergeStep::ThreeWay => d matches MergeDecision::ThreeWay { commit_message }
            && commit_message@ == merge_message_text(name),
        MergeStep::Refuse => d matches MergeDecision::Refused(e) && e is MergeFailed && e.detail()
            == "fast-forward not possible"@,
    }
}

/// Decides how the local branch `branch_name`, which points at the commit
/// `target_oid`, is merged into the current branch.
pub fn merge_branch(
    branch_name: &str,
    target_oid: &str,
    analysis: MergeAnalysis,
    option: MergeOption,
) -> (d: MergeDecision)
    ensures
        is_merge_decision(d, merge_policy(analysis, option), branch_name@, target_oid@),
{
    match plan_merge(analysis, option) {
        MergeStep::UpToDate => MergeDecision::Finished(up_to_date_result()),
        MergeStep::FastForward => MergeDecision::FastForward {
            reflog_message: fast_forward_message(branch_name),
            result: merged_result(MergeKind::FastForward, target_oid),
        },
        MergeStep::ThreeWay => MergeDecision::ThreeWay {
            commit_message: merge_commit_message(branch_name),
        },
        MergeStep::Refuse => MergeDecision::Refused(
            GitError::MergeFailed(string_of(&chars_of("fast-forward not possible"))),
        ),
    }
}

/// What follows a three-way merge of the trees.
#[derive(Debug, Clone)]
pub enum MergeFollowUp {
    /// The index holds conflicts: nothing is committed, and this is the
    /// result.
    Conflicted(MergeResult),
    /// The index is clean: write it as a tree, commit it with two parents,
    /// clear the merge state, and hand back `merged_result` of kind `Normal`
    /// for the new commit.
    Commit,
}

/// Decides what follows a three-way merge, given whether the index holds
/// conflicts and, if so, in which paths.
pub fn merge_normal_commit(has_conflicts: bool, conflict_paths: Vec<String>) -> (f: MergeFollowUp)
    ensures
        has_conflicts ==> (f matches MergeFollowUp::Conflicted(r) && is_result(
            r,
            MergeKind::Conflict,
            None,
            conflict_paths.deep_view(),
        )),
        !has_conflicts ==> f is Commit,
{
    if has_conflicts {
        MergeFollowUp::Conflicted(conflict_result(conflict_paths))
    } else {
        MergeFollowUp::Commit
    }
}

/// An error of a merge as the error of the pull that ran the merge.
pub fn as_pull_error(e: GitError) -> (out: GitError)
    ensures
        e is MergeFailed ==> out is PullFailed && out.detail() == e.detail(),
        !(e is MergeFailed) ==> out == e,
{
    match e {
        GitError::MergeFailed(inner) => GitError::PullFailed(inner),
        other => other,
    }
}

/// The name of the remote-tracking branch for `branch` on `remote`.
pub fn remote_ref_name(remote: &str, branch: &str) -> (out: String)
    ensures
        out@ == remote@ + "/"@ + branch@,
{
    let mut text: Vec<char> = Vec::new();
    push_str(&mut text, remote);
    push_str(&mut text, "/");
    push_str(&mut text, branch);
    string_of(&text)
}

/// What a pull does once the remote is fetched.
#[derive(Debug, Clone)]
pub enum PullDecision {
    /// Nothing to do: this is the result.
    Finished(MergeResult),
    /// Go on with `merge_after_fetch`.
    Merge,
    /// Go on with `rebase_after_fetch`.
    Rebase,
}

/// Decides what a pull does once the remote is fetched.
pub fn pull(analysis: MergeAnalysis, option: PullOption) -> (d: PullDecision)
    ensures
        analysis.up_to_date ==> (d matches PullDecision::Finished(r) && is_result(
            r,
            MergeKind::UpToDate,
            None,
            Seq::empty(),
        )),
        !analysis.up_to_date && option == PullOption::Merge ==> d is Merge,
        !analysis.up_to_date && option == PullOption::Rebase ==> d is Rebase,
{
    if analysis.up_to_date {
        PullDecision::Finished(up_to_date_result())
    } else {
        match option {
            PullOption::Merge => PullDecision::Merge,
            PullOption::Rebase => PullDecision::Rebase,
        }
    }
}

/// Decides how the fetched remote-tracking branch is merged: by fast-forward
/// where that is possible, else by a three-way merge.
pub fn merge_after_fetch(remote_ref_name: &str, target_oid: &str, analysis: MergeAnalysis) -> (d:
    MergeDecision)
    ensures
        is_merge_decision(
            d,
            if analysis.fast_forward {
                MergeStep::FastForward
            } else {
                MergeStep::ThreeWay
            },
            remote_ref_name@,
            target_oid@,
        ),
{
    if analysis.fast_forward {
        MergeDecision::FastForward {
            reflog_message: fast_forward_message(remote_ref_name),
            result: merged_result(MergeKind::FastForward, target_oid),
        }
    } else {
        MergeDecision::ThreeWay { commit_message: merge_commit_message(remote_ref_name) }
    }
}

/// One step of the rebase that a pull runs: with conflicts in the index the
/// rebase is given up and the pull fails; else the step is committed.
pub fn rebase_after_fetch(has_conflicts: bool) -> (r: Result<(), GitError>)
    ensures
        has_conflicts ==> (r matches Err(e) && e is PullFailed && e.detail()
            == "rebase conflicts detected"@),
        !has_conflicts ==> r is Ok,
{
    if has_conflicts {
        Err(GitError::PullFailed(string_of(&chars_of("rebase conflicts detected"))))
    } else {
        Ok(())
    }
}

/// The message of the commit that concludes a merge: the caller's message
/// or, where that is empty, the prepared one without the whitespace around
/// it, or, where there is none, `Merge commit`.
pub open spec fn concluding_message(message: Seq<char>, prepared: Option<Seq<char>>) -> Seq<char> {
    if message.len() > 0 {
        message
    } else {
        match prepared {
            Some(text) => trim(text),
            None => "Merge commit"@,
        }
    }
}

/// Decides whether a merge that stopped on conflicts can be concluded, and
/// with which commit message. While the index holds conflicts it cannot:
/// the call fails and asks for no change to the repository.
pub fn continue_merge(has_conflicts: bool, message: &str, prepared: Option<&str>) -> (r: Result<
    String,
    GitError,
>)
    ensures
        has_conflicts ==> (r matches Err(e) && e is ConflictFailed && e.detail()
            == "unresolved conflicts remain"@),
        !has_conflicts ==> (r matches Ok(m) && m@ == concluding_message(
            message@,
            match prepared {
                Some(p) => Some(p@),
                None => None,
            },
        )),
{
    if has_conflicts {
        return Err(GitError::ConflictFailed(string_of(&chars_of("unresolved conflicts remain"))));
    }
    let chars = chars_of(message);
    if chars.len() > 0 {
        Ok(string_of(&chars))
    } else {
        match prepared {
            Some(p) => Ok(string_of(&chars_trim(&chars_of(p)))),
            None => Ok(string_of(&chars_of("Merge commit"))),
        }
    }
}

} // verus!
