//! Handing a synthesized patch to the apply step: which diff the patch is
//! made from, which flags the step gets, and what its outcome means.

use vstd::prelude::*;
use crate::git::error::GitError;
use crate::text::convert::{chars_of, string_of};

verus! {

/// What a patch is applied for.
#[derive(Debug, Clone, Copy, PartialEq, Eq, Structural)]
pub enum PatchAction {
    /// Take the change into the index.
    Stage,
    /// Take the change out of the index.
    Unstage,
    /// Take the change out of the working tree.
    Discard,
}

/// Whether the patch is made from the staged diff (else from the unstaged
/// one): only what is staged can be unstaged.
pub fn reads_staged_diff(action: PatchAction) -> (staged: bool)
    ensures
        staged == (action == PatchAction::Unstage),
{
    match action {
        PatchAction::Unstage => true,
        _ => false,
    }
}

/// The flags of the apply step: `--cached` to work on the index, `-R` to
/// apply in reverse.
pub open spec fn apply_flags(action: PatchAction) -> Seq<Seq<char>> {
    match action {
        PatchAction::Stage => seq!["--cached"@],
        PatchAction::Unstage => seq!["--cached"@, "-R"@],
        PatchAction::Discard => seq!["-R"@],
    }
}

/// The flags that the apply step gets for an action.
pub fn apply_arguments(action: PatchAction) -> (args: Vec<String>)
    ensures
        args.deep_view() == apply_flags(action),
{
    let mut args: Vec<String> = Vec::new();
    match action {
        PatchAction::Stage => {
            args.push(string_of(&chars_of("--cached")));
        },
        PatchAction::Unstage => {
            args.push(string_of(&chars_of("--cached")));
            args.push(string_of(&chars_of("-R")));
        },
        PatchAction::Discard => {
            args.push(string_of(&chars_of("-R")));
        },
    }
    assert(args.deep_view() =~= apply_flags(action));
    args
}

/// Whether an error is the failure of the given action with the given
/// cause.
pub open spec fn is_apply_failure(e: GitError, action: PatchAction, cause: Seq<char>) -> bool {
    &&& e.detail() == cause
    &&& match action {
        PatchAction::Stage => e is StageFailed,
        PatchAction::Unstage => e is UnstageFailed,
        PatchAction::Discard => e is DiscardFailed,
    }
}

/// What the run of the apply step came to: success, or the failure of the
/// action with what the step wrote to the error stream, word for word.
pub fn run_git_apply(action: PatchAction, success: bool, stderr: &str) -> (r: Result<(), GitError>)
    ensures
        success ==> r is Ok,
        !success ==> (r matches Err(e) && is_apply_failure(e, action, stderr@)),
{
    if success {
        return Ok(());
    }
    let cause = string_of(&chars_of(stderr));
    match action {
        PatchAction::Stage => Err(GitError::StageFailed(cause)),
        PatchAction::Unstage => Err(GitError::UnstageFailed(cause)),
        PatchAction::Discard => Err(GitError::DiscardFailed(cause)),
    }
}

} // verus!
