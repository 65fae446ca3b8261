//! The prompt that asks for the resolution of a conflict, and the frame of
//! the answer.

use vstd::prelude::*;
use crate::text::convert::{push_str, string_of};

verus! {

/// The section of the prompt for the common ancestor, where there is one.
pub open spec fn base_section(base: Option<Seq<char>>) -> Seq<char> {
    match base {
        Some(b) => "Base (common ancestor):\n```\n"@ + b + "\n```\n\n"@,
        None => Seq::empty(),
    }
}

/// The prompt for the resolution of a conflict: the task, the common
/// ancestor where it is known, our side and their side between fences, and
/// the form of the answer.
pub open spec fn conflict_resolve_prompt(
    ours: Seq<char>,
    theirs: Seq<char>,
    base: Option<Seq<char>>,
) -> Seq<char> {
    "Resolve the following git merge conflict by producing a merged result.\n\n"@ + base_section(base) + "Ours (current branch):\n```\n"@ + ours + "\n```\n\nTheirs (incoming branch):\n```\n"@ + theirs
        + "\n```\n\nOutput ONLY a JSON object with this exact structure (no markdown fences, no explanation):\n{\"resolved_code\":\"the merged code\",\"confidence\":\"high\",\"reason\":\"explanation\"}\n\nRules:\n- \"confidence\" must be one of: \"high\", \"medium\", \"low\"\n- \"resolved_code\" is the final merged code that replaces the conflict block\n- \"reason\" briefly explains the merge strategy chosen\n- Preserve the intent of both changes when possible\n- If the changes are incompatible, prefer the safer option and set confidence to \"low\""@
}

/// Builds the prompt for the resolution of a conflict.
pub fn build_conflict_resolve_prompt(ours: &str, theirs: &str, base: Option<&str>) -> (out: String)
    ensures
        out@ == conflict_resolve_prompt(
            ours@,
            theirs@,
            match base {
                Some(b) => Some(b@),
                None => None,
            },
        ),
{
    let mut text: Vec<char> = Vec::new();
    push_str(&mut text, "Resolve the following git merge conflict by producing a merged result.\n\n");
    if let Some(b) = base {
        push_str(&mut text, "Base (common ancestor):\n```\n");
        push_str(&mut text, b);
        push_str(&mut text, "\n```\n\n");
    }
    push_str(&mut text, "Ours (current branch):\n```\n");
    push_str(&mut text, ours);
    push_str(&mut text, "\n```\n\nTheirs (incoming branch):\n```\n");
    push_str(&mut text, theirs);
    push_str(&mut text, "\n```\n\nOutput ONLY a JSON object with this exact structure (no markdown fences, no explanation):\n{\"resolved_code\":\"the merged code\",\"confidence\":\"high\",\"reason\":\"explanation\"}\n\nRules:\n- \"confidence\" must be one of: \"high\", \"medium\", \"low\"\n- \"resolved_code\" is the final merged code that replaces the conflict block\n- \"reason\" briefly explains the merge strategy chosen\n- Preserve the intent of both changes when possible\n- If the changes are incompatible, prefer the safer option and set confidence to \"low\"");
    assert(text@ =~= conflict_resolve_prompt(
        ours@,
        theirs@,
        match base {
            Some(b) => Some(b@),
            None => None,
        },
    ));
    string_of(&text)
}

} // verus!
