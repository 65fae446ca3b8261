//! The prompt that asks for the title and the description of a pull
//! request.

use vstd::prelude::*;
use crate::text::convert::{push_str, string_of};

verus! {

/// The prompt for a pull request: the task, the branch, the form of the
/// answer, and the diff between fences.
pub open spec fn pr_description_prompt(diff: Seq<char>, branch_name: Seq<char>) -> Seq<char> {
    "Generate a pull request title and description for the following changes.\n\nBranch: "@ + branch_name + "\n\nOutput ONLY a JSON object with this exact structure (no markdown fences, no explanation):\n{\"title\":\"PR title (concise, under 72 chars)\",\"body\":\"PR description in markdown\"}\n\nRules:\n- Title should be concise and descriptive\n- Body should include a summary of changes, motivation, and any notable implementation details\n- Use markdown formatting in the body (headers, bullet points, etc.)\n- Focus on the \"what\" and \"why\", not the \"how\"\n\nDiff:\n```\n"@ + diff + "\n```"@
}

/// Builds the prompt for the description of a pull request.
pub fn build_pr_description_prompt(diff: &str, branch_name: &str) -> (out: String)
    ensures
        out@ == pr_description_prompt(diff@, branch_name@),
{
    let mut text: Vec<char> = Vec::new();
    push_str(&mut text, "Generate a pull request title and description for the following changes.\n\nBranch: ");
    push_str(&mut text, branch_name);
    push_str(&mut text, "\n\nOutput ONLY a JSON object with this exact structure (no markdown fences, no explanation):\n{\"title\":\"PR title (concise, under 72 chars)\",\"body\":\"PR description in markdown\"}\n\nRules:\n- Title should be concise and descriptive\n- Body should include a summary of changes, motivation, and any notable implementation details\n- Use markdown formatting in the body (headers, bullet points, etc.)\n- Focus on the \"what\" and \"why\", not the \"how\"\n\nDiff:\n```\n");
    push_str(&mut text, diff);
    push_str(&mut text, "\n```");
    assert(text@ =~= pr_description_prompt(diff@, branch_name@));
    string_of(&text)
}

} // verus!
