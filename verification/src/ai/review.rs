//! The prompt that asks for a review of a diff.

use vstd::prelude::*;
use crate::text::convert::{push_str, string_of};

verus! {

/// The prompt for a review: the task, the form of the answer, and the diff
/// between fences.
pub open spec fn review_prompt(diff: Seq<char>) -> Seq<char> {
    "Review the following git diff for potential bugs, security issues, and code quality problems.\n\nOutput ONLY a JSON object with this exact structure (no markdown fences, no explanation):\n{\"comments\":[{\"file\":\"path/to/file\",\"line_start\":1,\"line_end\":2,\"type\":\"warning\",\"message\":\"description\"}]}\n\nRules:\n- \"type\" must be one of: \"warning\", \"error\", \"info\"\n- \"warning\": code smells, style issues, potential problems\n- \"error\": bugs, security vulnerabilities, logic errors\n- \"info\": suggestions, improvements\n- line_start and line_end refer to the new file line numbers from the diff\n- If there are no issues, return: {\"comments\":[]}\n- Focus on meaningful issues, not formatting\n\nDiff:\n```\n"@ + diff + "\n```"@
}

/// Builds the prompt for a review.
pub fn build_review_prompt(diff: &str) -> (out: String)
    ensures
        out@ == review_prompt(diff@),
{
    let mut text: Vec<char> = Vec::new();
    push_str(&mut text, "Review the following git diff for potential bugs, security issues, and code quality problems.\n\nOutput ONLY a JSON object with this exact structure (no markdown fences, no explanation):\n{\"comments\":[{\"file\":\"path/to/file\",\"line_start\":1,\"line_end\":2,\"type\":\"warning\",\"message\":\"description\"}]}\n\nRules:\n- \"type\" must be one of: \"warning\", \"error\", \"info\"\n- \"warning\": code smells, style issues, potential problems\n- \"error\": bugs, security vulnerabilities, logic errors\n- \"info\": suggestions, improvements\n- line_start and line_end refer to the new file line numbers from the diff\n- If there are no issues, return: {\"comments\":[]}\n- Focus on meaningful issues, not formatting\n\nDiff:\n```\n");
    push_str(&mut text, diff);
    push_str(&mut text, "\n```");
    string_of(&text)
}

} // verus!
