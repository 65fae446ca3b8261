//! The prompt that asks for a commit message.

use vstd::prelude::*;
use crate::ai::types::{CommitMessageStyle, GenerateRequest, Language};
use crate::text::convert::{push_str, string_of};

verus! {

/// What the prompt says of the style of the message.
pub open spec fn style_instruction(style: CommitMessageStyle) -> Seq<char> {
    match style {
        CommitMessageStyle::Conventional => "Use Conventional Commits format: type(scope): description\nTypes: feat, fix, docs, style, refactor, perf, test, chore, ci, build\nThe scope is optional."@,
        CommitMessageStyle::Simple => "Write a simple, concise commit message. Start with a verb in imperative mood (e.g., Add, Fix, Update)."@,
        CommitMessageStyle::Detailed => "Write a detailed commit message with:\n- A concise subject line (imperative mood)\n- A blank line\n- A body explaining what changed and why"@,
    }
}

/// What the prompt says of the language of the message.
pub open spec fn language_instruction(language: Language) -> Seq<char> {
    match language {
        Language::En => "Write the commit message in English."@,
        Language::Ja => "Write the commit message in Japanese."@,
    }
}

/// The prompt for a commit message: the task, the style, the language, the
/// form of the answer, and the diff between fences.
pub open spec fn commit_message_prompt(
    style: CommitMessageStyle,
    language: Language,
    diff: Seq<char>,
) -> Seq<char> {
    "Generate a git commit message for the following diff.\n\n"@ + style_instruction(style) + "\n\n"@ + language_instruction(language)
        + "\n\nOutput ONLY the commit message, nothing else.\nFirst line is the subject, then a blank line, then the body (optional).\n\nDiff:\n```\n"@ + diff + "\n```"@
}

/// Builds the prompt for a commit message.
pub fn build_commit_message_prompt(request: &GenerateRequest) -> (out: String)
    ensures
        out@ == commit_message_prompt(request.style, request.language, request.diff@),
{
    let mut text: Vec<char> = Vec::new();
    push_str(&mut text, "Generate a git commit message for the following diff.\n\n");
    match request.style {
        CommitMessageStyle::Conventional => push_str(&mut text, "Use Conventional Commits format: type(scope): description\nTypes: feat, fix, docs, style, refactor, perf, test, chore, ci, build\nThe scope is optional."),
        CommitMessageStyle::Simple => push_str(&mut text, "Write a simple, concise commit message. Start with a verb in imperative mood (e.g., Add, Fix, Update)."),
        CommitMessageStyle::Detailed => push_str(&mut text, "Write a detailed commit message with:\n- A concise subject line (imperative mood)\n- A blank line\n- A body explaining what changed and why"),
    }
    push_str(&mut text, "\n\n");
    match request.language {
        Language::En => push_str(&mut text, "Write the commit message in English."),
        Language::Ja => push_str(&mut text, "Write the commit message in Japanese."),
    }
    push_str(&mut text, "\n\nOutput ONLY the commit message, nothing else.\nFirst line is the subject, then a blank line, then the body (optional).\n\nDiff:\n```\n");
    push_str(&mut text, request.diff.as_str());
    push_str(&mut text, "\n```");
    assert(text@ =~= commit_message_prompt(request.style, request.language, request.diff@));
    string_of(&text)
}

} // verus!
