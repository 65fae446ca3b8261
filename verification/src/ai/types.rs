//! The values of the assistant: its settings, what it is asked and what it
//! answers.

use vstd::prelude::*;
use crate::text::convert::{push_str, string_of};

verus! {

/// The style of a commit message that is asked for.
#[derive(Debug, Clone, Copy, PartialEq, Eq, Structural)]
pub enum CommitMessageStyle {
    Conventional,
    Simple,
    Detailed,
}

impl Default for CommitMessageStyle {
    fn default() -> (r: Self)
        ensures
            r == CommitMessageStyle::Conventional,
    {
        CommitMessageStyle::Conventional
    }
}

/// The language of a commit message that is asked for.
#[derive(Debug, Clone, Copy, PartialEq, Eq, Structural)]
pub enum Language {
    En,
    Ja,
}

impl Default for Language {
    fn default() -> (r: Self)
        ensures
            r == Language::En,
    {
        Language::En
    }
}

/// The settings of the assistant.
#[derive(Debug, Clone)]
pub struct AiConfig {
    pub commit_message_style: CommitMessageStyle,
    pub commit_message_language: Language,
    pub provider_priority: Vec<String>,
    pub prefer_local_llm: bool,
    pub exclude_patterns: Vec<String>,
}

impl Default for AiConfig {
    fn default() -> (r: Self)
        ensures
            r.commit_message_style == CommitMessageStyle::Conventional,
            r.commit_message_language == Language::En,
            r.provider_priority@.len() == 0,
            !r.prefer_local_llm,
            r.exclude_patterns@.len() == 0,
    {
        AiConfig {
            commit_message_style: CommitMessageStyle::Conventional,
            commit_message_language: Language::En,
            provider_priority: Vec::new(),
            prefer_local_llm: false,
            exclude_patterns: Vec::new(),
        }
    }
}

/// A known assistant and whether it is installed.
#[derive(Debug, Clone)]
pub struct CliAdapterInfo {
    pub name: String,
    pub command: String,
    pub available: bool,
}

/// What a commit message is asked for: the diff, the style, the language.
#[derive(Debug, Clone)]
pub struct GenerateRequest {
    pub diff: String,
    pub style: CommitMessageStyle,
    pub language: Language,
}

/// A commit message as the assistant gave it.
#[derive(Debug, Clone)]
pub struct GenerateResult {
    pub subject: String,
    pub body: String,
    pub alternatives: Vec<String>,
}

/// How grave a remark of a review is.
#[derive(Debug, Clone, Copy, PartialEq, Eq, Structural)]
pub enum ReviewCommentType {
    Warning,
    Error,
    Info,
}

/// One remark of a review, on a range of lines of a file.
#[derive(Debug, Clone)]
pub struct ReviewComment {
    pub file: String,
    pub line_start: u32,
    pub line_end: u32,
    pub comment_type: ReviewCommentType,
    pub message: String,
}

/// The remarks of a review.
#[derive(Debug, Clone)]
pub struct ReviewResult {
    pub comments: Vec<ReviewComment>,
}

/// How sure the assistant is of a resolution.
#[derive(Debug, Clone, Copy, PartialEq, Eq, Structural)]
pub enum ConfidenceLevel {
    High,
    Medium,
    Low,
}

/// The resolution of a conflict that the assistant suggests.
#[derive(Debug, Clone)]
pub struct ConflictSuggestion {
    pub resolved_code: String,
    pub confidence: ConfidenceLevel,
    pub reason: String,
}

/// The title and the description of a pull request.
#[derive(Debug, Clone)]
pub struct PrDescription {
    pub title: String,
    pub body: String,
}

/// What can go wrong when the assistant is asked.
#[derive(Debug, Clone)]
pub enum AiError {
    NoAdapterAvailable,
    CliExecutionFailed(String),
    ParseFailed(String),
}

impl AiError {
    /// The text of the message: what failed, then the cause.
    pub open spec fn message_text(self) -> Seq<char> {
        match self {
            AiError::NoAdapterAvailable => "no adapter available"@,
            AiError::CliExecutionFailed(cause) => "cli execution failed: "@ + cause@,
            AiError::ParseFailed(cause) => "failed to parse response: "@ + cause@,
        }
    }

    /// The message for a reader.
    pub fn message(&self) -> (out: String)
        ensures
            out@ == self.message_text(),
    {
        let mut text: Vec<char> = Vec::new();
        match self {
            AiError::NoAdapterAvailable => {
                push_str(&mut text, "no adapter available");
            },
            AiError::CliExecutionFailed(cause) => {
                push_str(&mut text, "cli execution failed: ");
                push_str(&mut text, cause.as_str());
            },
            AiError::ParseFailed(cause) => {
                push_str(&mut text, "failed to parse response: ");
                push_str(&mut text, cause.as_str());
            },
        }
        assert(text@ =~= self.message_text());
        string_of(&text)
    }
}

} // verus!
