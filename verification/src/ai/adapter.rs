//! Adapters to assistants that run as commands: what a command is, and how
//! what it printed is read.

use vstd::prelude::*;
use crate::ai::types::{AiError, GenerateRequest, GenerateResult};
use crate::text::convert::{chars_of, push_str, string_of};
use crate::text::lines::{join, join_texts, lines, skip_texts, split_lines};
use crate::text::number::{push_signed_decimal, signed_decimal};
use crate::text::trim::{chars_trim, trim};

verus! {

/// An assistant that can be asked.
pub trait LlmAdapter: Send + Sync {
    fn name(&self) -> &str;

    fn is_available(&self) -> bool;

    fn generate(&self, request: &GenerateRequest) -> Result<GenerateResult, AiError>;

    fn execute_prompt(&self, prompt: &str) -> Result<String, AiError>;
}

/// An assistant that runs as a command: the prompt goes to its input.
#[derive(Debug, Clone)]
pub struct CliAdapter {
    pub adapter_name: String,
    pub command: String,
    pub args: Vec<String>,
}

impl CliAdapter {
    /// An assistant that runs the given command with the given arguments.
    pub fn new(adapter_name: String, command: String, args: Vec<String>) -> (adapter: Self)
        ensures
            adapter.adapter_name == adapter_name,
            adapter.command == command,
            adapter.args == args,
    {
        CliAdapter { adapter_name, command, args }
    }
}

/// The subject of an answer: its first line, without the whitespace around
/// it.
pub open spec fn answer_subject(trimmed: Seq<char>) -> Seq<char> {
    if lines(trimmed).len() > 0 {
        trim(lines(trimmed)[0])
    } else {
        Seq::empty()
    }
}

/// The body of an answer: its lines after the first, with a line feed
/// between them, without the whitespace around the whole.
pub open spec fn answer_body(trimmed: Seq<char>) -> Seq<char> {
    let ls = lines(trimmed);
    if ls.len() > 0 {
        trim(join(ls.subrange(1, ls.len() as int), "\n"@))
    } else {
        Seq::empty()
    }
}

/// Reads a commit message from an answer: the subject and the body. An
/// answer of nothing but whitespace is refused.
pub fn parse_generate_response(raw: &str) -> (r: Result<GenerateResult, AiError>)
    ensures
        trim(raw@).len() == 0 ==> (r matches Err(e) && e matches AiError::ParseFailed(m) && m@
            == "empty response"@),
        trim(raw@).len() > 0 ==> (r matches Ok(g) && g.subject@ == answer_subject(trim(raw@))
            && g.body@ == answer_body(trim(raw@)) && g.alternatives@.len() == 0),
{
    let trimmed = chars_trim(&chars_of(raw));
    if trimmed.len() == 0 {
        return Err(AiError::ParseFailed(string_of(&chars_of("empty response"))));
    }
    let ls = split_lines(&trimmed);
    if ls.len() == 0 {
        return Ok(
            GenerateResult { subject: String::new(), body: String::new(), alternatives: Vec::new() },
        );
    }
    let subject = string_of(&chars_trim(&ls[0]));
    let rest = skip_texts(&ls, 1);
    let body = string_of(&chars_trim(&join_texts(&rest, "\n")));
    Ok(GenerateResult { subject, body, alternatives: Vec::new() })
}

/// The text of the failure of a command that ended with the given status.
/// A status that is not known is written as -1.
pub open spec fn exit_failure_text(exit_code: Option<i32>, stderr: Seq<char>) -> Seq<char> {
    "exit code "@ + signed_decimal(
        match exit_code {
            Some(code) => code as int,
            None => -1,
        },
    ) + ": "@ + stderr
}

/// Reads what a command printed: on failure the status and the error
/// stream; else the output without the whitespace around it, which must not
/// be empty.
pub fn run_prompt(success: bool, exit_code: Option<i32>, stdout: &str, stderr: &str) -> (r: Result<
    String,
    AiError,
>)
    ensures
        !success ==> (r matches Err(e) && e matches AiError::CliExecutionFailed(m) && m@
            == exit_failure_text(exit_code, stderr@)),
        success && trim(stdout@).len() == 0 ==> (r matches Err(e) && e matches AiError::ParseFailed(
            m,
        ) && m@ == "empty response"@),
        success && trim(stdout@).len() > 0 ==> (r matches Ok(raw) && raw@ == trim(stdout@)),
{
    if !success {
        let mut msg: Vec<char> = Vec::new();
        push_str(&mut msg, "exit code ");
        push_signed_decimal(
            &mut msg,
            match exit_code {
                Some(code) => code,
                None => -1,
            },
        );
        push_str(&mut msg, ": ");
        push_str(&mut msg, stderr);
        assert(msg@ =~= exit_failure_text(exit_code, stderr@));
        return Err(AiError::CliExecutionFailed(string_of(&msg)));
    }
    let raw = chars_trim(&chars_of(stdout));
    if raw.len() == 0 {
        return Err(AiError::ParseFailed(string_of(&chars_of("empty response"))));
    }
    Ok(string_of(&raw))
}

} // verus!
