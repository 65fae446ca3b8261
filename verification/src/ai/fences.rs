//! Answers that come wrapped in code fences.

use vstd::prelude::*;
use crate::text::convert::{chars_of, slice_chars, string_of};
use crate::text::search::{ends_with, ends_with_str, starts_with, starts_with_str};
use crate::text::trim::{chars_trim, trim};

verus! {

/// `s` without the fence it opens with: `` ```json `` or, failing that,
/// `` ``` ``.
pub open spec fn without_opening_fence(s: Seq<char>) -> Seq<char> {
    if starts_with(s, "```json"@) {
        s.subrange("```json"@.len() as int, s.len() as int)
    } else if starts_with(s, "```"@) {
        s.subrange("```"@.len() as int, s.len() as int)
    } else {
        s
    }
}

/// `s` without the fence it closes with.
pub open spec fn without_closing_fence(s: Seq<char>) -> Seq<char> {
    if ends_with(s, "```"@) {
        s.subrange(0, s.len() - "```"@.len())
    } else {
        s
    }
}

/// What stands between the fences, without the whitespace around it.
pub open spec fn unfenced(s: Seq<char>) -> Seq<char> {
    trim(without_closing_fence(without_opening_fence(s)))
}

/// Takes the fences off an answer, and the whitespace around what stands
/// between them.
pub fn strip_code_fences(s: &str) -> (out: String)
    ensures
        out@ == unfenced(s@),
{
    let chars = chars_of(s);
    let opened = if starts_with_str(&chars, "```json") {
        let p = chars_of("```json");
        slice_chars(&chars, p.len(), chars.len())
    } else if starts_with_str(&chars, "```") {
        let p = chars_of("```");
        slice_chars(&chars, p.len(), chars.len())
    } else {
        chars
    };
    let closed = if ends_with_str(&opened, "```") {
        let p = chars_of("```");
        slice_chars(&opened, 0, opened.len() - p.len())
    } else {
        opened
    };
    string_of(&chars_trim(&closed))
}

/// The text of an answer that is to be read as JSON: the answer without the
/// whitespace around it and without its fences.
pub fn json_payload(raw: &str) -> (out: String)
    ensures
        out@ == unfenced(trim(raw@)),
{
    let trimmed = string_of(&chars_trim(&chars_of(raw)));
    strip_code_fences(trimmed.as_str())
}

} // verus!
