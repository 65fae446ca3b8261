//! Diffs as the text that is shown to the assistant.

use vstd::prelude::*;
use crate::git::types::{DiffHunk, DiffHunkView, DiffLineView, FileDiff, FileDiffView};
use crate::text::convert::{chars_of, push_chars, push_str, string_of};
use crate::text::lines::{join, join_texts, texts};
use crate::text::trim::{chars_trim, is_blank};

verus! {

/// The contents of the lines.
pub open spec fn line_contents(lines: Seq<DiffLineView>) -> Seq<Seq<char>> {
    Seq::new(lines.len(), |i: int| lines[i].content)
}

/// A hunk as text: its header, then its lines, with a line feed between
/// them.
pub open spec fn hunk_text(hunk: DiffHunkView) -> Seq<char> {
    hunk.header + "\n"@ + join(line_contents(hunk.lines), "\n"@)
}

/// The path that a file is shown under: the new one, else the old one, else
/// `unknown`.
pub open spec fn shown_path(file: FileDiffView) -> Seq<char> {
    match file.new_path {
        Some(p) => p,
        None => match file.old_path {
            Some(p) => p,
            None => "unknown"@,
        },
    }
}

/// Each hunk as text.
pub open spec fn hunk_texts(hunks: Seq<DiffHunkView>) -> Seq<Seq<char>> {
    Seq::new(hunks.len(), |i: int| hunk_text(hunks[i]))
}

/// A file as text: its path after three dashes, then its hunks, with a line
/// feed between them.
pub open spec fn file_text(file: FileDiffView) -> Seq<char> {
    "--- "@ + shown_path(file) + "\n"@ + join(hunk_texts(file.hunks), "\n"@)
}

/// Each file as text.
pub open spec fn file_texts(diffs: Seq<FileDiffView>) -> Seq<Seq<char>> {
    Seq::new(diffs.len(), |i: int| file_text(diffs[i]))
}

/// Diffs as text: the files with an empty line between them.
pub open spec fn diff_text(diffs: Seq<FileDiffView>) -> Seq<char> {
    join(file_texts(diffs), "\n\n"@)
}

fn format_hunk(hunk: &DiffHunk) -> (out: Vec<char>)
    ensures
        out@ == hunk_text(hunk.deep_view()),
{
    let mut contents: Vec<Vec<char>> = Vec::new();
    let mut i: usize = 0;
    while i < hunk.lines.len()
        invariant
            i <= hunk.lines.len(),
            contents.len() == i,
            forall|k: int| 0 <= k < i ==> contents@[k]@ == hunk.lines@[k].content@,
        decreases hunk.lines.len() - i,
    {
        contents.push(chars_of(hunk.lines[i].content.as_str()));
        i += 1;
    }
    assert(texts(contents@) =~= line_contents(hunk.deep_view().lines));
    let mut out = chars_of(hunk.header.as_str());
    push_str(&mut out, "\n");
    push_chars(&mut out, &join_texts(&contents, "\n"));
    out
}

fn format_file(file: &FileDiff) -> (out: Vec<char>)
    ensures
        out@ == file_text(file.deep_view()),
{
    let mut hunks: Vec<Vec<char>> = Vec::new();
    let mut i: usize = 0;
    while i < file.hunks.len()
        invariant
            i <= file.hunks.len(),
            hunks.len() == i,
            forall|k: int| 0 <= k < i ==> hunks@[k]@ == hunk_text(file.hunks@[k].deep_view()),
        decreases file.hunks.len() - i,
    {
        hunks.push(format_hunk(&file.hunks[i]));
        i += 1;
    }
    assert(texts(hunks@) =~= hunk_texts(file.deep_view().hunks));
    let mut out: Vec<char> = Vec::new();
    push_str(&mut out, "--- ");
    match &file.new_path {
        Some(p) => push_str(&mut out, p.as_str()),
        None => match &file.old_path {
            Some(p) => push_str(&mut out, p.as_str()),
            None => push_str(&mut out, "unknown"),
        },
    }
    push_str(&mut out, "\n");
    push_chars(&mut out, &join_texts(&hunks, "\n"));
    assert(out@ =~= file_text(file.deep_view()));
    out
}

/// The text of the diffs as the assistant reads it.
pub fn format_diff_text(diffs: &Vec<FileDiff>) -> (out: String)
    ensures
        out@ == diff_text(diffs.deep_view()),
{
    let mut files: Vec<Vec<char>> = Vec::new();
    let mut i: usize = 0;
    while i < diffs.len()
        invariant
            i <= diffs.len(),
            files.len() == i,
            forall|k: int| 0 <= k < i ==> files@[k]@ == file_text(diffs@[k].deep_view()),
        decreases diffs.len() - i,
    {
        files.push(format_file(&diffs[i]));
        i += 1;
    }
    assert(texts(files@) =~= file_texts(diffs.deep_view()));
    string_of(&join_texts(&files, "\n\n"))
}

/// The diff text to make a commit message from: that of the staged
/// changes, which must not be blank.
pub fn commit_message_input(staged: &Vec<FileDiff>) -> (r: Result<String, String>)
    ensures
        is_blank(diff_text(staged.deep_view())) ==> (r matches Err(e) && e@
            == "No staged changes to generate a commit message from"@),
        !is_blank(diff_text(staged.deep_view())) ==> (r matches Ok(t) && t@ == diff_text(
            staged.deep_view(),
        )),
{
    let text = format_diff_text(staged);
    if chars_trim(&chars_of(text.as_str())).len() == 0 {
        Err(string_of(&chars_of("No staged changes to generate a commit message from")))
    } else {
        Ok(text)
    }
}

/// The diff text to describe a pull request from: that of the staged
/// changes, which must not be blank.
pub fn pr_description_input(staged: &Vec<FileDiff>) -> (r: Result<String, String>)
    ensures
        is_blank(diff_text(staged.deep_view())) ==> (r matches Err(e) && e@
            == "No changes to generate a PR description from"@),
        !is_blank(diff_text(staged.deep_view())) ==> (r matches Ok(t) && t@ == diff_text(
            staged.deep_view(),
        )),
{
    let text = format_diff_text(staged);
    if chars_trim(&chars_of(text.as_str())).len() == 0 {
        Err(string_of(&chars_of("No changes to generate a PR description from")))
    } else {
        Ok(text)
    }
}

/// The diff text to review, or nothing where there is nothing to review.
pub fn review_input(diffs: &Vec<FileDiff>) -> (r: Option<String>)
    ensures
        is_blank(diff_text(diffs.deep_view())) ==> r is None,
        !is_blank(diff_text(diffs.deep_view())) ==> (r matches Some(t) && t@ == diff_text(
            diffs.deep_view(),
        )),
{
    let text = format_diff_text(diffs);
    if chars_trim(&chars_of(text.as_str())).len() == 0 {
        None
    } else {
        Some(text)
    }
}

} // verus!
