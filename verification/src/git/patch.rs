//! Unified-diff patches for one hunk, or for chosen lines of one hunk, of a
//! diff computed a moment ago.

use std::collections::HashSet;
use vstd::prelude::*;
use crate::git::error::GitError;
use crate::git::types::{
    DiffHunk,
    DiffHunkView,
    DiffLineKind,
    DiffLineView,
    FileDiff,
    HunkIdentifier,
    LineRange,
};
use crate::text::convert::{chars_of, push_chars, push_str, string_of};
use crate::text::number::{decimal, push_decimal};

verus! {

broadcast use vstd::std_specs::hash::group_hash_axioms;

/// Whether the four range numbers of a hunk are those of the identifier.
pub open spec fn hunk_matches(h: DiffHunkView, id: HunkIdentifier) -> bool {
    h.old_start == id.old_start && h.old_lines == id.old_lines && h.new_start == id.new_start
        && h.new_lines == id.new_lines
}

/// The index of the first hunk at or after `from` that matches the
/// identifier, or the number of hunks where none does.
pub open spec fn find_hunk(hunks: Seq<DiffHunkView>, id: HunkIdentifier, from: int) -> int
    decreases hunks.len() - from,
{
    if from < 0 || from >= hunks.len() {
        hunks.len() as int
    } else if hunk_matches(hunks[from], id) {
        from
    } else {
        find_hunk(hunks, id, from + 1)
    }
}

/// What `find_hunk` finds: a hunk that matches the identifier.
pub proof fn lemma_find_hunk(hunks: Seq<DiffHunkView>, id: HunkIdentifier, from: int)
    requires
        0 <= from <= hunks.len(),
    ensures
        from <= find_hunk(hunks, id, from) <= hunks.len(),
        find_hunk(hunks, id, from) < hunks.len() ==> hunk_matches(
            hunks[find_hunk(hunks, id, from)],
            id,
        ),
    decreases hunks.len() - from,
{
    if from < hunks.len() && !hunk_matches(hunks[from], id) {
        lemma_find_hunk(hunks, id, from + 1);
    }
}

/// The three lines that name the file of a patch.
pub open spec fn file_header(path: Seq<char>) -> Seq<char> {
    "diff --git a/"@ + path + " b/"@ + path + "\n"@ + "--- a/"@ + path + "\n"@ + "+++ b/"@ + path
        + "\n"@
}

/// The line that gives the ranges of a hunk.
pub open spec fn range_header(old_start: nat, old_lines: nat, new_start: nat, new_lines: nat) -> Seq<
    char,
> {
    "@@ -"@ + decimal(old_start) + ","@ + decimal(old_lines) + " +"@ + decimal(new_start) + ","@
        + decimal(new_lines) + " @@\n"@
}

/// The four lines that a patch for one hunk of `path` begins with.
pub open spec fn patch_header(
    path: Seq<char>,
    old_start: nat,
    old_lines: nat,
    new_start: nat,
    new_lines: nat,
) -> Seq<char> {
    file_header(path) + range_header(old_start, old_lines, new_start, new_lines)
}

/// One line of a patch: the prefix, then the content. Content that does not
/// end with a line feed gets one, and the marker line that says so.
pub open spec fn patch_line(prefix: char, content: Seq<char>) -> Seq<char> {
    if content.len() > 0 && content.last() == '\n' {
        seq![prefix] + content
    } else {
        seq![prefix] + content + "\n"@ + "\\ No newline at end of file\n"@
    }
}

/// The prefix of a line in the patch for a whole hunk.
pub open spec fn hunk_prefix(kind: DiffLineKind) -> Option<char> {
    match kind {
        DiffLineKind::Addition => Some('+'),
        DiffLineKind::Deletion => Some('-'),
        DiffLineKind::Context => Some(' '),
        _ => None,
    }
}

/// The prefix of a line in the patch for chosen lines: context stays context,
/// a chosen deletion is deleted and any other is kept as context, a chosen
/// addition is added and any other is left out.
pub open spec fn line_prefix(kind: DiffLineKind, chosen: bool) -> Option<char> {
    match kind {
        DiffLineKind::Context => Some(' '),
        DiffLineKind::Addition => if chosen {
            Some('+')
        } else {
            None
        },
        DiffLineKind::Deletion => if chosen {
            Some('-')
        } else {
            Some(' ')
        },
        _ => None,
    }
}

/// Whether the line at `index` is among the chosen ones.
pub open spec fn is_chosen(chosen: Seq<usize>, index: int) -> bool {
    exists|k: int| 0 <= k < chosen.len() && chosen[k] == index
}

/// The patch lines for the first `n` lines of a whole hunk.
pub open spec fn hunk_body(lines: Seq<DiffLineView>, n: int) -> Seq<char>
    decreases n,
{
    if n <= 0 || n > lines.len() {
        Seq::empty()
    } else {
        match hunk_prefix(lines[n - 1].kind) {
            Some(p) => hunk_body(lines, n - 1) + patch_line(p, lines[n - 1].content),
            None => hunk_body(lines, n - 1),
        }
    }
}

/// The patch lines for the first `n` lines of a hunk of which some lines are
/// chosen.
pub open spec fn line_body(lines: Seq<DiffLineView>, chosen: Seq<usize>, n: int) -> Seq<char>
    decreases n,
{
    if n <= 0 || n > lines.len() {
        Seq::empty()
    } else {
        match line_prefix(lines[n - 1].kind, is_chosen(chosen, n - 1)) {
            Some(p) => line_body(lines, chosen, n - 1) + patch_line(p, lines[n - 1].content),
            None => line_body(lines, chosen, n - 1),
        }
    }
}

/// How many of the first `n` lines are emitted with one of the two prefixes.
pub open spec fn count_prefixed(
    lines: Seq<DiffLineView>,
    chosen: Seq<usize>,
    n: int,
    first: char,
    second: char,
) -> nat
    decreases n,
{
    if n <= 0 || n > lines.len() {
        0
    } else {
        let p = line_prefix(lines[n - 1].kind, is_chosen(chosen, n - 1));
        count_prefixed(lines, chosen, n - 1, first, second) + if p == Some(first) || p == Some(
            second,
        ) {
            1nat
        } else {
            0nat
        }
    }
}

/// The old-side length of the patch for chosen lines: the lines emitted as
/// context or as deletions.
pub open spec fn old_total(lines: Seq<DiffLineView>, chosen: Seq<usize>) -> nat {
    count_prefixed(lines, chosen, lines.len() as int, ' ', '-')
}

/// The new-side length of the patch for chosen lines: the lines emitted as
/// context or as additions.
pub open spec fn new_total(lines: Seq<DiffLineView>, chosen: Seq<usize>) -> nat {
    count_prefixed(lines, chosen, lines.len() as int, ' ', '+')
}

/// How many lines the patch for chosen lines emits as context.
pub open spec fn emitted_context(lines: Seq<DiffLineView>, chosen: Seq<usize>) -> nat {
    count_prefixed(lines, chosen, lines.len() as int, ' ', ' ')
}

/// How many lines the patch for chosen lines emits as additions.
pub open spec fn emitted_additions(lines: Seq<DiffLineView>, chosen: Seq<usize>) -> nat {
    count_prefixed(lines, chosen, lines.len() as int, '+', '+')
}

/// How many lines the patch for chosen lines emits as deletions.
pub open spec fn emitted_deletions(lines: Seq<DiffLineView>, chosen: Seq<usize>) -> nat {
    count_prefixed(lines, chosen, lines.len() as int, '-', '-')
}

/// How many of the lines are of the given kind.
pub open spec fn count_kind(lines: Seq<DiffLineView>, n: int, kind: DiffLineKind) -> nat
    decreases n,
{
    if n <= 0 || n > lines.len() {
        0
    } else {
        count_kind(lines, n - 1, kind) + if lines[n - 1].kind == kind {
            1nat
        } else {
            0nat
        }
    }
}

/// The patch text for a whole hunk.
pub open spec fn hunk_patch_text(path: Seq<char>, hunk: DiffHunkView) -> Seq<char> {
    patch_header(
        path,
        hunk.old_start as nat,
        hunk.old_lines as nat,
        hunk.new_start as nat,
        hunk.new_lines as nat,
    ) + hunk_body(hunk.lines, hunk.lines.len() as int)
}

/// The patch text for chosen lines of a hunk. The two lengths in its header
/// are counted from the lines it emits.
pub open spec fn line_patch_text(path: Seq<char>, hunk: DiffHunkView, chosen: Seq<usize>) -> Seq<
    char,
> {
    patch_header(
        path,
        hunk.old_start as nat,
        old_total(hunk.lines, chosen),
        hunk.new_start as nat,
        new_total(hunk.lines, chosen),
    ) + line_body(hunk.lines, chosen, hunk.lines.len() as int)
}

fn find_matching_hunk(hunks: &Vec<DiffHunk>, id: &HunkIdentifier) -> (at: usize)
    ensures
        at == find_hunk(hunks.deep_view(), *id, 0),
        at <= hunks.len(),
{
    let mut i: usize = 0;
    while i < hunks.len()
        invariant
            i <= hunks.len(),
            find_hunk(hunks.deep_view(), *id, 0) == find_hunk(hunks.deep_view(), *id, i as int),
        decreases hunks.len() - i,
    {
        let h = &hunks[i];
        assert(hunks.deep_view()[i as int] == h.deep_view());
        if h.old_start == id.old_start && h.old_lines == id.old_lines && h.new_start
            == id.new_start && h.new_lines == id.new_lines {
            return i;
        }
        i += 1;
    }
    i
}

fn push_file_header(out: &mut Vec<char>, path: &str)
    ensures
        final(out)@ == old(out)@ + file_header(path@),
{
    push_str(out, "diff --git a/");
    push_str(out, path);
    push_str(out, " b/");
    push_str(out, path);
    push_str(out, "\n");
    push_str(out, "--- a/");
    push_str(out, path);
    push_str(out, "\n");
    push_str(out, "+++ b/");
    push_str(out, path);
    push_str(out, "\n");
    assert(out@ =~= old(out)@ + file_header(path@));
}

fn push_range_header(
    out: &mut Vec<char>,
    old_start: u64,
    old_lines: u64,
    new_start: u64,
    new_lines: u64,
)
    ensures
        final(out)@ == old(out)@ + range_header(
            old_start as nat,
            old_lines as nat,
            new_start as nat,
            new_lines as nat,
        ),
{
    push_str(out, "@@ -");
    push_decimal(out, old_start);
    push_str(out, ",");
    push_decimal(out, old_lines);
    push_str(out, " +");
    push_decimal(out, new_start);
    push_str(out, ",");
    push_decimal(out, new_lines);
    push_str(out, " @@\n");
    assert(out@ =~= old(out)@ + range_header(
        old_start as nat,
        old_lines as nat,
        new_start as nat,
        new_lines as nat,
    ));
}

fn push_patch_header(
    out: &mut Vec<char>,
    path: &str,
    old_start: u64,
    old_lines: u64,
    new_start: u64,
    new_lines: u64,
)
    ensures
        final(out)@ == old(out)@ + patch_header(
            path@,
            old_start as nat,
            old_lines as nat,
            new_start as nat,
            new_lines as nat,
        ),
{
    push_file_header(out, path);
    push_range_header(out, old_start, old_lines, new_start, new_lines);
    assert(out@ =~= old(out)@ + patch_header(
        path@,
        old_start as nat,
        old_lines as nat,
        new_start as nat,
        new_lines as nat,
    ));
}

fn push_patch_line(out: &mut Vec<char>, prefix: char, content: &str)
    ensures
        final(out)@ == old(out)@ + patch_line(prefix, content@),
{
    let chars = chars_of(content);
    out.push(prefix);
    push_chars(out, &chars);
    if chars.len() > 0 && chars[chars.len() - 1] == '\n' {
        assert(out@ =~= old(out)@ + patch_line(prefix, content@));
    } else {
        push_str(out, "\n");
        push_str(out, "\\ No newline at end of file\n");
        assert(out@ =~= old(out)@ + patch_line(prefix, content@));
    }
}

/// The set of the chosen indices.
fn chosen_set(chosen: &Vec<usize>) -> (set: HashSet<usize>)
    ensures
        forall|x: usize| set@.contains(x) <==> is_chosen(chosen@, x as int),
{
    let mut set: HashSet<usize> = HashSet::new();
    let mut k: usize = 0;
    while k < chosen.len()
        invariant
            k <= chosen.len(),
            forall|x: usize|
                set@.contains(x) <==> exists|j: int| 0 <= j < k && chosen@[j] == x,
        decreases chosen.len() - k,
    {
        set.insert(chosen[k]);
        k += 1;
    }
    set
}

/// The patch for one whole hunk of the first file of `diffs`: the hunk whose
/// four range numbers are those of `hunk`.
pub fn generate_hunk_patch(path: &str, diffs: &Vec<FileDiff>, hunk: &HunkIdentifier) -> (r:
    Result<String, GitError>)
    ensures
        diffs.len() == 0 ==> (r matches Err(e) && e is DiffFailed && e.detail()
            == "no diff found for path"@),
        diffs.len() > 0 ==> ({
            let hunks = diffs.deep_view()[0].hunks;
            let at = find_hunk(hunks, *hunk, 0);
            if at < hunks.len() {
                r matches Ok(patch) && patch@ == hunk_patch_text(path@, hunks[at])
            } else {
                r matches Err(e) && e is DiffFailed && e.detail() == "hunk not found"@
            }
        }),
{
    if diffs.len() == 0 {
        return Err(GitError::DiffFailed(string_of(&chars_of("no diff found for path"))));
    }
    let file_diff = &diffs[0];
    assert(diffs.deep_view()[0] == file_diff.deep_view());
    let at = find_matching_hunk(&file_diff.hunks, hunk);
    if at >= file_diff.hunks.len() {
        return Err(GitError::DiffFailed(string_of(&chars_of("hunk not found"))));
    }
    let matched = &file_diff.hunks[at];
    let ghost mv = matched.deep_view();
    assert(file_diff.hunks.deep_view()[at as int] == mv);
    proof {
        lemma_find_hunk(file_diff.hunks.deep_view(), *hunk, 0);
    }
    let mut patch: Vec<char> = Vec::new();
    push_patch_header(
        &mut patch,
        path,
        hunk.old_start as u64,
        hunk.old_lines as u64,
        hunk.new_start as u64,
        hunk.new_lines as u64,
    );
    let ghost header = patch@;
    let mut i: usize = 0;
    assert(patch@ =~= header + hunk_body(mv.lines, 0));
    while i < matched.lines.len()
        invariant
            i <= matched.lines.len(),
            mv == matched.deep_view(),
            patch@ == header + hunk_body(mv.lines, i as int),
        decreases matched.lines.len() - i,
    {
        let line = &matched.lines[i];
        assert(mv.lines[i as int] == line.deep_view());
        match line.kind {
            DiffLineKind::Addition => {
                push_patch_line(&mut patch, '+', line.content.as_str());
            },
            DiffLineKind::Deletion => {
                push_patch_line(&mut patch, '-', line.content.as_str());
            },
            DiffLineKind::Context => {
                push_patch_line(&mut patch, ' ', line.content.as_str());
            },
            _ => {},
        }
        assert(patch@ =~= header + hunk_body(mv.lines, i + 1));
        i += 1;
    }
    Ok(string_of(&patch))
}

/// The patch for chosen lines of one hunk of the first file of `diffs`: the
/// hunk whose four range numbers are those of `line_range.hunk`.
pub fn generate_line_patch(path: &str, diffs: &Vec<FileDiff>, line_range: &LineRange) -> (r:
    Result<String, GitError>)
    ensures
        diffs.len() == 0 ==> (r matches Err(e) && e is DiffFailed && e.detail()
            == "no diff found for path"@),
        diffs.len() > 0 ==> ({
            let hunks = diffs.deep_view()[0].hunks;
            let at = find_hunk(hunks, line_range.hunk, 0);
            if at < hunks.len() {
                r matches Ok(patch) && patch@ == line_patch_text(
                    path@,
                    hunks[at],
                    line_range.line_indices@,
                )
            } else {
                r matches Err(e) && e is DiffFailed && e.detail() == "hunk not found"@
            }
        }),
{
    if diffs.len() == 0 {
        return Err(GitError::DiffFailed(string_of(&chars_of("no diff found for path"))));
    }
    let file_diff = &diffs[0];
    assert(diffs.deep_view()[0] == file_diff.deep_view());
    let hunk = &line_range.hunk;
    let at = find_matching_hunk(&file_diff.hunks, hunk);
    if at >= file_diff.hunks.len() {
        return Err(GitError::DiffFailed(string_of(&chars_of("hunk not found"))));
    }
    let matched = &file_diff.hunks[at];
    let ghost mv = matched.deep_view();
    let ghost chosen = line_range.line_indices@;
    assert(file_diff.hunks.deep_view()[at as int] == mv);
    proof {
        lemma_find_hunk(file_diff.hunks.deep_view(), *hunk, 0);
    }
    let selected = chosen_set(&line_range.line_indices);
    let mut old_lines_count: usize = 0;
    let mut new_lines_count: usize = 0;
    let mut body: Vec<char> = Vec::new();
    let mut idx: usize = 0;
    assert(body@ =~= line_body(mv.lines, chosen, 0));
    while idx < matched.lines.len()
        invariant
            idx <= matched.lines.len(),
            mv == matched.deep_view(),
            chosen == line_range.line_indices@,
            forall|x: usize| selected@.contains(x) <==> is_chosen(chosen, x as int),
            body@ == line_body(mv.lines, chosen, idx as int),
            old_lines_count == count_prefixed(mv.lines, chosen, idx as int, ' ', '-'),
            new_lines_count == count_prefixed(mv.lines, chosen, idx as int, ' ', '+'),
            old_lines_count <= idx,
            new_lines_count <= idx,
        decreases matched.lines.len() - idx,
    {
        let line = &matched.lines[idx];
        assert(mv.lines[idx as int] == line.deep_view());
        match line.kind {
            DiffLineKind::Context => {
                old_lines_count += 1;
                new_lines_count += 1;
                push_patch_line(&mut body, ' ', line.content.as_str());
            },
            DiffLineKind::Addition => {
                if selected.contains(&idx) {
                    new_lines_count += 1;
                    push_patch_line(&mut body, '+', line.content.as_str());
                }
            },
            DiffLineKind::Deletion => {
                if selected.contains(&idx) {
                    old_lines_count += 1;
                    push_patch_line(&mut body, '-', line.content.as_str());
                } else {
                    old_lines_count += 1;
                    new_lines_count += 1;
                    push_patch_line(&mut body, ' ', line.content.as_str());
                }
            },
            _ => {},
        }
        idx += 1;
    }
    let mut patch: Vec<char> = Vec::new();
    push_patch_header(
        &mut patch,
        path,
        hunk.old_start as u64,
        old_lines_count as u64,
        hunk.new_start as u64,
        new_lines_count as u64,
    );
    push_chars(&mut patch, &body);
    assert(patch@ =~= line_patch_text(path@, mv, chosen));
    Ok(string_of(&patch))
}

/// What the header of a patch for chosen lines counts. The new-side length
/// is the number of lines emitted as context plus the number of chosen
/// additions; the old-side length is the number of lines emitted as context
/// plus the number of chosen deletions, so with no deletion chosen it is the
/// number of lines emitted as context. A deletion that is not chosen is
/// emitted as context.
pub proof fn lemma_line_patch_totals(lines: Seq<DiffLineView>, chosen: Seq<usize>)
    ensures
        new_total(lines, chosen) == emitted_context(lines, chosen) + emitted_additions(
            lines,
            chosen,
        ),
        old_total(lines, chosen) == emitted_context(lines, chosen) + emitted_deletions(
            lines,
            chosen,
        ),
        emitted_deletions(lines, chosen) == 0 ==> old_total(lines, chosen) == emitted_context(
            lines,
            chosen,
        ),
        old_total(lines, chosen) == count_kind(
            lines,
            lines.len() as int,
            DiffLineKind::Context,
        ) + count_kind(lines, lines.len() as int, DiffLineKind::Deletion),
{
    lemma_totals_upto(lines, chosen, lines.len() as int);
}

proof fn lemma_totals_upto(lines: Seq<DiffLineView>, chosen: Seq<usize>, n: int)
    requires
        0 <= n <= lines.len(),
    ensures
        count_prefixed(lines, chosen, n, ' ', '+') == count_prefixed(lines, chosen, n, ' ', ' ')
            + count_prefixed(lines, chosen, n, '+', '+'),
        count_prefixed(lines, chosen, n, ' ', '-') == count_prefixed(lines, chosen, n, ' ', ' ')
            + count_prefixed(lines, chosen, n, '-', '-'),
        count_prefixed(lines, chosen, n, ' ', '-') == count_kind(lines, n, DiffLineKind::Context)
            + count_kind(lines, n, DiffLineKind::Deletion),
    decreases n,
{
    if n > 0 {
        lemma_totals_upto(lines, chosen, n - 1);
    }
}

/// Whether the lengths in the header of a hunk are those of its lines: the
/// old side counts the context lines and the deletions, the new side the
/// context lines and the additions.
pub open spec fn is_balanced(hunk: DiffHunkView) -> bool {
    &&& hunk.old_lines == count_kind(hunk.lines, hunk.lines.len() as int, DiffLineKind::Context)
        + count_kind(hunk.lines, hunk.lines.len() as int, DiffLineKind::Deletion)
    &&& hunk.new_lines == count_kind(hunk.lines, hunk.lines.len() as int, DiffLineKind::Context)
        + count_kind(hunk.lines, hunk.lines.len() as int, DiffLineKind::Addition)
}

/// Whether every line of the hunk is among the chosen ones.
pub open spec fn all_chosen(lines: Seq<DiffLineView>, chosen: Seq<usize>) -> bool {
    forall|i: int| 0 <= i < lines.len() ==> is_chosen(chosen, i)
}

proof fn lemma_all_chosen_upto(lines: Seq<DiffLineView>, chosen: Seq<usize>, n: int)
    requires
        0 <= n <= lines.len(),
        all_chosen(lines, chosen),
    ensures
        line_body(lines, chosen, n) == hunk_body(lines, n),
        count_prefixed(lines, chosen, n, ' ', '+') == count_kind(lines, n, DiffLineKind::Context)
            + count_kind(lines, n, DiffLineKind::Addition),
    decreases n,
{
    if n > 0 {
        lemma_all_chosen_upto(lines, chosen, n - 1);
        assert(is_chosen(chosen, n - 1));
    }
}

/// With every line chosen, the patch for chosen lines of a hunk whose header
/// is right is the patch for the whole hunk.
pub proof fn lemma_all_lines_is_whole_hunk(path: Seq<char>, hunk: DiffHunkView, chosen: Seq<usize>)
    requires
        is_balanced(hunk),
        all_chosen(hunk.lines, chosen),
    ensures
        line_patch_text(path, hunk, chosen) == hunk_patch_text(path, hunk),
{
    lemma_all_chosen_upto(hunk.lines, chosen, hunk.lines.len() as int);
    lemma_line_patch_totals(hunk.lines, chosen);
}

} // verus!
