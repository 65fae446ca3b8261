//! Blame: one entry for every line of every run of lines that a commit
//! introduced.

use vstd::prelude::*;
use crate::git::history::{short_form, short_oid};
use crate::git::types::{BlameLine, BlameLineView, BlameResult};
use crate::text::convert::{chars_of, string_of};
use crate::text::lines::{lines, split_lines, texts};

verus! {

/// A run of lines that one commit introduced: the number of its first line,
/// counted from 1, the number of its lines, and the commit.
#[derive(Debug, Clone)]
pub struct BlameHunk {
    pub start_line: usize,
    pub num_lines: usize,
    pub commit_oid: String,
    pub author_name: String,
    pub author_date: i64,
}

/// The text of line `number`, counted from 1, or nothing where the file has
/// no such line.
pub open spec fn line_text(file_lines: Seq<Seq<char>>, number: int) -> Seq<char> {
    if 1 <= number <= file_lines.len() {
        file_lines[number - 1]
    } else {
        Seq::empty()
    }
}

/// The entry for the line that stands `offset` lines into a run. The first
/// line of a run starts a block unless the run before is of the same commit.
pub open spec fn blame_line(
    hunk: BlameHunk,
    offset: int,
    starts_block: bool,
    file_lines: Seq<Seq<char>>,
) -> BlameLineView {
    BlameLineView {
        line_number: (hunk.start_line + offset) as u32,
        content: line_text(file_lines, hunk.start_line + offset),
        commit_oid: hunk.commit_oid@,
        commit_short_oid: short_form(hunk.commit_oid@),
        author_name: hunk.author_name@,
        author_date: hunk.author_date,
        is_block_start: starts_block && offset == 0,
    }
}

/// Whether run `i` is of another commit than the run before it.
pub open spec fn starts_block(hunks: Seq<BlameHunk>, i: int) -> bool {
    i == 0 || hunks[i - 1].commit_oid@ != hunks[i].commit_oid@
}

/// The entries of one run.
pub open spec fn hunk_lines(hunks: Seq<BlameHunk>, i: int, file_lines: Seq<Seq<char>>) -> Seq<
    BlameLineView,
> {
    Seq::new(
        hunks[i].num_lines as nat,
        |j: int| blame_line(hunks[i], j, starts_block(hunks, i), file_lines),
    )
}

/// The entries of the first `n` runs.
pub open spec fn blame_lines(hunks: Seq<BlameHunk>, n: int, file_lines: Seq<Seq<char>>) -> Seq<
    BlameLineView,
>
    decreases n,
{
    if n <= 0 || n > hunks.len() {
        Seq::empty()
    } else {
        blame_lines(hunks, n - 1, file_lines) + hunk_lines(hunks, n - 1, file_lines)
    }
}

/// The blame of a file: the runs, each spread out into its lines, with the
/// text of each line taken from the file's content.
pub fn get_blame(path: &str, hunks: &Vec<BlameHunk>, content: &str) -> (r: BlameResult)
    ensures
        r.path@ == path@,
        r.lines.deep_view() == blame_lines(hunks@, hunks.len() as int, lines(content@)),
{
    let content_chars = chars_of(content);
    let file_lines = split_lines(&content_chars);
    let ghost fl = texts(file_lines@);
    let mut out: Vec<BlameLine> = Vec::new();
    let mut i: usize = 0;
    assert(out.deep_view() =~= Seq::<BlameLineView>::empty());
    while i < hunks.len()
        invariant
            i <= hunks.len(),
            fl == texts(file_lines@),
            out.deep_view() == blame_lines(hunks@, i as int, fl),
        decreases hunks.len() - i,
    {
        let hunk = &hunks[i];
        let is_new_block = i == 0 || hunks[i - 1].commit_oid != hunk.commit_oid;
        assert(is_new_block == starts_block(hunks@, i as int));
        let short = short_oid(hunk.commit_oid.as_str());
        let ghost before = out.deep_view();
        let mut j: usize = 0;
        assert(hunk_lines(hunks@, i as int, fl).take(0) =~= Seq::<BlameLineView>::empty());
        assert(before + Seq::<BlameLineView>::empty() =~= before);
        while j < hunk.num_lines
            invariant
                j <= hunk.num_lines,
                i < hunks.len(),
                hunk == &hunks@[i as int],
                fl == texts(file_lines@),
                short@ == short_form(hunk.commit_oid@),
                is_new_block == starts_block(hunks@, i as int),
                out.deep_view() == before + hunk_lines(hunks@, i as int, fl).take(j as int),
            decreases hunk.num_lines - j,
        {
            let line_num: u128 = hunk.start_line as u128 + j as u128;
            let content = if line_num >= 1 && line_num <= file_lines.len() as u128 {
                string_of(&file_lines[(line_num - 1) as usize])
            } else {
                String::new()
            };
            let line = BlameLine {
                line_number: #[verifier::truncate]
                (line_num as u32),
                content,
                commit_oid: hunk.commit_oid.clone(),
                commit_short_oid: short.clone(),
                author_name: hunk.author_name.clone(),
                author_date: hunk.author_date,
                is_block_start: is_new_block && j == 0,
            };
            let ghost prev = out.deep_view();
            out.push(line);
            proof {
                let all = hunk_lines(hunks@, i as int, fl);
                assert(line.deep_view() == all[j as int]);
                assert(out.deep_view() =~= prev.push(line.deep_view()));
                assert(all.take(j + 1) =~= all.take(j as int).push(all[j as int]));
                assert(before + all.take(j + 1) =~= (before + all.take(j as int)).push(
                    all[j as int],
                ));
            }
            j += 1;
        }
        proof {
            let all = hunk_lines(hunks@, i as int, fl);
            assert(all.take(hunk.num_lines as int) =~= all);
        }
        i += 1;
    }
    BlameResult { path: string_of(&chars_of(path)), lines: out }
}

} // verus!
