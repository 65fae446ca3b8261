//! Splitting text into lines and joining lines into text.

use vstd::prelude::*;
use crate::text::convert::{push_chars, push_str, slice_chars};
use crate::text::search::{find_char, find_from, lemma_find_from};

verus! {

/// The texts held by a vector of character vectors.
pub open spec fn texts(v: Seq<Vec<char>>) -> Seq<Seq<char>> {
    Seq::new(v.len(), |i: int| v[i]@)
}

/// The texts of a vector with one more element.
pub proof fn lemma_texts_push(v: Seq<Vec<char>>, x: Vec<char>)
    ensures
        texts(v.push(x)) == texts(v).push(x@),
{
    assert(texts(v.push(x)) =~= texts(v).push(x@));
}

/// A line without the carriage return that stood before its line feed.
pub open spec fn strip_cr(line: Seq<char>) -> Seq<char> {
    if line.len() > 0 && line.last() == '\r' {
        line.drop_last()
    } else {
        line
    }
}

/// The lines of `s` that begin at or after index `from`.
pub open spec fn lines_from(s: Seq<char>, from: int) -> Seq<Seq<char>>
    decreases s.len() - from,
{
    if from < 0 || from >= s.len() {
        Seq::empty()
    } else {
        let k = find_from(s, '\n', from);
        if k >= s.len() {
            seq![s.subrange(from, s.len() as int)]
        } else if k < from {
            Seq::empty()
        } else {
            seq![strip_cr(s.subrange(from, k))] + lines_from(s, k + 1)
        }
    }
}

/// The lines of a text. A line ends at a line feed, or at a carriage return
/// followed by a line feed; neither belongs to the line. What follows the
/// last line feed is a line of its own unless it is empty, so a text that
/// ends with a line feed has the same lines as the text without it.
pub open spec fn lines(s: Seq<char>) -> Seq<Seq<char>> {
    lines_from(s, 0)
}

/// Every line followed by a line feed, one after the other.
pub open spec fn unlines(ls: Seq<Seq<char>>) -> Seq<char>
    decreases ls.len(),
{
    if ls.len() == 0 {
        Seq::empty()
    } else {
        unlines(ls.drop_last()) + ls.last().push('\n')
    }
}

/// One more line adds that line and a line feed.
pub proof fn lemma_unlines_push(ls: Seq<Seq<char>>, l: Seq<char>)
    ensures
        unlines(ls.push(l)) == unlines(ls) + l.push('\n'),
{
    assert(ls.push(l).drop_last() =~= ls);
}

/// Splits a text into its lines.
pub fn split_lines(s: &Vec<char>) -> (out: Vec<Vec<char>>)
    ensures
        texts(out@) == lines(s@),
{
    let mut out: Vec<Vec<char>> = Vec::new();
    let mut pos: usize = 0;
    assert(texts(out@) =~= Seq::<Seq<char>>::empty());
    while pos < s.len()
        invariant
            pos <= s.len(),
            lines(s@) == texts(out@) + lines_from(s@, pos as int),
        decreases s.len() - pos,
    {
        let k = find_char(s, '\n', pos);
        proof {
            lemma_find_from(s@, '\n', pos as int);
        }
        let ghost before = out@;
        if k >= s.len() {
            let line = slice_chars(s, pos, s.len());
            out.push(line);
            proof {
                lemma_texts_push(before, line);
                assert(lines_from(s@, s.len() as int) =~= Seq::<Seq<char>>::empty());
                assert(texts(before) + seq![line@] =~= texts(before).push(line@));
            }
            pos = s.len();
        } else {
            let end: usize = if k > pos && s[k - 1] == '\r' {
                k - 1
            } else {
                k
            };
            let line = slice_chars(s, pos, end);
            proof {
                let raw = s@.subrange(pos as int, k as int);
                if k > pos {
                    assert(raw.last() == s@[k - 1]);
                }
                assert(line@ =~= strip_cr(raw));
            }
            out.push(line);
            proof {
                lemma_texts_push(before, line);
                assert(texts(before) + (seq![line@] + lines_from(s@, k + 1)) =~= texts(
                    before,
                ).push(line@) + lines_from(s@, k + 1));
            }
            pos = k + 1;
        }
    }
    proof {
        assert(lines_from(s@, pos as int) =~= Seq::<Seq<char>>::empty());
        assert(texts(out@) + Seq::<Seq<char>>::empty() =~= texts(out@));
    }
    out
}

/// The first `n` texts with `sep` between them.
pub open spec fn joined(ls: Seq<Seq<char>>, sep: Seq<char>, n: int) -> Seq<char>
    decreases n,
{
    if n <= 0 || n > ls.len() {
        Seq::empty()
    } else if n == 1 {
        ls[0]
    } else {
        joined(ls, sep, n - 1) + sep + ls[n - 1]
    }
}

/// All the texts with `sep` between them.
pub open spec fn join(ls: Seq<Seq<char>>, sep: Seq<char>) -> Seq<char> {
    joined(ls, sep, ls.len() as int)
}

/// Joins texts with a separator between them.
pub fn join_texts(ls: &Vec<Vec<char>>, sep: &str) -> (out: Vec<char>)
    ensures
        out@ == join(texts(ls@), sep@),
{
    let mut out: Vec<char> = Vec::new();
    let mut i: usize = 0;
    while i < ls.len()
        invariant
            i <= ls.len(),
            out@ == joined(texts(ls@), sep@, i as int),
        decreases ls.len() - i,
    {
        let ghost before = out@;
        if i > 0 {
            push_str(&mut out, sep);
        }
        push_chars(&mut out, &ls[i]);
        proof {
            if i == 0 {
                assert(out@ =~= texts(ls@)[0]);
            } else {
                assert(out@ =~= before + sep@ + texts(ls@)[i as int]);
            }
        }
        i += 1;
    }
    out
}

/// The texts from index `from` on.
pub fn skip_texts(ls: &Vec<Vec<char>>, from: usize) -> (out: Vec<Vec<char>>)
    requires
        from <= ls.len(),
    ensures
        texts(out@) == texts(ls@).subrange(from as int, ls.len() as int),
{
    let mut out: Vec<Vec<char>> = Vec::new();
    let mut i: usize = from;
    while i < ls.len()
        invariant
            from <= i <= ls.len(),
            out.len() == i - from,
            forall|k: int| 0 <= k < out.len() ==> out@[k]@ == ls@[k + from]@,
        decreases ls.len() - i,
    {
        out.push(slice_chars(&ls[i], 0, ls[i].len()));
        assert(ls@[i as int]@.subrange(0, ls@[i as int]@.len() as int) =~= ls@[i as int]@);
        i += 1;
    }
    assert(texts(out@) =~= texts(ls@).subrange(from as int, ls.len() as int));
    out
}

/// The offset at which the line begins that stands `index` lines after the
/// line that begins at offset `from`, or the length of the text where it
/// has no such line.
pub open spec fn line_start_from(s: Seq<char>, from: int, index: int) -> int
    decreases index,
{
    if index <= 0 || from < 0 || from >= s.len() {
        from
    } else {
        let k = find_from(s, '\n', from);
        if k >= s.len() {
            s.len() as int
        } else {
            line_start_from(s, k + 1, index - 1)
        }
    }
}

/// The offset at which line `index` of a text begins, counted from 0: right
/// after the line feed that ends the line before. Where the text has no
/// such line, this is the length of the text.
pub open spec fn line_start(s: Seq<char>, index: int) -> int {
    line_start_from(s, 0, index)
}

/// A line begins at or after the line it is counted from, and within the
/// text.
pub proof fn lemma_line_start_bounds(s: Seq<char>, from: int, index: int)
    requires
        0 <= from <= s.len(),
    ensures
        from <= line_start_from(s, from, index) <= s.len(),
    decreases index,
{
    if index > 0 && from < s.len() {
        lemma_find_from(s, '\n', from);
        let k = find_from(s, '\n', from);
        if k < s.len() {
            lemma_line_start_bounds(s, k + 1, index - 1);
        }
    }
}

/// A later line begins at or after an earlier one.
pub proof fn lemma_line_start_grows(s: Seq<char>, from: int, i: int, j: int)
    requires
        0 <= from <= s.len(),
        i <= j,
    ensures
        line_start_from(s, from, i) <= line_start_from(s, from, j),
    decreases j,
{
    lemma_line_start_bounds(s, from, j);
    if i > 0 && from < s.len() {
        lemma_find_from(s, '\n', from);
        let k = find_from(s, '\n', from);
        if k < s.len() {
            lemma_line_start_grows(s, k + 1, i - 1, j - 1);
        }
    }
}

/// Past the last line, every line begins at the end of the text.
pub proof fn lemma_line_start_past_end(s: Seq<char>, from: int, index: int)
    requires
        0 <= from <= s.len(),
        index >= lines_from(s, from).len(),
    ensures
        line_start_from(s, from, index) == s.len(),
    decreases s.len() - from,
{
    if from < s.len() {
        lemma_find_from(s, '\n', from);
        let k = find_from(s, '\n', from);
        if k < s.len() {
            lemma_line_start_past_end(s, k + 1, index - 1);
        }
    }
}

/// The text from the beginning of a line on reads as that line and the
/// lines after it.
pub proof fn lemma_lines_from_line_start(s: Seq<char>, from: int, index: int)
    requires
        0 <= from <= s.len(),
        0 <= index <= lines_from(s, from).len(),
    ensures
        lines_from(s, line_start_from(s, from, index)) == lines_from(s, from).subrange(
            index,
            lines_from(s, from).len() as int,
        ),
    decreases index,
{
    let all = lines_from(s, from);
    if index == 0 || from >= s.len() {
        assert(all.subrange(index, all.len() as int) =~= all);
    } else {
        lemma_find_from(s, '\n', from);
        let k = find_from(s, '\n', from);
        if k >= s.len() {
            assert(lines_from(s, s.len() as int) =~= all.subrange(index, all.len() as int));
        } else {
            let rest = lines_from(s, k + 1);
            lemma_lines_from_line_start(s, k + 1, index - 1);
            assert(rest.subrange(index - 1, rest.len() as int) =~= all.subrange(
                index,
                all.len() as int,
            ));
        }
    }
}

/// The offset at which line `index` of a text begins.
pub fn line_offset(s: &Vec<char>, index: usize) -> (at: usize)
    ensures
        at == line_start(s@, index as int),
        at <= s.len(),
{
    let mut pos: usize = 0;
    let mut passed: usize = 0;
    while passed < index && pos < s.len()
        invariant
            passed <= index,
            pos <= s.len(),
            line_start(s@, index as int) == line_start_from(s@, pos as int, index - passed),
        decreases index - passed,
    {
        let k = find_char(s, '\n', pos);
        if k >= s.len() {
            return s.len();
        }
        pos = k + 1;
        passed += 1;
    }
    pos
}

} // verus!
