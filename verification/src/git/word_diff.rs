//! Word-level differences between a deleted line and the line added in its
//! place.

use vstd::prelude::*;
use crate::text::classes::{char_is_separator, is_separator};
use crate::git::types::{
    DiffHunkView,
    DiffLine,
    DiffLineKind,
    DiffLineView,
    FileDiff,
    FileDiffView,
    WordSegment,
    WordSegmentView,
};
use crate::text::convert::{chars_eq, chars_of, push_chars, slice_chars, string_of};
use crate::text::lines::{lemma_texts_push, texts};

verus! {

/// Where the token that begins at index `from` ends: a separator is a token
/// by itself, and a run of other characters goes on up to the next separator.
pub open spec fn token_end(s: Seq<char>, from: int) -> int
    decreases s.len() - from,
{
    if from < 0 || from >= s.len() {
        from
    } else if is_separator(s[from]) {
        from + 1
    } else if from + 1 < s.len() && !is_separator(s[from + 1]) {
        token_end(s, from + 1)
    } else {
        from + 1
    }
}

/// A token has at least one character and ends within the text.
pub proof fn lemma_token_end(s: Seq<char>, from: int)
    requires
        0 <= from < s.len(),
    ensures
        from < token_end(s, from) <= s.len(),
    decreases s.len() - from,
{
    if !is_separator(s[from]) && from + 1 < s.len() && !is_separator(s[from + 1]) {
        lemma_token_end(s, from + 1);
    }
}

/// The tokens of `s` from index `from` on.
pub open spec fn tokens_from(s: Seq<char>, from: int) -> Seq<Seq<char>>
    decreases s.len() - from,
{
    if from < 0 || from >= s.len() {
        Seq::empty()
    } else {
        let end = token_end(s, from);
        if end <= from || end > s.len() {
            Seq::empty()
        } else {
            seq![s.subrange(from, end)] + tokens_from(s, end)
        }
    }
}

/// The tokens of a text: each ASCII whitespace or punctuation character is a
/// token of one character, and each run of other characters between them is
/// one token.
pub open spec fn tokens(s: Seq<char>) -> Seq<Seq<char>> {
    tokens_from(s, 0)
}

/// Splits a text into its tokens.
pub fn tokenize_chars(s: &Vec<char>) -> (out: Vec<Vec<char>>)
    ensures
        texts(out@) == tokens(s@),
{
    let mut out: Vec<Vec<char>> = Vec::new();
    let mut pos: usize = 0;
    assert(texts(out@) =~= Seq::<Seq<char>>::empty());
    while pos < s.len()
        invariant
            pos <= s.len(),
            tokens(s@) == texts(out@) + tokens_from(s@, pos as int),
        decreases s.len() - pos,
    {
        let mut end: usize = pos + 1;
        if !char_is_separator(s[pos]) {
            while end < s.len() && !char_is_separator(s[end])
                invariant
                    pos < end <= s.len(),
                    !is_separator(s@[end - 1]),
                    token_end(s@, pos as int) == token_end(s@, end - 1),
                decreases s.len() - end,
            {
                end += 1;
            }
        }
        assert(end == token_end(s@, pos as int));
        let token = slice_chars(s, pos, end);
        let ghost before = out@;
        out.push(token);
        proof {
            lemma_texts_push(before, token);
            assert(texts(before) + (seq![token@] + tokens_from(s@, end as int)) =~= texts(
                before,
            ).push(token@) + tokens_from(s@, end as int));
        }
        pos = end;
    }
    proof {
        assert(tokens_from(s@, pos as int) =~= Seq::<Seq<char>>::empty());
        assert(texts(out@) + Seq::<Seq<char>>::empty() =~= texts(out@));
    }
    out
}

/// The tokens of a string, each as a string of its own.
pub fn tokenize_words(s: &str) -> (out: Vec<String>)
    ensures
        out.deep_view() == tokens(s@),
{
    let chars = chars_of(s);
    let toks = tokenize_chars(&chars);
    let mut out: Vec<String> = Vec::new();
    let mut i: usize = 0;
    while i < toks.len()
        invariant
            i <= toks.len(),
            out.len() == i,
            forall|k: int| 0 <= k < i ==> out@[k]@ == toks@[k]@,
        decreases toks.len() - i,
    {
        out.push(string_of(&toks[i]));
        i += 1;
    }
    assert(out.deep_view() =~= texts(toks@));
    out
}

/// The length of a longest common subsequence of the first `i` tokens of `a`
/// and the first `j` tokens of `b`.
pub open spec fn lcs_len(a: Seq<Seq<char>>, b: Seq<Seq<char>>, i: int, j: int) -> nat
    decreases i + j,
{
    if i <= 0 || j <= 0 || i > a.len() || j > b.len() {
        0
    } else if a[i - 1] == b[j - 1] {
        lcs_len(a, b, i - 1, j - 1) + 1
    } else if lcs_len(a, b, i - 1, j) >= lcs_len(a, b, i, j - 1) {
        lcs_len(a, b, i - 1, j)
    } else {
        lcs_len(a, b, i, j - 1)
    }
}

/// A common subsequence is no longer than either sequence.
pub proof fn lemma_lcs_len_bound(a: Seq<Seq<char>>, b: Seq<Seq<char>>, i: int, j: int)
    requires
        0 <= i,
        0 <= j,
    ensures
        lcs_len(a, b, i, j) <= i,
        lcs_len(a, b, i, j) <= j,
    decreases i + j,
{
    if i <= 0 || j <= 0 || i > a.len() || j > b.len() {
    } else {
        lemma_lcs_len_bound(a, b, i - 1, j - 1);
        lemma_lcs_len_bound(a, b, i - 1, j);
        lemma_lcs_len_bound(a, b, i, j - 1);
    }
}

/// Which of the first `i` tokens of the deleted side are highlighted when the
/// table is walked back from `(i, j)`: equal tokens leave both sides in
/// silence; otherwise the walk takes a token from the deleted side unless the
/// table is strictly larger towards the added side.
pub open spec fn deleted_marks(a: Seq<Seq<char>>, b: Seq<Seq<char>>, i: int, j: int) -> Seq<bool>
    decreases i + j,
{
    if i <= 0 || i > a.len() || j < 0 || j > b.len() {
        Seq::empty()
    } else if j == 0 {
        deleted_marks(a, b, i - 1, 0).push(true)
    } else if a[i - 1] == b[j - 1] {
        deleted_marks(a, b, i - 1, j - 1).push(false)
    } else if lcs_len(a, b, i - 1, j) >= lcs_len(a, b, i, j - 1) {
        deleted_marks(a, b, i - 1, j).push(true)
    } else {
        deleted_marks(a, b, i, j - 1)
    }
}

/// Which of the first `j` tokens of the added side are highlighted when the
/// table is walked back from `(i, j)`.
pub open spec fn added_marks(a: Seq<Seq<char>>, b: Seq<Seq<char>>, i: int, j: int) -> Seq<bool>
    decreases i + j,
{
    if j <= 0 || j > b.len() || i < 0 || i > a.len() {
        Seq::empty()
    } else if i == 0 {
        added_marks(a, b, 0, j - 1).push(true)
    } else if a[i - 1] == b[j - 1] {
        added_marks(a, b, i - 1, j - 1).push(false)
    } else if lcs_len(a, b, i - 1, j) >= lcs_len(a, b, i, j - 1) {
        added_marks(a, b, i - 1, j)
    } else {
        added_marks(a, b, i, j - 1).push(true)
    }
}

/// There is one mark for each token.
pub proof fn lemma_marks_len(a: Seq<Seq<char>>, b: Seq<Seq<char>>, i: int, j: int)
    requires
        0 <= i <= a.len(),
        0 <= j <= b.len(),
    ensures
        deleted_marks(a, b, i, j).len() == i,
        added_marks(a, b, i, j).len() == j,
    decreases i + j,
{
    if i == 0 && j == 0 {
    } else if i == 0 {
        lemma_marks_len(a, b, 0, j - 1);
    } else if j == 0 {
        lemma_marks_len(a, b, i - 1, 0);
    } else {
        lemma_marks_len(a, b, i - 1, j - 1);
        lemma_marks_len(a, b, i - 1, j);
        lemma_marks_len(a, b, i, j - 1);
    }
}

/// The first `n` tokens gathered into segments: neighbours with the same mark
/// share a segment.
pub open spec fn segments(toks: Seq<Seq<char>>, marks: Seq<bool>, n: int) -> Seq<WordSegmentView>
    decreases n,
{
    if n <= 0 || n > toks.len() || n > marks.len() {
        Seq::empty()
    } else if n == 1 {
        seq![WordSegmentView { text: toks[0], highlighted: marks[0] }]
    } else {
        let before = segments(toks, marks, n - 1);
        if marks[n - 1] == marks[n - 2] && before.len() > 0 {
            before.drop_last().push(
                WordSegmentView {
                    text: before.last().text + toks[n - 1],
                    highlighted: marks[n - 1],
                },
            )
        } else {
            before.push(WordSegmentView { text: toks[n - 1], highlighted: marks[n - 1] })
        }
    }
}

/// The texts of the segments, one after the other.
pub open spec fn segments_text(segs: Seq<WordSegmentView>) -> Seq<char>
    decreases segs.len(),
{
    if segs.len() == 0 {
        Seq::empty()
    } else {
        segments_text(segs.drop_last()) + segs.last().text
    }
}

/// The first `n` tokens, one after the other.
pub open spec fn tokens_text(toks: Seq<Seq<char>>, n: int) -> Seq<char>
    decreases n,
{
    if n <= 0 || n > toks.len() {
        Seq::empty()
    } else {
        tokens_text(toks, n - 1) + toks[n - 1]
    }
}

/// The segments of the deleted line and of the added line.
pub open spec fn word_diff(deleted: Seq<char>, added: Seq<char>) -> (
    Seq<WordSegmentView>,
    Seq<WordSegmentView>,
) {
    let a = tokens(deleted);
    let b = tokens(added);
    (
        segments(a, deleted_marks(a, b, a.len() as int, b.len() as int), a.len() as int),
        segments(b, added_marks(a, b, a.len() as int, b.len() as int), b.len() as int),
    )
}

/// Whether `dp` is the table of `lcs_len` for the tokens `a` and `b`.
pub open spec fn is_lcs_table(dp: Seq<Vec<usize>>, a: Seq<Seq<char>>, b: Seq<Seq<char>>) -> bool {
    &&& dp.len() == a.len() + 1
    &&& forall|i: int|
        0 <= i <= a.len() ==> {
            &&& (#[trigger] dp[i])@.len() == b.len() + 1
            &&& forall|j: int|
                0 <= j <= b.len() ==> #[trigger] dp[i]@[j] == lcs_len(a, b, i, j)
        }
}

/// The table of longest-common-subsequence lengths of two token sequences.
pub fn lcs_length(a: &Vec<Vec<char>>, b: &Vec<Vec<char>>) -> (dp: Vec<Vec<usize>>)
    ensures
        is_lcs_table(dp@, texts(a@), texts(b@)),
{
    let ghost ta = texts(a@);
    let ghost tb = texts(b@);
    let m = a.len();
    let n = b.len();
    let mut dp: Vec<Vec<usize>> = Vec::new();
    let mut first: Vec<usize> = Vec::new();
    first.push(0);
    let mut j: usize = 0;
    while j < n
        invariant
            j <= n,
            n == tb.len(),
            first@.len() == j + 1,
            forall|k: int| 0 <= k <= j ==> #[trigger] first@[k] == 0,
        decreases n - j,
    {
        first.push(0);
        j += 1;
    }
    dp.push(first);
    let mut i: usize = 0;
    while i < m
        invariant
            i <= m,
            m == a.len(),
            n == b.len(),
            ta == texts(a@),
            tb == texts(b@),
            dp@.len() == i + 1,
            forall|r: int|
                0 <= r <= i ==> {
                    &&& (#[trigger] dp@[r])@.len() == n + 1
                    &&& forall|c: int|
                        0 <= c <= n ==> #[trigger] dp@[r]@[c] == lcs_len(ta, tb, r, c)
                },
        decreases m - i,
    {
        let mut row: Vec<usize> = Vec::new();
        row.push(0);
        let mut j: usize = 0;
        while j < n
            invariant
                j <= n,
                i < m,
                m == a.len(),
                n == b.len(),
                ta == texts(a@),
                tb == texts(b@),
                dp@.len() == i + 1,
                dp@[i as int]@.len() == n + 1,
                forall|c: int| 0 <= c <= n ==> #[trigger] dp@[i as int]@[c] == lcs_len(ta, tb, i as int, c),
                row@.len() == j + 1,
                forall|c: int| 0 <= c <= j ==> #[trigger] row@[c] == lcs_len(ta, tb, i + 1, c),
            decreases n - j,
        {
            let same = chars_eq(&a[i], &b[j]);
            assert(same == (ta[i as int] == tb[j as int]));
            let up: usize = dp[i][j + 1];
            let left: usize = row[j];
            let value: usize = if same {
                proof {
                    lemma_lcs_len_bound(ta, tb, i as int, j as int);
                }
                dp[i][j] + 1
            } else if up >= left {
                up
            } else {
                left
            };
            assert(value == lcs_len(ta, tb, i + 1, j + 1));
            row.push(value);
            j += 1;
        }
        dp.push(row);
        i += 1;
    }
    dp
}

/// The marks of both sides, found by walking the table back from its last
/// cell.
pub fn backtrack_marks(a: &Vec<Vec<char>>, b: &Vec<Vec<char>>, dp: &Vec<Vec<usize>>) -> (r: (
    Vec<bool>,
    Vec<bool>,
))
    requires
        is_lcs_table(dp@, texts(a@), texts(b@)),
    ensures
        r.0@ == deleted_marks(texts(a@), texts(b@), a.len() as int, b.len() as int),
        r.1@ == added_marks(texts(a@), texts(b@), a.len() as int, b.len() as int),
{
    let ghost ta = texts(a@);
    let ghost tb = texts(b@);
    let m = a.len();
    let n = b.len();
    let mut del: Vec<bool> = Vec::new();
    let mut k: usize = 0;
    while k < m
        invariant
            k <= m,
            del@.len() == k,
            forall|x: int| 0 <= x < k ==> !#[trigger] del@[x],
        decreases m - k,
    {
        del.push(false);
        k += 1;
    }
    let mut add: Vec<bool> = Vec::new();
    k = 0;
    while k < n
        invariant
            k <= n,
            add@.len() == k,
            forall|x: int| 0 <= x < k ==> !#[trigger] add@[x],
        decreases n - k,
    {
        add.push(false);
        k += 1;
    }
    let mut i: usize = m;
    let mut j: usize = n;
    proof {
        assert(del@.subrange(m as int, m as int) =~= Seq::<bool>::empty());
        assert(add@.subrange(n as int, n as int) =~= Seq::<bool>::empty());
        assert(deleted_marks(ta, tb, m as int, n as int) + Seq::<bool>::empty() =~= deleted_marks(
            ta,
            tb,
            m as int,
            n as int,
        ));
        assert(added_marks(ta, tb, m as int, n as int) + Seq::<bool>::empty() =~= added_marks(
            ta,
            tb,
            m as int,
            n as int,
        ));
    }
    while i > 0 || j > 0
        invariant
            i <= m,
            j <= n,
            m == a.len(),
            n == b.len(),
            ta == texts(a@),
            tb == texts(b@),
            is_lcs_table(dp@, ta, tb),
            del@.len() == m,
            add@.len() == n,
            forall|x: int| 0 <= x < i ==> !#[trigger] del@[x],
            forall|x: int| 0 <= x < j ==> !#[trigger] add@[x],
            deleted_marks(ta, tb, m as int, n as int) == deleted_marks(ta, tb, i as int, j as int)
                + del@.subrange(i as int, m as int),
            added_marks(ta, tb, m as int, n as int) == added_marks(ta, tb, i as int, j as int)
                + add@.subrange(j as int, n as int),
        decreases i + j,
    {
        let ghost del0 = del@;
        let ghost add0 = add@;
        let ghost i0 = i as int;
        let ghost j0 = j as int;
        if i > 0 && j > 0 {
            let same = chars_eq(&a[i - 1], &b[j - 1]);
            assert(same == (ta[i - 1] == tb[j - 1]));
            if same {
                i -= 1;
                j -= 1;
            } else {
                assert(dp@[i - 1]@[j as int] == lcs_len(ta, tb, i - 1, j as int));
                assert(dp@[i as int]@[j - 1] == lcs_len(ta, tb, i as int, j - 1));
                if dp[i - 1][j] >= dp[i][j - 1] {
                    del.set(i - 1, true);
                    i -= 1;
                } else {
                    add.set(j - 1, true);
                    j -= 1;
                }
            }
        } else if i > 0 {
            del.set(i - 1, true);
            i -= 1;
        } else {
            add.set(j - 1, true);
            j -= 1;
        }
        proof {
            if i < i0 {
                assert(deleted_marks(ta, tb, i0, j0) == deleted_marks(ta, tb, i as int, j as int).push(
                    del@[i as int],
                ));
                assert(deleted_marks(ta, tb, i as int, j as int).push(del@[i as int]) + del0.subrange(
                    i0,
                    m as int,
                ) =~= deleted_marks(ta, tb, i as int, j as int) + del@.subrange(i as int, m as int));
            } else {
                assert(del@ == del0);
            }
            if j < j0 {
                assert(added_marks(ta, tb, i0, j0) == added_marks(ta, tb, i as int, j as int).push(
                    add@[j as int],
                ));
                assert(added_marks(ta, tb, i as int, j as int).push(add@[j as int]) + add0.subrange(
                    j0,
                    n as int,
                ) =~= added_marks(ta, tb, i as int, j as int) + add@.subrange(j as int, n as int));
            } else {
                assert(add@ == add0);
            }
        }
    }
    proof {
        assert(del@.subrange(0, m as int) =~= del@);
        assert(add@.subrange(0, n as int) =~= add@);
        assert(Seq::<bool>::empty() + del@ =~= del@);
        assert(Seq::<bool>::empty() + add@ =~= add@);
    }
    (del, add)
}

/// Gathers tokens into segments, given the mark of each token.
pub fn coalesce(toks: &Vec<Vec<char>>, marks: &Vec<bool>) -> (out: Vec<WordSegment>)
    requires
        marks.len() == toks.len(),
    ensures
        out.deep_view() == segments(texts(toks@), marks@, toks.len() as int),
{
    let ghost tt = texts(toks@);
    let mut out: Vec<WordSegment> = Vec::new();
    if toks.len() == 0 {
        assert(out.deep_view() =~= Seq::<WordSegmentView>::empty());
        return out;
    }
    let mut cur_text: Vec<char> = Vec::new();
    push_chars(&mut cur_text, &toks[0]);
    let mut cur_highlighted: bool = marks[0];
    let mut idx: usize = 1;
    proof {
        assert(cur_text@ =~= tt[0]);
        assert(out.deep_view().push(
            WordSegmentView { text: cur_text@, highlighted: cur_highlighted },
        ) =~= segments(tt, marks@, 1));
    }
    while idx < toks.len()
        invariant
            1 <= idx <= toks.len(),
            marks.len() == toks.len(),
            tt == texts(toks@),
            cur_highlighted == marks@[idx - 1],
            segments(tt, marks@, idx as int) == out.deep_view().push(
                WordSegmentView { text: cur_text@, highlighted: cur_highlighted },
            ),
        decreases toks.len() - idx,
    {
        let highlighted = marks[idx];
        let ghost before = out.deep_view();
        let ghost cur0 = cur_text@;
        if highlighted != cur_highlighted {
            let seg = WordSegment { text: string_of(&cur_text), highlighted: cur_highlighted };
            out.push(seg);
            assert(out.deep_view() =~= before.push(seg.deep_view()));
            cur_text = Vec::new();
        }
        cur_highlighted = highlighted;
        push_chars(&mut cur_text, &toks[idx]);
        proof {
            let last = WordSegmentView { text: cur0, highlighted: marks@[idx - 1] };
            assert(segments(tt, marks@, idx as int) == before.push(last));
            assert(before.push(last).drop_last() =~= before);
            assert(before.push(last).last() == last);
            if highlighted == marks@[idx - 1] {
                assert(cur_text@ == cur0 + tt[idx as int]);
            } else {
                assert(cur_text@ =~= tt[idx as int]);
            }
        }
        idx += 1;
    }
    let ghost before = out.deep_view();
    let seg = WordSegment { text: string_of(&cur_text), highlighted: cur_highlighted };
    out.push(seg);
    assert(out.deep_view() =~= before.push(seg.deep_view()));
    out
}

/// The first `n` tokens of a sequence that begins with `t` read as `t`
/// followed by the first `n - 1` tokens of the rest.
pub proof fn lemma_tokens_text_prepend(t: Seq<char>, rest: Seq<Seq<char>>, n: int)
    requires
        0 <= n <= rest.len(),
    ensures
        tokens_text(seq![t] + rest, n + 1) == t + tokens_text(rest, n),
    decreases n,
{
    let all = seq![t] + rest;
    if n == 0 {
        assert(tokens_text(all, 0) =~= Seq::<char>::empty());
        assert(tokens_text(all, 1) =~= t + tokens_text(rest, 0));
    } else {
        lemma_tokens_text_prepend(t, rest, n - 1);
        assert(all[n] == rest[n - 1]);
        assert((t + tokens_text(rest, n - 1)) + rest[n - 1] =~= t + (tokens_text(rest, n - 1)
            + rest[n - 1]));
    }
}

/// The tokens from an index on, one after the other, are the text from that
/// index on.
pub proof fn lemma_tokens_from_text(s: Seq<char>, from: int)
    requires
        0 <= from <= s.len(),
    ensures
        tokens_text(tokens_from(s, from), tokens_from(s, from).len() as int) == s.subrange(
            from,
            s.len() as int,
        ),
    decreases s.len() - from,
{
    if from >= s.len() {
        assert(s.subrange(from, s.len() as int) =~= Seq::<char>::empty());
    } else {
        lemma_token_end(s, from);
        let end = token_end(s, from);
        let rest = tokens_from(s, end);
        lemma_tokens_from_text(s, end);
        lemma_tokens_text_prepend(s.subrange(from, end), rest, rest.len() as int);
        assert(s.subrange(from, end) + s.subrange(end, s.len() as int) =~= s.subrange(
            from,
            s.len() as int,
        ));
    }
}

/// The segments of the first `n` tokens read as those tokens do.
pub proof fn lemma_segments_text(toks: Seq<Seq<char>>, marks: Seq<bool>, n: int)
    requires
        0 <= n <= toks.len(),
        n <= marks.len(),
    ensures
        segments_text(segments(toks, marks, n)) == tokens_text(toks, n),
        n > 0 ==> segments(toks, marks, n).len() > 0,
    decreases n,
{
    if n == 0 {
    } else if n == 1 {
        let one = seq![WordSegmentView { text: toks[0], highlighted: marks[0] }];
        assert(one.drop_last() =~= Seq::<WordSegmentView>::empty());
        assert(segments_text(one.drop_last()) =~= Seq::<char>::empty());
        assert(tokens_text(toks, 0) =~= Seq::<char>::empty());
        assert(segments_text(one) =~= toks[0]);
        assert(tokens_text(toks, 1) =~= toks[0]);
    } else {
        lemma_segments_text(toks, marks, n - 1);
        let before = segments(toks, marks, n - 1);
        if marks[n - 1] == marks[n - 2] {
            let joined = WordSegmentView {
                text: before.last().text + toks[n - 1],
                highlighted: marks[n - 1],
            };
            assert(before.drop_last().push(joined).drop_last() =~= before.drop_last());
            assert((segments_text(before.drop_last()) + before.last().text) + toks[n - 1]
                =~= segments_text(before.drop_last()) + (before.last().text + toks[n - 1]));
        } else {
            let alone = WordSegmentView { text: toks[n - 1], highlighted: marks[n - 1] };
            assert(before.push(alone).drop_last() =~= before);
        }
    }
}

/// Segments are as long as they can be: the last segment carries the mark
/// of the last token, and no two neighbours carry the same mark.
pub proof fn lemma_segments_alternate(toks: Seq<Seq<char>>, marks: Seq<bool>, n: int)
    requires
        0 <= n <= toks.len(),
        n <= marks.len(),
    ensures
        n > 0 ==> segments(toks, marks, n).len() > 0 && segments(toks, marks, n).last().highlighted
            == marks[n - 1],
        forall|i: int|
            0 <= i < segments(toks, marks, n).len() - 1 ==> (#[trigger] segments(
                toks,
                marks,
                n,
            )[i]).highlighted != segments(toks, marks, n)[i + 1].highlighted,
    decreases n,
{
    if n > 1 {
        lemma_segments_alternate(toks, marks, n - 1);
        let before = segments(toks, marks, n - 1);
        let now = segments(toks, marks, n);
        assert forall|i: int| 0 <= i < now.len() - 1 implies (#[trigger] now[i]).highlighted
            != now[i + 1].highlighted by {
            if marks[n - 1] == marks[n - 2] {
                if i < before.len() - 2 {
                    assert(now[i] == before[i]);
                    assert(now[i + 1] == before[i + 1]);
                } else {
                    assert(now[i] == before[i]);
                    assert(before[i].highlighted != before[i + 1].highlighted);
                }
            } else {
                if i < before.len() - 1 {
                    assert(now[i] == before[i]);
                    assert(now[i + 1] == before[i + 1]);
                } else {
                    assert(now[i] == before.last());
                }
            }
        }
    }
}

/// Word diffs lose nothing: the segments of each side, read one after the
/// other, are that side's text.
pub proof fn lemma_word_diff_lossless(deleted: Seq<char>, added: Seq<char>)
    ensures
        segments_text(word_diff(deleted, added).0) == deleted,
        segments_text(word_diff(deleted, added).1) == added,
{
    let a = tokens(deleted);
    let b = tokens(added);
    lemma_marks_len(a, b, a.len() as int, b.len() as int);
    lemma_segments_text(
        a,
        deleted_marks(a, b, a.len() as int, b.len() as int),
        a.len() as int,
    );
    lemma_segments_text(b, added_marks(a, b, a.len() as int, b.len() as int), b.len() as int);
    lemma_tokens_from_text(deleted, 0);
    lemma_tokens_from_text(added, 0);
    assert(deleted.subrange(0, deleted.len() as int) =~= deleted);
    assert(added.subrange(0, added.len() as int) =~= added);
}

/// The word diff of a deleted line and the line added in its place: the
/// segments of the deleted line, then those of the added line.
pub fn compute_word_diff_pair(del_content: &str, add_content: &str) -> (r: (
    Vec<WordSegment>,
    Vec<WordSegment>,
))
    ensures
        r.0.deep_view() == word_diff(del_content@, add_content@).0,
        r.1.deep_view() == word_diff(del_content@, add_content@).1,
        segments_text(r.0.deep_view()) == del_content@,
        segments_text(r.1.deep_view()) == add_content@,
{
    let del_chars = chars_of(del_content);
    let add_chars = chars_of(add_content);
    let del_tokens = tokenize_chars(&del_chars);
    let add_tokens = tokenize_chars(&add_chars);
    let dp = lcs_length(&del_tokens, &add_tokens);
    let (del_marked, add_marked) = backtrack_marks(&del_tokens, &add_tokens, &dp);
    proof {
        lemma_marks_len(
            texts(del_tokens@),
            texts(add_tokens@),
            del_tokens.len() as int,
            add_tokens.len() as int,
        );
        lemma_word_diff_lossless(del_content@, add_content@);
    }
    let del_segments = coalesce(&del_tokens, &del_marked);
    let add_segments = coalesce(&add_tokens, &add_marked);
    (del_segments, add_segments)
}

/// Where the run of lines of one kind that begins at `from` ends.
pub open spec fn run_end(lines: Seq<DiffLineView>, from: int, kind: DiffLineKind) -> int
    decreases lines.len() - from,
{
    if from < 0 || from >= lines.len() || lines[from].kind != kind {
        from
    } else {
        run_end(lines, from + 1, kind)
    }
}

/// A run ends at or after the line it begins at, and within the lines.
pub proof fn lemma_run_end(lines: Seq<DiffLineView>, from: int, kind: DiffLineKind)
    requires
        0 <= from <= lines.len(),
    ensures
        from <= run_end(lines, from, kind) <= lines.len(),
    decreases lines.len() - from,
{
    if from < lines.len() && lines[from].kind == kind {
        lemma_run_end(lines, from + 1, kind);
    }
}

/// A line with the given segments as its word diff.
pub open spec fn with_word_diff(line: DiffLineView, segs: Seq<WordSegmentView>) -> DiffLineView {
    DiffLineView {
        kind: line.kind,
        content: line.content,
        old_lineno: line.old_lineno,
        new_lineno: line.new_lineno,
        word_diff: Some(segs),
    }
}

/// The lines with the first `pairs` lines from `del_start` each paired with
/// the line as far from `add_start`, and both given their word diff.
pub open spec fn pair_up(
    lines: Seq<DiffLineView>,
    del_start: int,
    add_start: int,
    pairs: int,
) -> Seq<DiffLineView> {
    Seq::new(
        lines.len(),
        |k: int|
            if del_start <= k < del_start + pairs {
                with_word_diff(
                    lines[k],
                    word_diff(lines[k].content, lines[k - del_start + add_start].content).0,
                )
            } else if add_start <= k < add_start + pairs {
                with_word_diff(
                    lines[k],
                    word_diff(lines[k - add_start + del_start].content, lines[k].content).1,
                )
            } else {
                lines[k]
            },
    )
}

/// The lines of a hunk with word diffs: from index `from` on, each run of
/// deletions that an addition run follows at once is paired with it line by
/// line, as far as the shorter run goes.
pub open spec fn annotated_from(lines: Seq<DiffLineView>, from: int) -> Seq<DiffLineView>
    decreases lines.len() - from,
{
    if from < 0 || from >= lines.len() {
        lines
    } else if lines[from].kind != DiffLineKind::Deletion {
        annotated_from(lines, from + 1)
    } else {
        let del_end = run_end(lines, from, DiffLineKind::Deletion);
        let add_end = run_end(lines, del_end, DiffLineKind::Addition);
        let pairs = if del_end - from <= add_end - del_end {
            del_end - from
        } else {
            add_end - del_end
        };
        if from < del_end <= add_end <= lines.len() {
            annotated_from(pair_up(lines, from, del_end, pairs), add_end)
        } else {
            lines
        }
    }
}

/// The lines of a hunk with word diffs.
pub open spec fn annotated(lines: Seq<DiffLineView>) -> Seq<DiffLineView> {
    annotated_from(lines, 0)
}

/// The diffs with word diffs in every hunk.
pub open spec fn with_word_diffs(diffs: Seq<FileDiffView>) -> Seq<FileDiffView> {
    Seq::new(
        diffs.len(),
        |f: int|
            FileDiffView {
                old_path: diffs[f].old_path,
                new_path: diffs[f].new_path,
                hunks: Seq::new(
                    diffs[f].hunks.len(),
                    |h: int|
                        DiffHunkView {
                            header: diffs[f].hunks[h].header,
                            old_start: diffs[f].hunks[h].old_start,
                            old_lines: diffs[f].hunks[h].old_lines,
                            new_start: diffs[f].hunks[h].new_start,
                            new_lines: diffs[f].hunks[h].new_lines,
                            lines: annotated(diffs[f].hunks[h].lines),
                        },
                ),
            },
    )
}

fn set_word_diff(lines: &mut Vec<DiffLine>, k: usize, segs: Vec<WordSegment>)
    requires
        k < old(lines).len(),
    ensures
        final(lines).len() == old(lines).len(),
        final(lines).deep_view() == old(lines).deep_view().update(
            k as int,
            with_word_diff(old(lines).deep_view()[k as int], segs.deep_view()),
        ),
{
    lines[k].word_diff = Some(segs);
    assert(lines.deep_view() =~= old(lines).deep_view().update(
        k as int,
        with_word_diff(old(lines).deep_view()[k as int], segs.deep_view()),
    ));
}

/// Gives the lines of one hunk their word diffs.
pub fn annotate_lines(lines: &mut Vec<DiffLine>)
    ensures
        final(lines).deep_view() == annotated(old(lines).deep_view()),
{
    let lines_len = lines.len();
    let mut i: usize = 0;
    while i < lines_len
        invariant
            i <= lines_len,
            lines.len() == lines_len,
            annotated(old(lines).deep_view()) == annotated_from(lines.deep_view(), i as int),
        decreases lines_len - i,
    {
        let ghost view0 = lines.deep_view();
        if lines[i].kind != DiffLineKind::Deletion {
            i += 1;
            continue ;
        }
        let del_start = i;
        while i < lines_len && lines[i].kind == DiffLineKind::Deletion
            invariant
                del_start <= i <= lines_len,
                lines.len() == lines_len,
                lines.deep_view() == view0,
                run_end(view0, del_start as int, DiffLineKind::Deletion) == run_end(
                    view0,
                    i as int,
                    DiffLineKind::Deletion,
                ),
            decreases lines_len - i,
        {
            i += 1;
        }
        let del_end = i;
        let add_start = i;
        while i < lines_len && lines[i].kind == DiffLineKind::Addition
            invariant
                add_start <= i <= lines_len,
                lines.len() == lines_len,
                lines.deep_view() == view0,
                run_end(view0, add_start as int, DiffLineKind::Addition) == run_end(
                    view0,
                    i as int,
                    DiffLineKind::Addition,
                ),
            decreases lines_len - i,
        {
            i += 1;
        }
        let add_end = i;
        let del_count = del_end - del_start;
        let add_count = add_end - add_start;
        let pairs = if del_count <= add_count {
            del_count
        } else {
            add_count
        };
        assert(del_start < del_end);
        let mut p: usize = 0;
        assert(lines.deep_view() =~= pair_up(view0, del_start as int, add_start as int, 0));
        while p < pairs
            invariant
                p <= pairs,
                pairs <= del_end - del_start,
                pairs <= add_end - add_start,
                del_end == add_start,
                add_end <= lines_len,
                lines.len() == lines_len,
                view0.len() == lines_len,
                lines.deep_view() == pair_up(view0, del_start as int, add_start as int, p as int),
            decreases pairs - p,
        {
            let ghost cur = lines.deep_view();
            let (del_segs, add_segs) = compute_word_diff_pair(
                lines[del_start + p].content.as_str(),
                lines[add_start + p].content.as_str(),
            );
            assert(cur[del_start + p].content == view0[del_start + p].content);
            assert(cur[add_start + p].content == view0[add_start + p].content);
            set_word_diff(lines, del_start + p, del_segs);
            set_word_diff(lines, add_start + p, add_segs);
            assert(lines.deep_view() =~= pair_up(
                view0,
                del_start as int,
                add_start as int,
                p + 1,
            ));
            p += 1;
        }
    }
}

/// Gives every hunk of every file its word diffs.
pub fn compute_word_diffs(file_diffs: &mut Vec<FileDiff>)
    ensures
        final(file_diffs).deep_view() == with_word_diffs(old(file_diffs).deep_view()),
{
    let ghost before = file_diffs.deep_view();
    let n_files = file_diffs.len();
    let mut f: usize = 0;
    while f < n_files
        invariant
            f <= n_files,
            file_diffs.len() == n_files,
            before.len() == n_files,
            forall|x: int| 0 <= x < f ==> #[trigger] file_diffs.deep_view()[x] == with_word_diffs(before)[x],
            forall|x: int| f <= x < n_files ==> #[trigger] file_diffs.deep_view()[x] == before[x],
        decreases n_files - f,
    {
        let n_hunks = file_diffs[f].hunks.len();
        let ghost files0 = file_diffs.deep_view();
        let mut h: usize = 0;
        while h < n_hunks
            invariant
                h <= n_hunks,
                f < n_files,
                file_diffs.len() == n_files,
                before.len() == n_files,
                files0.len() == n_files,
                files0[f as int] == before[f as int],
                file_diffs@[f as int].hunks.len() == n_hunks,
                before[f as int].hunks.len() == n_hunks,
                forall|x: int| 0 <= x < n_files && x != f ==> #[trigger] file_diffs.deep_view()[x] == files0[x],
                file_diffs.deep_view()[f as int].old_path == before[f as int].old_path,
                file_diffs.deep_view()[f as int].new_path == before[f as int].new_path,
                forall|y: int| 0 <= y < h ==> #[trigger] file_diffs.deep_view()[f as int].hunks[y] == with_word_diffs(before)[f as int].hunks[y],
                forall|y: int| h <= y < n_hunks ==> #[trigger] file_diffs.deep_view()[f as int].hunks[y] == before[f as int].hunks[y],
            decreases n_hunks - h,
        {
            let ghost cur = file_diffs.deep_view();
            annotate_lines(&mut file_diffs[f].hunks[h].lines);
            proof {
                let now = file_diffs.deep_view();
                assert(now.len() == n_files);
                assert forall|x: int| 0 <= x < n_files && x != f implies #[trigger] now[x] == files0[x] by {
                    assert(cur[x] == files0[x]);
                }
                assert forall|y: int| 0 <= y < h + 1 implies #[trigger] now[f as int].hunks[y] == with_word_diffs(before)[f as int].hunks[y] by {
                    if y < h {
                        assert(cur[f as int].hunks[y] == with_word_diffs(before)[f as int].hunks[y]);
                    } else {
                        assert(cur[f as int].hunks[y] == before[f as int].hunks[y]);
                    }
                }
                assert forall|y: int| h + 1 <= y < n_hunks implies #[trigger] now[f as int].hunks[y] == before[f as int].hunks[y] by {
                    assert(cur[f as int].hunks[y] == before[f as int].hunks[y]);
                }
            }
            h += 1;
        }
        proof {
            assert(file_diffs.deep_view()[f as int].hunks =~= with_word_diffs(before)[f as int].hunks);
        }
        f += 1;
    }
    assert(file_diffs.deep_view() =~= with_word_diffs(before));
}

/// Whether two lines are the same but for their word diffs.
pub open spec fn same_line(a: DiffLineView, b: DiffLineView) -> bool {
    a.kind == b.kind && a.content == b.content && a.old_lineno == b.old_lineno && a.new_lineno
        == b.new_lineno
}

proof fn lemma_annotated_from(lines: Seq<DiffLineView>, from: int)
    requires
        0 <= from,
    ensures
        annotated_from(lines, from).len() == lines.len(),
        forall|i: int|
            0 <= i < lines.len() ==> {
                &&& same_line(#[trigger] annotated_from(lines, from)[i], lines[i])
                &&& (i < from || lines[i].kind == DiffLineKind::Context
                    || lines[i].kind == DiffLineKind::FileHeader
                    || lines[i].kind == DiffLineKind::HunkHeader)
                    ==> annotated_from(lines, from)[i] == lines[i]
            },
    decreases lines.len() - from,
{
    if from >= lines.len() {
    } else if lines[from].kind != DiffLineKind::Deletion {
        lemma_annotated_from(lines, from + 1);
    } else {
        let del_end = run_end(lines, from, DiffLineKind::Deletion);
        lemma_run_end(lines, from, DiffLineKind::Deletion);
        let add_end = run_end(lines, del_end, DiffLineKind::Addition);
        lemma_run_end(lines, del_end, DiffLineKind::Addition);
        let pairs = if del_end - from <= add_end - del_end {
            del_end - from
        } else {
            add_end - del_end
        };
        let paired = pair_up(lines, from, del_end, pairs);
        lemma_run_end(lines, from + 1, DiffLineKind::Deletion);
        assert(from < del_end <= add_end <= lines.len());
        assert(paired.len() == lines.len());
        lemma_annotated_from(paired, add_end);
        lemma_runs_hold(lines, from, del_end, DiffLineKind::Deletion);
        lemma_runs_hold(lines, del_end, add_end, DiffLineKind::Addition);
        assert forall|i: int| 0 <= i < lines.len() implies {
            &&& same_line(#[trigger] annotated_from(lines, from)[i], lines[i])
            &&& (i < from || lines[i].kind == DiffLineKind::Context || lines[i].kind
                == DiffLineKind::FileHeader || lines[i].kind == DiffLineKind::HunkHeader)
                ==> annotated_from(lines, from)[i] == lines[i]
        } by {
            assert(same_line(annotated_from(paired, add_end)[i], paired[i]));
            assert(same_line(paired[i], lines[i]));
            if i < from {
                assert(paired[i] == lines[i]);
            } else if lines[i].kind != DiffLineKind::Deletion && lines[i].kind
                != DiffLineKind::Addition {
                if from <= i < del_end {
                    assert(lines[i].kind == DiffLineKind::Deletion);
                }
                if del_end <= i < add_end {
                    assert(lines[i].kind == DiffLineKind::Addition);
                }
                assert(paired[i] == lines[i]);
            }
        }
    }
}

proof fn lemma_runs_hold(lines: Seq<DiffLineView>, from: int, end: int, kind: DiffLineKind)
    requires
        0 <= from <= lines.len(),
        end == run_end(lines, from, kind),
    ensures
        forall|i: int| from <= i < end ==> (#[trigger] lines[i]).kind == kind,
    decreases lines.len() - from,
{
    if from < lines.len() && lines[from].kind == kind {
        lemma_runs_hold(lines, from + 1, end, kind);
    }
}

/// Word diffs change nothing else: a hunk with word diffs has the lines it
/// had, each of the kind, the content and the line numbers it had, and
/// every context line and header line is as it was.
pub proof fn lemma_word_diffs_keep_lines(lines: Seq<DiffLineView>)
    ensures
        annotated(lines).len() == lines.len(),
        forall|i: int|
            0 <= i < lines.len() ==> {
                &&& same_line(#[trigger] annotated(lines)[i], lines[i])
                &&& (lines[i].kind == DiffLineKind::Context || lines[i].kind
                    == DiffLineKind::FileHeader || lines[i].kind == DiffLineKind::HunkHeader)
                    ==> annotated(lines)[i] == lines[i]
            },
{
    lemma_annotated_from(lines, 0);
}

} // verus!
