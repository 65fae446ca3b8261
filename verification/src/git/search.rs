//! Search: reading what the search commands print, and matching file names
//! loosely.

use vstd::prelude::*;
use crate::git::error::GitError;
use crate::text::case::{lowercase, lowercase_chars};
use crate::text::convert::{chars_of, slice_chars, string_of};
use crate::text::lines::{lines, split_lines, texts};
use crate::text::number::{parse_i64, parse_signed, parse_u32, parse_unsigned};
use crate::text::search::{chars_contain, contains, find_char, find_from};

verus! {

/// A line of a file that matches a code search.
#[derive(Debug, Clone)]
pub struct CodeSearchResult {
    pub file: String,
    pub line_number: u32,
    pub content: String,
}

/// A commit that matches a commit search.
#[derive(Debug, Clone)]
pub struct CommitSearchResult {
    pub oid: String,
    pub short_oid: String,
    pub message: String,
    pub author_name: String,
    pub author_date: i64,
}

/// A file whose name matches a search.
#[derive(Debug, Clone)]
pub struct FilenameSearchResult {
    pub path: String,
}

/// A match of a code search, as values.
pub struct CodeSearchResultView {
    pub file: Seq<char>,
    pub line_number: u32,
    pub content: Seq<char>,
}

/// A match of a commit search, as values.
pub struct CommitSearchResultView {
    pub oid: Seq<char>,
    pub short_oid: Seq<char>,
    pub message: Seq<char>,
    pub author_name: Seq<char>,
    pub author_date: i64,
}

impl DeepView for CodeSearchResult {
    type V = CodeSearchResultView;

    open spec fn deep_view(&self) -> CodeSearchResultView {
        CodeSearchResultView {
            file: self.file@,
            line_number: self.line_number,
            content: self.content@,
        }
    }
}

impl DeepView for CommitSearchResult {
    type V = CommitSearchResultView;

    open spec fn deep_view(&self) -> CommitSearchResultView {
        CommitSearchResultView {
            oid: self.oid@,
            short_oid: self.short_oid@,
            message: self.message@,
            author_name: self.author_name@,
            author_date: self.author_date,
        }
    }
}

/// The match that one printed line of the form `file:number:content` tells
/// of, if it has this form and the number fits in 32 bits.
pub open spec fn grep_line(line: Seq<char>) -> Option<CodeSearchResultView> {
    let first = find_from(line, ':', 0);
    let second = find_from(line, ':', first + 1);
    if first < line.len() && second < line.len() {
        match parse_unsigned(line.subrange(first + 1, second), u32::MAX as nat) {
            Some(n) => Some(
                CodeSearchResultView {
                    file: line.subrange(0, first),
                    line_number: n as u32,
                    content: line.subrange(second + 1, line.len() as int),
                },
            ),
            None => None,
        }
    } else {
        None
    }
}

/// The matches that the first `n` lines tell of.
pub open spec fn grep_results(ls: Seq<Seq<char>>, n: int) -> Seq<CodeSearchResultView>
    decreases n,
{
    if n <= 0 || n > ls.len() {
        Seq::empty()
    } else {
        match grep_line(ls[n - 1]) {
            Some(r) => grep_results(ls, n - 1).push(r),
            None => grep_results(ls, n - 1),
        }
    }
}

fn parse_grep_line(line: &Vec<char>) -> (r: Option<CodeSearchResult>)
    ensures
        r.deep_view() == grep_line(line@),
{
    let first = find_char(line, ':', 0);
    if first >= line.len() {
        return None;
    }
    let second = find_char(line, ':', first + 1);
    if second >= line.len() {
        return None;
    }
    let number = slice_chars(line, first + 1, second);
    match parse_u32(&number) {
        Some(n) => Some(
            CodeSearchResult {
                file: string_of(&slice_chars(line, 0, first)),
                line_number: n,
                content: string_of(&slice_chars(line, second + 1, line.len())),
            },
        ),
        None => None,
    }
}

/// The matches that a code search printed. Lines that are not of the form
/// `file:number:content` are passed over.
pub fn parse_grep_output(output: &str) -> (results: Vec<CodeSearchResult>)
    ensures
        results.deep_view() == grep_results(lines(output@), lines(output@).len() as int),
{
    let ls = split_lines(&chars_of(output));
    let ghost tl = texts(ls@);
    let mut results: Vec<CodeSearchResult> = Vec::new();
    let mut i: usize = 0;
    assert(results.deep_view() =~= Seq::<CodeSearchResultView>::empty());
    while i < ls.len()
        invariant
            i <= ls.len(),
            tl == texts(ls@),
            results.deep_view() == grep_results(tl, i as int),
        decreases ls.len() - i,
    {
        let ghost before = results.deep_view();
        match parse_grep_line(&ls[i]) {
            Some(r) => {
                results.push(r);
                assert(results.deep_view() =~= before.push(r.deep_view()));
            },
            None => {},
        }
        i += 1;
    }
    results
}

/// The commits that the lines from index `from` on tell of, five lines for
/// each commit: id, short id, message, author, date. A group whose date is
/// no number is passed over, and so are the lines left at the end that make
/// no whole group.
pub open spec fn log_results(ls: Seq<Seq<char>>, from: int) -> Seq<CommitSearchResultView>
    decreases ls.len() - from,
{
    if from < 0 || from + 4 >= ls.len() {
        Seq::empty()
    } else {
        match parse_signed(ls[from + 4], i64::MIN as int, i64::MAX as int) {
            Some(date) => seq![
                CommitSearchResultView {
                    oid: ls[from],
                    short_oid: ls[from + 1],
                    message: ls[from + 2],
                    author_name: ls[from + 3],
                    author_date: date as i64,
                },
            ] + log_results(ls, from + 5),
            None => log_results(ls, from + 5),
        }
    }
}

/// The commits that a commit search printed.
pub fn parse_commit_log_output(output: &str) -> (results: Vec<CommitSearchResult>)
    ensures
        results.deep_view() == log_results(lines(output@), 0),
{
    let ls = split_lines(&chars_of(output));
    let ghost tl = texts(ls@);
    let mut results: Vec<CommitSearchResult> = Vec::new();
    let mut i: usize = 0;
    assert(results.deep_view() =~= Seq::<CommitSearchResultView>::empty());
    while ls.len() >= 5 && i < ls.len() - 4
        invariant
            i <= ls.len(),
            tl == texts(ls@),
            log_results(tl, 0) == results.deep_view() + log_results(tl, i as int),
        decreases ls.len() - i,
    {
        let ghost before = results.deep_view();
        match parse_i64(&ls[i + 4]) {
            Some(author_date) => {
                let r = CommitSearchResult {
                    oid: string_of(&ls[i]),
                    short_oid: string_of(&ls[i + 1]),
                    message: string_of(&ls[i + 2]),
                    author_name: string_of(&ls[i + 3]),
                    author_date,
                };
                results.push(r);
                proof {
                    assert(results.deep_view() =~= before.push(r.deep_view()));
                    assert(before + (seq![r.deep_view()] + log_results(tl, i + 5)) =~= before.push(
                        r.deep_view(),
                    ) + log_results(tl, i + 5));
                }
            },
            None => {},
        }
        if i + 5 > ls.len() {
            proof {
                assert(log_results(tl, i + 5) =~= Seq::<CommitSearchResultView>::empty());
                assert(log_results(tl, ls.len() as int) =~= Seq::<CommitSearchResultView>::empty());
            }
            i = ls.len();
        } else {
            i += 5;
        }
    }
    proof {
        assert(log_results(tl, i as int) =~= Seq::<CommitSearchResultView>::empty());
        assert(results.deep_view() + Seq::<CommitSearchResultView>::empty()
            =~= results.deep_view());
    }
    results
}

/// Whether the characters of `query` occur in `path`, from index `from` on,
/// in their order, with anything between them.
pub open spec fn is_subsequence(query: Seq<char>, path: Seq<char>, from: int) -> bool
    decreases path.len() - from,
{
    if query.len() == 0 {
        true
    } else if from < 0 || from >= path.len() {
        false
    } else if path[from] == query[0] {
        is_subsequence(query.drop_first(), path, from + 1)
    } else {
        is_subsequence(query, path, from + 1)
    }
}

/// Whether a path in lower case matches a query: the query occurs in it as
/// it is, or its characters occur in it in their order. A path without
/// characters matches no query but the empty one.
pub open spec fn matches_loosely(path_lower: Seq<char>, query: Seq<char>) -> bool {
    contains(path_lower, query) || (path_lower.len() > 0 && is_subsequence(query, path_lower, 0))
}

/// Whether a path in lower case matches a query.
pub fn fuzzy_match_lowered(path_lower: &Vec<char>, query: &Vec<char>) -> (r: bool)
    ensures
        r == matches_loosely(path_lower@, query@),
{
    if chars_contain(path_lower, query) {
        return true;
    }
    let mut matched: usize = 0;
    let mut i: usize = 0;
    proof {
        assert(query@.subrange(0, query.len() as int) =~= query@);
    }
    while i < path_lower.len()
        invariant
            i <= path_lower.len(),
            matched <= query.len(),
            i > 0 ==> matched < query.len(),
            is_subsequence(query@, path_lower@, 0) == is_subsequence(
                query@.subrange(matched as int, query.len() as int),
                path_lower@,
                i as int,
            ),
        decreases path_lower.len() - i,
    {
        let ghost rest = query@.subrange(matched as int, query.len() as int);
        if matched < query.len() && query[matched] == path_lower[i] {
            proof {
                assert(rest[0] == query@[matched as int]);
                assert(rest.drop_first() =~= query@.subrange(matched + 1, query.len() as int));
            }
            matched += 1;
        } else {
            proof {
                if matched < query.len() {
                    assert(rest[0] == query@[matched as int]);
                }
            }
        }
        proof {
            let now = query@.subrange(matched as int, query.len() as int);
            assert(is_subsequence(rest, path_lower@, i as int) == is_subsequence(
                now,
                path_lower@,
                i + 1,
            )) by {
                if rest.len() == 0 {
                    assert(now =~= rest);
                }
            }
        }
        if matched == query.len() {
            proof {
                assert(query@.subrange(matched as int, query.len() as int).len() == 0);
            }
            return true;
        }
        i += 1;
    }
    proof {
        if path_lower.len() == 0 {
        } else {
            assert(query@.subrange(matched as int, query.len() as int).len() > 0);
        }
    }
    false
}

/// Whether a path matches a query that is in lower case already: the path
/// is put in lower case and then matched loosely.
pub fn fuzzy_match(path: &str, query: &str) -> (r: bool)
    ensures
        r == matches_loosely(lowercase(path@), query@),
{
    let path_lower = lowercase_chars(path);
    let q = chars_of(query);
    fuzzy_match_lowered(&path_lower, &q)
}

/// The lines among the first `n` that match the query loosely once they
/// are put in lower case.
pub open spec fn matching_lines(ls: Seq<Seq<char>>, query: Seq<char>, n: int) -> Seq<Seq<char>>
    decreases n,
{
    if n <= 0 || n > ls.len() {
        Seq::empty()
    } else if matches_loosely(lowercase(ls[n - 1]), query) {
        matching_lines(ls, query, n - 1).push(ls[n - 1])
    } else {
        matching_lines(ls, query, n - 1)
    }
}

proof fn lemma_matching_lines_grow(ls: Seq<Seq<char>>, query: Seq<char>, i: int, n: int)
    requires
        0 <= i <= n <= ls.len(),
    ensures
        matching_lines(ls, query, i).len() <= matching_lines(ls, query, n).len(),
        matching_lines(ls, query, n).take(matching_lines(ls, query, i).len() as int)
            == matching_lines(ls, query, i),
    decreases n - i,
{
    if i == n {
        assert(matching_lines(ls, query, n).take(matching_lines(ls, query, n).len() as int)
            =~= matching_lines(ls, query, n));
    } else {
        lemma_matching_lines_grow(ls, query, i, n - 1);
        let short = matching_lines(ls, query, i);
        let before = matching_lines(ls, query, n - 1);
        assert(matching_lines(ls, query, n).take(short.len() as int) =~= before.take(
            short.len() as int,
        ));
    }
}

/// The most file names that a search hands back.
pub const MAX_FILENAME_RESULTS: usize = 100;

/// The first hundred of the listed file names that match the query loosely.
/// The query is put in lower case first.
pub open spec fn filename_results(listing: Seq<char>, query: Seq<char>) -> Seq<Seq<char>> {
    let all = matching_lines(lines(listing), lowercase(query), lines(listing).len() as int);
    if all.len() <= 100 {
        all
    } else {
        all.take(100)
    }
}

/// The paths of the results.
pub open spec fn result_paths(results: Seq<FilenameSearchResult>) -> Seq<Seq<char>> {
    Seq::new(results.len(), |i: int| results[i].path@)
}

/// The file names of a listing, one on each line, that match the query.
pub fn search_filenames(listing: &str, query: &str) -> (results: Vec<FilenameSearchResult>)
    ensures
        query@.len() == 0 ==> results@.len() == 0,
        query@.len() > 0 ==> result_paths(results@) == filename_results(listing@, query@),
{
    let mut results: Vec<FilenameSearchResult> = Vec::new();
    if chars_of(query).len() == 0 {
        return results;
    }
    let ls = split_lines(&chars_of(listing));
    let ghost tl = texts(ls@);
    let query_lower = lowercase_chars(query);
    let mut i: usize = 0;
    assert(result_paths(results@) =~= Seq::<Seq<char>>::empty());
    while i < ls.len() && results.len() < MAX_FILENAME_RESULTS
        invariant
            i <= ls.len(),
            tl == texts(ls@),
            query_lower@ == lowercase(query@),
            results.len() <= 100,
            result_paths(results@) == matching_lines(tl, query_lower@, i as int),
        decreases ls.len() - i,
    {
        let line = string_of(&ls[i]);
        let lowered = lowercase_chars(line.as_str());
        if fuzzy_match_lowered(&lowered, &query_lower) {
            let ghost before = result_paths(results@);
            results.push(FilenameSearchResult { path: line });
            assert(result_paths(results@) =~= before.push(tl[i as int]));
        }
        i += 1;
    }
    proof {
        lemma_matching_lines_grow(tl, query_lower@, i as int, ls.len() as int);
        let all = matching_lines(tl, query_lower@, ls.len() as int);
        if i < ls.len() {
            assert(all.take(100) == result_paths(results@));
        }
    }
    results
}

/// The error of a search command that failed, with what it wrote to the
/// error stream as the cause.
pub fn search_failure(stderr: &str) -> (e: GitError)
    ensures
        e is SearchFailed,
        e.detail() == stderr@,
{
    GitError::SearchFailed(string_of(&chars_of(stderr)))
}

/// What a code search came to: the matches it printed; none where it ended
/// with status 1, which says that nothing matched; else its failure.
pub fn search_code(success: bool, exit_code: Option<i32>, stdout: &str, stderr: &str) -> (r: Result<
    Vec<CodeSearchResult>,
    GitError,
>)
    ensures
        success ==> (r matches Ok(found) && found.deep_view() == grep_results(
            lines(stdout@),
            lines(stdout@).len() as int,
        )),
        !success && exit_code == Some(1i32) ==> (r matches Ok(found) && found@.len() == 0),
        !success && exit_code != Some(1i32) ==> (r matches Err(e) && e is SearchFailed
            && e.detail() == stderr@),
{
    if !success {
        if let Some(code) = exit_code {
            if code == 1 {
                return Ok(Vec::new());
            }
        }
        return Err(search_failure(stderr));
    }
    Ok(parse_grep_output(stdout))
}

/// What a commit search came to: the commits it printed, or its failure.
pub fn search_commits(success: bool, stdout: &str, stderr: &str) -> (r: Result<
    Vec<CommitSearchResult>,
    GitError,
>)
    ensures
        success ==> (r matches Ok(found) && found.deep_view() == log_results(lines(stdout@), 0)),
        !success ==> (r matches Err(e) && e is SearchFailed && e.detail() == stderr@),
{
    if !success {
        return Err(search_failure(stderr));
    }
    Ok(parse_commit_log_output(stdout))
}

} // verus!
