//! The commit log: commits as values, the filter of a log query, and the
//! walk that pages through the commits that pass it.

use vstd::prelude::*;
use crate::git::graph::{build_graph, graph_rows};
use crate::git::types::{
    CommitInfo,
    CommitInfoView,
    CommitLogResult,
    CommitRef,
    LogFilter,
    RebaseAction,
    RebaseTodoEntry,
};
use crate::text::case::{lowercase, lowercase_chars};
use crate::text::convert::{chars_of, slice_chars, string_of};
use crate::text::search::{chars_contain, contains, find_char, find_from};
use crate::text::trim::{chars_trim, trim};

verus! {

/// The short form of a commit id: its first seven characters, or all of it
/// where it has fewer.
pub open spec fn short_form(oid: Seq<char>) -> Seq<char> {
    if oid.len() >= 7 {
        oid.subrange(0, 7)
    } else {
        oid
    }
}

/// The short form of a commit id.
pub fn short_oid(oid: &str) -> (out: String)
    ensures
        out@ == short_form(oid@),
{
    let chars = chars_of(oid);
    if chars.len() >= 7 {
        string_of(&slice_chars(&chars, 0, 7))
    } else {
        string_of(&chars)
    }
}

/// The subject of a commit message: its first line.
pub open spec fn subject_of(message: Seq<char>) -> Seq<char> {
    message.subrange(0, find_from(message, '\n', 0))
}

/// The body of a commit message: what follows the first line feed, without
/// the whitespace around it.
pub open spec fn body_of(message: Seq<char>) -> Seq<char> {
    let k = find_from(message, '\n', 0);
    if k < message.len() {
        trim(message.subrange(k + 1, message.len() as int))
    } else {
        Seq::empty()
    }
}

/// A commit as a value, from what the repository holds of it.
pub fn commit_to_info(
    oid: &str,
    message_full: &str,
    author_name: &str,
    author_email: &str,
    author_date: i64,
    parent_oids: Vec<String>,
    refs: Vec<CommitRef>,
) -> (info: CommitInfo)
    ensures
        info.deep_view() == (CommitInfoView {
            oid: oid@,
            short_oid: short_form(oid@),
            message: subject_of(message_full@),
            body: body_of(message_full@),
            author_name: author_name@,
            author_email: author_email@,
            author_date,
            parent_oids: parent_oids.deep_view(),
            refs: refs.deep_view(),
        }),
{
    let full = chars_of(message_full);
    let k = find_char(&full, '\n', 0);
    let message = string_of(&slice_chars(&full, 0, k));
    let body = if k < full.len() {
        let rest = slice_chars(&full, k + 1, full.len());
        string_of(&chars_trim(&rest))
    } else {
        String::new()
    };
    CommitInfo {
        oid: string_of(&chars_of(oid)),
        short_oid: short_oid(oid),
        message,
        body,
        author_name: string_of(&chars_of(author_name)),
        author_email: string_of(&chars_of(author_email)),
        author_date,
        parent_oids,
        refs,
    }
}

/// Whether `needle` occurs in `haystack` when both are put in lower case.
pub fn contains_ignoring_case(haystack: &str, needle: &str) -> (r: bool)
    ensures
        r == contains(lowercase(haystack@), lowercase(needle@)),
{
    let h = lowercase_chars(haystack);
    let n = lowercase_chars(needle);
    chars_contain(&h, &n)
}

/// Whether a commit passes the filter, given its author, its time and its
/// message, and whether it touches the path of the filter: the author's name
/// holds the filter's, both in lower case; the time lies between the bounds,
/// which belong to the range; the message holds the filter's, both in lower
/// case; and where the filter names a path, the commit touches it.
pub open spec fn passes_filter(
    author_name: Seq<char>,
    time: i64,
    message: Seq<char>,
    touches_path: bool,
    filter: LogFilter,
) -> bool {
    &&& filter.author matches Some(a) ==> contains(lowercase(author_name), lowercase(a@))
    &&& filter.since matches Some(since) ==> time >= since
    &&& filter.until matches Some(until) ==> time <= until
    &&& filter.message matches Some(m) ==> contains(lowercase(message), lowercase(m@))
    &&& filter.path is Some ==> touches_path
}

/// Whether the filter names a path, so that the caller has to find out
/// whether the commit touches it.
pub fn needs_path_check(filter: &LogFilter) -> (r: bool)
    ensures
        r == filter.path is Some,
{
    filter.path.is_some()
}

/// Whether a commit passes the filter of a log query.
pub fn matches_filter(
    author_name: &str,
    time: i64,
    message: &str,
    touches_path: bool,
    filter: &LogFilter,
) -> (r: bool)
    ensures
        r == passes_filter(author_name@, time, message@, touches_path, *filter),
{
    if let Some(author) = &filter.author {
        if !contains_ignoring_case(author_name, author.as_str()) {
            return false;
        }
    }
    if let Some(since) = filter.since {
        if time < since {
            return false;
        }
    }
    if let Some(until) = filter.until {
        if time > until {
            return false;
        }
    }
    if let Some(msg) = &filter.message {
        if !contains_ignoring_case(message, msg.as_str()) {
            return false;
        }
    }
    if filter.path.is_some() {
        if !touches_path {
            return false;
        }
    }
    true
}

/// What the walk does with the next commit.
#[derive(Debug, Clone, Copy, PartialEq, Eq, Structural)]
pub enum WalkStep {
    /// The commit does not pass the filter: go on.
    Pass,
    /// The commit belongs to the pages before: count it and go on.
    Skip,
    /// The commit belongs to the page: take it and go on.
    Take,
    /// The commit belongs to the page and fills it: take it and stop.
    TakeLast,
}

/// The step of the walk for a commit, given whether it passes the filter,
/// how many were skipped and taken so far, and how many are to be skipped
/// and taken. A commit is taken before the limit is looked at, so a page is
/// never empty where a commit is left for it.
pub open spec fn walk_policy(
    passes: bool,
    skipped: usize,
    skip: usize,
    taken: usize,
    limit: usize,
) -> WalkStep {
    if !passes {
        WalkStep::Pass
    } else if skipped < skip {
        WalkStep::Skip
    } else if taken + 1 >= limit {
        WalkStep::TakeLast
    } else {
        WalkStep::Take
    }
}

/// Decides what the walk does with the next commit.
pub fn walk_step(passes: bool, skipped: usize, skip: usize, taken: usize, limit: usize) -> (step:
    WalkStep)
    ensures
        step == walk_policy(passes, skipped, skip, taken, limit),
{
    if !passes {
        WalkStep::Pass
    } else if skipped < skip {
        WalkStep::Skip
    } else if taken >= limit || taken + 1 >= limit {
        WalkStep::TakeLast
    } else {
        WalkStep::Take
    }
}

/// The log for the commits of one page: the commits, and the graph laid out
/// for them.
pub fn get_commit_log(commits: Vec<CommitInfo>) -> (log: CommitLogResult)
    ensures
        log.commits == commits,
        log.graph.deep_view() == graph_rows(commits.deep_view()),
{
    let graph = build_graph(&commits);
    CommitLogResult { commits, graph }
}

/// The entry of a rebase plan for a commit: picked, until the user says
/// otherwise.
pub fn todo_entry(oid: &str, summary: &str, author_name: &str) -> (entry: RebaseTodoEntry)
    ensures
        entry.action == RebaseAction::Pick,
        entry.oid@ == oid@,
        entry.short_oid@ == short_form(oid@),
        entry.message@ == summary@,
        entry.author_name@ == author_name@,
{
    RebaseTodoEntry {
        action: RebaseAction::Pick,
        oid: string_of(&chars_of(oid)),
        short_oid: short_oid(oid),
        message: string_of(&chars_of(summary)),
        author_name: string_of(&chars_of(author_name)),
    }
}

} // verus!
