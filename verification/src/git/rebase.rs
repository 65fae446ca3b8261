//! Rebase: the plan handed to the sequencer, what its outcome means, and
//! the state of a rebase in progress as its files record it.

use vstd::prelude::*;
use crate::git::error::GitError;
use crate::git::types::{RebaseAction, RebaseResult, RebaseState, RebaseTodoEntry};
use crate::text::convert::{chars_of, push_chars, push_str, slice_chars, string_of};
use crate::text::lines::{lines, split_lines, texts};
use crate::text::number::{parse_unsigned, parse_usize};
use crate::text::search::{contains, contains_str, starts_with, starts_with_str};
use crate::text::trim::{chars_trim, trim};

verus! {

/// The word of the sequencer for an action.
pub open spec fn action_word(action: RebaseAction) -> Seq<char> {
    match action {
        RebaseAction::Pick => "pick"@,
        RebaseAction::Reword => "reword"@,
        RebaseAction::Edit => "edit"@,
        RebaseAction::Squash => "squash"@,
        RebaseAction::Fixup => "fixup"@,
        RebaseAction::Drop => "drop"@,
    }
}

/// The line of the plan for one entry: the action, the short id, the
/// message, with a space between them.
pub open spec fn todo_line(entry: RebaseTodoEntry) -> Seq<char> {
    action_word(entry.action) + " "@ + entry.short_oid@ + " "@ + entry.message@
}

/// The lines of the first `n` entries with a line feed between them.
pub open spec fn todo_text(todo: Seq<RebaseTodoEntry>, n: int) -> Seq<char>
    decreases n,
{
    if n <= 0 || n > todo.len() {
        Seq::empty()
    } else if n == 1 {
        todo_line(todo[0])
    } else {
        todo_text(todo, n - 1) + "\n"@ + todo_line(todo[n - 1])
    }
}

/// The plan of an interactive rebase as the sequencer reads it.
pub fn format_rebase_todo(todo: &Vec<RebaseTodoEntry>) -> (out: String)
    ensures
        out@ == todo_text(todo@, todo.len() as int),
{
    let mut text: Vec<char> = Vec::new();
    let mut i: usize = 0;
    while i < todo.len()
        invariant
            i <= todo.len(),
            text@ == todo_text(todo@, i as int),
        decreases todo.len() - i,
    {
        let entry = &todo[i];
        let ghost before = text@;
        if i > 0 {
            push_str(&mut text, "\n");
        }
        match entry.action {
            RebaseAction::Pick => push_str(&mut text, "pick"),
            RebaseAction::Reword => push_str(&mut text, "reword"),
            RebaseAction::Edit => push_str(&mut text, "edit"),
            RebaseAction::Squash => push_str(&mut text, "squash"),
            RebaseAction::Fixup => push_str(&mut text, "fixup"),
            RebaseAction::Drop => push_str(&mut text, "drop"),
        }
        push_str(&mut text, " ");
        push_str(&mut text, entry.short_oid.as_str());
        push_str(&mut text, " ");
        push_str(&mut text, entry.message.as_str());
        proof {
            if i == 0 {
                assert(text@ =~= todo_line(todo@[0]));
            } else {
                assert(text@ =~= before + "\n"@ + todo_line(todo@[i as int]));
            }
        }
        i += 1;
    }
    string_of(&text)
}

/// The first `n` characters of a path with every single quote written so
/// that it can stand between single quotes of a shell.
pub open spec fn shell_quoted(path: Seq<char>, n: int) -> Seq<char>
    decreases n,
{
    if n <= 0 || n > path.len() {
        Seq::empty()
    } else if path[n - 1] == '\'' {
        shell_quoted(path, n - 1) + "'\\''"@
    } else {
        shell_quoted(path, n - 1).push(path[n - 1])
    }
}

/// The command that, run as the editor of the sequencer, puts the plan
/// stored at `path` in the place of the sequencer's own.
pub open spec fn editor_script_text(path: Seq<char>) -> Seq<char> {
    "cat '"@ + shell_quoted(path, path.len() as int) + "' > \"$1\""@
}

/// The command that hands the stored plan to the sequencer.
pub fn sequence_editor_script(path: &str) -> (out: String)
    ensures
        out@ == editor_script_text(path@),
{
    let chars = chars_of(path);
    let mut text: Vec<char> = Vec::new();
    push_str(&mut text, "cat '");
    let ghost head = text@;
    let mut i: usize = 0;
    assert(text@ =~= head + shell_quoted(chars@, 0));
    while i < chars.len()
        invariant
            i <= chars.len(),
            text@ == head + shell_quoted(chars@, i as int),
        decreases chars.len() - i,
    {
        if chars[i] == '\'' {
            push_str(&mut text, "'\\''");
            assert(text@ =~= head + shell_quoted(chars@, i + 1));
        } else {
            text.push(chars[i]);
            assert(text@ =~= head + shell_quoted(chars@, i + 1));
        }
        i += 1;
    }
    push_str(&mut text, "' > \"$1\"");
    assert(text@ =~= editor_script_text(path@));
    string_of(&text)
}

/// Whether what a rebase wrote to the error stream tells of a stop at
/// conflicts. An interactive rebase also stops where the plan says so.
pub open spec fn tells_of_conflict(stderr: Seq<char>, interactive: bool) -> bool {
    contains(stderr, "CONFLICT"@) || contains(stderr, "conflict"@) || (interactive && contains(
        stderr,
        "Stopped at"@,
    ))
}

/// What the run of a rebase came to.
#[derive(Debug, Clone)]
pub enum RebaseOutcome {
    /// The rebase went through: this is the result.
    Completed(RebaseResult),
    /// The rebase stopped: collect the conflicted paths and hand back
    /// `stopped_result`.
    Stopped,
    /// The rebase failed with this error.
    Failed(GitError),
}

/// Reads the outcome of a rebase from its exit status and its error stream.
pub fn rebase_outcome(success: bool, stderr: &str, interactive: bool) -> (o: RebaseOutcome)
    ensures
        success ==> (o matches RebaseOutcome::Completed(r) && r.completed && r.conflicts@.len()
            == 0),
        !success && tells_of_conflict(stderr@, interactive) ==> o is Stopped,
        !success && !tells_of_conflict(stderr@, interactive) ==> (o matches RebaseOutcome::Failed(
            e,
        ) && e is RebaseFailed && e.detail() == stderr@),
{
    if success {
        return RebaseOutcome::Completed(RebaseResult { completed: true, conflicts: Vec::new() });
    }
    let chars = chars_of(stderr);
    if contains_str(&chars, "CONFLICT") || contains_str(&chars, "conflict") || (interactive
        && contains_str(&chars, "Stopped at")) {
        RebaseOutcome::Stopped
    } else {
        RebaseOutcome::Failed(GitError::RebaseFailed(string_of(&chars)))
    }
}

/// The result of a rebase that stopped at conflicts in the given paths.
pub fn stopped_result(conflicts: Vec<String>) -> (r: RebaseResult)
    ensures
        !r.completed,
        r.conflicts == conflicts,
{
    RebaseResult { completed: false, conflicts }
}

/// The error of a command of a rebase that failed, with what it wrote to
/// the error stream as the cause.
pub fn rebase_failure(stderr: &str) -> (e: GitError)
    ensures
        e is RebaseFailed,
        e.detail() == stderr@,
{
    GitError::RebaseFailed(string_of(&chars_of(stderr)))
}

/// The lines among the first `n` that are not empty.
pub open spec fn nonempty(ls: Seq<Seq<char>>, n: int) -> Seq<Seq<char>>
    decreases n,
{
    if n <= 0 || n > ls.len() {
        Seq::empty()
    } else if ls[n - 1].len() > 0 {
        nonempty(ls, n - 1).push(ls[n - 1])
    } else {
        nonempty(ls, n - 1)
    }
}

/// The paths that a listing names, one on each line that is not empty.
pub fn collect_conflict_paths_from_output(stdout: &str) -> (paths: Vec<String>)
    ensures
        paths.deep_view() == nonempty(lines(stdout@), lines(stdout@).len() as int),
{
    let ls = split_lines(&chars_of(stdout));
    let ghost tl = texts(ls@);
    let mut paths: Vec<String> = Vec::new();
    let mut i: usize = 0;
    assert(paths.deep_view() =~= Seq::<Seq<char>>::empty());
    while i < ls.len()
        invariant
            i <= ls.len(),
            tl == texts(ls@),
            paths.deep_view() == nonempty(tl, i as int),
        decreases ls.len() - i,
    {
        if ls[i].len() > 0 {
            let ghost before = paths.deep_view();
            paths.push(string_of(&ls[i]));
            assert(paths.deep_view() =~= before.push(tl[i as int]));
        }
        i += 1;
    }
    paths
}

/// `s` without the prefix `p`, as often as it begins with it.
pub open spec fn without_leading(s: Seq<char>, p: Seq<char>) -> Seq<char>
    decreases s.len(),
{
    if p.len() > 0 && starts_with(s, p) {
        without_leading(s.subrange(p.len() as int, s.len() as int), p)
    } else {
        s
    }
}

/// The number written in `text` without the whitespace around it, or 0
/// where the text is missing or holds no number.
pub open spec fn step_number(text: Option<Seq<char>>) -> usize {
    match text {
        Some(t) => match parse_unsigned(trim(t), usize::MAX as nat) {
            Some(n) => n as usize,
            None => 0,
        },
        None => 0,
    }
}

/// The commit that a rebase goes onto: the recorded id without the
/// whitespace around it, or nothing where none is recorded.
pub open spec fn onto_oid_text(onto: Option<Seq<char>>) -> Seq<char> {
    match onto {
        Some(t) => trim(t),
        None => Seq::empty(),
    }
}

/// The branch that a rebase goes onto: the recorded name, or the id where
/// no name is recorded, without the whitespace around it and without
/// `refs/heads/` before it.
pub open spec fn onto_branch_text(onto: Option<Seq<char>>, onto_name: Option<Seq<char>>) -> Seq<
    char,
> {
    without_leading(
        trim(
            match onto_name {
                Some(name) => name,
                None => onto_oid_text(onto),
            },
        ),
        "refs/heads/"@,
    )
}

/// The text of a string slice that may be missing.
pub open spec fn text_of(s: Option<&str>) -> Option<Seq<char>> {
    match s {
        Some(t) => Some(t@),
        None => None,
    }
}

fn read_step(text: Option<&str>) -> (n: usize)
    ensures
        n == step_number(text_of(text)),
{
    match text {
        Some(t) => match parse_usize(&chars_trim(&chars_of(t))) {
            Some(n) => n,
            None => 0,
        },
        None => 0,
    }
}

/// The state of a rebase in progress, from what its files hold: the commit
/// and the branch it goes onto, the number of the current step and of the
/// last one, and whether the index holds conflicts.
pub fn get_rebase_state(
    onto: Option<&str>,
    onto_name: Option<&str>,
    msgnum: Option<&str>,
    end: Option<&str>,
    has_conflicts: bool,
) -> (state: RebaseState)
    ensures
        state.onto_oid@ == onto_oid_text(text_of(onto)),
        state.onto_branch@ == onto_branch_text(text_of(onto), text_of(onto_name)),
        state.current_step == step_number(text_of(msgnum)),
        state.total_steps == step_number(text_of(end)),
        state.has_conflicts == has_conflicts,
{
    let onto_oid: Vec<char> = match onto {
        Some(t) => chars_trim(&chars_of(t)),
        None => Vec::new(),
    };
    let named: Vec<char> = match onto_name {
        Some(name) => chars_of(name),
        None => {
            let mut copy: Vec<char> = Vec::new();
            push_chars(&mut copy, &onto_oid);
            copy
        },
    };
    let mut branch = chars_trim(&named);
    let ghost trimmed = branch@;
    let prefix = chars_of("refs/heads/");
    while prefix.len() > 0 && starts_with_str(&branch, "refs/heads/")
        invariant
            prefix@ == "refs/heads/"@,
            without_leading(trimmed, "refs/heads/"@) == without_leading(branch@, "refs/heads/"@),
        decreases branch.len(),
    {
        branch = slice_chars(&branch, prefix.len(), branch.len());
    }
    RebaseState {
        onto_branch: string_of(&branch),
        onto_oid: string_of(&onto_oid),
        current_step: read_step(msgnum),
        total_steps: read_step(end),
        has_conflicts,
    }
}

} // verus!
