//! Stashes: the branch that a stash was made on, read from its message.

use vstd::prelude::*;
use crate::git::types::StashEntry;
use crate::text::convert::{chars_of, slice_chars, string_of};
use crate::text::search::{find_char, find_from, starts_with, starts_with_str};

verus! {

/// What stands between the prefix and the first colon after it, where the
/// message begins with the prefix and holds a colon after it.
pub open spec fn name_after(message: Seq<char>, prefix: Seq<char>) -> Option<Seq<char>> {
    if starts_with(message, prefix) {
        let colon = find_from(message, ':', prefix.len() as int);
        if colon < message.len() {
            Some(message.subrange(prefix.len() as int, colon))
        } else {
            None
        }
    } else {
        None
    }
}

/// The branch named in a stash message of the form `WIP on <branch>: ...` or
/// `On <branch>: ...`, or nothing where the message has neither form.
pub open spec fn stash_branch(message: Seq<char>) -> Seq<char> {
    match name_after(message, "WIP on "@) {
        Some(name) => name,
        None => match name_after(message, "On "@) {
            Some(name) => name,
            None => Seq::empty(),
        },
    }
}

fn branch_after(message: &Vec<char>, prefix: &str) -> (r: Option<Vec<char>>)
    ensures
        match r {
            Some(name) => name_after(message@, prefix@) == Some(name@),
            None => name_after(message@, prefix@) is None,
        },
{
    if starts_with_str(message, prefix) {
        let p = chars_of(prefix);
        let colon = find_char(message, ':', p.len());
        if colon < message.len() {
            return Some(slice_chars(message, p.len(), colon));
        }
    }
    None
}

/// Reads the branch that a stash was made on from its message.
pub fn parse_stash_branch_name(message: &str) -> (out: String)
    ensures
        out@ == stash_branch(message@),
{
    let chars = chars_of(message);
    match branch_after(&chars, "WIP on ") {
        Some(name) => string_of(&name),
        None => match branch_after(&chars, "On ") {
            Some(name) => string_of(&name),
            None => String::new(),
        },
    }
}

/// A stash as a value: its place in the list, its message, the branch it
/// was made on, and its date where the reflog gives one, else 0.
pub fn stash_entry(index: usize, message: &str, date: Option<i64>) -> (entry: StashEntry)
    ensures
        entry.index == index,
        entry.message@ == message@,
        entry.branch_name@ == stash_branch(message@),
        entry.author_date == match date {
            Some(d) => d,
            None => 0,
        },
{
    StashEntry {
        index,
        message: string_of(&chars_of(message)),
        branch_name: parse_stash_branch_name(message),
        author_date: match date {
            Some(d) => d,
            None => 0,
        },
    }
}

} // verus!
