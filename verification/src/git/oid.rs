//! Commit ids as text: telling a well-formed id from the rest.

use vstd::prelude::*;
use crate::git::error::GitError;
use crate::text::convert::{chars_of, string_of};

verus! {

/// A hexadecimal digit, in either case.
pub open spec fn is_hex_digit(c: char) -> bool {
    ('0' <= c <= '9') || ('a' <= c <= 'f') || ('A' <= c <= 'F')
}

/// A hexadecimal digit in lower case.
pub open spec fn lower_hex(c: char) -> char {
    if c == 'A' {
        'a'
    } else if c == 'B' {
        'b'
    } else if c == 'C' {
        'c'
    } else if c == 'D' {
        'd'
    } else if c == 'E' {
        'e'
    } else if c == 'F' {
        'f'
    } else {
        c
    }
}

/// The full form of an id given by its first hexadecimal digits: forty
/// digits in lower case, with zeros where none were given. A text is an id
/// where it has from one to forty characters and all are hexadecimal
/// digits.
pub open spec fn full_oid(hex: Seq<char>) -> Option<Seq<char>> {
    if 1 <= hex.len() <= 40 && (forall|i: int| 0 <= i < hex.len() ==> is_hex_digit(#[trigger] hex[i])) {
        Some(
            Seq::new(
                40,
                |i: int|
                    if i < hex.len() {
                        lower_hex(hex[i])
                    } else {
                        '0'
                    },
            ),
        )
    } else {
        None
    }
}

/// `git2::Oid::from_str` reads a text of one to forty hexadecimal digits as
/// an id, filled up with zeros, and fails on any other text; the id is
/// handed back as `Oid::to_string` writes it, in forty digits in lower case.
#[verifier::external_body]
fn oid_from_str(hex: &str) -> (r: Option<String>)
    ensures
        r.deep_view() == full_oid(hex@),
{
    git2::Oid::from_str(hex).ok().map(|oid| oid.to_string())
}

/// The full form of the id of a commit that is asked for, or the refusal of
/// a text that is no id.
pub fn parse_commit_oid(oid: &str) -> (r: Result<String, GitError>)
    ensures
        match r {
            Ok(full) => full_oid(oid@) == Some(full@),
            Err(e) => full_oid(oid@) is None && e is CommitNotFound && e.detail() == oid@,
        },
{
    match oid_from_str(oid) {
        Some(full) => Ok(full),
        None => Err(GitError::CommitNotFound { oid: string_of(&chars_of(oid)) }),
    }
}

/// Whether a text is the id of a commit.
pub fn is_commit_oid(oid: &str) -> (r: bool)
    ensures
        r == full_oid(oid@) is Some,
{
    oid_from_str(oid).is_some()
}

} // verus!
