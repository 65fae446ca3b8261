//! Trimming whitespace from the ends of text.

use vstd::prelude::*;
use crate::text::classes::{char_is_whitespace, is_whitespace};
use crate::text::convert::slice_chars;

verus! {

/// The number of whitespace characters that `s` begins with, counted from
/// index `from`.
pub open spec fn leading_whitespace(s: Seq<char>, from: int) -> int
    decreases s.len() - from,
{
    if from < 0 || from >= s.len() || !is_whitespace(s[from]) {
        0
    } else {
        1 + leading_whitespace(s, from + 1)
    }
}

/// The number of whitespace characters that the first `upto` characters of
/// `s` end with.
pub open spec fn trailing_whitespace(s: Seq<char>, upto: int) -> int
    decreases upto,
{
    if upto <= 0 || upto > s.len() || !is_whitespace(s[upto - 1]) {
        0
    } else {
        1 + trailing_whitespace(s, upto - 1)
    }
}

/// `s` without the whitespace it begins with.
pub open spec fn trim_start(s: Seq<char>) -> Seq<char> {
    s.subrange(leading_whitespace(s, 0), s.len() as int)
}

/// `s` without the whitespace it ends with.
pub open spec fn trim_end(s: Seq<char>) -> Seq<char> {
    s.subrange(0, s.len() - trailing_whitespace(s, s.len() as int))
}

/// `s` without the whitespace at either end.
pub open spec fn trim(s: Seq<char>) -> Seq<char> {
    trim_end(trim_start(s))
}

/// Whether `s` holds nothing but whitespace.
pub open spec fn is_blank(s: Seq<char>) -> bool {
    trim(s).len() == 0
}

/// The index of the first character of `s`, at or after `from`, that is not
/// whitespace.
pub fn skip_whitespace(s: &Vec<char>, from: usize) -> (i: usize)
    requires
        from <= s.len(),
    ensures
        i == from + leading_whitespace(s@, from as int),
        from <= i <= s.len(),
{
    let mut i: usize = from;
    while i < s.len() && char_is_whitespace(s[i])
        invariant
            from <= i <= s.len(),
            from + leading_whitespace(s@, from as int) == i + leading_whitespace(s@, i as int),
        decreases s.len() - i,
    {
        i += 1;
    }
    i
}

/// The end of the text that is left of the first `upto` characters of `s`
/// once the whitespace at their end is gone.
pub fn skip_whitespace_back(s: &Vec<char>, upto: usize) -> (i: usize)
    requires
        upto <= s.len(),
    ensures
        i == upto - trailing_whitespace(s@, upto as int),
        i <= upto,
{
    let mut i: usize = upto;
    while i > 0 && char_is_whitespace(s[i - 1])
        invariant
            i <= upto <= s.len(),
            upto - trailing_whitespace(s@, upto as int) == i - trailing_whitespace(s@, i as int),
        decreases i,
    {
        i -= 1;
    }
    i
}

/// `s` without the whitespace it begins with.
pub fn chars_trim_start(s: &Vec<char>) -> (out: Vec<char>)
    ensures
        out@ == trim_start(s@),
{
    let a = skip_whitespace(s, 0);
    slice_chars(s, a, s.len())
}

/// `s` without the whitespace it ends with.
pub fn chars_trim_end(s: &Vec<char>) -> (out: Vec<char>)
    ensures
        out@ == trim_end(s@),
{
    let b = skip_whitespace_back(s, s.len());
    slice_chars(s, 0, b)
}

/// `s` without the whitespace at either end.
pub fn chars_trim(s: &Vec<char>) -> (out: Vec<char>)
    ensures
        out@ == trim(s@),
{
    let start = chars_trim_start(s);
    chars_trim_end(&start)
}

} // verus!
