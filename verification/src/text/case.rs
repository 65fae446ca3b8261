//! Lower case.

use vstd::prelude::*;
use crate::text::convert::chars_of;

verus! {

/// The lower-case form of a text, as the `Lowercase` property of the Unicode
/// standard gives it.
pub uninterp spec fn lowercase(s: Seq<char>) -> Seq<char>;

/// `str::to_lowercase`: the lower-case form of the string, which depends on
/// nothing but its characters.
#[verifier::external_body]
pub(crate) fn str_to_lowercase(s: &str) -> (out: String)
    ensures
        out@ == lowercase(s@),
{
    s.to_lowercase()
}

/// The lower-case form of a text, as characters.
pub fn lowercase_chars(s: &str) -> (out: Vec<char>)
    ensures
        out@ == lowercase(s@),
{
    let lowered = str_to_lowercase(s);
    chars_of(lowered.as_str())
}

} // verus!
