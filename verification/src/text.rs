//! Small helpers on strings.

use vstd::prelude::*;

verus! {

/// A text with every occurrence of one character taken out.
pub open spec fn without_char(text: Seq<char>, c: char) -> Seq<char> {
    text.filter(|x: char| x != c)
}

/// Whether a string reads exactly as `word`.
pub fn is_word(s: &String, word: &str) -> (same: bool)
    ensures
        same == (s@ == word@),
{
    let w = word.to_owned();
    *s == w
}

/// Takes every occurrence of `c` out of `text`.
///
/// Calls `str::replace` with the character as the pattern and the empty
/// string as the replacement, which by its documentation replaces all
/// matches and leaves the rest as it is.
#[verifier::external_body]
pub(crate) fn remove_char(text: &str, c: char) -> (out: String)
    ensures
        out@ == without_char(text@, c),
{
    text.replace(c, "")
}

} // verus!
