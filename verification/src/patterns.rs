//! Regular expressions, matched by the `regex` crate.

use vstd::prelude::*;

verus! {

/// What the `regex` crate makes of a pattern and a text: whether the pattern
/// matches somewhere in the text, or nothing where the pattern does not
/// compile.
pub uninterp spec fn regex_match(pattern: Seq<char>, text: Seq<char>) -> Option<bool>;

/// Calls `regex::Regex::new` on the pattern and `Regex::is_match` on the
/// text. The contract only gives the result its name.
#[verifier::external_body]
pub(crate) fn regex_is_match(pattern: &str, text: &str) -> (r: Option<bool>)
    ensures
        r == regex_match(pattern@, text@),
{
    match regex::Regex::new(pattern) {
        Ok(re) => Some(re.is_match(text)),
        Err(_) => None,
    }
}

/// The pattern compiles and matches somewhere in the text.
pub open spec fn matches_pattern(pattern: Seq<char>, text: Seq<char>) -> bool {
    regex_match(pattern, text) == Some(true)
}

/// Tells whether the pattern matches somewhere in the text; a pattern that
/// does not compile matches nothing.
pub fn is_match(pattern: &str, text: &str) -> (r: bool)
    ensures
        r == matches_pattern(pattern@, text@),
{
    match regex_is_match(pattern, text) {
        Some(found) => found,
        None => false,
    }
}

} // verus!
