//! Regular expressions, through the `regex` crate.

use vstd::prelude::*;

verus! {

/// The error with which `regex` refuses a pattern.
#[verifier::external_type_specification]
#[verifier::external_body]
pub struct ExRegexError(regex::Error);

/// Whether the regular expression `pattern` matches somewhere in `text`.
///
/// This names what `regex::Regex::is_match` returns for the expression
/// compiled from `pattern`. It says nothing of a pattern that does not
/// compile.
pub uninterp spec fn regex_is_match(pattern: Seq<char>, text: Seq<char>) -> bool;

/// Compiles `pattern` with `regex::Regex::new` and searches `text` with
/// `regex::Regex::is_match`.
///
/// Trusted: a compiled pattern answers as `regex_is_match` names it. Whether
/// a pattern compiles is left open, since the size limit of the crate is
/// measured in memory.
#[verifier::external_body]
fn search(pattern: &str, text: &str) -> (r: Result<bool, regex::Error>)
    ensures
        r matches Ok(hit) ==> hit == regex_is_match(pattern@, text@),
{
    match regex::Regex::new(pattern) {
        Ok(re) => Ok(re.is_match(text)),
        Err(e) => Err(e),
    }
}

/// Searches `text` for a match of `pattern`. `None` when the pattern is
/// refused.
pub fn is_match(pattern: &str, text: &str) -> (r: Option<bool>)
    ensures
        r matches Some(hit) ==> hit == regex_is_match(pattern@, text@),
{
    match search(pattern, text) {
        Ok(hit) => Some(hit),
        Err(_) => None,
    }
}

} // verus!
