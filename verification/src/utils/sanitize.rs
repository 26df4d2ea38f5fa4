//! Cleaning rendered HTML, through the `ammonia` crate.

use vstd::prelude::*;

verus! {

/// The HTML that is left of `html` when everything outside the default
/// allow list of `ammonia` is removed.
pub uninterp spec fn sanitized(html: Seq<char>) -> Seq<char>;

/// Cleans `html` with `ammonia::clean`.
///
/// Trusted: the result is what `sanitized` names. The default settings of
/// the crate are fixed, so the result depends on `html` alone.
#[verifier::external_body]
fn clean(html: &str) -> (r: String)
    ensures
        r@ == sanitized(html@),
{
    ammonia::clean(html)
}

/// Removes from `html` whatever a comment may not carry.
pub fn sanitize(html: &str) -> (r: String)
    ensures
        r@ == sanitized(html@),
{
    clean(html)
}

} // verus!
