//! The form of a mail address, through the `validator` crate.

use validator::ValidateEmail;
use vstd::prelude::*;

verus! {

/// Whether `email` has the form of a mail address as HTML defines it.
///
/// This names what `validator::ValidateEmail::validate_email` returns for a
/// string.
pub uninterp spec fn email_valid(email: Seq<char>) -> bool;

/// Checks `email` with `validator::ValidateEmail::validate_email`.
///
/// Trusted: the answer is what `email_valid` names, and an address without
/// an `@` is never valid.
#[verifier::external_body]
fn validate_email(email: &str) -> (r: bool)
    ensures
        r == email_valid(email@),
        r ==> email@.contains('@'),
{
    email.validate_email()
}

/// Whether `email` has the form of a mail address.
pub fn is_email(email: &str) -> (r: bool)
    ensures
        r == email_valid(email@),
        r ==> email@.contains('@'),
{
    validate_email(email)
}

} // verus!
