//! Validation codes sent by mail.

use vstd::prelude::*;
use vstd::string::StringExecFns;
use crate::utils::rand::{alphanumeric, rand_alphanumeric};
use crate::utils::text::text;

verus! {

/// How long a validation code stays valid, in seconds.
pub const CODE_LIFETIME: u64 = 300;

/// The number of characters of a validation code.
pub const CODE_LENGTH: usize = 6;

/// What the check of a validation code found.
#[derive(Clone, Copy, Debug, PartialEq, Eq, Structural)]
pub enum CodeCheck {
    /// The code is the one that was sent.
    Valid,
    /// No code is on record any more.
    Expired,
    /// The code differs from the one that was sent.
    Wrong,
}

/// The key under which the code for `email` is kept.
pub fn validate_redis_key(email: &str) -> (key: String)
    ensures
        key@ == "email-validate:"@ + email@,
{
    let mut key = String::from_str("email-validate:");
    key.append(email);
    key
}

/// Draws a fresh validation code.
pub fn new_validate_code() -> (code: String)
    ensures
        code@.len() == CODE_LENGTH,
        forall|i: int| 0 <= i < code@.len() ==> alphanumeric().contains(#[trigger] code@[i]),
{
    rand_alphanumeric(CODE_LENGTH)
}

/// The finding for the code `given` where `stored` is on record.
pub open spec fn code_checked(stored: Option<Seq<char>>, given: Seq<char>) -> CodeCheck {
    match stored {
        None => CodeCheck::Expired,
        Some(code) => if code == given {
            CodeCheck::Valid
        } else {
            CodeCheck::Wrong
        },
    }
}

/// Compares the code that a user entered with the one on record.
pub fn check_validate_code(stored: &Option<String>, given: &String) -> (r: CodeCheck)
    ensures
        r == code_checked(text(*stored), given@),
{
    match stored {
        None => CodeCheck::Expired,
        Some(code) => if *code == *given {
            CodeCheck::Valid
        } else {
            CodeCheck::Wrong
        },
    }
}

} // verus!
