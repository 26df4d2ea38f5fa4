//! The shapes of requests and responses.

use vstd::prelude::*;
use vstd::string::StringExecFns;

pub mod comment;
pub mod oauth;
pub mod user;
pub mod view_counter;

verus! {

/// One path or several, as a request may give them.
#[derive(Debug)]
pub enum Urls {
    Single(String),
    List(Vec<String>),
}

/// The rule that a request breaks.
#[derive(Clone, Copy, Debug, PartialEq, Eq, Structural)]
pub enum Invalid {
    /// More rows are asked for than one answer may hold.
    TooMany,
    /// The limit of a listing is below one.
    TooFew,
    /// The search keyword is too long.
    KeywordTooLong,
    /// The user name is too long.
    NameTooLong,
    /// The mail address is too long.
    EmailTooLong,
    /// The mail address is not of the form `local@domain`.
    EmailMalformed,
    /// The password is too long.
    PasswordTooLong,
    /// The validation code is too long.
    CodeTooLong,
}

/// The language of a request that names none.
pub fn default_lang() -> (lang: String)
    ensures
        lang@ == "zh-CN"@,
{
    String::from_str("zh-CN")
}

impl Urls {
    /// The paths that the value names, in order.
    pub open spec fn paths(self) -> Seq<String> {
        match self {
            Urls::Single(s) => seq![s],
            Urls::List(v) => v@,
        }
    }

    /// The paths as a list.
    pub fn into_vec(self) -> (v: Vec<String>)
        ensures
            v@ == self.paths(),
    {
        match self {
            Urls::Single(s) => {
                let mut v: Vec<String> = Vec::new();
                v.push(s);
                v
            },
            Urls::List(v) => v,
        }
    }
}

} // verus!
