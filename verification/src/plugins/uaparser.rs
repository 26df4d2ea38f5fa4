//! What a user-agent parser tells of a client.

use vstd::prelude::*;
use vstd::string::StringExecFns;
use crate::utils::text::text;

verus! {

/// The browser of a client.
#[derive(Debug)]
pub struct UserAgent {
    pub family: String,
    pub major: Option<String>,
    pub minor: Option<String>,
    pub patch: Option<String>,
}

/// The operating system of a client.
#[derive(Debug)]
pub struct OS {
    pub family: String,
    pub major: Option<String>,
    pub minor: Option<String>,
    pub patch: Option<String>,
    pub patch_minor: Option<String>,
}

/// A parsed user-agent string.
#[derive(Debug)]
pub struct Client {
    pub user_agent: UserAgent,
    pub os: OS,
}

/// A family name followed by as much of the version as is known: a space
/// and the major number, then a dot before each further part that is
/// present.
pub open spec fn versioned(
    family: Seq<char>,
    major: Option<Seq<char>>,
    minor: Option<Seq<char>>,
    patch: Option<Seq<char>>,
) -> Seq<char> {
    family + (match major {
        Some(m) => seq![' '] + m,
        None => Seq::empty(),
    }) + (match minor {
        Some(m) => seq!['.'] + m,
        None => Seq::empty(),
    }) + (match patch {
        Some(p) => seq!['.'] + p,
        None => Seq::empty(),
    })
}

/// Writes a family name and its version.
pub fn write_versioned(
    family: &str,
    major: &Option<String>,
    minor: &Option<String>,
    patch: &Option<String>,
) -> (s: String)
    ensures
        s@ == versioned(family@, text(*major), text(*minor), text(*patch)),
{
    proof {
        reveal_strlit(" ");
        reveal_strlit(".");
        assert(" "@ =~= seq![' ']);
        assert("."@ =~= seq!['.']);
    }
    let mut s = String::from_str(family);
    let ghost s0 = s@;
    if let Some(major) = major {
        s.append(" ");
        s.append(major.as_str());
    }
    let ghost s1 = s@;
    if let Some(minor) = minor {
        s.append(".");
        s.append(minor.as_str());
    }
    let ghost s2 = s@;
    if let Some(patch) = patch {
        s.append(".");
        s.append(patch.as_str());
    }
    proof {
        assert(s1 =~= s0 + (match text(*major) {
            Some(m) => seq![' '] + m,
            None => Seq::empty(),
        }));
        assert(s2 =~= s1 + (match text(*minor) {
            Some(m) => seq!['.'] + m,
            None => Seq::empty(),
        }));
        assert(s@ =~= s2 + (match text(*patch) {
            Some(p) => seq!['.'] + p,
            None => Seq::empty(),
        }));
    }
    s
}

/// A short text for display.
pub trait ToStringExt {
    /// The text that `to_string` writes.
    spec fn text(&self) -> Seq<char>;

    /// Writes the value for display.
    fn to_string(&self) -> (s: String)
        ensures
            s@ == self.text(),
    ;
}

impl ToStringExt for UserAgent {
    open spec fn text(&self) -> Seq<char> {
        versioned(self.family@, text(self.major), text(self.minor), text(self.patch))
    }

    fn to_string(&self) -> (s: String) {
        write_versioned(self.family.as_str(), &self.major, &self.minor, &self.patch)
    }
}

impl ToStringExt for OS {
    open spec fn text(&self) -> Seq<char> {
        versioned(self.family@, text(self.major), text(self.minor), text(self.patch))
    }

    fn to_string(&self) -> (s: String) {
        write_versioned(self.family.as_str(), &self.major, &self.minor, &self.patch)
    }
}

} // verus!
