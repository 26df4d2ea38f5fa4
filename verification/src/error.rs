//! Reasons for which a request is turned down.

use vstd::prelude::*;

verus! {

/// A terminal refusal of a request. Each variant is a stable reason code.
#[derive(Clone, Copy, Debug, PartialEq, Eq, Structural)]
pub enum Rejection {
    /// The submitter's address is on the configured deny list.
    ForbiddenIp,
    /// The page already holds a comment with the same author fields and text.
    DuplicateContent,
    /// The same address posted within the rate-limit window.
    TooFast,
    /// A quoted comment id came without the name of its author.
    AtRequired,
    /// No page is registered under the requested path.
    PageNotFound,
    /// No comment has the requested id.
    CommentNotFound,
    /// The caller may not change or delete this comment.
    Forbidden,
    /// The caller is not an administrator.
    NoPermission,
    /// The requested status change is not a transition of the moderation
    /// state machine.
    InvalidTransition,
    /// The configured forbidden words do not form a valid pattern.
    ForbiddenWords,
}

impl Rejection {
    /// The HTTP status class of the refusal.
    pub open spec fn status_spec(self) -> u16 {
        match self {
            Rejection::ForbiddenIp => 403,
            Rejection::DuplicateContent => 400,
            Rejection::TooFast => 400,
            Rejection::AtRequired => 400,
            Rejection::PageNotFound => 404,
            Rejection::CommentNotFound => 404,
            Rejection::Forbidden => 403,
            Rejection::NoPermission => 403,
            Rejection::InvalidTransition => 400,
            Rejection::ForbiddenWords => 500,
        }
    }

    /// The HTTP status code under which the refusal is reported.
    pub fn status(&self) -> (code: u16)
        ensures
            code == self.status_spec(),
    {
        match self {
            Rejection::ForbiddenIp => 403,
            Rejection::DuplicateContent => 400,
            Rejection::TooFast => 400,
            Rejection::AtRequired => 400,
            Rejection::PageNotFound => 404,
            Rejection::CommentNotFound => 404,
            Rejection::Forbidden => 403,
            Rejection::NoPermission => 403,
            Rejection::InvalidTransition => 400,
            Rejection::ForbiddenWords => 500,
        }
    }

    /// True for the refusals that the client caused.
    pub fn is_client_error(&self) -> (b: bool)
        ensures
            b == (400 <= self.status_spec() < 500),
    {
        let code: u16 = self.status();
        400 <= code && code < 500
    }
}

} // verus!
