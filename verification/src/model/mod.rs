//! Stored records and the enumerations they share.

use vstd::prelude::*;
use crate::utils::text::same_str;

pub mod comments;
pub mod page_view_counter;
pub mod users;
pub mod view_counter;

verus! {

/// Moderation state of a comment.
#[derive(Clone, Copy, Debug, PartialEq, Eq, Structural)]
pub enum CommentStatus {
    Approved,
    Waiting,
    Spam,
    Deleted,
}

/// Role of an authenticated user.
#[derive(Clone, Copy, Debug, PartialEq, Eq, Structural)]
pub enum UserType {
    Normal,
    Admin,
}

/// Gender recorded on a user account.
#[derive(Clone, Copy, Debug, PartialEq, Eq, Structural)]
pub enum UserGender {
    Male,
    Female,
    Unknown,
}

impl UserGender {
    /// The gender that the word `s` names: male for `\u{7537}`, female for
    /// `\u{5973}`, unknown for everything else.
    pub open spec fn named(s: Seq<char>) -> UserGender {
        if s == "\u{7537}"@ {
            UserGender::Male
        } else if s == "\u{5973}"@ {
            UserGender::Female
        } else {
            UserGender::Unknown
        }
    }

    /// Reads a gender from the word that an identity provider reports.
    pub fn from_string(s: &str) -> (g: UserGender)
        ensures
            g == UserGender::named(s@),
    {
        if same_str(s, "\u{7537}") {
            UserGender::Male
        } else if same_str(s, "\u{5973}") {
            UserGender::Female
        } else {
            UserGender::Unknown
        }
    }
}

impl CommentStatus {
    /// The moves of the moderation state machine: approval or spam marking
    /// of a waiting comment, spam marking of an approved one, re-approval of
    /// spam, and deletion from any state.
    pub open spec fn transition(from: CommentStatus, to: CommentStatus) -> bool {
        ||| to == CommentStatus::Deleted
        ||| from == CommentStatus::Waiting && to == CommentStatus::Approved
        ||| from == CommentStatus::Waiting && to == CommentStatus::Spam
        ||| from == CommentStatus::Approved && to == CommentStatus::Spam
        ||| from == CommentStatus::Spam && to == CommentStatus::Approved
    }

    /// Whether the state machine has a move from `self` to `to`.
    pub fn can_become(&self, to: CommentStatus) -> (b: bool)
        ensures
            b == CommentStatus::transition(*self, to),
    {
        match (*self, to) {
            (_, CommentStatus::Deleted) => true,
            (CommentStatus::Waiting, CommentStatus::Approved) => true,
            (CommentStatus::Waiting, CommentStatus::Spam) => true,
            (CommentStatus::Approved, CommentStatus::Spam) => true,
            (CommentStatus::Spam, CommentStatus::Approved) => true,
            _ => false,
        }
    }
}

} // verus!
