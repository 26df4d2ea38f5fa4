//! Which comments a caller may read.

use vstd::prelude::*;
use crate::model::comments::Model;
use crate::model::{CommentStatus, UserType};
use crate::utils::jwt::OptionalClaims;

verus! {

/// The caller is the authenticated user who wrote `row`.
pub open spec fn owns(who: OptionalClaims, row: Model) -> bool {
    who.0 matches Some(c) && row.user_id == Some(c.uid)
}

/// The read rule. An anonymous caller sees approved comments; a normal user
/// sees approved comments and their own; an administrator sees everything
/// that is not deleted.
pub open spec fn visible(who: OptionalClaims, row: Model) -> bool {
    match who.0 {
        None => row.status == CommentStatus::Approved,
        Some(c) => if c.ty == UserType::Admin {
            row.status != CommentStatus::Deleted
        } else {
            row.status == CommentStatus::Approved || row.user_id == Some(c.uid)
        },
    }
}

/// The read rule of one caller, as a value that a record store can turn
/// into a query condition.
#[derive(Clone, Copy, Debug, PartialEq, Eq, Structural)]
pub enum ReadFilter {
    /// `status == Approved`
    ApprovedOnly,
    /// `status == Approved OR user_id == uid`
    ApprovedOrOwner { uid: i32 },
    /// `status != Deleted`
    NotDeleted,
}

impl ReadFilter {
    /// The rows that the filter lets through.
    pub open spec fn holds(self, row: Model) -> bool {
        match self {
            ReadFilter::ApprovedOnly => row.status == CommentStatus::Approved,
            ReadFilter::ApprovedOrOwner { uid } => row.status == CommentStatus::Approved
                || row.user_id == Some(uid),
            ReadFilter::NotDeleted => row.status != CommentStatus::Deleted,
        }
    }

    /// The filter that belongs to a caller.
    pub open spec fn of_spec(who: OptionalClaims) -> ReadFilter {
        match who.0 {
            None => ReadFilter::ApprovedOnly,
            Some(c) => if c.ty == UserType::Admin {
                ReadFilter::NotDeleted
            } else {
                ReadFilter::ApprovedOrOwner { uid: c.uid }
            },
        }
    }

    /// Derives the read filter from the caller's identity.
    pub fn of(who: &OptionalClaims) -> (f: ReadFilter)
        ensures
            f == ReadFilter::of_spec(*who),
            forall|row: Model| f.holds(row) == visible(*who, row),
    {
        match &who.0 {
            None => ReadFilter::ApprovedOnly,
            Some(c) => if c.is_admin() {
                ReadFilter::NotDeleted
            } else {
                ReadFilter::ApprovedOrOwner { uid: c.uid }
            },
        }
    }

    /// Applies the filter to one row.
    pub fn admits(&self, row: &Model) -> (b: bool)
        ensures
            b == self.holds(*row),
    {
        match self {
            ReadFilter::ApprovedOnly => row.status == CommentStatus::Approved,
            ReadFilter::ApprovedOrOwner { uid } => {
                row.status == CommentStatus::Approved || match row.user_id {
                    Some(owner) => owner == *uid,
                    None => false,
                }
            },
            ReadFilter::NotDeleted => row.status != CommentStatus::Deleted,
        }
    }
}

/// Whether `who` may read `row`.
pub fn can_read(who: &OptionalClaims, row: &Model) -> (b: bool)
    ensures
        b == visible(*who, *row),
{
    ReadFilter::of(who).admits(row)
}

/// A deleted comment is shown to no caller other than the non-administrator
/// who wrote it.
pub proof fn lemma_deleted_hidden(who: OptionalClaims, row: Model)
    requires
        !who.admin(),
        !owns(who, row),
        row.status == CommentStatus::Deleted,
    ensures
        !visible(who, row),
{
}

/// A waiting or spam comment is shown to no caller who is neither an
/// administrator nor its author.
pub proof fn lemma_unapproved_hidden(who: OptionalClaims, row: Model)
    requires
        !who.admin(),
        !owns(who, row),
        row.status == CommentStatus::Waiting || row.status == CommentStatus::Spam,
    ensures
        !visible(who, row),
{
}

/// An administrator is never shown a deleted comment.
pub proof fn lemma_admin_sees_no_deleted(who: OptionalClaims, row: Model)
    requires
        who.admin(),
        row.status == CommentStatus::Deleted,
    ensures
        !visible(who, row),
{
}

/// Whatever the caller, an approved comment is shown.
pub proof fn lemma_approved_visible(who: OptionalClaims, row: Model)
    requires
        row.status == CommentStatus::Approved,
    ensures
        visible(who, row),
{
}

} // verus!
