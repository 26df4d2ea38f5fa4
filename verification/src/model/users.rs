//! The stored user account.

use vstd::prelude::*;
use crate::model::{UserGender, UserType};

verus! {

/// One user account as the record store holds it.
#[derive(Debug)]
pub struct Model {
    pub id: i32,
    pub username: String,
    pub email: Option<String>,
    pub password: Option<String>,
    pub gender: UserGender,
    pub ty: UserType,
    pub avatar: Option<String>,
    pub mfa: bool,
    pub created_at: i64,
    pub updated_at: i64,
}

} // verus!

verus! {

/// A partial user row: the columns that a write sets. A column left at
/// `None` is not written.
#[derive(Debug)]
pub struct ActiveModel {
    pub id: Option<i32>,
    pub username: Option<String>,
    pub email: Option<Option<String>>,
    pub password: Option<Option<String>>,
    pub gender: Option<UserGender>,
    pub ty: Option<UserType>,
    pub avatar: Option<Option<String>>,
    pub mfa: Option<bool>,
}

impl ActiveModel {
    /// The write that sets no column.
    pub open spec fn unset() -> ActiveModel {
        ActiveModel {
            id: None,
            username: None,
            email: None,
            password: None,
            gender: None,
            ty: None,
            avatar: None,
            mfa: None,
        }
    }
}

impl Default for ActiveModel {
    fn default() -> (ac: ActiveModel)
        ensures
            ac == ActiveModel::unset(),
    {
        ActiveModel {
            id: None,
            username: None,
            email: None,
            password: None,
            gender: None,
            ty: None,
            avatar: None,
            mfa: None,
        }
    }
}

} // verus!
