//! The identity that a request carries.

use vstd::prelude::*;
use crate::model::comments::clone_opt;
use crate::model::users;
use crate::model::UserType;

verus! {

/// Lifetime of a claim set, added to the time of issue.
pub const CLAIMS_LIFETIME: u64 = 31_104_000_000;

/// An authenticated principal: who calls, in which role, with which mail.
#[derive(Debug)]
pub struct Claims {
    pub uid: i32,
    pub ty: UserType,
    pub mail: Option<String>,
    pub exp: u64,
}

impl Claims {
    /// The claims of user `u`, issued at time `now`.
    pub fn new(u: &users::Model, now: u64) -> (c: Claims)
        requires
            now + CLAIMS_LIFETIME <= u64::MAX,
        ensures
            c.uid == u.id,
            c.ty == u.ty,
            c.mail == u.email,
            c.exp == now + CLAIMS_LIFETIME,
    {
        Claims { uid: u.id, ty: u.ty, mail: clone_opt(&u.email), exp: now + CLAIMS_LIFETIME }
    }

    /// Whether the principal is an administrator.
    pub fn is_admin(&self) -> (b: bool)
        ensures
            b == (self.ty == UserType::Admin),
    {
        self.ty == UserType::Admin
    }
}

/// The request carried a token that is not valid.
#[derive(Clone, Copy, Debug, PartialEq, Eq, Structural)]
pub struct InvalidToken;

/// The caller of a request: anonymous when it holds nothing.
#[derive(Debug)]
pub struct OptionalClaims(pub Option<Claims>);

impl OptionalClaims {
    /// The caller without a principal.
    pub fn anonymous() -> (c: OptionalClaims)
        ensures
            c.0 is None,
    {
        OptionalClaims(None)
    }

    /// The caller who presented `claims`.
    pub fn authenticated(claims: Claims) -> (c: OptionalClaims)
        ensures
            c.0 == Some(claims),
    {
        OptionalClaims(Some(claims))
    }

    /// The caller that a request stands for. `bearer` is `None` where the
    /// request carried no token, and holds the claims of the token where it
    /// carried a valid one. No token makes the caller anonymous; a token
    /// that is not valid is refused.
    pub fn from_bearer(bearer: Option<Option<Claims>>) -> (r: Result<OptionalClaims, InvalidToken>)
        ensures
            r == match bearer {
                None => Ok::<OptionalClaims, InvalidToken>(OptionalClaims(None)),
                Some(None) => Err::<OptionalClaims, InvalidToken>(InvalidToken),
                Some(Some(claims)) => Ok::<OptionalClaims, InvalidToken>(OptionalClaims(Some(claims))),
            },
    {
        match bearer {
            None => Ok(OptionalClaims(None)),
            Some(None) => Err(InvalidToken),
            Some(Some(claims)) => Ok(OptionalClaims(Some(claims))),
        }
    }

    /// True for the anonymous caller.
    pub fn is_none(&self) -> (b: bool)
        ensures
            b == (self.0 is None),
    {
        self.0.is_none()
    }

    /// The caller acts as an administrator.
    pub open spec fn admin(self) -> bool {
        self.0 matches Some(c) && c.ty == UserType::Admin
    }

    /// The caller is the authenticated user with id `uid`.
    pub open spec fn is_user(self, uid: i32) -> bool {
        self.0 matches Some(c) && c.uid == uid
    }

    /// Whether the caller acts as an administrator.
    pub fn is_admin(&self) -> (b: bool)
        ensures
            b == self.admin(),
    {
        match &self.0 {
            Some(c) => c.is_admin(),
            None => false,
        }
    }
}

} // verus!
