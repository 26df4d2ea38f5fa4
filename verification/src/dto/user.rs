//! Requests and responses of the account endpoints.

use vstd::prelude::*;
use vstd::string::StrSliceExecFns;
use crate::dto::Invalid;
use crate::model::users;
use crate::model::{UserGender, UserType};
use crate::utils::email::{email_valid, is_email};

verus! {

/// Largest length of a user name, in characters.
pub const MAX_NAME: usize = 30;

/// Largest length of a mail address, in characters.
pub const MAX_EMAIL: usize = 60;

/// Largest length of a password, in characters.
pub const MAX_PASSWORD: usize = 32;

/// Largest length of a validation code, in characters.
pub const MAX_CODE: usize = 8;

/// The credentials of a sign-in with a password.
#[derive(Debug)]
pub struct AuthenticationToken {
    pub email: String,
    pub password: String,
}

/// The request to open an account.
#[derive(Debug)]
pub struct RegisterReq {
    pub name: String,
    pub email: String,
    pub password: String,
    pub validate_code: String,
}

/// The request to set a new password.
#[derive(Debug)]
pub struct ResetPasswdReq {
    pub email: String,
    pub password: String,
    pub validate_code: String,
}

/// The request to send a validation code to a mail address.
#[derive(Debug)]
pub struct SendEmailReq {
    pub email: String,
}

/// The request to change the name of an account.
#[derive(Debug)]
pub struct SetNameReq {
    pub name: String,
}

/// The request to change an account. A field that is absent stays as it
/// is.
#[derive(Debug)]
pub struct UpdateUserReq {
    pub name: Option<String>,
    pub gender: Option<UserGender>,
    pub password: Option<String>,
    pub avatar: Option<String>,
}

/// The request for a page of the accounts.
#[derive(Debug)]
pub struct UserQuery {
    pub page: u64,
    pub size: u64,
    pub email: Option<String>,
}

/// The mail that carries a validation code.
#[derive(Debug)]
pub struct ValidateCodeEmailTemplate<'a> {
    pub tip: &'a str,
    pub code: &'a str,
}

/// The rule that a mail address breaks, if any: its form first, then its
/// length.
pub open spec fn email_checked(email: Seq<char>) -> Result<(), Invalid> {
    if !email_valid(email) {
        Err(Invalid::EmailMalformed)
    } else if email.len() > MAX_EMAIL {
        Err(Invalid::EmailTooLong)
    } else {
        Ok(())
    }
}

/// Checks the form and the length of a mail address.
pub fn check_email(email: &str) -> (r: Result<(), Invalid>)
    ensures
        r == email_checked(email@),
{
    if !is_email(email) {
        Err(Invalid::EmailMalformed)
    } else if email.unicode_len() > MAX_EMAIL {
        Err(Invalid::EmailTooLong)
    } else {
        Ok(())
    }
}

impl RegisterReq {
    /// The first rule that the request breaks, if any, in the order name,
    /// mail address, password, code.
    pub open spec fn check(self) -> Result<(), Invalid> {
        if self.name@.len() > MAX_NAME {
            Err(Invalid::NameTooLong)
        } else if email_checked(self.email@) is Err {
            email_checked(self.email@)
        } else if self.password@.len() > MAX_PASSWORD {
            Err(Invalid::PasswordTooLong)
        } else if self.validate_code@.len() > MAX_CODE {
            Err(Invalid::CodeTooLong)
        } else {
            Ok(())
        }
    }

    /// Checks the lengths of the fields and the form of the mail address.
    pub fn validate(&self) -> (r: Result<(), Invalid>)
        ensures
            r == self.check(),
    {
        if self.name.as_str().unicode_len() > MAX_NAME {
            return Err(Invalid::NameTooLong);
        }
        if let Err(e) = check_email(self.email.as_str()) {
            return Err(e);
        }
        if self.password.as_str().unicode_len() > MAX_PASSWORD {
            return Err(Invalid::PasswordTooLong);
        }
        if self.validate_code.as_str().unicode_len() > MAX_CODE {
            return Err(Invalid::CodeTooLong);
        }
        Ok(())
    }
}

impl ResetPasswdReq {
    /// The first rule that the request breaks, if any, in the order mail
    /// address, password, code.
    pub open spec fn check(self) -> Result<(), Invalid> {
        if email_checked(self.email@) is Err {
            email_checked(self.email@)
        } else if self.password@.len() > MAX_PASSWORD {
            Err(Invalid::PasswordTooLong)
        } else if self.validate_code@.len() > MAX_CODE {
            Err(Invalid::CodeTooLong)
        } else {
            Ok(())
        }
    }

    /// Checks the lengths of the fields and the form of the mail address.
    pub fn validate(&self) -> (r: Result<(), Invalid>)
        ensures
            r == self.check(),
    {
        if let Err(e) = check_email(self.email.as_str()) {
            return Err(e);
        }
        if self.password.as_str().unicode_len() > MAX_PASSWORD {
            return Err(Invalid::PasswordTooLong);
        }
        if self.validate_code.as_str().unicode_len() > MAX_CODE {
            return Err(Invalid::CodeTooLong);
        }
        Ok(())
    }
}

impl SendEmailReq {
    /// Checks the form and the length of the mail address.
    pub fn validate(&self) -> (r: Result<(), Invalid>)
        ensures
            r == email_checked(self.email@),
    {
        check_email(self.email.as_str())
    }
}

impl SetNameReq {
    /// Checks the length of the name.
    pub fn validate(&self) -> (r: Result<(), Invalid>)
        ensures
            r == if self.name@.len() > MAX_NAME {
                Err::<(), Invalid>(Invalid::NameTooLong)
            } else {
                Ok::<(), Invalid>(())
            },
    {
        if self.name.as_str().unicode_len() > MAX_NAME {
            Err(Invalid::NameTooLong)
        } else {
            Ok(())
        }
    }
}

/// An account as a response shows it.
#[derive(Debug)]
pub struct UserResp {
    pub id: i32,
    pub name: String,
    pub email: Option<String>,
    pub gender: UserGender,
    pub ty: UserType,
    pub avatar: Option<String>,
    pub mfa: bool,
    pub created_at: i64,
    pub updated_at: i64,
}

impl UserResp {
    /// What a response shows of the account `user`: everything but the
    /// password.
    pub open spec fn of(user: users::Model) -> UserResp {
        UserResp {
            id: user.id,
            name: user.username,
            email: user.email,
            gender: user.gender,
            ty: user.ty,
            avatar: user.avatar,
            mfa: user.mfa,
            created_at: user.created_at,
            updated_at: user.updated_at,
        }
    }
}

impl vstd::std_specs::convert::FromSpecImpl<users::Model> for UserResp {
    open spec fn obeys_from_spec() -> bool {
        true
    }

    open spec fn from_spec(user: users::Model) -> UserResp {
        UserResp::of(user)
    }
}

impl From<users::Model> for UserResp {
    fn from(user: users::Model) -> (r: UserResp) {
        UserResp {
            id: user.id,
            name: user.username,
            email: user.email,
            gender: user.gender,
            ty: user.ty,
            avatar: user.avatar,
            mfa: user.mfa,
            created_at: user.created_at,
            updated_at: user.updated_at,
        }
    }
}

/// An account as the response to a sign-in shows it: with the token.
#[derive(Debug)]
pub struct UserRespWithToken {
    pub id: i32,
    pub name: String,
    pub email: Option<String>,
    pub gender: UserGender,
    pub ty: UserType,
    pub avatar: Option<String>,
    pub mfa: bool,
    pub created_at: i64,
    pub updated_at: i64,
    pub token: String,
}

impl UserRespWithToken {
    /// What a response shows of the account `user` that signed in with
    /// `token`.
    pub fn new(user: users::Model, token: String) -> (r: UserRespWithToken)
        ensures
            r == (UserRespWithToken {
                id: user.id,
                name: user.username,
                email: user.email,
                gender: user.gender,
                ty: user.ty,
                avatar: user.avatar,
                mfa: user.mfa,
                created_at: user.created_at,
                updated_at: user.updated_at,
                token,
            }),
    {
        UserRespWithToken {
            id: user.id,
            name: user.username,
            email: user.email,
            gender: user.gender,
            ty: user.ty,
            avatar: user.avatar,
            mfa: user.mfa,
            created_at: user.created_at,
            updated_at: user.updated_at,
            token,
        }
    }
}

} // verus!
