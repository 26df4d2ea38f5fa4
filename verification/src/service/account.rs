//! Opening an account, signing in, and changing an account.

use vstd::prelude::*;
use crate::dto::user::{AuthenticationToken, RegisterReq, ResetPasswdReq, UpdateUserReq};
use crate::model::users::{ActiveModel, Model};
use crate::model::{UserGender, UserType};
use crate::utils::avatar::{avatar_url, pictures};
use crate::utils::text::text;
use crate::utils::validate_code::{check_validate_code, code_checked, CodeCheck};

verus! {

/// Why a request on an account is turned down.
#[derive(Clone, Copy, Debug, PartialEq, Eq, Structural)]
pub enum AccountError {
    /// No account has the mail address.
    UserNotExists,
    /// The password is not the one of the account.
    ErrorPassword,
    /// The account has no password; it signs in another way.
    NotPassword,
    /// No validation code is on record any more.
    ExpiredCode,
    /// The validation code is not the one that was sent.
    ErrorCode,
    /// An account with the mail address exists already.
    UserRegistered,
}

impl AccountError {
    /// The HTTP status class of the refusal.
    pub open spec fn status_spec(self) -> u16 {
        match self {
            AccountError::UserNotExists => 404,
            AccountError::ErrorPassword => 401,
            AccountError::NotPassword => 401,
            AccountError::ExpiredCode => 400,
            AccountError::ErrorCode => 400,
            AccountError::UserRegistered => 400,
        }
    }

    /// The HTTP status code under which the refusal is reported.
    pub fn status(&self) -> (code: u16)
        ensures
            code == self.status_spec(),
    {
        match self {
            AccountError::UserNotExists => 404,
            AccountError::ErrorPassword => 401,
            AccountError::NotPassword => 401,
            AccountError::ExpiredCode => 400,
            AccountError::ErrorCode => 400,
            AccountError::UserRegistered => 400,
        }
    }
}

/// Whether the sign-in `body` succeeds against the account `user` found
/// for its mail address.
pub open spec fn signed_in(user: Option<Model>, body: AuthenticationToken) -> Result<(), AccountError> {
    match user {
        None => Err(AccountError::UserNotExists),
        Some(u) => match u.password {
            None => Err(AccountError::NotPassword),
            Some(p) => if p@ == body.password@ {
                Ok(())
            } else {
                Err(AccountError::ErrorPassword)
            },
        },
    }
}

/// The refusal that a validation code earns, if any.
pub open spec fn code_refusal(stored: Option<Seq<char>>, given: Seq<char>) -> Option<AccountError> {
    match code_checked(stored, given) {
        CodeCheck::Valid => None,
        CodeCheck::Expired => Some(AccountError::ExpiredCode),
        CodeCheck::Wrong => Some(AccountError::ErrorCode),
    }
}

/// The page of a listing that a request names, counted from zero: pages
/// are named from one, and page zero is the first as well.
pub open spec fn page_index_spec(page: u64) -> u64 {
    if page > 0 {
        (page - 1) as u64
    } else {
        0
    }
}

/// The index of the page that a request names.
pub fn page_index(page: u64) -> (index: u64)
    ensures
        index == page_index_spec(page),
{
    if page > 0 {
        page - 1
    } else {
        0
    }
}

/// Checks a sign-in with a password against the account found for the
/// mail address.
pub fn login(user: Option<&Model>, body: &AuthenticationToken) -> (r: Result<(), AccountError>)
    ensures
        r == signed_in(
            match user {
                Some(u) => Some(*u),
                None => None,
            },
            *body,
        ),
{
    let u = match user {
        None => {
            return Err(AccountError::UserNotExists);
        },
        Some(u) => u,
    };
    match &u.password {
        None => Err(AccountError::NotPassword),
        Some(p) => if *p == body.password {
            Ok(())
        } else {
            Err(AccountError::ErrorPassword)
        },
    }
}

/// Turns the finding on a validation code into a refusal.
pub fn refuse_code(stored: &Option<String>, given: &String) -> (r: Option<AccountError>)
    ensures
        r == code_refusal(text(*stored), given@),
{
    match check_validate_code(stored, given) {
        CodeCheck::Valid => None,
        CodeCheck::Expired => Some(AccountError::ExpiredCode),
        CodeCheck::Wrong => Some(AccountError::ErrorCode),
    }
}

/// Decides on the request `body` to open an account, and builds the row
/// to insert. `code` is the validation code on record for the mail
/// address, `taken` tells whether an account with the address exists.
///
/// The new account is a normal user of unknown gender, with the picture
/// that belongs to name and mail address.
pub fn register(code: &Option<String>, taken: bool, body: RegisterReq) -> (r: Result<
    ActiveModel,
    AccountError,
>)
    ensures
        match code_refusal(text(*code), body.validate_code@) {
            Some(e) => r == Err::<ActiveModel, AccountError>(e),
            None => if taken {
                r == Err::<ActiveModel, AccountError>(AccountError::UserRegistered)
            } else {
                r matches Ok(user) && {
                    &&& user.id is None
                    &&& user.username == Some(body.name)
                    &&& user.email == Some(Some(body.email))
                    &&& user.password == Some(Some(body.password))
                    &&& user.gender == Some(UserGender::Unknown)
                    &&& user.ty == Some(UserType::Normal)
                    &&& user.mfa == Some(false)
                    &&& user.avatar matches Some(Some(a)) && pictures(a@, body.name@, body.email@)
                }
            },
        },
{
    if let Some(e) = refuse_code(code, &body.validate_code) {
        return Err(e);
    }
    if taken {
        return Err(AccountError::UserRegistered);
    }
    let avatar = avatar_url(body.name.as_str(), body.email.as_str());
    let mut user = ActiveModel::default();
    user.username = Some(body.name);
    user.email = Some(Some(body.email));
    user.password = Some(Some(body.password));
    user.gender = Some(UserGender::Unknown);
    user.ty = Some(UserType::Normal);
    user.mfa = Some(false);
    user.avatar = Some(Some(avatar));
    Ok(user)
}

/// Decides on the request `body` to set a new password, and builds the
/// write. `code` is the validation code on record for the mail address,
/// `user` the account found for it.
pub fn reset_password(code: &Option<String>, user: Option<&Model>, body: ResetPasswdReq) -> (r: Result<
    ActiveModel,
    AccountError,
>)
    ensures
        match code_refusal(text(*code), body.validate_code@) {
            Some(e) => r == Err::<ActiveModel, AccountError>(e),
            None => match user {
                None => r == Err::<ActiveModel, AccountError>(AccountError::UserNotExists),
                Some(u) => r == Ok::<ActiveModel, AccountError>(
                    ActiveModel {
                        id: Some(u.id),
                        password: Some(Some(body.password)),
                        ..ActiveModel::unset()
                    },
                ),
            },
        },
{
    if let Some(e) = refuse_code(code, &body.validate_code) {
        return Err(e);
    }
    let u = match user {
        None => {
            return Err(AccountError::UserNotExists);
        },
        Some(u) => u,
    };
    let mut ac = ActiveModel::default();
    ac.id = Some(u.id);
    ac.password = Some(Some(body.password));
    Ok(ac)
}

/// Builds the write with which the request `req` changes the account
/// `id`: the fields that are present, and no others.
pub fn update_user(id: i32, req: UpdateUserReq) -> (ac: ActiveModel)
    ensures
        ac == (ActiveModel {
            id: Some(id),
            username: req.name,
            gender: req.gender,
            password: match req.password {
                Some(p) => Some(Some(p)),
                None => None,
            },
            avatar: match req.avatar {
                Some(a) => Some(Some(a)),
                None => None,
            },
            ..ActiveModel::unset()
        }),
{
    let mut ac = ActiveModel::default();
    ac.id = Some(id);
    ac.username = req.name;
    ac.gender = req.gender;
    ac.password = match req.password {
        Some(p) => Some(Some(p)),
        None => None,
    };
    ac.avatar = match req.avatar {
        Some(a) => Some(Some(a)),
        None => None,
    };
    ac
}

/// Builds the write that gives the account `id` the name `name`.
pub fn set_name(id: i32, name: String) -> (ac: ActiveModel)
    ensures
        ac == (ActiveModel { id: Some(id), username: Some(name), ..ActiveModel::unset() }),
{
    let mut ac = ActiveModel::default();
    ac.id = Some(id);
    ac.username = Some(name);
    ac
}

} // verus!
