//! Signing in through an identity provider.

use vstd::prelude::*;
use vstd::string::StringExecFns;
use crate::config::{AuthConfig, AuthConfigDefine};
use crate::dto::oauth::OAuthQuery;
use crate::model::UserGender;
use crate::utils::jwt::OptionalClaims;
use crate::utils::text::{contains, has_substring, same_str, text};

verus! {

/// The identity providers that the service knows.
#[derive(Clone, Copy, Debug, PartialEq, Eq, Structural)]
pub enum Provider {
    QQ,
    Weibo,
    Wechat,
    Github,
    Twitter,
}

/// The request names a provider that the service does not know.
#[derive(Clone, Copy, Debug, PartialEq, Eq, Structural)]
pub struct UnknownProvider;

/// The account that a sign-in through a provider belongs to.
#[derive(Clone, Copy, Debug, PartialEq, Eq, Structural)]
pub enum Binding {
    /// The account that is already linked to the identity.
    Linked { user_id: i32 },
    /// The account of the caller, which is linked to the identity now.
    Caller { user_id: i32 },
    /// A new account, made from what the provider reports.
    Fresh,
}

/// What is needed to talk to one identity provider.
#[derive(Debug)]
pub struct AuthServer {
    pub provider: Provider,
    pub client_id: String,
    pub client_secret: String,
    pub redirect_uri: String,
}

/// The sign-in service: the address of this server and the credentials of
/// the providers.
#[derive(Debug)]
pub struct AuthService {
    pub server_url: String,
    pub auth: AuthConfig,
}

impl Provider {
    /// The provider with the name `ty`.
    pub open spec fn named(ty: Seq<char>) -> Option<Provider> {
        if ty == "qq"@ {
            Some(Provider::QQ)
        } else if ty == "wechat"@ {
            Some(Provider::Wechat)
        } else if ty == "weibo"@ {
            Some(Provider::Weibo)
        } else if ty == "github"@ {
            Some(Provider::Github)
        } else if ty == "twitter"@ {
            Some(Provider::Twitter)
        } else {
            None
        }
    }

    /// The key under which the provider reports the picture of a user.
    pub open spec fn avatar_key_spec(self) -> Seq<char> {
        match self {
            Provider::QQ => "figureurl"@,
            Provider::Weibo => "headimgurl"@,
            Provider::Wechat => "headimgurl"@,
            Provider::Github => "avatar_url"@,
            Provider::Twitter => "profile_image_url"@,
        }
    }

    /// The gender of a user, from what the provider reports as a word
    /// (`word`) or as a number (`number`). Two providers report a word,
    /// one a number where 1 is male and 2 female, the others nothing.
    pub open spec fn gender_spec(self, word: Option<Seq<char>>, number: Option<i64>) -> UserGender {
        match self {
            Provider::QQ | Provider::Weibo => match word {
                Some(w) => UserGender::named(w),
                None => UserGender::Unknown,
            },
            Provider::Wechat => if number == Some(1i64) {
                UserGender::Male
            } else if number == Some(2i64) {
                UserGender::Female
            } else {
                UserGender::Unknown
            },
            _ => UserGender::Unknown,
        }
    }

    /// Reads the name of a provider.
    pub fn parse(ty: &str) -> (r: Option<Provider>)
        ensures
            r == Provider::named(ty@),
    {
        if same_str(ty, "qq") {
            Some(Provider::QQ)
        } else if same_str(ty, "wechat") {
            Some(Provider::Wechat)
        } else if same_str(ty, "weibo") {
            Some(Provider::Weibo)
        } else if same_str(ty, "github") {
            Some(Provider::Github)
        } else if same_str(ty, "twitter") {
            Some(Provider::Twitter)
        } else {
            None
        }
    }

    /// The key under which the provider reports the picture of a user.
    pub fn avatar_key(&self) -> (key: &'static str)
        ensures
            key@ == self.avatar_key_spec(),
    {
        match self {
            Provider::QQ => "figureurl",
            Provider::Weibo => "headimgurl",
            Provider::Wechat => "headimgurl",
            Provider::Github => "avatar_url",
            Provider::Twitter => "profile_image_url",
        }
    }

    /// The key under which the provider reports the gender of a user, if
    /// it reports one.
    pub fn gender_key(&self) -> (key: Option<&'static str>)
        ensures
            match self {
                Provider::QQ => key matches Some(k) && k@ == "gender"@,
                Provider::Weibo | Provider::Wechat => key matches Some(k) && k@ == "sex"@,
                _ => key is None,
            },
    {
        match self {
            Provider::QQ => Some("gender"),
            Provider::Weibo => Some("sex"),
            Provider::Wechat => Some("sex"),
            _ => None,
        }
    }

    /// Reads the gender of a user from what the provider reports.
    pub fn gender(&self, word: Option<&str>, number: Option<i64>) -> (g: UserGender)
        ensures
            g == self.gender_spec(
                match word {
                    Some(w) => Some(w@),
                    None => None,
                },
                number,
            ),
    {
        match self {
            Provider::QQ | Provider::Weibo => match word {
                Some(w) => UserGender::from_string(w),
                None => UserGender::Unknown,
            },
            Provider::Wechat => match number {
                Some(n) => if n == 1 {
                    UserGender::Male
                } else if n == 2 {
                    UserGender::Female
                } else {
                    UserGender::Unknown
                },
                None => UserGender::Unknown,
            },
            _ => UserGender::Unknown,
        }
    }
}

/// The address to which provider `ty` sends the browser back: the callback
/// of this server, with the final destination where one is asked for.
pub open spec fn callback_url(server_url: Seq<char>, ty: Seq<char>, redirect: Option<Seq<char>>) -> Seq<
    char,
> {
    let base = server_url + "/api/oauth/"@ + ty + "/callback"@;
    match redirect {
        Some(r) => base + "?redirect="@ + r,
        None => base,
    }
}

/// Where the browser goes once the sign-in is done, with the token in the
/// query: to the destination asked for; without one, to the profile page
/// where the caller was signed in before, and nowhere otherwise.
pub open spec fn token_redirect(redirect: Option<Seq<char>>, signed_in: bool, token: Seq<char>) -> Option<
    Seq<char>,
> {
    match redirect {
        Some(r) => Some(
            if has_substring(r, seq!['?']) {
                r + "&token="@ + token
            } else {
                r + "?token="@ + token
            },
        ),
        None => if signed_in {
            Some("/ui/profile?token="@ + token)
        } else {
            None
        },
    }
}

/// Builds the address to which the browser goes once the sign-in is done.
pub fn redirect_with_token(redirect: &Option<String>, signed_in: bool, token: &str) -> (r: Option<
    String,
>)
    ensures
        text(r) == token_redirect(text(*redirect), signed_in, token@),
{
    match redirect {
        Some(target) => {
            proof {
                reveal_strlit("?");
                assert("?"@ =~= seq!['?']);
            }
            let mut url = target.clone();
            if contains(target.as_str(), "?") {
                url.append("&token=");
            } else {
                url.append("?token=");
            }
            url.append(token);
            Some(url)
        },
        None => {
            if signed_in {
                let mut url = String::from_str("/ui/profile?token=");
                url.append(token);
                Some(url)
            } else {
                None
            }
        },
    }
}

/// The account that a sign-in belongs to: the one already linked to the
/// identity (`linked`); else that of the caller, where the caller is
/// signed in; else a new one.
pub fn bind(linked: Option<i32>, who: &OptionalClaims) -> (b: Binding)
    ensures
        b == match linked {
            Some(user_id) => Binding::Linked { user_id },
            None => match who.0 {
                Some(c) => Binding::Caller { user_id: c.uid },
                None => Binding::Fresh,
            },
        },
{
    match linked {
        Some(user_id) => Binding::Linked { user_id },
        None => match &who.0 {
            Some(c) => Binding::Caller { user_id: c.uid },
            None => Binding::Fresh,
        },
    }
}

impl AuthService {
    /// The credentials configured for `provider`.
    pub open spec fn credentials(self, provider: Provider) -> AuthConfigDefine {
        match provider {
            Provider::QQ => self.auth.qq,
            Provider::Weibo => self.auth.weibo,
            Provider::Wechat => self.auth.wechat,
            Provider::Github => self.auth.github,
            Provider::Twitter => self.auth.twitter,
        }
    }

    /// Describes the provider with the name `ty`: its credentials, and the
    /// callback of this server as the address to return to.
    pub fn get_auth_server(&self, ty: &str, query: OAuthQuery) -> (r: Result<
        AuthServer,
        UnknownProvider,
    >)
        ensures
            match Provider::named(ty@) {
                None => r is Err,
                Some(p) => r matches Ok(server) && {
                    &&& server.provider == p
                    &&& server.client_id == self.credentials(p).client_id
                    &&& server.client_secret@ == match self.credentials(p).client_secret {
                        Some(s) => s@,
                        None => Seq::empty(),
                    }
                    &&& server.redirect_uri@ == callback_url(self.server_url@, ty@, text(query.redirect))
                },
            },
    {
        let provider = match Provider::parse(ty) {
            Some(p) => p,
            None => {
                return Err(UnknownProvider);
            },
        };
        let mut redirect_uri = self.server_url.clone();
        redirect_uri.append("/api/oauth/");
        redirect_uri.append(ty);
        redirect_uri.append("/callback");
        if let Some(redirect) = &query.redirect {
            redirect_uri.append("?redirect=");
            redirect_uri.append(redirect.as_str());
        }
        let define = match provider {
            Provider::QQ => &self.auth.qq,
            Provider::Weibo => &self.auth.weibo,
            Provider::Wechat => &self.auth.wechat,
            Provider::Github => &self.auth.github,
            Provider::Twitter => &self.auth.twitter,
        };
        let client_secret = match &define.client_secret {
            Some(s) => s.clone(),
            None => String::new(),
        };
        Ok(AuthServer { provider, client_id: define.client_id.clone(), client_secret, redirect_uri })
    }
}

} // verus!
