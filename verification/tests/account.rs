use raline::config::{AuthConfig, AuthConfigDefine};
use raline::dto::oauth::OAuthQuery;
use raline::dto::user::{AuthenticationToken, RegisterReq, ResetPasswdReq, UpdateUserReq};
use raline::dto::view_counter::{ColumnQueryAs, SetCountAction, SetViewCount, ViewCountQuery};
use raline::model::users;
use raline::model::view_counter::{
    find_counters, get_view_count, increase_by_path, step, Model,
};
use raline::model::{UserGender, UserType};
use raline::service::account::{
    login, page_index, refuse_code, register, reset_password, set_name, update_user, AccountError,
};
use raline::service::auth::{bind, redirect_with_token, AuthService, Binding, Provider, UnknownProvider};
use raline::utils::jwt::{Claims, OptionalClaims};

fn account(password: Option<&str>) -> users::Model {
    users::Model {
        id: 7,
        username: String::from("ann"),
        email: Some(String::from("ann@example.com")),
        password: password.map(String::from),
        gender: UserGender::Unknown,
        ty: UserType::Normal,
        avatar: None,
        mfa: false,
        created_at: 0,
        updated_at: 0,
    }
}

fn define(id: &str, secret: Option<&str>) -> AuthConfigDefine {
    AuthConfigDefine { client_id: String::from(id), client_secret: secret.map(String::from) }
}

fn auth() -> AuthService {
    AuthService {
        server_url: String::from("https://comments.example.com"),
        auth: AuthConfig {
            qq: define("qq-id", Some("qq-secret")),
            weibo: define("weibo-id", None),
            wechat: define("wechat-id", Some("wechat-secret")),
            github: define("github-id", Some("github-secret")),
            twitter: define("twitter-id", Some("twitter-secret")),
        },
    }
}

fn counters(id: i32, url: &str) -> Model {
    Model {
        id,
        url: String::from(url),
        times: 10,
        reaction0: 0,
        reaction1: 1,
        reaction2: 2,
        reaction3: 3,
        reaction4: 4,
        reaction5: 5,
        reaction6: 6,
        reaction7: 7,
        reaction8: 8,
        created_at: 0,
        updated_at: 0,
    }
}

#[test]
fn a_sign_in_needs_the_password_of_the_account() {
    let body = AuthenticationToken {
        email: String::from("ann@example.com"),
        password: String::from("secret"),
    };
    assert_eq!(login(Some(&account(Some("secret"))), &body), Ok(()));
    assert_eq!(login(Some(&account(Some("other"))), &body), Err(AccountError::ErrorPassword));
    assert_eq!(login(Some(&account(None)), &body), Err(AccountError::NotPassword));
    assert_eq!(login(None, &body), Err(AccountError::UserNotExists));
    assert_eq!(AccountError::ErrorPassword.status(), 401);
    assert_eq!(AccountError::NotPassword.status(), 401);
    assert_eq!(AccountError::UserNotExists.status(), 404);
    assert_eq!(AccountError::ExpiredCode.status(), 400);
    assert_eq!(AccountError::ErrorCode.status(), 400);
    assert_eq!(AccountError::UserRegistered.status(), 400);
}

#[test]
fn an_account_is_opened_with_a_valid_code() {
    let body = || RegisterReq {
        name: String::from("271828"),
        email: String::from("ann@example.com"),
        password: String::from("secret"),
        validate_code: String::from("abc123"),
    };
    let code = Some(String::from("abc123"));
    assert_eq!(register(&None, false, body()).err(), Some(AccountError::ExpiredCode));
    assert_eq!(register(&None, true, body()).err(), Some(AccountError::ExpiredCode));
    assert_eq!(
        register(&Some(String::from("zzz")), false, body()).err(),
        Some(AccountError::ErrorCode)
    );
    assert_eq!(register(&code, true, body()).err(), Some(AccountError::UserRegistered));
    let user = register(&code, false, body()).unwrap();
    assert_eq!(user.id, None);
    assert_eq!(user.username.as_deref(), Some("271828"));
    assert_eq!(user.email, Some(Some(String::from("ann@example.com"))));
    assert_eq!(user.password, Some(Some(String::from("secret"))));
    assert_eq!(user.gender, Some(UserGender::Unknown));
    assert_eq!(user.ty, Some(UserType::Normal));
    assert_eq!(user.mfa, Some(false));
    assert_eq!(
        user.avatar,
        Some(Some(String::from("https://q1.qlogo.cn/g?b=qq&nk=271828&s=100")))
    );
    assert_eq!(refuse_code(&code, &String::from("abc123")), None);
}

#[test]
fn a_password_is_reset_with_a_valid_code() {
    let body = || ResetPasswdReq {
        email: String::from("ann@example.com"),
        password: String::from("fresh"),
        validate_code: String::from("abc123"),
    };
    let code = Some(String::from("abc123"));
    let user = account(Some("old"));
    assert_eq!(reset_password(&None, Some(&user), body()).err(), Some(AccountError::ExpiredCode));
    assert_eq!(
        reset_password(&Some(String::from("x")), Some(&user), body()).err(),
        Some(AccountError::ErrorCode)
    );
    assert_eq!(reset_password(&code, None, body()).err(), Some(AccountError::UserNotExists));
    let ac = reset_password(&code, Some(&user), body()).unwrap();
    assert_eq!(ac.id, Some(7));
    assert_eq!(ac.password, Some(Some(String::from("fresh"))));
    assert_eq!(ac.username, None);
    assert_eq!(ac.email, None);
}

#[test]
fn an_account_changes_in_the_fields_that_are_given() {
    let ac = update_user(
        7,
        UpdateUserReq {
            name: Some(String::from("Ann")),
            gender: None,
            password: None,
            avatar: Some(String::from("https://example.com/a.png")),
        },
    );
    assert_eq!(ac.id, Some(7));
    assert_eq!(ac.username.as_deref(), Some("Ann"));
    assert_eq!(ac.gender, None);
    assert_eq!(ac.password, None);
    assert_eq!(ac.avatar, Some(Some(String::from("https://example.com/a.png"))));
    assert_eq!(ac.email, None);
    let ac = set_name(7, String::from("Bob"));
    assert_eq!(ac.id, Some(7));
    assert_eq!(ac.username.as_deref(), Some("Bob"));
    assert_eq!(ac.password, None);
    assert_eq!(page_index(0), 0);
    assert_eq!(page_index(1), 0);
    assert_eq!(page_index(2), 1);
    assert_eq!(page_index(u64::MAX), u64::MAX - 1);
}

#[test]
fn a_provider_is_known_by_its_name() {
    assert_eq!(Provider::parse("qq"), Some(Provider::QQ));
    assert_eq!(Provider::parse("wechat"), Some(Provider::Wechat));
    assert_eq!(Provider::parse("weibo"), Some(Provider::Weibo));
    assert_eq!(Provider::parse("github"), Some(Provider::Github));
    assert_eq!(Provider::parse("twitter"), Some(Provider::Twitter));
    assert_eq!(Provider::parse("QQ"), None);
    assert_eq!(Provider::parse(""), None);
    assert_eq!(Provider::QQ.avatar_key(), "figureurl");
    assert_eq!(Provider::Weibo.avatar_key(), "headimgurl");
    assert_eq!(Provider::Wechat.avatar_key(), "headimgurl");
    assert_eq!(Provider::Github.avatar_key(), "avatar_url");
    assert_eq!(Provider::Twitter.avatar_key(), "profile_image_url");
    assert_eq!(Provider::QQ.gender_key(), Some("gender"));
    assert_eq!(Provider::Weibo.gender_key(), Some("sex"));
    assert_eq!(Provider::Wechat.gender_key(), Some("sex"));
    assert_eq!(Provider::Github.gender_key(), None);
    assert_eq!(Provider::QQ.gender(Some("\u{7537}"), None), UserGender::Male);
    assert_eq!(Provider::Weibo.gender(Some("\u{5973}"), Some(1)), UserGender::Female);
    assert_eq!(Provider::QQ.gender(None, Some(1)), UserGender::Unknown);
    assert_eq!(Provider::Wechat.gender(None, Some(1)), UserGender::Male);
    assert_eq!(Provider::Wechat.gender(Some("\u{7537}"), Some(2)), UserGender::Female);
    assert_eq!(Provider::Wechat.gender(Some("\u{7537}"), Some(3)), UserGender::Unknown);
    assert_eq!(Provider::Github.gender(Some("\u{7537}"), Some(1)), UserGender::Unknown);
}

#[test]
fn a_provider_is_described_with_the_callback_of_this_server() {
    let s = auth();
    let server = s.get_auth_server("github", OAuthQuery { redirect: None }).unwrap();
    assert_eq!(server.provider, Provider::Github);
    assert_eq!(server.client_id, "github-id");
    assert_eq!(server.client_secret, "github-secret");
    assert_eq!(server.redirect_uri, "https://comments.example.com/api/oauth/github/callback");
    let query = OAuthQuery { redirect: Some(String::from("https://example.com/post")) };
    let server = s.get_auth_server("weibo", query).unwrap();
    assert_eq!(server.provider, Provider::Weibo);
    assert_eq!(server.client_id, "weibo-id");
    assert_eq!(server.client_secret, "");
    assert_eq!(
        server.redirect_uri,
        "https://comments.example.com/api/oauth/weibo/callback?redirect=https://example.com/post"
    );
    assert_eq!(
        s.get_auth_server("gitlab", OAuthQuery { redirect: None }).err(),
        Some(UnknownProvider)
    );
}

#[test]
fn the_token_travels_in_the_query_of_the_destination() {
    let plain = Some(String::from("https://example.com/post"));
    let query = Some(String::from("https://example.com/post?id=1"));
    assert_eq!(
        redirect_with_token(&plain, false, "t0k").as_deref(),
        Some("https://example.com/post?token=t0k")
    );
    assert_eq!(
        redirect_with_token(&query, true, "t0k").as_deref(),
        Some("https://example.com/post?id=1&token=t0k")
    );
    assert_eq!(redirect_with_token(&None, true, "t0k").as_deref(), Some("/ui/profile?token=t0k"));
    assert_eq!(redirect_with_token(&None, false, "t0k"), None);
}

#[test]
fn a_sign_in_belongs_to_one_account() {
    let who = OptionalClaims(Some(Claims { uid: 9, ty: UserType::Normal, mail: None, exp: 0 }));
    assert_eq!(bind(Some(3), &who), Binding::Linked { user_id: 3 });
    assert_eq!(bind(Some(3), &OptionalClaims(None)), Binding::Linked { user_id: 3 });
    assert_eq!(bind(None, &who), Binding::Caller { user_id: 9 });
    assert_eq!(bind(None, &OptionalClaims(None)), Binding::Fresh);
}

#[test]
fn a_counter_moves_by_one_and_stays_in_range() {
    assert_eq!(step(0, SetCountAction::Asc), 1);
    assert_eq!(step(41, SetCountAction::Asc), 42);
    assert_eq!(step(41, SetCountAction::Desc), 40);
    assert_eq!(step(0, SetCountAction::Desc), 0);
    assert_eq!(step(-1, SetCountAction::Asc), 0);
    assert_eq!(step(-9, SetCountAction::Asc), 0);
    assert_eq!(step(-9, SetCountAction::Desc), 0);
    assert_eq!(step(i32::MAX, SetCountAction::Asc), i32::MAX);
    assert_eq!(step(i32::MIN, SetCountAction::Desc), 0);
    assert_eq!(SetCountAction::default(), SetCountAction::Asc);
}

#[test]
fn each_counter_is_read_from_its_column() {
    let m = counters(1, "/a");
    let all = [
        (ColumnQueryAs::Times, 10),
        (ColumnQueryAs::Reaction0, 0),
        (ColumnQueryAs::Reaction1, 1),
        (ColumnQueryAs::Reaction2, 2),
        (ColumnQueryAs::Reaction3, 3),
        (ColumnQueryAs::Reaction4, 4),
        (ColumnQueryAs::Reaction5, 5),
        (ColumnQueryAs::Reaction6, 6),
        (ColumnQueryAs::Reaction7, 7),
        (ColumnQueryAs::Reaction8, 8),
    ];
    for (column, value) in all {
        assert_eq!(column.get(&m), value);
    }
}

#[test]
fn a_counter_is_created_at_one_or_moved() {
    let q = |action, ty| SetViewCount { path: String::from("/a"), action, ty };
    let ac = increase_by_path(None, q(SetCountAction::Desc, ColumnQueryAs::Reaction3));
    assert_eq!(ac.id, None);
    assert_eq!(ac.url.as_deref(), Some("/a"));
    assert_eq!(ac.column, ColumnQueryAs::Reaction3);
    assert_eq!(ac.value, 1);
    let m = counters(4, "/a");
    let ac = increase_by_path(Some(&m), q(SetCountAction::Asc, ColumnQueryAs::Times));
    assert_eq!(ac.id, Some(4));
    assert_eq!(ac.url, None);
    assert_eq!(ac.column, ColumnQueryAs::Times);
    assert_eq!(ac.value, 11);
    let ac = increase_by_path(Some(&m), q(SetCountAction::Desc, ColumnQueryAs::Reaction0));
    assert_eq!(ac.value, 0);
    let ac = increase_by_path(Some(&m), q(SetCountAction::Desc, ColumnQueryAs::Reaction8));
    assert_eq!(ac.value, 7);
}

#[test]
fn counters_are_listed_for_each_path() {
    let models = vec![counters(1, "/a"), counters(2, "/b")];
    let q = ViewCountQuery {
        path: vec![String::from("/b"), String::from("/missing")],
        types: vec![ColumnQueryAs::Reaction2, ColumnQueryAs::Times],
    };
    assert_eq!(
        get_view_count(&models, &q),
        vec![
            vec![(ColumnQueryAs::Reaction2, 2), (ColumnQueryAs::Times, 10)],
            vec![(ColumnQueryAs::Reaction2, 0), (ColumnQueryAs::Times, 0)],
        ]
    );
    let none = ViewCountQuery { path: vec![], types: vec![ColumnQueryAs::Times] };
    assert_eq!(get_view_count(&models, &none), vec![vec![(ColumnQueryAs::Times, 0)]]);
    assert_eq!(find_counters(&models, "/a").map(|m| m.id), Some(1));
    assert!(find_counters(&models, "/c").is_none());
}
