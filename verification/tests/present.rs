use raline::config::{ComrakConfig, RalineConfig};
use raline::model::comments::Model;
use raline::model::users;
use raline::model::{CommentStatus, UserGender, UserType};
use raline::plugins::uaparser::{Client, ToStringExt, UserAgent, OS};
use raline::service::comment::CommentService;
use raline::service::present::{find_user, Sourced};
use raline::utils::avatar::{avatar_from, avatar_url};
use raline::utils::ip2region::{get, split, Location};
use raline::utils::jwt::{Claims, OptionalClaims};
use raline::utils::markdown::render;
use raline::utils::sanitize::sanitize;

fn config() -> RalineConfig {
    RalineConfig {
        site_url: String::from("https://example.com"),
        site_name: String::from("example"),
        server_url: String::from("https://comments.example.com"),
        disallow_ips: vec![],
        ip_qps: 60,
        audit: false,
        disable_user_agent: false,
        disable_region: false,
        forbidden_words: vec![],
        recaptcha_v3_key: None,
        turnstile_key: None,
    }
}

fn row(id: i32, rid: i32) -> Model {
    Model {
        id,
        page_id: 1,
        user_id: None,
        content: String::from("**hi** <script>alert(1)</script>"),
        ip: String::from("10.0.0.1"),
        link: Some(String::from("https://ann.example.com")),
        mail: Some(String::from("hello world")),
        nick: Some(String::from("ann")),
        pid: 0,
        rid,
        sticky: false,
        status: CommentStatus::Approved,
        star: 3,
        ua: String::from("Mozilla/5.0"),
        created_at: 1_700_000_000_000,
        updated_at: 1_700_000_000_500,
    }
}

fn client() -> Client {
    Client {
        user_agent: UserAgent {
            family: String::from("Firefox"),
            major: Some(String::from("128")),
            minor: Some(String::from("0")),
            patch: None,
        },
        os: OS {
            family: String::from("Linux"),
            major: None,
            minor: None,
            patch: None,
            patch_minor: None,
        },
    }
}

fn shenzhen() -> Location {
    Location {
        contry: Some(String::from("\u{4e2d}\u{56fd}")),
        region: None,
        province: Some(String::from("Guangdong")),
        city: Some(String::from("Shenzhen")),
        isp: Some(String::from("Telecom")),
    }
}

fn sourced(row: Model) -> Sourced {
    Sourced { row, client: Some(client()), location: Some(shenzhen()) }
}

fn account(id: i32) -> users::Model {
    users::Model {
        id,
        username: String::from("Ann Account"),
        email: Some(String::from("account@example.com")),
        password: Some(String::from("secret")),
        gender: UserGender::Unknown,
        ty: UserType::Normal,
        avatar: Some(String::from("https://example.com/ann.png")),
        mfa: false,
        created_at: 0,
        updated_at: 0,
    }
}

fn anonymous() -> OptionalClaims {
    OptionalClaims(None)
}

fn user(uid: i32, ty: UserType) -> OptionalClaims {
    OptionalClaims(Some(Claims { uid, ty, mail: None, exp: 0 }))
}

#[test]
fn an_anonymous_comment_is_shown_to_an_anonymous_caller() {
    let s = CommentService::new(config(), ComrakConfig::default());
    let r = s.format_comment(&sourced(row(5, 0)), &vec![account(7)], &anonymous());
    assert_eq!(r.status, CommentStatus::Approved);
    assert_eq!(r.comment, "<p><strong>hi</strong> alert(1)</p>\n");
    assert_eq!(r.inserted_at, 1_700_000_000_000);
    assert_eq!(r.time, 1_700_000_000_000);
    assert_eq!(r.link.as_deref(), Some("https://ann.example.com"));
    assert_eq!(r.nick.as_deref(), Some("ann"));
    assert_eq!(r.mail.as_deref(), Some("hello world"));
    assert_eq!(r.ty, None);
    assert_eq!(r.avatar, "https://seccdn.libravatar.org/avatar/5eb63bbbe01eeed093cb22bb8f5acdc3");
    assert_eq!(r.pid, None);
    assert_eq!(r.rid, None);
    assert_eq!(r.user_id, None);
    assert!(!r.sticky);
    assert_eq!(r.like, 3);
    assert_eq!(r.object_id, 5);
    assert_eq!(r.level, 0);
    assert_eq!(r.browser, "Firefox 128.0");
    assert_eq!(r.os, "Linux");
    assert_eq!(r.orig, None);
    assert_eq!(r.addr.as_deref(), Some("Guangdong"));
    assert!(r.children.is_empty());
}

#[test]
fn the_account_of_the_author_overrides_the_row() {
    let s = CommentService::new(config(), ComrakConfig::default());
    let mut c = row(5, 2);
    c.user_id = Some(7);
    c.pid = 4;
    let users = vec![account(6), account(7)];
    let r = s.format_comment(&sourced(c), &users, &user(9, UserType::Normal));
    assert_eq!(r.nick.as_deref(), Some("Ann Account"));
    assert_eq!(r.mail.as_deref(), Some("account@example.com"));
    assert_eq!(r.avatar, "https://example.com/ann.png");
    assert_eq!(r.ty, Some(UserType::Normal));
    assert_eq!(r.user_id, Some(7));
    assert_eq!(r.pid, Some(4));
    assert_eq!(r.rid, Some(2));
    assert_eq!(r.orig.as_deref(), Some("**hi** <script>alert(1)</script>"));
    assert_eq!(r.addr.as_deref(), Some("Guangdong"));
    assert_eq!(find_user(&users, Some(7)).map(|u| u.id), Some(7));
    assert!(find_user(&users, Some(8)).is_none());
    assert!(find_user(&users, None).is_none());
}

#[test]
fn an_account_without_mail_or_picture_falls_back_to_the_row() {
    let s = CommentService::new(config(), ComrakConfig::default());
    let mut c = row(5, 0);
    c.user_id = Some(7);
    let mut a = account(7);
    a.username = String::from("31415");
    a.email = None;
    a.avatar = None;
    let r = s.format_comment(&sourced(c), &vec![a], &anonymous());
    assert_eq!(r.nick.as_deref(), Some("31415"));
    assert_eq!(r.mail.as_deref(), Some("hello world"));
    assert_eq!(r.avatar, "https://q1.qlogo.cn/g?b=qq&nk=31415&s=100");
}

#[test]
fn an_administrator_sees_the_region_in_detail() {
    let mut cfg = config();
    cfg.disable_region = true;
    cfg.disable_user_agent = true;
    let s = CommentService::new(cfg, ComrakConfig::default());
    assert!(s.wants_region(&user(1, UserType::Admin)));
    assert!(!s.wants_region(&user(2, UserType::Normal)));
    assert!(!s.wants_region(&anonymous()));
    assert!(!s.wants_user_agent());
    let open = CommentService::new(config(), ComrakConfig::default());
    assert!(open.wants_region(&anonymous()));
    assert!(open.wants_user_agent());
    let r = s.format_comment(&sourced(row(5, 0)), &vec![], &user(1, UserType::Admin));
    assert_eq!(r.addr.as_deref(), Some("Guangdong Shenzhen Telecom"));
    assert_eq!(r.browser, "");
    assert_eq!(r.os, "");
    let r = s.format_comment(&sourced(row(5, 0)), &vec![], &user(2, UserType::Normal));
    assert_eq!(r.addr, None);
    let mut unknown = sourced(row(5, 0));
    unknown.location = None;
    unknown.client = None;
    let r = s.format_comment(&unknown, &vec![], &user(1, UserType::Admin));
    assert_eq!(r.addr, None);
    let s = CommentService::new(config(), ComrakConfig::default());
    let r = s.format_comment(&unknown, &vec![], &anonymous());
    assert_eq!(r.browser, "");
    assert_eq!(r.os, "");
}

#[test]
fn replies_are_nested_under_their_root() {
    let s = CommentService::new(config(), ComrakConfig::default());
    let roots = vec![sourced(row(1, 0)), sourced(row(2, 0)), sourced(row(3, 0))];
    let pool = vec![
        sourced(row(10, 3)),
        sourced(row(11, 1)),
        sourced(row(12, 3)),
        sourced(row(13, 9)),
        sourced(row(14, 1)),
        sourced(row(15, 10)),
    ];
    let data = s.compute_comments(&roots, &pool, &vec![], &anonymous());
    let shape: Vec<(i32, Vec<i32>)> = data
        .iter()
        .map(|r| (r.object_id, r.children.iter().map(|c| c.object_id).collect()))
        .collect();
    assert_eq!(shape, vec![(1, vec![11, 14]), (2, vec![]), (3, vec![10, 12])]);
    for root in &data {
        assert_eq!(root.rid, None);
        for reply in &root.children {
            assert_eq!(reply.rid, Some(root.object_id));
            assert!(reply.children.is_empty());
        }
    }
    assert!(s.compute_comments(&vec![], &pool, &vec![], &anonymous()).is_empty());
    let kids = s.format_replies(3, &pool, &vec![], &anonymous());
    assert_eq!(kids.iter().map(|c| c.object_id).collect::<Vec<_>>(), vec![10, 12]);
}

#[test]
fn html_is_cleaned() {
    assert_eq!(sanitize("XSS<script>attack</script>"), "XSS");
    assert_eq!(sanitize("<b>bold</b>"), "<b>bold</b>");
    assert_eq!(sanitize("<p onclick=\"x()\">text</p>"), "<p>text</p>");
    assert_eq!(sanitize(""), "");
}

#[test]
fn pictures_follow_name_and_mail() {
    assert_eq!(avatar_url("12345", "ann@example.com"), "https://q1.qlogo.cn/g?b=qq&nk=12345&s=100");
    assert_eq!(avatar_url("ann", "12345@qq.com"), "https://q1.qlogo.cn/g?b=qq&nk=12345&s=100");
    assert_eq!(
        avatar_url("ann", "hello world"),
        "https://seccdn.libravatar.org/avatar/5eb63bbbe01eeed093cb22bb8f5acdc3"
    );
    assert_eq!(
        avatar_url("", ""),
        "https://seccdn.libravatar.org/avatar/d41d8cd98f00b204e9800998ecf8427e"
    );
    assert_eq!(
        avatar_url("12a45", "abc"),
        "https://seccdn.libravatar.org/avatar/900150983cd24fb0d6963f7d28e17f72"
    );
    assert_eq!(
        avatar_url("ann", "a12345@qq.com"),
        avatar_from("ann", "a12345@qq.com", false, false)
    );
    assert_eq!(avatar_from("x", "9@qq.com", true, true), "https://q1.qlogo.cn/g?b=qq&nk=x&s=100");
    assert_eq!(avatar_from("x", "9@qq.com", false, true), "https://q1.qlogo.cn/g?b=qq&nk=9&s=100");
    assert_eq!(
        avatar_from("x", "a", false, false),
        "https://seccdn.libravatar.org/avatar/0cc175b9c0f1b6a831c399e269772661"
    );
}

#[test]
fn a_version_is_written_as_far_as_it_is_known() {
    let mut ua = UserAgent {
        family: String::from("Chrome"),
        major: Some(String::from("120")),
        minor: Some(String::from("0")),
        patch: Some(String::from("6099")),
    };
    assert_eq!(ua.to_string(), "Chrome 120.0.6099");
    ua.patch = None;
    assert_eq!(ua.to_string(), "Chrome 120.0");
    ua.minor = None;
    assert_eq!(ua.to_string(), "Chrome 120");
    ua.major = None;
    assert_eq!(ua.to_string(), "Chrome");
    ua.minor = Some(String::from("1"));
    assert_eq!(ua.to_string(), "Chrome.1");
    let os = OS {
        family: String::from("Mac OS X"),
        major: Some(String::from("10")),
        minor: Some(String::from("15")),
        patch: Some(String::from("7")),
        patch_minor: Some(String::from("2")),
    };
    assert_eq!(os.to_string(), "Mac OS X 10.15.7");
}

#[test]
fn a_record_of_the_address_database_is_read() {
    let loc = Location::parse("\u{4e2d}\u{56fd}|0|Guangdong|Shenzhen|Telecom");
    assert_eq!(loc.contry.as_deref(), Some("\u{4e2d}\u{56fd}"));
    assert_eq!(loc.region, None);
    assert_eq!(loc.province.as_deref(), Some("Guangdong"));
    assert_eq!(loc.city.as_deref(), Some("Shenzhen"));
    assert_eq!(loc.isp.as_deref(), Some("Telecom"));
    let loc = Location::parse("US||California");
    assert_eq!(loc.contry.as_deref(), Some("US"));
    assert_eq!(loc.region, None);
    assert_eq!(loc.province.as_deref(), Some("California"));
    assert_eq!(loc.city, None);
    assert_eq!(loc.isp, None);
    let loc = Location::parse("");
    assert_eq!(loc.contry, None);
    assert_eq!(loc.isp, None);
    let loc = Location::parse("a|b|c|d|e|f");
    assert_eq!(loc.isp.as_deref(), Some("e"));
}

#[test]
fn a_text_is_split_at_every_separator() {
    assert_eq!(split("a|b|c", '|'), vec!["a", "b", "c"]);
    assert_eq!(split("", '|'), vec![""]);
    assert_eq!(split("|", '|'), vec!["", ""]);
    assert_eq!(split("a||b|", '|'), vec!["a", "", "b", ""]);
    assert_eq!(split("abc", '|'), vec!["abc"]);
}

#[test]
fn empty_and_zero_parts_are_absent() {
    let v = vec!["US", "0", "", "00", "x"];
    assert_eq!(get(&v, 0).as_deref(), Some("US"));
    assert_eq!(get(&v, 1), None);
    assert_eq!(get(&v, 2), None);
    assert_eq!(get(&v, 3).as_deref(), Some("00"));
    assert_eq!(get(&v, 4).as_deref(), Some("x"));
    assert_eq!(get(&v, 5), None);
    assert_eq!(get(&vec![], 0), None);
}

#[test]
fn a_region_is_written_to_a_depth() {
    assert_eq!(shenzhen().to_string(3), "Guangdong Shenzhen Telecom");
    assert_eq!(shenzhen().to_string(2), "Guangdong Shenzhen");
    assert_eq!(shenzhen().to_string(1), "Guangdong");
    assert_eq!(shenzhen().to_string(0), "");
    assert_eq!(shenzhen().to_string(9), "Guangdong Shenzhen Telecom");
    let abroad = Location {
        contry: Some(String::from("US")),
        region: Some(String::from("West")),
        province: Some(String::from("California")),
        city: None,
        isp: Some(String::from("Comcast")),
    };
    assert_eq!(abroad.copy().to_string(1), "US");
    assert_eq!(abroad.copy().to_string(3), "US California Comcast");
    assert_eq!(abroad.copy().to_string(4), "US California Comcast");
    let nowhere = Location { contry: None, region: None, province: None, city: None, isp: None };
    assert_eq!(nowhere.to_string(3), "");
}

#[test]
fn markdown_is_rendered_with_the_configured_extensions() {
    let on = ComrakConfig::default();
    assert_eq!(render("**hi**", &on), "<p><strong>hi</strong></p>\n");
    assert_eq!(render("~~gone~~", &on), "<p><del>gone</del></p>\n");
    assert_eq!(render("", &on), "");
    let mut off = ComrakConfig::default();
    off.strikethrough = false;
    assert_eq!(render("~~gone~~", &off), "<p>~~gone~~</p>\n");
    assert_eq!(render(":smile:", &on), "<p>\u{1f604}</p>\n");
    off.shortcodes = false;
    assert_eq!(render(":smile:", &off), "<p>:smile:</p>\n");
}
