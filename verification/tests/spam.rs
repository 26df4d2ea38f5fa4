use raline::config::{ComrakConfig, RalineConfig};
use raline::dto::comment::AddCommentReq;
use raline::error::Rejection;
use raline::model::comments::{ActiveModel, Model};
use raline::model::page_view_counter::PathId;
use raline::model::{CommentStatus, UserType};
use raline::service::comment::CommentService;
use raline::service::spam::{build_pattern, is_listed, quote, settle, Check, Outcome, Verdict};
use raline::service::criteria::{count, exists_row, select};
use raline::service::submit::{find_by_id, resolve_root, root_criteria};
use raline::utils::jwt::{Claims, OptionalClaims};
use raline::utils::pattern::is_match;

fn config() -> RalineConfig {
    RalineConfig {
        site_url: String::from("https://example.com"),
        site_name: String::from("example"),
        server_url: String::from("https://comments.example.com"),
        disallow_ips: vec![String::from("192.0.2.7"), String::from("2001:db8::1")],
        ip_qps: 60,
        audit: false,
        disable_user_agent: false,
        disable_region: false,
        forbidden_words: vec![],
        recaptcha_v3_key: None,
        turnstile_key: None,
    }
}

fn words(list: &[&str]) -> CommentService {
    let mut c = config();
    c.forbidden_words = list.iter().map(|w| String::from(*w)).collect();
    CommentService::new(c, ComrakConfig::default())
}

fn draft(comment: &str) -> AddCommentReq {
    AddCommentReq {
        comment: String::from(comment),
        ua: String::from("Mozilla/5.0"),
        url: String::from("/posts/1"),
        at: None,
        nick: Some(String::from("ann")),
        link: None,
        mail: Some(String::from("ann@example.com")),
        pid: None,
        rid: None,
    }
}

fn page() -> PathId {
    PathId { id: 1, path: String::from("/posts/1") }
}

fn anonymous() -> OptionalClaims {
    OptionalClaims(None)
}

fn user(uid: i32, ty: UserType) -> OptionalClaims {
    OptionalClaims(Some(Claims { uid, ty, mail: None, exp: 0 }))
}

const MINUTE: i64 = 60_000;

fn store(rows: &mut Vec<Model>, ac: ActiveModel) -> i32 {
    let id = rows.len() as i32 + 1;
    rows.push(ac.insert(id));
    id
}

#[test]
fn a_denied_address_is_rejected_first() {
    let s = CommentService::new(config(), ComrakConfig::default());
    let body = draft("hello");
    let r = s.check_comment(&vec![], Some(&page()), &body, "192.0.2.7", 0, Verdict::Ham);
    assert_eq!(r, Err(Rejection::ForbiddenIp));
    let r = s.check_comment(&vec![], None, &body, "2001:db8::1", 0, Verdict::Ham);
    assert_eq!(r, Err(Rejection::ForbiddenIp));
    assert_eq!(s.screen(&vec![], Some(&page()), &body, "192.0.2.8", 0), None);
    assert!(is_listed(&s.raline.disallow_ips, "192.0.2.7"));
    assert!(!is_listed(&s.raline.disallow_ips, "192.0.2.70"));
}

#[test]
fn a_submission_to_an_unregistered_page_is_rejected() {
    let s = CommentService::new(config(), ComrakConfig::default());
    let r = s.check_comment(&vec![], None, &draft("hello"), "10.0.0.1", 0, Verdict::Ham);
    assert_eq!(r, Err(Rejection::PageNotFound));
}

#[test]
fn the_same_submission_twice_is_a_duplicate() {
    let s = CommentService::new(config(), ComrakConfig::default());
    let mut rows = Vec::new();
    let first = s
        .add_comment(&rows, &page(), &anonymous(), "10.0.0.1", draft("hello"), 0, Verdict::Ham)
        .unwrap();
    store(&mut rows, first);
    let again = s.add_comment(
        &rows,
        &page(),
        &anonymous(),
        "10.0.0.2",
        draft("hello"),
        10 * MINUTE,
        Verdict::Ham,
    );
    assert_eq!(again.err(), Some(Rejection::DuplicateContent));
    let changed = s.add_comment(
        &rows,
        &page(),
        &anonymous(),
        "10.0.0.2",
        draft("hello again"),
        10 * MINUTE,
        Verdict::Ham,
    );
    assert_eq!(changed.unwrap().status, Some(CommentStatus::Approved));
}

#[test]
fn a_change_to_any_author_field_is_no_duplicate() {
    let s = CommentService::new(config(), ComrakConfig::default());
    let mut rows = Vec::new();
    let first = s
        .add_comment(&rows, &page(), &anonymous(), "10.0.0.1", draft("hello"), 0, Verdict::Ham)
        .unwrap();
    store(&mut rows, first);
    let later = 10 * MINUTE;
    let mut other_nick = draft("hello");
    other_nick.nick = Some(String::from("bob"));
    let mut other_mail = draft("hello");
    other_mail.mail = None;
    let mut other_link = draft("hello");
    other_link.link = Some(String::from("https://ann.example.com"));
    for body in [other_nick, other_mail, other_link] {
        assert_eq!(s.screen(&rows, Some(&page()), &body, "10.0.0.1", later), None);
    }
    let other_page = PathId { id: 2, path: String::from("/posts/2") };
    assert_eq!(s.screen(&rows, Some(&other_page), &draft("hello"), "10.0.0.1", later), None);
    assert_eq!(
        s.screen(&rows, Some(&page()), &draft("hello"), "10.0.0.1", later),
        Some(Rejection::DuplicateContent)
    );
}

#[test]
fn a_quoting_reply_twice_is_a_duplicate() {
    let s = CommentService::new(config(), ComrakConfig::default());
    let mut rows = Vec::new();
    let root = s
        .add_comment(&rows, &page(), &anonymous(), "10.0.0.1", draft("root"), 0, Verdict::Ham)
        .unwrap();
    let root_id = store(&mut rows, root);
    let mut reply = draft("me too");
    reply.at = Some(String::from("ann"));
    reply.pid = Some(root_id);
    reply.rid = Some(root_id);
    let stored = s
        .add_comment(&rows, &page(), &anonymous(), "10.0.0.2", reply, 5 * MINUTE, Verdict::Ham)
        .unwrap();
    assert_eq!(stored.content.as_deref(), Some("[@ann](#1): me too"));
    store(&mut rows, stored);
    let mut again = draft("me too");
    again.at = Some(String::from("ann"));
    again.pid = Some(root_id);
    again.rid = Some(root_id);
    let r = s.add_comment(&rows, &page(), &anonymous(), "10.0.0.3", again, 9 * MINUTE, Verdict::Ham);
    assert_eq!(r.err(), Some(Rejection::DuplicateContent));
}

#[test]
fn one_address_posts_once_in_the_window() {
    let s = CommentService::new(config(), ComrakConfig::default());
    let mut rows = Vec::new();
    let start = 1_700_000_000_000;
    let first = s
        .add_comment(&rows, &page(), &anonymous(), "10.0.0.1", draft("one"), start, Verdict::Ham)
        .unwrap();
    store(&mut rows, first);
    let soon = s.add_comment(
        &rows,
        &page(),
        &user(7, UserType::Normal),
        "10.0.0.1",
        draft("two"),
        start + MINUTE - 1,
        Verdict::Ham,
    );
    assert_eq!(soon.err(), Some(Rejection::TooFast));
    let elsewhere = s.add_comment(
        &rows,
        &page(),
        &anonymous(),
        "10.0.0.2",
        draft("two"),
        start + 1,
        Verdict::Ham,
    );
    assert!(elsewhere.is_ok());
    let later = s.add_comment(
        &rows,
        &page(),
        &anonymous(),
        "10.0.0.1",
        draft("two"),
        start + MINUTE,
        Verdict::Ham,
    );
    assert!(later.is_ok());
}

#[test]
fn administrators_bypass_the_pipeline_but_fill_the_window() {
    let s = CommentService::new(config(), ComrakConfig::default());
    let admin = user(1, UserType::Admin);
    let mut rows = Vec::new();
    let start = 1_700_000_000_000;
    for n in 0..60 {
        let body = draft(&format!("note {n}"));
        let ac = s
            .add_comment(&rows, &page(), &admin, "10.0.0.1", body, start + 1_000 * n, Verdict::Spam)
            .unwrap();
        assert_eq!(ac.status, Some(CommentStatus::Approved));
        store(&mut rows, ac);
    }
    assert_eq!(rows.len(), 60);
    let r = s.add_comment(
        &rows,
        &page(),
        &user(7, UserType::Normal),
        "10.0.0.1",
        draft("me too"),
        start + 59_999,
        Verdict::Ham,
    );
    assert_eq!(r.err(), Some(Rejection::TooFast));
    let r = s.add_comment(
        &rows,
        &page(),
        &admin,
        "10.0.0.1",
        draft("note 60"),
        start + 59_999,
        Verdict::Ham,
    );
    assert_eq!(r.unwrap().status, Some(CommentStatus::Approved));
}

#[test]
fn an_administrator_on_a_denied_address_is_accepted() {
    let s = words(&["pills"]);
    let admin = user(1, UserType::Admin);
    let r = s.add_comment(
        &vec![],
        &page(),
        &admin,
        "192.0.2.7",
        draft("cheap pills"),
        0,
        Verdict::Spam,
    );
    assert_eq!(r.unwrap().status, Some(CommentStatus::Approved));
}

#[test]
fn the_initial_status_follows_audit_and_verdict() {
    assert_eq!(settle(false, Verdict::Ham, Some(false)), Ok(CommentStatus::Approved));
    assert_eq!(settle(false, Verdict::Unavailable, Some(false)), Ok(CommentStatus::Approved));
    assert_eq!(settle(false, Verdict::Spam, Some(false)), Ok(CommentStatus::Spam));
    assert_eq!(settle(true, Verdict::Ham, Some(false)), Ok(CommentStatus::Waiting));
    assert_eq!(settle(true, Verdict::Spam, Some(false)), Ok(CommentStatus::Waiting));
    assert_eq!(settle(true, Verdict::Unavailable, Some(false)), Ok(CommentStatus::Waiting));
}

#[test]
fn a_forbidden_word_always_makes_spam() {
    for audit in [false, true] {
        for verdict in [Verdict::Ham, Verdict::Spam, Verdict::Unavailable] {
            assert_eq!(settle(audit, verdict, Some(true)), Ok(CommentStatus::Spam));
            assert_eq!(settle(audit, verdict, None), Err(Rejection::ForbiddenWords));
        }
    }
}

#[test]
fn the_pipeline_gives_the_same_answer_for_the_same_input() {
    let mut c = config();
    c.forbidden_words = vec![String::from("casino")];
    let s = CommentService::new(c, ComrakConfig::default());
    let rows = vec![];
    for comment in ["plain words", "visit my casino"] {
        let a = s.check_comment(&rows, Some(&page()), &draft(comment), "10.0.0.1", 5, Verdict::Ham);
        let b = s.check_comment(&rows, Some(&page()), &draft(comment), "10.0.0.1", 5, Verdict::Ham);
        assert_eq!(a, b);
    }
}

#[test]
fn forbidden_words_are_matched_in_the_comment() {
    let s = words(&["casino", "pills"]);
    let rows = vec![];
    let check = |comment: &str, verdict: Verdict| {
        s.check_comment(&rows, Some(&page()), &draft(comment), "10.0.0.1", 0, verdict)
    };
    assert_eq!(check("a fine day", Verdict::Ham), Ok(CommentStatus::Approved));
    assert_eq!(check("a fine day", Verdict::Spam), Ok(CommentStatus::Spam));
    assert_eq!(check("cheap pills here", Verdict::Ham), Ok(CommentStatus::Spam));
    assert_eq!(check("the casino", Verdict::Unavailable), Ok(CommentStatus::Spam));
    assert_eq!(check("the Casino", Verdict::Ham), Ok(CommentStatus::Approved));
    assert_eq!(s.forbidden_hit("cheap pills here"), Some(true));
    assert_eq!(s.forbidden_hit("nothing to see"), Some(false));
}

#[test]
fn forbidden_words_apply_under_audit_too() {
    let mut c = config();
    c.audit = true;
    c.forbidden_words = vec![String::from("casino")];
    let s = CommentService::new(c, ComrakConfig::default());
    let rows = vec![];
    let r = s.check_comment(&rows, Some(&page()), &draft("a fine day"), "10.0.0.1", 0, Verdict::Spam);
    assert_eq!(r, Ok(CommentStatus::Waiting));
    let r = s.check_comment(&rows, Some(&page()), &draft("my casino"), "10.0.0.1", 0, Verdict::Ham);
    assert_eq!(r, Ok(CommentStatus::Spam));
}

#[test]
fn words_that_form_no_pattern_fail_the_submission() {
    let s = words(&["(", "pills"]);
    let r = s.check_comment(&vec![], Some(&page()), &draft("hello"), "10.0.0.1", 0, Verdict::Ham);
    assert_eq!(r, Err(Rejection::ForbiddenWords));
    assert_eq!(s.forbidden_hit("hello"), None);
    let none = words(&[]);
    assert_eq!(none.forbidden_hit("(anything"), Some(false));
}

#[test]
fn the_pattern_is_the_alternation_of_the_words() {
    let list = vec![String::from("casino"), String::from("p.lls"), String::from("x")];
    assert_eq!(build_pattern(&list), "(casino|p.lls|x)");
    assert_eq!(build_pattern(&vec![String::from("one")]), "(one)");
    assert_eq!(build_pattern(&vec![]), "()");
    assert_eq!(is_match("(casino|p.lls|x)", "take palls"), Some(true));
    assert_eq!(is_match("(casino|p.lls)", "take pls"), Some(false));
    assert_eq!(is_match("^[0-9]+$", "12345"), Some(true));
    assert_eq!(is_match("^[0-9]+$", "12a45"), Some(false));
    assert_eq!(is_match("(unclosed", "unclosed"), None);
}

#[test]
fn a_quote_needs_the_name_of_its_author() {
    let s = CommentService::new(config(), ComrakConfig::default());
    let rows = vec![];
    let mut body = draft("me too");
    body.pid = Some(4);
    let r = s.add_comment(&rows, &page(), &anonymous(), "10.0.0.1", body, 0, Verdict::Ham);
    assert_eq!(r.err(), Some(Rejection::AtRequired));
    let mut body = draft("me too");
    body.at = Some(String::from("ann"));
    let r = s.add_comment(&rows, &page(), &anonymous(), "10.0.0.1", body, 0, Verdict::Ham).unwrap();
    assert_eq!(r.content.as_deref(), Some("me too"));
    assert_eq!(r.pid, Some(0));
}

#[test]
fn a_quote_is_stored_behind_a_link_to_the_quoted_comment() {
    assert_eq!(quote("ann", 12, "me too"), "[@ann](#12): me too");
    assert_eq!(quote("", 0, ""), "[@](#0): ");
    assert_eq!(quote("b", -7, "x"), "[@b](#-7): x");
    let mut body = draft("me too");
    body.at = Some(String::from("ann"));
    body.pid = Some(2147483647);
    assert_eq!(body.content(), "[@ann](#2147483647): me too");
    assert_eq!(draft("plain").content(), "plain");
}

#[test]
fn a_reply_to_a_reply_is_stored_under_the_root() {
    let s = CommentService::new(config(), ComrakConfig::default());
    let mut rows = Vec::new();
    let root = s
        .add_comment(&rows, &page(), &anonymous(), "10.0.0.1", draft("root"), 0, Verdict::Ham)
        .unwrap();
    assert_eq!(root.rid, Some(0));
    let root_id = store(&mut rows, root);
    let mut reply = draft("reply");
    reply.rid = Some(root_id);
    let reply = s
        .add_comment(&rows, &page(), &anonymous(), "10.0.0.2", reply, 0, Verdict::Ham)
        .unwrap();
    assert_eq!(reply.rid, Some(root_id));
    let reply_id = store(&mut rows, reply);
    let mut deeper = draft("deeper");
    deeper.rid = Some(reply_id);
    deeper.pid = Some(reply_id);
    deeper.at = Some(String::from("ann"));
    let deeper = s
        .add_comment(&rows, &page(), &anonymous(), "10.0.0.3", deeper, 0, Verdict::Ham)
        .unwrap();
    assert_eq!(deeper.rid, Some(root_id));
    assert_eq!(deeper.pid, Some(reply_id));
    assert_eq!(resolve_root(&rows, Some(reply_id)), Ok(root_id));
    assert_eq!(resolve_root(&rows, Some(root_id)), Ok(root_id));
    assert_eq!(resolve_root(&rows, Some(0)), Ok(0));
    assert_eq!(resolve_root(&rows, None), Ok(0));
    assert_eq!(find_by_id(&rows, reply_id).map(|r| r.rid), Some(root_id));
    assert!(find_by_id(&rows, 99).is_none());
}

#[test]
fn a_reply_to_a_missing_root_is_rejected() {
    let s = CommentService::new(config(), ComrakConfig::default());
    let mut body = draft("reply");
    body.rid = Some(41);
    let r = s.add_comment(&vec![], &page(), &anonymous(), "10.0.0.1", body, 0, Verdict::Ham);
    assert_eq!(r.err(), Some(Rejection::CommentNotFound));
    assert_eq!(resolve_root(&vec![], Some(41)), Err(Rejection::CommentNotFound));
}

#[test]
fn an_accepted_submission_becomes_a_row() {
    let s = CommentService::new(config(), ComrakConfig::default());
    let who = user(7, UserType::Normal);
    let mut body = draft("hello");
    body.link = Some(String::from("https://ann.example.com"));
    let ac = s.add_comment(&vec![], &page(), &who, "10.0.0.1", body, 1234, Verdict::Spam).unwrap();
    assert_eq!(ac.id, None);
    assert_eq!(ac.sticky, None);
    assert_eq!(ac.star, None);
    let row = ac.insert(5);
    assert_eq!(row.id, 5);
    assert_eq!(row.page_id, 1);
    assert_eq!(row.user_id, Some(7));
    assert_eq!(row.content, "hello");
    assert_eq!(row.ip, "10.0.0.1");
    assert_eq!(row.link.as_deref(), Some("https://ann.example.com"));
    assert_eq!(row.mail.as_deref(), Some("ann@example.com"));
    assert_eq!(row.nick.as_deref(), Some("ann"));
    assert_eq!(row.pid, 0);
    assert_eq!(row.rid, 0);
    assert!(!row.sticky);
    assert_eq!(row.status, CommentStatus::Spam);
    assert_eq!(row.star, 0);
    assert_eq!(row.ua, "Mozilla/5.0");
    assert_eq!(row.created_at, 1234);
    assert_eq!(row.updated_at, 1234);
}

#[test]
fn a_window_longer_than_time_covers_every_row() {
    let mut c = config();
    c.ip_qps = u64::MAX;
    let s = CommentService::new(c, ComrakConfig::default());
    let mut rows = Vec::new();
    let first = s
        .add_comment(&rows, &page(), &anonymous(), "10.0.0.1", draft("one"), i64::MIN, Verdict::Ham)
        .unwrap();
    store(&mut rows, first);
    let r = s.screen(&rows, Some(&page()), &draft("two"), "10.0.0.1", i64::MAX);
    assert_eq!(r, Some(Rejection::TooFast));
    let mut c = config();
    c.ip_qps = 0;
    let s = CommentService::new(c, ComrakConfig::default());
    assert_eq!(s.screen(&rows, Some(&page()), &draft("two"), "10.0.0.1", i64::MIN), None);
}

#[test]
fn each_check_answers_for_itself() {
    let s = CommentService::new(config(), ComrakConfig::default());
    let mut rows = Vec::new();
    let first = s
        .add_comment(&rows, &page(), &anonymous(), "10.0.0.1", draft("hello"), 0, Verdict::Ham)
        .unwrap();
    store(&mut rows, first);
    let body = draft("hello");
    let run = |check, page: Option<&PathId>, ip: &str, now| s.run(check, &rows, page, &body, ip, now);
    let p = page();
    assert_eq!(run(Check::DenyList, None, "192.0.2.7", 0), Outcome::Reject(Rejection::ForbiddenIp));
    assert_eq!(run(Check::DenyList, None, "10.0.0.1", 0), Outcome::Continue);
    assert_eq!(run(Check::Page, None, "192.0.2.7", 0), Outcome::Reject(Rejection::PageNotFound));
    assert_eq!(run(Check::Page, Some(&p), "192.0.2.7", 0), Outcome::Continue);
    assert_eq!(
        run(Check::Duplicate, Some(&p), "192.0.2.7", 0),
        Outcome::Reject(Rejection::DuplicateContent)
    );
    assert_eq!(run(Check::Duplicate, None, "10.0.0.1", 0), Outcome::Continue);
    assert_eq!(run(Check::RateLimit, None, "10.0.0.1", 59_999), Outcome::Reject(Rejection::TooFast));
    assert_eq!(run(Check::RateLimit, None, "10.0.0.1", 60_000), Outcome::Continue);
    assert_eq!(run(Check::RateLimit, None, "10.0.0.9", 1), Outcome::Continue);
    assert_eq!(
        s.screen(&rows, Some(&p), &body, "10.0.0.1", 1),
        Some(Rejection::DuplicateContent)
    );
}

#[test]
fn criteria_select_the_rows_that_a_decision_reads() {
    let s = CommentService::new(config(), ComrakConfig::default());
    let mut rows = Vec::new();
    for (n, ip) in ["10.0.0.1", "10.0.0.2", "10.0.0.1"].iter().enumerate() {
        let body = draft(&format!("note {n}"));
        let ac = s
            .add_comment(&rows, &page(), &anonymous(), ip, body, 100_000 * n as i64, Verdict::Ham)
            .unwrap();
        store(&mut rows, ac);
    }
    let named = root_criteria(Some(2));
    assert_eq!(select(&rows, &named).iter().map(|r| r.id).collect::<Vec<_>>(), vec![2]);
    assert_eq!(count(&rows, &root_criteria(None)), 0);
    let repeated = s.duplicate_criteria(1, &draft("note 1"));
    assert_eq!(select(&rows, &repeated).iter().map(|r| r.id).collect::<Vec<_>>(), vec![2]);
    assert!(!exists_row(&rows, &s.duplicate_criteria(2, &draft("note 1"))));
    let recent = s.rate_criteria("10.0.0.1", 250_000);
    assert_eq!(select(&rows, &recent).iter().map(|r| r.id).collect::<Vec<_>>(), vec![3]);
    assert_eq!(count(&rows, &s.rate_criteria("10.0.0.1", 260_000)), 0);
    assert_eq!(count(&rows, &s.rate_criteria("10.0.0.1", 259_999)), 1);
    let later = 900_000;
    assert!(s.wants_verdict(&rows, &page(), &anonymous(), "10.0.0.3", &draft("new"), later));
    assert!(!s.wants_verdict(&rows, &page(), &anonymous(), "10.0.0.3", &draft("note 1"), later));
    assert!(!s.wants_verdict(&rows, &page(), &anonymous(), "10.0.0.1", &draft("new"), 200_001));
    let admin = user(1, UserType::Admin);
    assert!(!s.wants_verdict(&rows, &page(), &admin, "10.0.0.3", &draft("new"), later));
    assert!(!s.wants_verdict(&rows, &page(), &anonymous(), "192.0.2.7", &draft("new"), later));
    let mut audited = config();
    audited.audit = true;
    let audited = CommentService::new(audited, ComrakConfig::default());
    assert!(!audited.wants_verdict(&rows, &page(), &anonymous(), "10.0.0.3", &draft("new"), later));
}
