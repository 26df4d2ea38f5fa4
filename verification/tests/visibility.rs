use raline::model::comments::Model;
use raline::model::{CommentStatus, UserType};
use raline::service::visibility::{can_read, ReadFilter};
use raline::utils::jwt::{Claims, OptionalClaims};

fn row(status: CommentStatus, user_id: Option<i32>) -> Model {
    Model {
        id: 1,
        page_id: 1,
        user_id,
        content: String::from("hello"),
        ip: String::from("10.0.0.1"),
        link: None,
        mail: None,
        nick: None,
        pid: 0,
        rid: 0,
        sticky: false,
        status,
        star: 0,
        ua: String::new(),
        created_at: 0,
        updated_at: 0,
    }
}

fn user(uid: i32, ty: UserType) -> OptionalClaims {
    OptionalClaims(Some(Claims { uid, ty, mail: None, exp: 0 }))
}

#[test]
fn anonymous_reads_only_approved() {
    let who = OptionalClaims(None);
    assert!(can_read(&who, &row(CommentStatus::Approved, None)));
    assert!(!can_read(&who, &row(CommentStatus::Waiting, None)));
    assert!(!can_read(&who, &row(CommentStatus::Spam, Some(3))));
    assert!(!can_read(&who, &row(CommentStatus::Deleted, None)));
    assert_eq!(ReadFilter::of(&who), ReadFilter::ApprovedOnly);
}

#[test]
fn normal_user_reads_approved_and_own() {
    let who = user(7, UserType::Normal);
    assert!(can_read(&who, &row(CommentStatus::Approved, Some(8))));
    assert!(can_read(&who, &row(CommentStatus::Waiting, Some(7))));
    assert!(can_read(&who, &row(CommentStatus::Spam, Some(7))));
    assert!(!can_read(&who, &row(CommentStatus::Waiting, Some(8))));
    assert!(!can_read(&who, &row(CommentStatus::Spam, None)));
    assert!(!can_read(&who, &row(CommentStatus::Deleted, Some(8))));
    assert_eq!(ReadFilter::of(&who), ReadFilter::ApprovedOrOwner { uid: 7 });
}

#[test]
fn admin_reads_all_but_deleted() {
    let who = user(1, UserType::Admin);
    assert!(can_read(&who, &row(CommentStatus::Approved, None)));
    assert!(can_read(&who, &row(CommentStatus::Waiting, Some(9))));
    assert!(can_read(&who, &row(CommentStatus::Spam, None)));
    assert!(!can_read(&who, &row(CommentStatus::Deleted, Some(1))));
    assert_eq!(ReadFilter::of(&who), ReadFilter::NotDeleted);
}
