//! Requests and responses of the comment endpoints.

use vstd::prelude::*;
use vstd::string::StrSliceExecFns;
use crate::dto::Invalid;
use crate::model::comments::ActiveModel;
use crate::model::{CommentStatus, UserType};

verus! {

/// Largest page of an administrator's listing, and largest limit of a
/// thread listing.
pub const MAX_PAGE_SIZE: u64 = 200;

/// Largest number of recent comments that one request may ask for.
pub const MAX_RECENT: u64 = 100;

/// Largest length of a search keyword, in characters.
pub const MAX_KEYWORD: usize = 32;

/// Whose comments an administrator's listing covers.
#[derive(Clone, Copy, Debug, PartialEq, Eq, Structural)]
pub enum Owner {
    All,
    Mine,
}

/// The listing for administrators: one status, one owner scope, an optional
/// keyword, by page.
#[derive(Debug)]
pub struct AdminCommentQuery {
    pub page: u64,
    pub size: u64,
    pub status: CommentStatus,
    pub owner: Owner,
    pub keyword: Option<String>,
}

/// The page size of an administrator's listing that names none.
pub fn default_size() -> (n: u64)
    ensures
        n == 20,
{
    20
}

impl AdminCommentQuery {
    /// The rule that the query breaks, if any: the page size first, then
    /// the keyword.
    pub open spec fn check(self) -> Result<(), Invalid> {
        if self.size > MAX_PAGE_SIZE {
            Err(Invalid::TooMany)
        } else if self.keyword matches Some(k) && k@.len() > MAX_KEYWORD {
            Err(Invalid::KeywordTooLong)
        } else {
            Ok(())
        }
    }

    /// Checks the page size and the keyword length.
    pub fn validate(&self) -> (r: Result<(), Invalid>)
        ensures
            r == self.check(),
    {
        if self.size > MAX_PAGE_SIZE {
            return Err(Invalid::TooMany);
        }
        match &self.keyword {
            Some(k) => {
                if k.as_str().unicode_len() > MAX_KEYWORD {
                    return Err(Invalid::KeywordTooLong);
                }
            },
            None => {},
        }
        Ok(())
    }
}

/// The request for the number of comments on each of several pages.
#[derive(Debug)]
pub struct CountCommentQuery {
    pub url: Vec<String>,
}

impl CountCommentQuery {
    /// Every count query is acceptable.
    pub fn validate(&self) -> (r: Result<(), Invalid>)
        ensures
            r == Ok::<(), Invalid>(()),
    {
        Ok(())
    }
}

/// A column by which a listing is ordered.
#[derive(Clone, Copy, Debug, PartialEq, Eq, Structural)]
pub enum Column {
    Star,
    CreatedAt,
}

/// The direction of an ordering.
#[derive(Clone, Copy, Debug, PartialEq, Eq, Structural)]
pub enum Order {
    Asc,
    Desc,
}

/// The sort key of a thread listing, with the page to show.
#[derive(Clone, Copy, Debug, PartialEq, Eq, Structural)]
pub enum OrderBy {
    Like { offset: u64 },
    CreatedAtAsc { offset: u64 },
    CreatedAtDesc { offset: u64 },
}

impl OrderBy {
    /// The column that the key orders by.
    pub open spec fn column(self) -> Column {
        match self {
            OrderBy::Like { .. } => Column::Star,
            _ => Column::CreatedAt,
        }
    }

    /// The direction of the key.
    pub open spec fn order(self) -> Order {
        match self {
            OrderBy::CreatedAtAsc { .. } => Order::Asc,
            _ => Order::Desc,
        }
    }

    /// The page that the key asks for, counted from zero.
    pub open spec fn offset(self) -> u64 {
        match self {
            OrderBy::Like { offset } => offset,
            OrderBy::CreatedAtAsc { offset } => offset,
            OrderBy::CreatedAtDesc { offset } => offset,
        }
    }

    /// Splits the key into column, direction and page.
    pub fn into_column_order(self) -> (r: ((Column, Order), u64))
        ensures
            r.0.0 == self.column(),
            r.0.1 == self.order(),
            r.1 == self.offset(),
    {
        match self {
            OrderBy::Like { offset } => ((Column::Star, Order::Desc), offset),
            OrderBy::CreatedAtAsc { offset } => ((Column::CreatedAt, Order::Asc), offset),
            OrderBy::CreatedAtDesc { offset } => ((Column::CreatedAt, Order::Desc), offset),
        }
    }
}

/// The request for the threads of one page.
#[derive(Debug)]
pub struct ListCommentQuery {
    pub path: String,
    pub rid: i32,
    pub limit: u64,
    pub sort_by: OrderBy,
}

impl ListCommentQuery {
    /// The rule that the query breaks, if any.
    pub open spec fn check(self) -> Result<(), Invalid> {
        if self.limit < 1 {
            Err(Invalid::TooFew)
        } else if self.limit > MAX_PAGE_SIZE {
            Err(Invalid::TooMany)
        } else {
            Ok(())
        }
    }

    /// Checks that the limit lies between 1 and 200.
    pub fn validate(&self) -> (r: Result<(), Invalid>)
        ensures
            r == self.check(),
    {
        if self.limit < 1 {
            Err(Invalid::TooFew)
        } else if self.limit > MAX_PAGE_SIZE {
            Err(Invalid::TooMany)
        } else {
            Ok(())
        }
    }
}

/// The request for the most recent comments of all pages.
#[derive(Debug)]
pub struct RecentCommentQuery {
    pub count: u64,
}

impl RecentCommentQuery {
    /// The rule that the query breaks, if any.
    pub open spec fn check(self) -> Result<(), Invalid> {
        if self.count > MAX_RECENT {
            Err(Invalid::TooMany)
        } else {
            Ok(())
        }
    }

    /// Checks that at most 100 comments are asked for.
    pub fn validate(&self) -> (r: Result<(), Invalid>)
        ensures
            r == self.check(),
    {
        if self.count > MAX_RECENT {
            Err(Invalid::TooMany)
        } else {
            Ok(())
        }
    }
}

/// A read request of the comment endpoint.
#[derive(Debug)]
pub enum CommentQueryReq {
    Admin(AdminCommentQuery),
    Count(CountCommentQuery),
    List(ListCommentQuery),
    Recent(RecentCommentQuery),
}

impl CommentQueryReq {
    /// The rule that the request breaks, if any.
    pub open spec fn check(self) -> Result<(), Invalid> {
        match self {
            CommentQueryReq::Admin(q) => q.check(),
            CommentQueryReq::Count(_) => Ok(()),
            CommentQueryReq::List(q) => q.check(),
            CommentQueryReq::Recent(q) => q.check(),
        }
    }

    /// Validates the query that the request holds.
    pub fn validate(&self) -> (r: Result<(), Invalid>)
        ensures
            r == self.check(),
    {
        match self {
            CommentQueryReq::Admin(q) => q.validate(),
            CommentQueryReq::Count(q) => q.validate(),
            CommentQueryReq::List(q) => q.validate(),
            CommentQueryReq::Recent(q) => q.validate(),
        }
    }
}

/// A comment as a response shows it.
#[derive(Debug)]
pub struct CommentResp {
    pub status: CommentStatus,
    pub comment: String,
    pub inserted_at: i64,
    pub link: Option<String>,
    pub nick: Option<String>,
    pub mail: Option<String>,
    pub pid: Option<i32>,
    pub rid: Option<i32>,
    pub user_id: Option<i32>,
    pub ty: Option<UserType>,
    pub avatar: String,
    pub sticky: bool,
    pub like: i32,
    pub object_id: i32,
    pub level: i32,
    pub browser: String,
    pub os: String,
    pub orig: Option<String>,
    pub addr: Option<String>,
    pub time: i64,
    pub children: Vec<CommentResp>,
}

/// The answer to a thread listing.
#[derive(Debug)]
pub struct ListResp {
    pub count: u64,
    pub total_pages: u64,
    pub data: Vec<CommentResp>,
}

impl Default for ListResp {
    fn default() -> (r: ListResp)
        ensures
            r.count == 0,
            r.total_pages == 0,
            r.data@.len() == 0,
    {
        ListResp { count: 0, total_pages: 0, data: Vec::new() }
    }
}

/// The answer to an administrator's listing.
#[derive(Debug)]
pub struct AdminListResp {
    pub page: u64,
    pub total_pages: u64,
    pub page_size: u64,
    pub spam_count: u64,
    pub waiting_count: u64,
    pub data: Vec<CommentResp>,
}

impl ListResp {
    /// The answer that shows `data` as one page of `count` roots on
    /// `total_pages` pages.
    pub fn new(count: u64, total_pages: u64, data: Vec<CommentResp>) -> (r: ListResp)
        ensures
            r.count == count,
            r.total_pages == total_pages,
            r.data == data,
    {
        ListResp { count, total_pages, data }
    }
}

/// The answer to a read request.
#[derive(Debug)]
pub enum CommentQueryResp {
    Admin(AdminListResp),
    List(ListResp),
    Count { data: Vec<i64> },
    Recent(Vec<CommentResp>),
}

/// A new comment as its author submits it.
#[derive(Debug)]
pub struct AddCommentReq {
    pub comment: String,
    pub ua: String,
    pub url: String,
    pub at: Option<String>,
    pub nick: Option<String>,
    pub link: Option<String>,
    pub mail: Option<String>,
    pub pid: Option<i32>,
    pub rid: Option<i32>,
}

impl AddCommentReq {
    /// The columns that the submission itself fills on page `page_id`.
    pub open spec fn draft(self, page_id: i32) -> ActiveModel {
        ActiveModel {
            page_id: Some(page_id),
            content: Some(self.comment),
            nick: Some(self.nick),
            ua: Some(self.ua),
            link: Some(self.link),
            mail: Some(self.mail),
            pid: Some(if let Some(p) = self.pid { p } else { 0 }),
            rid: Some(if let Some(r) = self.rid { r } else { 0 }),
            ..ActiveModel::unset()
        }
    }

    /// Turns the submission into the row to insert on page `page_id`.
    pub fn into_active_model(self, page_id: i32) -> (ac: ActiveModel)
        ensures
            ac == self.draft(page_id),
    {
        let mut ac = ActiveModel::default();
        ac.page_id = Some(page_id);
        ac.content = Some(self.comment);
        ac.nick = Some(self.nick);
        ac.ua = Some(self.ua);
        ac.link = Some(self.link);
        ac.mail = Some(self.mail);
        ac.pid = Some(match self.pid { Some(p) => p, None => 0 });
        ac.rid = Some(match self.rid { Some(r) => r, None => 0 });
        ac
    }
}

/// A partial update of a comment. `like` adds or takes back one like; the
/// other fields replace stored values.
#[derive(Debug)]
pub struct CommentUpdateReq {
    pub comment: Option<String>,
    pub link: Option<String>,
    pub mail: Option<String>,
    pub nick: Option<String>,
    pub sticky: Option<bool>,
    pub status: Option<CommentStatus>,
    pub like: Option<bool>,
}

impl CommentUpdateReq {
    /// No field other than `like` is present.
    pub open spec fn empty(self) -> bool {
        &&& self.comment is None
        &&& self.link is None
        &&& self.mail is None
        &&& self.nick is None
        &&& self.sticky is None
        &&& self.status is None
    }

    /// A field is present that only an administrator may write.
    pub open spec fn reserved(self) -> bool {
        ||| self.link is Some
        ||| self.mail is Some
        ||| self.nick is Some
        ||| self.sticky is Some
        ||| self.status is Some
    }

    /// The write `ac` extended by what a caller of role `ty` may set: the
    /// text for a normal user, every present field for an administrator.
    pub open spec fn merged(self, ac: ActiveModel, ty: UserType) -> ActiveModel {
        match ty {
            UserType::Normal => ActiveModel {
                content: if self.comment is Some { self.comment } else { ac.content },
                ..ac
            },
            UserType::Admin => ActiveModel {
                content: if self.comment is Some { self.comment } else { ac.content },
                link: if self.link is Some { Some(self.link) } else { ac.link },
                mail: if self.mail is Some { Some(self.mail) } else { ac.mail },
                nick: if self.nick is Some { Some(self.nick) } else { ac.nick },
                sticky: if self.sticky is Some { self.sticky } else { ac.sticky },
                status: if self.status is Some { self.status } else { ac.status },
                ..ac
            },
        }
    }

    /// Writes the fields that role `ty` may set into `ac`.
    pub fn update_active_model(self, ac: ActiveModel, ty: UserType) -> (r: ActiveModel)
        ensures
            r == self.merged(ac, ty),
    {
        let mut ac = ac;
        match ty {
            UserType::Normal => {
                if let Some(content) = self.comment {
                    ac.content = Some(content);
                }
            },
            UserType::Admin => {
                if let Some(content) = self.comment {
                    ac.content = Some(content);
                }
                if let Some(link) = self.link {
                    ac.link = Some(Some(link));
                }
                if let Some(mail) = self.mail {
                    ac.mail = Some(Some(mail));
                }
                if let Some(nick) = self.nick {
                    ac.nick = Some(Some(nick));
                }
                if let Some(sticky) = self.sticky {
                    ac.sticky = Some(sticky);
                }
                if let Some(status) = self.status {
                    ac.status = Some(status);
                }
            },
        };
        ac
    }

    /// True when the request carries no field other than `like`.
    pub fn is_empty(&self) -> (b: bool)
        ensures
            b == self.empty(),
    {
        self.comment.is_none() && self.link.is_none() && self.mail.is_none()
            && self.nick.is_none() && self.sticky.is_none() && self.status.is_none()
    }

    /// True when the request carries a field that only an administrator may
    /// write.
    pub fn has_reserved(&self) -> (b: bool)
        ensures
            b == self.reserved(),
    {
        self.link.is_some() || self.mail.is_some() || self.nick.is_some()
            || self.sticky.is_some() || self.status.is_some()
    }
}

} // verus!
