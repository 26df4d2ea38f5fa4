//! The stored comment row.

use vstd::prelude::*;
use crate::model::CommentStatus;

verus! {

/// Copies an optional string.
pub fn clone_opt(o: &Option<String>) -> (r: Option<String>)
    ensures
        r == *o,
{
    match o {
        Some(s) => Some(s.clone()),
        None => None,
    }
}

/// One comment as the record store holds it.
///
/// `rid` is the id of the root comment of the thread, or 0 when the comment
/// is itself a root. `pid` is the id of the comment that it answers, or 0.
/// Times are milliseconds since the epoch.
#[derive(Debug)]
pub struct Model {
    pub id: i32,
    pub page_id: i32,
    pub user_id: Option<i32>,
    pub content: String,
    pub ip: String,
    pub link: Option<String>,
    pub mail: Option<String>,
    pub nick: Option<String>,
    pub pid: i32,
    pub rid: i32,
    pub sticky: bool,
    pub status: CommentStatus,
    pub star: i32,
    pub ua: String,
    pub created_at: i64,
    pub updated_at: i64,
}

impl Model {
    /// A root comment has no root above it.
    pub open spec fn is_root(self) -> bool {
        self.rid == 0
    }

    /// The like counter of a stored row is never negative.
    pub open spec fn wf(self) -> bool {
        self.star >= 0
    }

    /// A copy of the row, field for field.
    pub fn copy(&self) -> (r: Model)
        ensures
            r == *self,
    {
        Model {
            id: self.id,
            page_id: self.page_id,
            user_id: self.user_id,
            content: self.content.clone(),
            ip: self.ip.clone(),
            link: clone_opt(&self.link),
            mail: clone_opt(&self.mail),
            nick: clone_opt(&self.nick),
            pid: self.pid,
            rid: self.rid,
            sticky: self.sticky,
            status: self.status,
            star: self.star,
            ua: self.ua.clone(),
            created_at: self.created_at,
            updated_at: self.updated_at,
        }
    }
}

} // verus!

verus! {

/// The value that a missing reference takes in `pid` and `rid`.
pub fn root_comment_id() -> (id: i32)
    ensures
        id == 0,
{
    0
}

/// The like counter after one more like, or after one like is taken back.
/// It never falls below zero and never passes the largest number.
pub open spec fn liked(star: i32, up: bool) -> i32 {
    if up {
        if star < 0 {
            0
        } else if star == i32::MAX {
            star
        } else {
            (star + 1) as i32
        }
    } else {
        if star <= 0 {
            0
        } else {
            (star - 1) as i32
        }
    }
}

/// Counts one more like, or takes one back.
pub fn like(star: i32, up: bool) -> (r: i32)
    ensures
        r == liked(star, up),
        r >= 0,
{
    if up {
        if star < 0 {
            0
        } else if star == i32::MAX {
            star
        } else {
            star + 1
        }
    } else {
        if star <= 0 {
            0
        } else {
            star - 1
        }
    }
}

/// A partial comment row: the columns that a write sets. A column left at
/// `None` is not written.
///
/// `like` is no column: it moves the like counter by one, up or down,
/// from the value that the row holds when the write is applied. A store
/// applies it in one step, so that likes given at the same time all count.
#[derive(Debug)]
pub struct ActiveModel {
    pub id: Option<i32>,
    pub page_id: Option<i32>,
    pub user_id: Option<Option<i32>>,
    pub content: Option<String>,
    pub ip: Option<String>,
    pub link: Option<Option<String>>,
    pub mail: Option<Option<String>>,
    pub nick: Option<Option<String>>,
    pub pid: Option<i32>,
    pub rid: Option<i32>,
    pub sticky: Option<bool>,
    pub status: Option<CommentStatus>,
    pub star: Option<i32>,
    pub like: Option<bool>,
    pub ua: Option<String>,
    pub created_at: Option<i64>,
    pub updated_at: Option<i64>,
}

impl ActiveModel {
    /// The write that sets no column.
    pub open spec fn unset() -> ActiveModel {
        ActiveModel {
            id: None,
            page_id: None,
            user_id: None,
            content: None,
            ip: None,
            link: None,
            mail: None,
            nick: None,
            pid: None,
            rid: None,
            sticky: None,
            status: None,
            star: None,
            like: None,
            ua: None,
            created_at: None,
            updated_at: None,
        }
    }

    /// The like counter that the write leaves where it finds `stored`.
    pub open spec fn counted(self, stored: i32) -> i32 {
        let base = if let Some(v) = self.star { v } else { stored };
        if let Some(up) = self.like {
            liked(base, up)
        } else {
            base
        }
    }

    /// The row that results when the write updates `row`: every column
    /// that is set replaces the stored one, and the like counter moves
    /// where a like is given or taken back.
    pub open spec fn applied(self, row: Model) -> Model {
        Model {
            id: if let Some(v) = self.id { v } else { row.id },
            page_id: if let Some(v) = self.page_id { v } else { row.page_id },
            user_id: if let Some(v) = self.user_id { v } else { row.user_id },
            content: if let Some(v) = self.content { v } else { row.content },
            ip: if let Some(v) = self.ip { v } else { row.ip },
            link: if let Some(v) = self.link { v } else { row.link },
            mail: if let Some(v) = self.mail { v } else { row.mail },
            nick: if let Some(v) = self.nick { v } else { row.nick },
            pid: if let Some(v) = self.pid { v } else { row.pid },
            rid: if let Some(v) = self.rid { v } else { row.rid },
            sticky: if let Some(v) = self.sticky { v } else { row.sticky },
            status: if let Some(v) = self.status { v } else { row.status },
            star: self.counted(row.star),
            ua: if let Some(v) = self.ua { v } else { row.ua },
            created_at: if let Some(v) = self.created_at { v } else { row.created_at },
            updated_at: if let Some(v) = self.updated_at { v } else { row.updated_at },
        }
    }

    /// Whether `r` is the row that an insert of this write under the
    /// store-assigned `id` creates. A column that is not set starts out
    /// empty: no author, no text, no references, not pinned, approved, no
    /// likes.
    pub open spec fn inserts(self, id: i32, r: Model) -> bool {
        &&& r.id == id
        &&& r.page_id == if let Some(v) = self.page_id { v } else { 0 }
        &&& r.user_id == if let Some(v) = self.user_id { v } else { None }
        &&& if let Some(v) = self.content { r.content == v } else { r.content@.len() == 0 }
        &&& if let Some(v) = self.ip { r.ip == v } else { r.ip@.len() == 0 }
        &&& r.link == if let Some(v) = self.link { v } else { None }
        &&& r.mail == if let Some(v) = self.mail { v } else { None }
        &&& r.nick == if let Some(v) = self.nick { v } else { None }
        &&& r.pid == if let Some(v) = self.pid { v } else { 0 }
        &&& r.rid == if let Some(v) = self.rid { v } else { 0 }
        &&& r.sticky == if let Some(v) = self.sticky { v } else { false }
        &&& r.status == if let Some(v) = self.status { v } else { CommentStatus::Approved }
        &&& r.star == self.counted(0)
        &&& if let Some(v) = self.ua { r.ua == v } else { r.ua@.len() == 0 }
        &&& r.created_at == if let Some(v) = self.created_at { v } else { 0 }
        &&& r.updated_at == if let Some(v) = self.updated_at { v } else { 0 }
    }

    /// The timestamps that every save sets: the time of creation on insert,
    /// the time of the last change always.
    pub fn before_save(self, insert: bool, now: i64) -> (ac: ActiveModel)
        ensures
            ac == (ActiveModel {
                created_at: if insert { Some(now) } else { self.created_at },
                updated_at: Some(now),
                ..self
            }),
    {
        let mut ac = self;
        if insert {
            ac.created_at = Some(now);
        }
        ac.updated_at = Some(now);
        ac
    }

    /// Updates `row` with the columns that are set.
    pub fn apply(self, row: &Model) -> (r: Model)
        ensures
            r == self.applied(*row),
    {
        Model {
            id: match self.id { Some(v) => v, None => row.id },
            page_id: match self.page_id { Some(v) => v, None => row.page_id },
            user_id: match self.user_id { Some(v) => v, None => row.user_id },
            content: match self.content { Some(v) => v, None => row.content.clone() },
            ip: match self.ip { Some(v) => v, None => row.ip.clone() },
            link: match self.link { Some(v) => v, None => clone_opt(&row.link) },
            mail: match self.mail { Some(v) => v, None => clone_opt(&row.mail) },
            nick: match self.nick { Some(v) => v, None => clone_opt(&row.nick) },
            pid: match self.pid { Some(v) => v, None => row.pid },
            rid: match self.rid { Some(v) => v, None => row.rid },
            sticky: match self.sticky { Some(v) => v, None => row.sticky },
            status: match self.status { Some(v) => v, None => row.status },
            star: {
                let base = match self.star { Some(v) => v, None => row.star };
                match self.like { Some(up) => like(base, up), None => base }
            },
            ua: match self.ua { Some(v) => v, None => row.ua.clone() },
            created_at: match self.created_at { Some(v) => v, None => row.created_at },
            updated_at: match self.updated_at { Some(v) => v, None => row.updated_at },
        }
    }

    /// The row that an insert under the store-assigned `id` creates.
    pub fn insert(self, id: i32) -> (r: Model)
        ensures
            self.inserts(id, r),
    {
        let blank = Model {
            id,
            page_id: 0,
            user_id: None,
            content: String::new(),
            ip: String::new(),
            link: None,
            mail: None,
            nick: None,
            pid: 0,
            rid: 0,
            sticky: false,
            status: CommentStatus::Approved,
            star: 0,
            ua: String::new(),
            created_at: 0,
            updated_at: 0,
        };
        let mut ac = self;
        ac.id = Some(id);
        ac.apply(&blank)
    }
}

impl Default for ActiveModel {
    fn default() -> (ac: ActiveModel)
        ensures
            ac == ActiveModel::unset(),
    {
        ActiveModel {
            id: None,
            page_id: None,
            user_id: None,
            content: None,
            ip: None,
            link: None,
            mail: None,
            nick: None,
            pid: None,
            rid: None,
            sticky: None,
            status: None,
            star: None,
            like: None,
            ua: None,
            created_at: None,
            updated_at: None,
        }
    }
}

} // verus!
