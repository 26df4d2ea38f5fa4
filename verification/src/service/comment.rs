//! The comment service and the rows that its listings select.

use vstd::prelude::*;
use crate::config::{ComrakConfig, RalineConfig};
use crate::dto::comment::{AdminListResp, CommentResp, ListResp};
use crate::model::comments::Model;

verus! {

/// The comment service: every decision on reading, submitting, changing
/// and deleting comments, under one configuration.
#[derive(Debug)]
pub struct CommentService {
    pub raline: RalineConfig,
    /// The markdown extensions with which comments are rendered.
    pub comrak: ComrakConfig,
    /// Whether an administrator's own comments include those signed with
    /// the administrator's mail address, besides those written under the
    /// account.
    pub mine_by_mail: bool,
}

impl CommentService {
    /// The service under the configuration `raline`, which renders
    /// comments as `comrak` says. An administrator's own comments include
    /// those signed with the administrator's mail address.
    pub fn new(raline: RalineConfig, comrak: ComrakConfig) -> (s: CommentService)
        ensures
            s.raline == raline,
            s.comrak == comrak,
            s.mine_by_mail,
    {
        CommentService { raline, comrak, mine_by_mail: true }
    }
}

/// The rows of a thread listing: the roots of the requested page of the
/// listing, and the replies to them.
#[derive(Debug)]
pub struct ListRows {
    /// How many roots match, whatever the limit.
    pub count: u64,
    pub total_pages: u64,
    pub roots: Vec<Model>,
    pub replies: Vec<Model>,
}

/// The rows of an administrator's listing, with the totals of the spam and
/// the waiting comments of the whole store.
#[derive(Debug)]
pub struct AdminRows {
    pub page: u64,
    pub total_pages: u64,
    pub page_size: u64,
    pub spam_count: u64,
    pub waiting_count: u64,
    pub rows: Vec<Model>,
}

impl ListRows {
    /// The answer to the listing, once its rows are shown as `data`.
    pub fn respond(&self, data: Vec<CommentResp>) -> (r: ListResp)
        ensures
            r.count == self.count,
            r.total_pages == self.total_pages,
            r.data == data,
    {
        ListResp::new(self.count, self.total_pages, data)
    }
}

impl AdminRows {
    /// The answer to the listing, once its rows are shown as `data`.
    pub fn respond(&self, data: Vec<CommentResp>) -> (r: AdminListResp)
        ensures
            r.page == self.page,
            r.total_pages == self.total_pages,
            r.page_size == self.page_size,
            r.spam_count == self.spam_count,
            r.waiting_count == self.waiting_count,
            r.data == data,
    {
        AdminListResp {
            page: self.page,
            total_pages: self.total_pages,
            page_size: self.page_size,
            spam_count: self.spam_count,
            waiting_count: self.waiting_count,
            data,
        }
    }
}

} // verus!
