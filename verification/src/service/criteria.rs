//! Conditions on comment rows, as values.
//!
//! A `Criteria` is a conjunction of optional constraints. The services build
//! one for each query; it can be applied to rows in memory, or handed to a
//! record store to be turned into a query condition clause by clause.

use vstd::prelude::*;
use crate::model::comments::Model;
use crate::model::CommentStatus;
use crate::service::visibility::ReadFilter;
use crate::utils::text::{contains, has_substring, same_text, text};

verus! {

/// The rows of one user: written under the account, or, where the user has
/// a mail address, signed with that address.
#[derive(Debug)]
pub struct Mine {
    pub uid: i32,
    pub mail: Option<String>,
}

/// The author fields and the text that make two comments the same.
#[derive(Debug)]
pub struct Authorship {
    pub mail: Option<String>,
    pub link: Option<String>,
    pub nick: Option<String>,
    pub content: String,
}

/// A conjunction of constraints on a comment row. A field at `None`
/// constrains nothing.
#[derive(Debug)]
pub struct Criteria {
    /// `id` equals the value.
    pub id: Option<i32>,
    /// The read rule of the caller.
    pub read: Option<ReadFilter>,
    /// `page_id` equals the value.
    pub page_id: Option<i32>,
    /// `rid` equals the value.
    pub rid: Option<i32>,
    /// `rid` is one of the values.
    pub rid_in: Option<Vec<i32>>,
    /// `status` equals the value.
    pub status: Option<CommentStatus>,
    /// The row belongs to the user.
    pub mine: Option<Mine>,
    /// `content` holds the value as a substring.
    pub keyword: Option<String>,
    /// Mail, link, nick and content all equal the given ones.
    pub same_as: Option<Authorship>,
    /// `ip` equals the value.
    pub ip: Option<String>,
    /// `created_at` is later than the value.
    pub created_after: Option<i64>,
    /// The row is the comment with this id, or quotes it, or has it as root.
    pub thread_of: Option<i32>,
}

impl Mine {
    /// Whether `row` belongs to the user.
    pub open spec fn holds(self, row: Model) -> bool {
        row.user_id == Some(self.uid) || (self.mail is Some && text(row.mail) == text(self.mail))
    }
}

impl Authorship {
    /// Whether `row` repeats the author fields and the text.
    pub open spec fn holds(self, row: Model) -> bool {
        &&& text(row.mail) == text(self.mail)
        &&& text(row.link) == text(self.link)
        &&& text(row.nick) == text(self.nick)
        &&& row.content@ == self.content@
    }
}

impl Criteria {
    /// Whether `row` meets every constraint that is present.
    pub open spec fn holds(self, row: Model) -> bool {
        &&& self.id matches Some(id) ==> row.id == id
        &&& self.read matches Some(f) ==> f.holds(row)
        &&& self.page_id matches Some(p) ==> row.page_id == p
        &&& self.rid matches Some(r) ==> row.rid == r
        &&& self.rid_in matches Some(v) ==> v@.contains(row.rid)
        &&& self.status matches Some(s) ==> row.status == s
        &&& self.mine matches Some(m) ==> m.holds(row)
        &&& self.keyword matches Some(k) ==> has_substring(row.content@, k@)
        &&& self.same_as matches Some(a) ==> a.holds(row)
        &&& self.ip matches Some(ip) ==> row.ip@ == ip@
        &&& self.created_after matches Some(t) ==> row.created_at > t
        &&& self.thread_of matches Some(t) ==> row.id == t || row.pid == t || row.rid == t
    }

    /// The criteria as a predicate on rows.
    pub open spec fn pred(self) -> spec_fn(Model) -> bool {
        |row: Model| self.holds(row)
    }

    /// The criteria without any constraint.
    pub open spec fn unconstrained() -> Criteria {
        Criteria {
            id: None,
            read: None,
            page_id: None,
            rid: None,
            rid_in: None,
            status: None,
            mine: None,
            keyword: None,
            same_as: None,
            ip: None,
            created_after: None,
            thread_of: None,
        }
    }

    /// The criteria that every row meets.
    pub fn any() -> (c: Criteria)
        ensures
            c == Criteria::unconstrained(),
    {
        Criteria {
            id: None,
            read: None,
            page_id: None,
            rid: None,
            rid_in: None,
            status: None,
            mine: None,
            keyword: None,
            same_as: None,
            ip: None,
            created_after: None,
            thread_of: None,
        }
    }

    /// Applies the criteria to one row.
    pub fn matches(&self, row: &Model) -> (b: bool)
        ensures
            b == self.holds(*row),
    {
        if let Some(id) = self.id {
            if row.id != id {
                return false;
            }
        }
        if let Some(f) = &self.read {
            if !f.admits(row) {
                return false;
            }
        }
        if let Some(p) = self.page_id {
            if row.page_id != p {
                return false;
            }
        }
        if let Some(r) = self.rid {
            if row.rid != r {
                return false;
            }
        }
        if let Some(v) = &self.rid_in {
            if !has_id(v, row.rid) {
                return false;
            }
        }
        if let Some(s) = self.status {
            if row.status != s {
                return false;
            }
        }
        if let Some(m) = &self.mine {
            let by_account = match row.user_id {
                Some(u) => u == m.uid,
                None => false,
            };
            if !(by_account || (m.mail.is_some() && same_text(&row.mail, &m.mail))) {
                return false;
            }
        }
        if let Some(k) = &self.keyword {
            if !contains(row.content.as_str(), k.as_str()) {
                return false;
            }
        }
        if let Some(a) = &self.same_as {
            if !(same_text(&row.mail, &a.mail) && same_text(&row.link, &a.link) && same_text(
                &row.nick,
                &a.nick,
            ) && row.content == a.content) {
                return false;
            }
        }
        if let Some(ip) = &self.ip {
            if row.ip != *ip {
                return false;
            }
        }
        if let Some(t) = self.created_after {
            if row.created_at <= t {
                return false;
            }
        }
        if let Some(t) = self.thread_of {
            if !(row.id == t || row.pid == t || row.rid == t) {
                return false;
            }
        }
        true
    }
}

/// Whether `id` is one of `ids`.
pub fn has_id(ids: &Vec<i32>, id: i32) -> (b: bool)
    ensures
        b == ids@.contains(id),
{
    let mut i: usize = 0;
    while i < ids.len()
        invariant
            i <= ids.len(),
            forall|k: int| 0 <= k < i ==> ids@[k] != id,
        decreases ids.len() - i,
    {
        if ids[i] == id {
            return true;
        }
        i += 1;
    }
    false
}

/// The rows that meet the criteria, in the order of `rows`.
pub fn select(rows: &Vec<Model>, c: &Criteria) -> (out: Vec<Model>)
    ensures
        out@ == rows@.filter(c.pred()),
{
    let mut out: Vec<Model> = Vec::new();
    let mut i: usize = 0;
    proof {
        assert(rows@.take(0) =~= Seq::<Model>::empty());
        Seq::<Model>::empty().lemma_all_neg_filter_empty(c.pred());
    }
    while i < rows.len()
        invariant
            i <= rows.len(),
            out@ == rows@.take(i as int).filter(c.pred()),
        decreases rows.len() - i,
    {
        proof {
            assert(rows@.take(i + 1) =~= rows@.take(i as int).push(rows@[i as int]));
            rows@.take(i as int).lemma_filter_push(rows@[i as int], c.pred());
        }
        if c.matches(&rows[i]) {
            out.push(rows[i].copy());
        }
        i += 1;
    }
    proof {
        assert(rows@.take(rows.len() as int) =~= rows@);
    }
    out
}

/// How many rows meet the criteria.
pub fn count(rows: &Vec<Model>, c: &Criteria) -> (n: usize)
    ensures
        n == rows@.filter(c.pred()).len(),
{
    let mut n: usize = 0;
    let mut i: usize = 0;
    proof {
        assert(rows@.take(0) =~= Seq::<Model>::empty());
        Seq::<Model>::empty().lemma_all_neg_filter_empty(c.pred());
    }
    while i < rows.len()
        invariant
            i <= rows.len(),
            n <= i,
            n == rows@.take(i as int).filter(c.pred()).len(),
        decreases rows.len() - i,
    {
        proof {
            assert(rows@.take(i + 1) =~= rows@.take(i as int).push(rows@[i as int]));
            rows@.take(i as int).lemma_filter_push(rows@[i as int], c.pred());
        }
        if c.matches(&rows[i]) {
            n += 1;
        }
        i += 1;
    }
    proof {
        assert(rows@.take(rows.len() as int) =~= rows@);
    }
    n
}

/// Whether some row meets the criteria.
pub fn exists_row(rows: &Vec<Model>, c: &Criteria) -> (b: bool)
    ensures
        b == (exists|i: int| 0 <= i < rows@.len() && c.holds(#[trigger] rows@[i])),
        b == (rows@.filter(c.pred()).len() > 0),
{
    let n = count(rows, c);
    proof {
        let f = rows@.filter(c.pred());
        broadcast use vstd::seq_lib::group_filter_ensures;
        if n > 0 {
            assert(f.contains(f[0]));
            rows@.lemma_filter_contains_rev(c.pred(), f[0]);
            let i = choose|i: int| 0 <= i < rows@.len() && rows@[i] == f[0];
            assert(c.pred()(f[0]));
            assert(c.holds(rows@[i]));
        } else {
            assert forall|i: int| 0 <= i < rows@.len() implies !c.holds(#[trigger] rows@[i]) by {
                if c.holds(rows@[i]) {
                    assert(c.pred()(rows@[i]));
                    assert(f.contains(rows@[i]));
                }
            }
        }
    }
    n > 0
}

} // verus!
