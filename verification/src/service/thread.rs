//! Assembling stored rows into the pages of a listing.

use vstd::prelude::*;
use crate::dto::comment::{
    AdminCommentQuery,
    CountCommentQuery,
    ListCommentQuery,
    Owner,
    RecentCommentQuery,
};
use crate::error::Rejection;
use crate::model::comments::{clone_opt, Model};
use crate::model::page_view_counter::{find_page, page_id_of, PathId};
use crate::model::CommentStatus;
use crate::service::comment::{AdminRows, CommentService, ListRows};
use crate::service::criteria::{count, select, Criteria, Mine};
use crate::service::ranking::Ranking;
use crate::service::visibility::{visible, ReadFilter};
use crate::utils::jwt::OptionalClaims;
use crate::utils::text::{has_substring, text};

verus! {

/// Page `index`, counted from zero, of `s` cut into pages of `size` rows.
pub open spec fn page_of(s: Seq<Model>, size: int, index: int) -> Seq<Model> {
    let start = if index * size <= s.len() { index * size } else { s.len() as int };
    let end = if start + size <= s.len() { start + size } else { s.len() as int };
    s.subrange(start, end)
}

/// The ids of `s`, in order.
pub open spec fn ids_of(s: Seq<Model>) -> Seq<i32> {
    s.map_values(|row: Model| row.id)
}

/// The roots that a thread listing may show: the rows of the page that
/// hang under `rid` and that the caller may read.
pub open spec fn listed_root(page_id: i32, rid: i32, who: OptionalClaims) -> spec_fn(Model) -> bool {
    |row: Model| row.page_id == page_id && row.rid == rid && visible(who, row)
}

/// The replies that a thread listing shows under the roots with the ids
/// `roots`: the rows of the page that name one of them as root and that
/// the caller may read.
pub open spec fn listed_reply(page_id: i32, roots: Seq<i32>, who: OptionalClaims) -> spec_fn(
    Model,
) -> bool {
    |row: Model| row.page_id == page_id && roots.contains(row.rid) && visible(who, row)
}

/// The rows of page `page_id` that the caller may read.
pub open spec fn on_page(page_id: i32, who: OptionalClaims) -> spec_fn(Model) -> bool {
    |row: Model| row.page_id == page_id && visible(who, row)
}

/// The rows that the caller may read.
pub open spec fn readable(who: OptionalClaims) -> spec_fn(Model) -> bool {
    |row: Model| visible(who, row)
}

/// The rows with status `status`.
pub open spec fn in_status(status: CommentStatus) -> spec_fn(Model) -> bool {
    |row: Model| row.status == status
}

/// The rows of an administrator's listing: of the asked status; in scope
/// `Mine`, written under the caller's account or, where `by_mail` is set,
/// signed with the caller's mail address; and, where a keyword is given,
/// with the keyword in the text.
pub open spec fn admin_listed(q: AdminCommentQuery, who: OptionalClaims, by_mail: bool) -> spec_fn(
    Model,
) -> bool {
    |row: Model|
        {
            &&& row.status == q.status
            &&& q.owner == Owner::Mine ==> (who.0 matches Some(c) && (row.user_id == Some(c.uid)
                || (by_mail && c.mail is Some && text(row.mail) == text(c.mail))))
            &&& q.keyword matches Some(k) ==> has_substring(row.content@, k@)
        }
}

/// A count as a 64-bit number.
pub open spec fn as_count(n: nat) -> u64 {
    if n <= u64::MAX { n as u64 } else { u64::MAX }
}

/// A count as a signed 64-bit number, at most the largest one.
pub open spec fn as_signed_count(n: nat) -> i64 {
    if n <= i64::MAX { n as i64 } else { i64::MAX }
}

/// The number of comments that the caller may read on the page registered
/// for `path`; zero where no page is registered for it.
pub open spec fn count_on(rows: Seq<Model>, pages: Seq<PathId>, path: Seq<char>, who: OptionalClaims) -> i64 {
    match page_id_of(pages, path) {
        Some(id) => as_signed_count(rows.filter(on_page(id, who)).len()),
        None => 0,
    }
}

/// A page of an ordered sequence is ordered.
pub proof fn lemma_page_ordered(ranking: Ranking, s: Seq<Model>, size: int, index: int)
    requires
        ranking.ordered(s),
        size >= 0,
        index >= 0,
    ensures
        ranking.ordered(page_of(s, size, index)),
{
    assert(index * size >= 0) by (nonlinear_arith)
        requires
            size >= 0,
            index >= 0,
    ;
}

/// Cuts page `index` out of `v`.
pub fn take_page(v: Vec<Model>, size: u64, index: u64) -> (out: Vec<Model>)
    ensures
        out@ == page_of(v@, size as int, index as int),
{
    let ghost whole = v@;
    let mut v = v;
    let len = v.len();
    assert(0 <= index * size <= 0xffff_ffff_ffff_ffff * 0xffff_ffff_ffff_ffff) by (nonlinear_arith)
        requires
            0 <= index <= 0xffff_ffff_ffff_ffff,
            0 <= size <= 0xffff_ffff_ffff_ffff,
    ;
    let first: u128 = (index as u128) * (size as u128);
    if first >= len as u128 {
        let out: Vec<Model> = Vec::new();
        proof {
            assert(out@ =~= v@.subrange(v@.len() as int, v@.len() as int));
        }
        return out;
    }
    let start: usize = first as usize;
    let mut tail = v.split_off(start);
    if size < tail.len() as u64 {
        tail.truncate(size as usize);
    }
    proof {
        assert(tail@ =~= page_of(whole, size as int, index as int));
    }
    tail
}

/// The ids of the rows, in order.
pub fn ids(rows: &Vec<Model>) -> (out: Vec<i32>)
    ensures
        out@ == ids_of(rows@),
{
    let mut out: Vec<i32> = Vec::new();
    let mut i: usize = 0;
    while i < rows.len()
        invariant
            i <= rows.len(),
            out@ == ids_of(rows@.take(i as int)),
        decreases rows.len() - i,
    {
        proof {
            assert(rows@.take(i + 1) =~= rows@.take(i as int).push(rows@[i as int]));
            assert(ids_of(rows@.take(i + 1)) =~= ids_of(rows@.take(i as int)).push(rows@[i as int].id));
        }
        out.push(rows[i].id);
        i += 1;
    }
    proof {
        assert(rows@.take(rows.len() as int) =~= rows@);
    }
    out
}

/// The user ids under which the rows were written, in the order of the
/// rows.
pub fn user_ids(rows: &Vec<Model>) -> (out: Vec<i32>)
    ensures
        out@ == rows@.filter_map(|row: Model| row.user_id),
{
    let mut out: Vec<i32> = Vec::new();
    let mut i: usize = 0;
    let ghost f = |row: Model| row.user_id;
    while i < rows.len()
        invariant
            i <= rows.len(),
            f == (|row: Model| row.user_id),
            out@ == rows@.take(i as int).filter_map(f),
        decreases rows.len() - i,
    {
        proof {
            assert(rows@.take(i + 1).drop_last() =~= rows@.take(i as int));
        }
        if let Some(uid) = rows[i].user_id {
            out.push(uid);
        }
        i += 1;
    }
    proof {
        assert(rows@.take(rows.len() as int) =~= rows@);
    }
    out
}

/// The criteria of the roots of a thread listing.
pub fn roots_criteria(page_id: i32, rid: i32, who: &OptionalClaims) -> (c: Criteria)
    ensures
        c.pred() == listed_root(page_id, rid, *who),
        c.read == Some(ReadFilter::of_spec(*who)),
        c.page_id == Some(page_id),
        c.rid == Some(rid),
{
    let mut c = Criteria::any();
    c.read = Some(ReadFilter::of(who));
    c.page_id = Some(page_id);
    c.rid = Some(rid);
    proof {
        assert(c.pred() =~= listed_root(page_id, rid, *who));
    }
    c
}

/// The criteria of the replies to the roots with the ids `roots`.
pub fn replies_criteria(page_id: i32, roots: Vec<i32>, who: &OptionalClaims) -> (c: Criteria)
    ensures
        c.pred() == listed_reply(page_id, roots@, *who),
{
    let mut c = Criteria::any();
    c.read = Some(ReadFilter::of(who));
    c.page_id = Some(page_id);
    c.rid_in = Some(roots);
    proof {
        assert(c.pred() =~= listed_reply(page_id, roots@, *who));
    }
    c
}

/// The criteria of the comments of one page that the caller may read.
pub fn page_criteria(page_id: i32, who: &OptionalClaims) -> (c: Criteria)
    ensures
        c.pred() == on_page(page_id, *who),
{
    let mut c = Criteria::any();
    c.read = Some(ReadFilter::of(who));
    c.page_id = Some(page_id);
    proof {
        assert(c.pred() =~= on_page(page_id, *who));
    }
    c
}

/// The criteria of the comments that the caller may read.
pub fn read_criteria(who: &OptionalClaims) -> (c: Criteria)
    ensures
        c.pred() == readable(*who),
{
    let mut c = Criteria::any();
    c.read = Some(ReadFilter::of(who));
    proof {
        assert(c.pred() =~= readable(*who));
    }
    c
}

/// The criteria of the comments in one status.
pub fn status_criteria(status: CommentStatus) -> (c: Criteria)
    ensures
        c.pred() == in_status(status),
{
    let mut c = Criteria::any();
    c.status = Some(status);
    proof {
        assert(c.pred() =~= in_status(status));
    }
    c
}

/// The criteria of an administrator's listing. In scope `Mine` an
/// anonymous caller has no rows.
pub fn admin_criteria(q: &AdminCommentQuery, who: &OptionalClaims, by_mail: bool) -> (c: Criteria)
    ensures
        c.pred() == admin_listed(*q, *who, by_mail),
{
    let mut c = Criteria::any();
    c.status = Some(q.status);
    match q.owner {
        Owner::All => {},
        Owner::Mine => match &who.0 {
            Some(claims) => {
                let mail = if by_mail {
                    clone_opt(&claims.mail)
                } else {
                    None
                };
                c.mine = Some(Mine { uid: claims.uid, mail });
            },
            None => {
                c.rid_in = Some(Vec::new());
            },
        },
    }
    c.keyword = clone_opt(&q.keyword);
    proof {
        assert(c.pred() =~= admin_listed(*q, *who, by_mail));
    }
    c
}

/// A row count as a 64-bit number.
pub fn to_count(n: usize) -> (c: u64)
    ensures
        c == as_count(n as nat),
{
    n as u64
}

/// A row count as a signed 64-bit number.
pub fn to_signed_count(n: usize) -> (c: i64)
    ensures
        c == as_signed_count(n as nat),
{
    if n as u64 > i64::MAX as u64 {
        i64::MAX
    } else {
        n as i64
    }
}

impl CommentService {
    /// Selects the rows of a thread listing from `rows`, which must hold
    /// every comment of the page. `page` is the page registered for the
    /// path of the query, if any.
    ///
    /// The roots are the readable rows of the page under `q.rid`, pinned
    /// ones first, then by the sort key of the query; of these the page
    /// `offset` of `limit` rows is returned. `count` is the number of all
    /// such roots. Where the top level is listed, the replies are the
    /// readable rows of the page whose root is one of the returned roots, in
    /// the order of `rows`.
    pub fn get_comment_list(
        &self,
        rows: &Vec<Model>,
        page: Option<&PathId>,
        q: &ListCommentQuery,
        who: &OptionalClaims,
    ) -> (r: ListRows)
        requires
            q.limit > 0,
        ensures
            page is None ==> r.count == 0 && r.total_pages == 0 && r.roots@.len() == 0
                && r.replies@.len() == 0,
            page matches Some(p) ==> {
                let all = rows@.filter(listed_root(p.id, q.rid, *who));
                &&& r.count == as_count(all.len())
                &&& r.total_pages == r.count / q.limit
                &&& r.roots@ == page_of(
                    Ranking::of_spec(q.sort_by).ranked(all),
                    q.limit as int,
                    q.sort_by.offset() as int,
                )
                &&& r.replies@ == if q.rid == 0 {
                    rows@.filter(listed_reply(p.id, ids_of(r.roots@), *who))
                } else {
                    Seq::<Model>::empty()
                }
            },
            Ranking::of_spec(q.sort_by).ordered(r.roots@),
            r.roots@.len() <= q.limit,
            forall|i: int| 0 <= i < r.roots@.len() ==> visible(*who, #[trigger] r.roots@[i]),
            forall|j: int|
                0 <= j < r.replies@.len() ==> visible(*who, #[trigger] r.replies@[j]) && exists|
                    i: int,
                | 0 <= i < r.roots@.len() && r.roots@[i].id == r.replies@[j].rid,
    {
        let p = match page {
            None => {
                return ListRows { count: 0, total_pages: 0, roots: Vec::new(), replies: Vec::new() };
            },
            Some(p) => p,
        };
        let ranking = Ranking::of(q.sort_by);
        let ((_, _), offset) = q.sort_by.into_column_order();
        let c = roots_criteria(p.id, q.rid, who);
        let all = select(rows, &c);
        let total = to_count(all.len());
        let sorted = ranking.rank(&all);
        let roots = take_page(sorted, q.limit, offset);
        proof {
            lemma_page_ordered(ranking, sorted@, q.limit as int, offset as int);
            broadcast use vstd::seq_lib::group_filter_ensures;
            assert forall|i: int| 0 <= i < roots@.len() implies visible(*who, #[trigger] roots@[i]) by {
                assert(sorted@.contains(roots@[i]));
                assert(sorted@.to_multiset().count(roots@[i]) > 0) by {
                    sorted@.to_multiset_ensures();
                }
                all@.to_multiset_ensures();
                assert(all@.contains(roots@[i]));
                let k = choose|k: int| 0 <= k < all@.len() && all@[k] == roots@[i];
                assert(listed_root(p.id, q.rid, *who)(all@[k]));
            }
        }
        let replies = if q.rid == 0 {
            let rc = replies_criteria(p.id, ids(&roots), who);
            let replies = select(rows, &rc);
            proof {
                assert forall|j: int| 0 <= j < replies@.len() implies visible(
                    *who,
                    #[trigger] replies@[j],
                ) && exists|i: int| 0 <= i < roots@.len() && roots@[i].id == replies@[j].rid by {
                    assert(listed_reply(p.id, ids_of(roots@), *who)(replies@[j]));
                    let i = choose|i: int|
                        0 <= i < ids_of(roots@).len() && ids_of(roots@)[i] == replies@[j].rid;
                    assert(roots@[i].id == replies@[j].rid);
                }
            }
            replies
        } else {
            Vec::new()
        };
        ListRows { count: total, total_pages: total / q.limit, roots, replies }
    }

    /// Counts, for each path of the query, the comments that the caller may
    /// read on the page registered for it in `pages`. `rows` must hold
    /// every comment of those pages. A path without a page counts zero.
    pub fn get_comment_count(
        &self,
        rows: &Vec<Model>,
        pages: &Vec<PathId>,
        q: &CountCommentQuery,
        who: &OptionalClaims,
    ) -> (out: Vec<i64>)
        ensures
            out@.len() == q.url@.len(),
            forall|i: int|
                0 <= i < out@.len() ==> out@[i] == count_on(rows@, pages@, #[trigger] q.url@[i]@, *who),
    {
        let mut out: Vec<i64> = Vec::new();
        let mut i: usize = 0;
        while i < q.url.len()
            invariant
                i <= q.url.len(),
                out@.len() == i,
                forall|k: int|
                    0 <= k < i ==> out@[k] == count_on(rows@, pages@, #[trigger] q.url@[k]@, *who),
            decreases q.url.len() - i,
        {
            let n: i64 = match find_page(pages, q.url[i].as_str()) {
                Some(id) => {
                    let c = page_criteria(id, who);
                    to_signed_count(count(rows, &c))
                },
                None => 0,
            };
            out.push(n);
            i += 1;
        }
        out
    }

    /// Selects the `q.count` newest comments, of any page, that the caller
    /// may read, newest first. `rows` must hold every comment.
    pub fn get_recent_comment_list(
        &self,
        rows: &Vec<Model>,
        q: &RecentCommentQuery,
        who: &OptionalClaims,
    ) -> (out: Vec<Model>)
        ensures
            out@ == page_of(
                Ranking::newest_first().ranked(rows@.filter(readable(*who))),
                q.count as int,
                0,
            ),
            Ranking::newest_first().ordered(out@),
            out@.len() <= q.count,
    {
        let c = read_criteria(who);
        let all = select(rows, &c);
        let ranking = Ranking::newest();
        let sorted = ranking.rank(&all);
        proof {
            lemma_page_ordered(ranking, sorted@, q.count as int, 0);
        }
        take_page(sorted, q.count, 0)
    }

    /// Selects the rows of an administrator's listing from `rows`, which
    /// must hold every comment. Only an administrator may ask; the listing
    /// shows the newest first, page `q.page` counted from one.
    pub fn get_admin_comment_list(
        &self,
        rows: &Vec<Model>,
        q: &AdminCommentQuery,
        who: &OptionalClaims,
    ) -> (r: Result<AdminRows, Rejection>)
        requires
            q.size > 0,
        ensures
            !who.admin() ==> r == Err::<AdminRows, Rejection>(Rejection::NoPermission),
            who.admin() ==> (r matches Ok(a) && {
                let all = rows@.filter(admin_listed(*q, *who, self.mine_by_mail));
                &&& a.page == q.page
                &&& a.page_size == q.size
                &&& a.total_pages == as_count(all.len()) / q.size
                &&& a.spam_count == as_count(rows@.filter(in_status(CommentStatus::Spam)).len())
                &&& a.waiting_count == as_count(
                    rows@.filter(in_status(CommentStatus::Waiting)).len(),
                )
                &&& a.rows@ == page_of(
                    Ranking::newest_first().ranked(all),
                    q.size as int,
                    if q.page > 0 { q.page - 1 } else { 0 },
                )
                &&& Ranking::newest_first().ordered(a.rows@)
            }),
    {
        if !who.is_admin() {
            return Err(Rejection::NoPermission);
        }
        let c = admin_criteria(q, who, self.mine_by_mail);
        let all = select(rows, &c);
        let total = to_count(all.len());
        let spam_count = to_count(count(rows, &status_criteria(CommentStatus::Spam)));
        let waiting_count = to_count(count(rows, &status_criteria(CommentStatus::Waiting)));
        let ranking = Ranking::newest();
        let sorted = ranking.rank(&all);
        let index: u64 = if q.page > 0 { q.page - 1 } else { 0 };
        proof {
            lemma_page_ordered(ranking, sorted@, q.size as int, index as int);
        }
        let page_rows = take_page(sorted, q.size, index);
        Ok(
            AdminRows {
                page: q.page,
                total_pages: total / q.size,
                page_size: q.size,
                spam_count,
                waiting_count,
                rows: page_rows,
            },
        )
    }
}

} // verus!
