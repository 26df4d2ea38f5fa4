//! Storing a new comment.

use vstd::prelude::*;
use vstd::string::StringExecFns;
use crate::dto::comment::AddCommentReq;
use crate::error::Rejection;
use crate::model::comments::{ActiveModel, Model};
use crate::model::page_view_counter::PathId;
use crate::model::CommentStatus;
use crate::service::comment::CommentService;
use crate::service::criteria::Criteria;
use crate::service::spam::{forbidden_pattern, listed, repeats, Verdict};
use crate::utils::jwt::OptionalClaims;
use crate::utils::pattern::regex_is_match;
use crate::utils::text::{text, texts};

verus! {

/// The first row with the id `id`.
pub open spec fn found(rows: Seq<Model>, id: i32) -> Option<Model>
    decreases rows.len(),
{
    if rows.len() == 0 {
        None
    } else if rows[0].id == id {
        Some(rows[0])
    } else {
        found(rows.drop_first(), id)
    }
}

/// The root under which a submission that names `rid` is stored. A
/// submission that names no root is a root itself. One that names a reply
/// is stored under the root of that reply, so that no thread grows deeper
/// than two levels. A root that is named must exist.
pub open spec fn root_for(rows: Seq<Model>, rid: Option<i32>) -> Result<i32, Rejection> {
    match rid {
        None => Ok(0),
        Some(r) => if r == 0 {
            Ok(0)
        } else {
            match found(rows, r) {
                None => Err(Rejection::CommentNotFound),
                Some(parent) => Ok(
                    if parent.rid == 0 {
                        r
                    } else {
                        parent.rid
                    },
                ),
            }
        },
    }
}

/// A root with the id `id` is among the rows.
pub open spec fn has_root(rows: Seq<Model>, id: i32) -> bool {
    exists|j: int| 0 <= j < rows.len() && (#[trigger] rows[j]).id == id && rows[j].rid == 0
}

/// Every reply names a root that exists and that is itself no reply.
pub open spec fn two_level(rows: Seq<Model>) -> bool {
    forall|i: int| 0 <= i < rows.len() && (#[trigger] rows[i]).rid != 0 ==> has_root(rows, rows[i].rid)
}

/// A root stays a root when a row is added.
pub proof fn lemma_root_stays(rows: Seq<Model>, row: Model, id: i32)
    requires
        has_root(rows, id),
    ensures
        has_root(rows.push(row), id),
{
    let j = choose|j: int| 0 <= j < rows.len() && (#[trigger] rows[j]).id == id && rows[j].rid == 0;
    assert(rows.push(row)[j] == rows[j]);
}

/// What `found` returns is a row of the sequence with the id asked for.
pub proof fn lemma_found(rows: Seq<Model>, id: i32)
    ensures
        found(rows, id) matches Some(row) ==> row.id == id && rows.contains(row),
        found(rows, id) is None ==> forall|i: int| 0 <= i < rows.len() ==> (#[trigger] rows[i]).id != id,
    decreases rows.len(),
{
    if rows.len() > 0 {
        if rows[0].id == id {
            assert(rows.contains(rows[0]));
        } else {
            let rest = rows.drop_first();
            lemma_found(rest, id);
            if let Some(row) = found(rest, id) {
                let k = choose|k: int| 0 <= k < rest.len() && rest[k] == row;
                assert(rows[k + 1] == row);
            }
            assert forall|i: int| 0 <= i < rows.len() && found(rows, id) is None implies (
            #[trigger] rows[i]).id != id by {
                if i > 0 {
                    assert(rest[i - 1] == rows[i]);
                }
            }
        }
    }
}

/// Storing a submission under the root that `root_for` names keeps the
/// threads two levels deep.
pub proof fn lemma_submission_keeps_two_levels(rows: Seq<Model>, rid: Option<i32>, row: Model)
    requires
        two_level(rows),
        root_for(rows, rid) == Ok::<i32, Rejection>(row.rid),
    ensures
        two_level(rows.push(row)),
{
    let after = rows.push(row);
    assert forall|i: int| 0 <= i < after.len() && (#[trigger] after[i]).rid != 0 implies has_root(
        after,
        after[i].rid,
    ) by {
        if i < rows.len() {
            assert(after[i] == rows[i]);
            lemma_root_stays(rows, row, rows[i].rid);
        } else {
            let r = rid->0;
            lemma_found(rows, r);
            let parent = found(rows, r)->0;
            let k = choose|k: int| 0 <= k < rows.len() && rows[k] == parent;
            if parent.rid == 0 {
                assert(has_root(rows, r));
            } else {
                assert(has_root(rows, rows[k].rid));
            }
            lemma_root_stays(rows, row, row.rid);
        }
    }
}

/// A row that was stored for a submission makes the same submission a
/// duplicate, from any address that is not denied and at any time.
pub proof fn lemma_resubmission_rejected(
    service: CommentService,
    rows: Seq<Model>,
    page: PathId,
    body: AddCommentReq,
    ip: Seq<char>,
    now: i64,
    stored: Model,
)
    requires
        rows.contains(stored),
        stored.page_id == page.id,
        text(stored.mail) == text(body.mail),
        text(stored.link) == text(body.link),
        text(stored.nick) == text(body.nick),
        stored.content@ == body.stored(),
        !listed(service.raline.disallow_ips@, ip),
    ensures
        service.refusal(rows, Some(page), body, ip, now) == Some(Rejection::DuplicateContent),
{
    let i = choose|i: int| 0 <= i < rows.len() && rows[i] == stored;
    assert(repeats(page.id, body)(rows[i]));
}

/// Submitting twice in a row rejects the second: once the write that
/// `add_comment` built for a submission is inserted, the same submission
/// is a duplicate, from any address that is not denied and at any time.
pub proof fn lemma_second_submission_is_duplicate(
    service: CommentService,
    rows: Seq<Model>,
    page: PathId,
    who: OptionalClaims,
    ip: Seq<char>,
    body: AddCommentReq,
    now: i64,
    ac: ActiveModel,
    id: i32,
    row: Model,
    next_ip: Seq<char>,
    next_now: i64,
)
    requires
        CommentService::stores(ac, page.id, who, ip, body, ac.rid->0, ac.status->0, now),
        ac.inserts(id, row),
        !listed(service.raline.disallow_ips@, next_ip),
    ensures
        service.refusal(rows.push(row), Some(page), body, next_ip, next_now) == Some(
            Rejection::DuplicateContent,
        ),
{
    let after = rows.push(row);
    assert(after[rows.len() as int] == row);
    assert(after.contains(row));
    lemma_resubmission_rejected(service, after, page, body, next_ip, next_now, row);
}

/// What an administrator submits bypasses the classification: where the
/// submission is well formed and names no missing root, it is approved,
/// whatever the address, the rows, the spam checker and the forbidden
/// words.
pub proof fn lemma_administrator_bypasses(
    service: CommentService,
    rows: Seq<Model>,
    page: PathId,
    who: OptionalClaims,
    ip: Seq<char>,
    body: AddCommentReq,
    now: i64,
    verdict: Verdict,
    hit: Option<bool>,
)
    requires
        who.admin(),
        !(body.pid is Some && body.at is None),
        root_for(rows, body.rid) is Ok,
    ensures
        service.admitted(rows, page, who, ip, body, now, verdict, hit) == Ok::<
            (i32, CommentStatus),
            Rejection,
        >((root_for(rows, body.rid)->Ok_0, CommentStatus::Approved)),
{
}

/// A row that was stored for a submission does not make a duplicate of a
/// submission that differs from it in the comment alone.
pub proof fn lemma_changed_comment_is_no_duplicate(
    page_id: i32,
    body: AddCommentReq,
    changed: AddCommentReq,
    stored: Model,
)
    requires
        stored.content@ == body.stored(),
        text(changed.at) == text(body.at),
        changed.pid == body.pid,
        changed.comment@ != body.comment@,
    ensures
        !repeats(page_id, changed)(stored),
{
    let a = body.stored();
    let b = changed.stored();
    if a == b {
        let n = a.len() - body.comment@.len();
        assert(a.subrange(n, a.len() as int) =~= body.comment@);
        assert(b.subrange(b.len() - changed.comment@.len(), b.len() as int) =~= changed.comment@);
        assert(a.len() - body.comment@.len() == b.len() - changed.comment@.len());
    }
}

/// Where the spam checker is not consulted, its verdict does not bear on
/// the decision.
pub proof fn lemma_verdict_bears_only_where_consulted(
    service: CommentService,
    rows: Seq<Model>,
    page: PathId,
    who: OptionalClaims,
    ip: Seq<char>,
    body: AddCommentReq,
    now: i64,
    one: Verdict,
    other: Verdict,
    hit: Option<bool>,
)
    requires
        !service.consults(rows, page, who, ip, body, now),
    ensures
        service.admitted(rows, page, who, ip, body, now, one, hit) == service.admitted(
            rows,
            page,
            who,
            ip,
            body,
            now,
            other,
            hit,
        ),
{
}

/// Finds the first row with the id `id`.
pub fn find_by_id(rows: &Vec<Model>, id: i32) -> (r: Option<&Model>)
    ensures
        match r {
            Some(row) => found(rows@, id) == Some(*row),
            None => found(rows@, id) is None,
        },
{
    let mut i: usize = 0;
    proof {
        assert(rows@.skip(0) =~= rows@);
    }
    while i < rows.len()
        invariant
            i <= rows.len(),
            found(rows@, id) == found(rows@.skip(i as int), id),
        decreases rows.len() - i,
    {
        proof {
            assert(rows@.skip(i as int).drop_first() =~= rows@.skip(i + 1));
            assert(rows@.skip(i as int)[0] == rows@[i as int]);
        }
        if rows[i].id == id {
            return Some(&rows[i]);
        }
        i += 1;
    }
    None
}

/// The rows with the id `id`.
pub open spec fn with_id(id: i32) -> spec_fn(Model) -> bool {
    |row: Model| row.id == id
}

/// The criteria of the rows that decide under which root a submission that
/// names `rid` is stored: the named comment itself.
pub fn root_criteria(rid: Option<i32>) -> (c: Criteria)
    ensures
        c.pred() == with_id(
            match rid {
                Some(r) => r,
                None => 0,
            },
        ),
{
    let mut c = Criteria::any();
    c.id = Some(
        match rid {
            Some(r) => r,
            None => 0,
        },
    );
    proof {
        assert(c.pred() =~= with_id(
            match rid {
                Some(r) => r,
                None => 0,
            },
        ));
    }
    c
}

/// Names the root under which a submission that names `rid` is stored.
pub fn resolve_root(rows: &Vec<Model>, rid: Option<i32>) -> (r: Result<i32, Rejection>)
    ensures
        r == root_for(rows@, rid),
{
    match rid {
        None => Ok(0),
        Some(r) => {
            if r == 0 {
                return Ok(0);
            }
            match find_by_id(rows, r) {
                None => Err(Rejection::CommentNotFound),
                Some(parent) => if parent.rid == 0 {
                    Ok(r)
                } else {
                    Ok(parent.rid)
                },
            }
        },
    }
}

impl CommentService {
    /// Whether a submission is accepted, and if so under which root and
    /// with which status. A quoted comment must come with the name of its
    /// author; a named root must exist; what an administrator submits is
    /// approved as it is; every other submission goes through the
    /// classification.
    pub open spec fn admitted(
        self,
        rows: Seq<Model>,
        page: PathId,
        who: OptionalClaims,
        ip: Seq<char>,
        body: AddCommentReq,
        now: i64,
        verdict: Verdict,
        hit: Option<bool>,
    ) -> Result<(i32, CommentStatus), Rejection> {
        if body.pid is Some && body.at is None {
            Err(Rejection::AtRequired)
        } else {
            match root_for(rows, body.rid) {
                Err(e) => Err(e),
                Ok(rid) => if who.admin() {
                    Ok((rid, CommentStatus::Approved))
                } else {
                    match self.classified(rows, Some(page), body, ip, now, verdict, hit) {
                        Err(e) => Err(e),
                        Ok(status) => Ok((rid, status)),
                    }
                },
            }
        }
    }

    /// Whether the verdict of the spam checker bears on a submission: it
    /// does where the submission is well formed, does not come from an
    /// administrator, passes the fail-fast checks, and would be approved.
    pub open spec fn consults(
        self,
        rows: Seq<Model>,
        page: PathId,
        who: OptionalClaims,
        ip: Seq<char>,
        body: AddCommentReq,
        now: i64,
    ) -> bool {
        &&& !(body.pid is Some && body.at is None)
        &&& root_for(rows, body.rid) is Ok
        &&& !who.admin()
        &&& !self.raline.audit
        &&& self.refusal(rows, Some(page), body, ip, now) is None
    }

    /// Whether `ac` is the write that stores the submission `body` of
    /// caller `who` from address `ip` on page `page_id`, under root `rid`
    /// and with status `status`, at time `now`.
    pub open spec fn stores(
        ac: ActiveModel,
        page_id: i32,
        who: OptionalClaims,
        ip: Seq<char>,
        body: AddCommentReq,
        rid: i32,
        status: CommentStatus,
        now: i64,
    ) -> bool {
        &&& ac.id is None
        &&& ac.page_id == Some(page_id)
        &&& ac.user_id == Some(
            match who.0 {
                Some(c) => Some(c.uid),
                None => None,
            },
        )
        &&& ac.content matches Some(c) && c@ == body.stored()
        &&& ac.ip matches Some(i) && i@ == ip
        &&& ac.link == Some(body.link)
        &&& ac.mail == Some(body.mail)
        &&& ac.nick == Some(body.nick)
        &&& ac.pid == Some(if let Some(p) = body.pid { p } else { 0 })
        &&& ac.rid == Some(rid)
        &&& ac.sticky is None
        &&& ac.status == Some(status)
        &&& ac.star is None
        &&& ac.like is None
        &&& ac.ua == Some(body.ua)
        &&& ac.created_at == Some(now)
        &&& ac.updated_at == Some(now)
    }

    /// Tells whether the spam checker has to be asked about a submission,
    /// so that the remote call is made only where its answer can matter.
    pub fn wants_verdict(
        &self,
        rows: &Vec<Model>,
        page: &PathId,
        who: &OptionalClaims,
        client_ip: &str,
        body: &AddCommentReq,
        now: i64,
    ) -> (b: bool)
        ensures
            b == self.consults(rows@, *page, *who, client_ip@, *body, now),
    {
        if body.pid.is_some() && body.at.is_none() {
            return false;
        }
        if resolve_root(rows, body.rid).is_err() {
            return false;
        }
        if who.is_admin() || self.raline.audit {
            return false;
        }
        self.screen(rows, Some(page), body, client_ip, now).is_none()
    }

    /// Decides on a submission of caller `who` from address `client_ip` at
    /// time `now`, and builds the row to insert. `rows` must hold every
    /// comment of the page and every comment from the address; `page` is
    /// the page registered for the path of the submission; `verdict` is
    /// what the spam checker said.
    ///
    /// The decision is `admitted` for one of two outcomes of the search
    /// for forbidden words: the one that `regex_is_match` names, or none
    /// where the words did not compile.
    pub fn add_comment(
        &self,
        rows: &Vec<Model>,
        page: &PathId,
        who: &OptionalClaims,
        client_ip: &str,
        body: AddCommentReq,
        now: i64,
        verdict: Verdict,
    ) -> (r: Result<ActiveModel, Rejection>)
        ensures
            ({
                let words = texts(self.raline.forbidden_words@);
                let hit = if words.len() == 0 {
                    false
                } else {
                    regex_is_match(forbidden_pattern(words), body.comment@)
                };
                let named = self.admitted(rows@, *page, *who, client_ip@, body, now, verdict, Some(hit));
                let failed = self.admitted(rows@, *page, *who, client_ip@, body, now, verdict, None);
                let decision = match r {
                    Ok(ac) => Ok((ac.rid->0, ac.status->0)),
                    Err(e) => Err(e),
                };
                &&& decision == named || (words.len() > 0 && decision == failed)
                &&& r matches Ok(ac) ==> CommentService::stores(
                    ac,
                    page.id,
                    *who,
                    client_ip@,
                    body,
                    ac.rid->0,
                    ac.status->0,
                    now,
                )
            }),
            r matches Ok(ac) ==> root_for(rows@, body.rid) == Ok::<i32, Rejection>(ac.rid->0),
            r matches Ok(ac) ==> forall|id: i32, row: Model| #[trigger] ac.inserts(id, row) ==> row.wf(),
    {
        if body.pid.is_some() && body.at.is_none() {
            return Err(Rejection::AtRequired);
        }
        let rid = match resolve_root(rows, body.rid) {
            Ok(rid) => rid,
            Err(e) => {
                return Err(e);
            },
        };
        let status = if who.is_admin() {
            CommentStatus::Approved
        } else {
            match self.check_comment(rows, Some(page), &body, client_ip, now, verdict) {
                Ok(status) => status,
                Err(e) => {
                    return Err(e);
                },
            }
        };
        let content = body.content();
        let mut data = body.into_active_model(page.id);
        data.content = Some(content);
        data.rid = Some(rid);
        data.ip = Some(String::from_str(client_ip));
        data.user_id = Some(
            match &who.0 {
                Some(c) => Some(c.uid),
                None => None,
            },
        );
        data.status = Some(status);
        Ok(data.before_save(true, now))
    }
}

} // verus!
