//! Who may change or delete a comment, and what a change writes.

use vstd::prelude::*;
use crate::dto::comment::CommentUpdateReq;
use crate::error::Rejection;
use crate::model::comments::{liked, ActiveModel, Model};
use crate::model::{CommentStatus, UserType};
use crate::service::comment::CommentService;
use crate::service::criteria::{select, Criteria};
use crate::service::submit::{find_by_id, found};
use crate::service::thread::{ids, ids_of};
use crate::service::visibility::owns;
use crate::utils::jwt::OptionalClaims;

verus! {

/// The like counter after `n` likes were taken back one after the other.
pub open spec fn unliked(star: i32, n: nat) -> i32
    decreases n,
{
    if n == 0 {
        star
    } else {
        liked(unliked(star, (n - 1) as nat), false)
    }
}

/// A counter without likes stays at zero, however often a like is taken
/// back.
pub proof fn lemma_unlike_stays_at_zero(n: nat)
    ensures
        unliked(0, n) == 0,
    decreases n,
{
    if n > 0 {
        lemma_unlike_stays_at_zero((n - 1) as nat);
    }
}

/// No sequence of takings back makes a counter negative that was not.
pub proof fn lemma_unliked_not_negative(star: i32, n: nat)
    requires
        star >= 0,
    ensures
        unliked(star, n) >= 0,
    decreases n,
{
    if n > 0 {
        lemma_unliked_not_negative(star, (n - 1) as nat);
    }
}

/// Whether caller `who` may make the change `body` to `row`.
///
/// Anyone may like, take a like back, or send a request without fields. An
/// administrator may write every field, but may move the status only along
/// the moderation state machine. The author may write the text and nothing
/// else. Nobody else may write anything.
pub open spec fn may_update(who: OptionalClaims, row: Model, body: CommentUpdateReq) -> Result<
    (),
    Rejection,
> {
    if body.empty() {
        Ok(())
    } else {
        match who.0 {
            None => Err(Rejection::Forbidden),
            Some(c) => if c.ty == UserType::Admin {
                if body.status matches Some(s) && s != row.status && !CommentStatus::transition(
                    row.status,
                    s,
                ) {
                    Err(Rejection::InvalidTransition)
                } else {
                    Ok(())
                }
            } else if row.user_id != Some(c.uid) {
                Err(Rejection::Forbidden)
            } else if body.reserved() {
                Err(Rejection::Forbidden)
            } else {
                Ok(())
            },
        }
    }
}

/// The write that the change `body` of caller `who` makes to `row` at time
/// `now`: the like that is given or taken back, the fields that the
/// caller's role may write, and the time of the change.
pub open spec fn update_of(who: OptionalClaims, row: Model, body: CommentUpdateReq, now: i64) -> ActiveModel {
    let base = ActiveModel {
        id: Some(row.id),
        like: body.like,
        updated_at: Some(now),
        ..ActiveModel::unset()
    };
    match who.0 {
        Some(c) => if body.empty() { base } else { body.merged(base, c.ty) },
        None => base,
    }
}

/// Whether caller `who` may delete `row`: its author and every
/// administrator may.
pub open spec fn may_delete(who: OptionalClaims, row: Model) -> bool {
    who.admin() || owns(who, row)
}

/// The rows that go when comment `id` is deleted: the comment, the comments
/// that quote it, and the comments under it.
pub open spec fn in_thread(id: i32) -> spec_fn(Model) -> bool {
    |row: Model| row.id == id || row.pid == id || row.rid == id
}

/// Checks whether `who` may make the change `body` to `row`.
pub fn authorize_update(who: &OptionalClaims, row: &Model, body: &CommentUpdateReq) -> (r: Result<
    (),
    Rejection,
>)
    ensures
        r == may_update(*who, *row, *body),
{
    if body.is_empty() {
        return Ok(());
    }
    match &who.0 {
        None => Err(Rejection::Forbidden),
        Some(c) => {
            if c.is_admin() {
                match body.status {
                    Some(s) => {
                        if s != row.status && !row.status.can_become(s) {
                            return Err(Rejection::InvalidTransition);
                        }
                    },
                    None => {},
                }
                Ok(())
            } else {
                let owner = match row.user_id {
                    Some(uid) => uid == c.uid,
                    None => false,
                };
                if !owner {
                    Err(Rejection::Forbidden)
                } else if body.has_reserved() {
                    Err(Rejection::Forbidden)
                } else {
                    Ok(())
                }
            }
        },
    }
}

/// Checks whether `who` may delete `row`.
pub fn authorize_delete(who: &OptionalClaims, row: &Model) -> (b: bool)
    ensures
        b == may_delete(*who, *row),
{
    match &who.0 {
        None => false,
        Some(c) => c.is_admin() || match row.user_id {
            Some(uid) => uid == c.uid,
            None => false,
        },
    }
}

/// The criteria of the rows that go when comment `id` is deleted.
pub fn thread_criteria(id: i32) -> (c: Criteria)
    ensures
        c.pred() == in_thread(id),
        c.thread_of == Some(id),
{
    let mut c = Criteria::any();
    c.thread_of = Some(id);
    proof {
        assert(c.pred() =~= in_thread(id));
    }
    c
}

/// Decides on the deletion of comment `id` by caller `who`, and names the
/// rows to delete by their ids, in the order of `rows`. `rows` must hold
/// the comment and every comment that quotes it or stands under it.
pub fn delete_comment(rows: &Vec<Model>, who: &OptionalClaims, id: i32) -> (r: Result<
    Vec<i32>,
    Rejection,
>)
    ensures
        match found(rows@, id) {
            None => r == Err::<Vec<i32>, Rejection>(Rejection::CommentNotFound),
            Some(row) => if may_delete(*who, row) {
                r matches Ok(gone) && gone@ == ids_of(rows@.filter(in_thread(id))) && gone@.len() > 0
            } else {
                r == Err::<Vec<i32>, Rejection>(Rejection::Forbidden)
            },
        },
{
    let row = match find_by_id(rows, id) {
        None => {
            return Err(Rejection::CommentNotFound);
        },
        Some(row) => row,
    };
    if !authorize_delete(who, row) {
        return Err(Rejection::Forbidden);
    }
    let c = thread_criteria(id);
    let gone = select(rows, &c);
    proof {
        crate::service::submit::lemma_found(rows@, id);
        let k = choose|k: int| 0 <= k < rows@.len() && rows@[k] == *row;
        assert(c.pred()(rows@[k]));
        rows@.lemma_filter_contains(c.pred(), k);
    }
    Ok(ids(&gone))
}

impl CommentService {
    /// Decides on the change `body` that caller `who` asks for on the
    /// comment `row` at time `now`, and builds the write. `row` is the
    /// comment with the requested id, if there is one.
    pub fn update_comment(
        &self,
        who: &OptionalClaims,
        row: Option<&Model>,
        body: CommentUpdateReq,
        now: i64,
    ) -> (r: Result<ActiveModel, Rejection>)
        ensures
            match row {
                None => r == Err::<ActiveModel, Rejection>(Rejection::CommentNotFound),
                Some(c) => match may_update(*who, *c, body) {
                    Err(e) => r == Err::<ActiveModel, Rejection>(e),
                    Ok(_) => r == Ok::<ActiveModel, Rejection>(update_of(*who, *c, body, now)),
                },
            },
            r matches Ok(ac) ==> {
                let c = row->0;
                &&& ac.applied(*c).id == c.id
                &&& ac.applied(*c).user_id == c.user_id
                &&& ac.applied(*c).created_at == c.created_at
                &&& ac.applied(*c).updated_at == now
                &&& !who.admin() ==> ac.applied(*c).status == c.status && ac.applied(*c).sticky
                    == c.sticky
                &&& forall|stored: Model| stored.wf() ==> (#[trigger] ac.applied(stored)).wf()
            },
    {
        let c = match row {
            None => {
                return Err(Rejection::CommentNotFound);
            },
            Some(c) => c,
        };
        match authorize_update(who, c, &body) {
            Err(e) => {
                return Err(e);
            },
            Ok(_) => {},
        }
        let mut ac = ActiveModel::default();
        ac.id = Some(c.id);
        ac.like = body.like;
        let ac = ac.before_save(false, now);
        match &who.0 {
            None => Ok(ac),
            Some(claims) => {
                if body.is_empty() {
                    Ok(ac)
                } else {
                    Ok(body.update_active_model(ac, claims.ty))
                }
            },
        }
    }
}

} // verus!
