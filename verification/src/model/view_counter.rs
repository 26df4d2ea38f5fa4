//! The counters of a page.

use vstd::prelude::*;
use crate::dto::view_counter::{ColumnQueryAs, SetCountAction, SetViewCount, ViewCountQuery};
use crate::utils::text::same_str;

verus! {

/// The counters of one page as the record store holds them.
#[derive(Debug)]
pub struct Model {
    pub id: i32,
    pub url: String,
    pub times: i32,
    pub reaction0: i32,
    pub reaction1: i32,
    pub reaction2: i32,
    pub reaction3: i32,
    pub reaction4: i32,
    pub reaction5: i32,
    pub reaction6: i32,
    pub reaction7: i32,
    pub reaction8: i32,
    pub created_at: i64,
    pub updated_at: i64,
}

/// A write to the counters of a page: the row to change, or the path of
/// the row to create, and the new value of one counter.
#[derive(Debug)]
pub struct ActiveModel {
    pub id: Option<i32>,
    pub url: Option<String>,
    pub column: ColumnQueryAs,
    pub value: i32,
}

/// A counter after one step up or down. It never falls below zero and
/// never passes the largest number.
pub open spec fn stepped(current: i32, action: SetCountAction) -> i32 {
    let next = current + action.delta();
    if next < 0 {
        0
    } else if next > i32::MAX {
        i32::MAX
    } else {
        next as i32
    }
}

/// The write with which the request `q` answers the stored counters
/// `model`: a new row with the counter at one where no row exists, the
/// counter moved by one step otherwise.
pub open spec fn increase_spec(model: Option<Model>, q: SetViewCount) -> ActiveModel {
    match model {
        None => ActiveModel { id: None, url: Some(q.path), column: q.ty, value: 1 },
        Some(m) => ActiveModel {
            id: Some(m.id),
            url: None,
            column: q.ty,
            value: stepped(q.ty.of(m), q.action),
        },
    }
}

/// The counters of the page with the path `path`: those of the last row
/// with this path.
pub open spec fn counters_of(models: Seq<Model>, path: Seq<char>) -> Option<Model>
    decreases models.len(),
{
    if models.len() == 0 {
        None
    } else if models.last().url@ == path {
        Some(models.last())
    } else {
        counters_of(models.drop_last(), path)
    }
}

/// The value that a listing shows for counter `column` of the page with
/// the path `path`: zero where the page has no counters.
pub open spec fn shown(models: Seq<Model>, path: Seq<char>, column: ColumnQueryAs) -> i32 {
    match counters_of(models, path) {
        Some(m) => column.of(m),
        None => 0,
    }
}

/// Moves a counter by one step.
pub fn step(current: i32, action: SetCountAction) -> (r: i32)
    ensures
        r == stepped(current, action),
        r >= 0,
{
    match action {
        SetCountAction::Asc => if current < 0 {
            0
        } else if current == i32::MAX {
            current
        } else {
            current + 1
        },
        SetCountAction::Desc => if current <= 0 {
            0
        } else {
            current - 1
        },
    }
}

/// Builds the write with which the request `q` answers the stored
/// counters `model` of its page.
pub fn increase_by_path(model: Option<&Model>, q: SetViewCount) -> (ac: ActiveModel)
    ensures
        ac == increase_spec(
            match model {
                Some(m) => Some(*m),
                None => None,
            },
            q,
        ),
{
    match model {
        None => ActiveModel { id: None, url: Some(q.path), column: q.ty, value: 1 },
        Some(m) => ActiveModel {
            id: Some(m.id),
            url: None,
            column: q.ty,
            value: step(q.ty.get(m), q.action),
        },
    }
}

/// Finds the counters of the page with the path `path`.
pub fn find_counters<'a>(models: &'a Vec<Model>, path: &str) -> (r: Option<&'a Model>)
    ensures
        match r {
            Some(m) => counters_of(models@, path@) == Some(*m),
            None => counters_of(models@, path@) is None,
        },
{
    let mut i: usize = models.len();
    proof {
        assert(models@.take(i as int) =~= models@);
    }
    while i > 0
        invariant
            i <= models.len(),
            counters_of(models@, path@) == counters_of(models@.take(i as int), path@),
        decreases i,
    {
        proof {
            assert(models@.take(i as int).drop_last() =~= models@.take(i - 1));
            assert(models@.take(i as int).last() == models@[i - 1]);
        }
        if same_str(models[i - 1].url.as_str(), path) {
            return Some(&models[i - 1]);
        }
        i -= 1;
    }
    None
}

/// Lists, for each path of the query, the asked counters in the order of
/// the query. A query without paths is answered with one row of zeros.
pub fn get_view_count(models: &Vec<Model>, q: &ViewCountQuery) -> (out: Vec<Vec<(ColumnQueryAs, i32)>>)
    ensures
        q.path@.len() == 0 ==> out@.len() == 1 && out@[0]@.len() == q.types@.len() && forall|t: int|
            0 <= t < q.types@.len() ==> (#[trigger] out@[0]@[t]) == (q.types@[t], 0i32),
        q.path@.len() > 0 ==> out@.len() == q.path@.len() && forall|p: int|
            0 <= p < out@.len() ==> (#[trigger] out@[p])@.len() == q.types@.len() && forall|t: int|
                0 <= t < q.types@.len() ==> (#[trigger] out@[p]@[t]) == (
                    q.types@[t],
                    shown(models@, q.path@[p]@, q.types@[t]),
                ),
{
    let mut out: Vec<Vec<(ColumnQueryAs, i32)>> = Vec::new();
    if q.path.len() == 0 {
        let mut zeros: Vec<(ColumnQueryAs, i32)> = Vec::new();
        let mut t: usize = 0;
        while t < q.types.len()
            invariant
                t <= q.types.len(),
                zeros@.len() == t,
                forall|k: int| 0 <= k < t ==> (#[trigger] zeros@[k]) == (q.types@[k], 0i32),
            decreases q.types.len() - t,
        {
            zeros.push((q.types[t], 0));
            t += 1;
        }
        out.push(zeros);
        return out;
    }
    let mut p: usize = 0;
    while p < q.path.len()
        invariant
            p <= q.path.len(),
            out@.len() == p,
            forall|k: int|
                0 <= k < p ==> (#[trigger] out@[k])@.len() == q.types@.len() && forall|t: int|
                    0 <= t < q.types@.len() ==> (#[trigger] out@[k]@[t]) == (
                        q.types@[t],
                        shown(models@, q.path@[k]@, q.types@[t]),
                    ),
        decreases q.path.len() - p,
    {
        let found = find_counters(models, q.path[p].as_str());
        let mut counter: Vec<(ColumnQueryAs, i32)> = Vec::new();
        let mut t: usize = 0;
        while t < q.types.len()
            invariant
                t <= q.types.len(),
                p < q.path.len(),
                counter@.len() == t,
                match found {
                    Some(m) => counters_of(models@, q.path@[p as int]@) == Some(*m),
                    None => counters_of(models@, q.path@[p as int]@) is None,
                },
                forall|k: int|
                    0 <= k < t ==> (#[trigger] counter@[k]) == (
                        q.types@[k],
                        shown(models@, q.path@[p as int]@, q.types@[k]),
                    ),
            decreases q.types.len() - t,
        {
            let n: i32 = match found {
                Some(m) => q.types[t].get(m),
                None => 0,
            };
            counter.push((q.types[t], n));
            t += 1;
        }
        out.push(counter);
        p += 1;
    }
    out
}

} // verus!
