//! The order in which a listing shows comments.

use vstd::prelude::*;
use crate::dto::comment::{Column, Order, OrderBy};
use crate::model::comments::Model;

verus! {

/// An order on comment rows: pinned rows first where `pinned` is set, then
/// by `column` in the direction `order`, then by ascending id.
#[derive(Clone, Copy, Debug, PartialEq, Eq, Structural)]
pub struct Ranking {
    pub pinned: bool,
    pub column: Column,
    pub order: Order,
}

impl Ranking {
    /// The value of the ranking's column in `row`.
    pub open spec fn key(self, row: Model) -> int {
        match self.column {
            Column::Star => row.star as int,
            Column::CreatedAt => row.created_at as int,
        }
    }

    /// `a` stands before `b`, or level with it.
    pub open spec fn before(self, a: Model, b: Model) -> bool {
        if self.pinned && a.sticky != b.sticky {
            a.sticky
        } else if self.key(a) != self.key(b) {
            match self.order {
                Order::Asc => self.key(a) < self.key(b),
                Order::Desc => self.key(a) > self.key(b),
            }
        } else {
            a.id <= b.id
        }
    }

    /// Every row of `s` stands before the rows that follow it.
    pub open spec fn ordered(self, s: Seq<Model>) -> bool {
        forall|i: int, j: int| 0 <= i < j < s.len() ==> self.before(s[i], s[j])
    }

    /// The place of `x` in the ordered sequence `s`: behind the last row
    /// that stands before it.
    pub open spec fn slot(self, s: Seq<Model>, x: Model) -> int
        decreases s.len(),
    {
        if s.len() == 0 {
            0
        } else if self.before(s.last(), x) {
            s.len() as int
        } else {
            self.slot(s.drop_last(), x)
        }
    }

    /// The rows of `s` in the order of the ranking. Rows that are level
    /// keep the order that they had in `s`.
    pub open spec fn ranked(self, s: Seq<Model>) -> Seq<Model>
        decreases s.len(),
    {
        if s.len() == 0 {
            Seq::empty()
        } else {
            let t = self.ranked(s.drop_last());
            t.insert(self.slot(t, s.last()), s.last())
        }
    }

    /// The ranking of a thread listing: pinned roots first, then the
    /// requested sort key.
    pub open spec fn of_spec(sort_by: OrderBy) -> Ranking {
        Ranking { pinned: true, column: sort_by.column(), order: sort_by.order() }
    }

    /// The ranking by time of creation, newest first.
    pub open spec fn newest_first() -> Ranking {
        Ranking { pinned: false, column: Column::CreatedAt, order: Order::Desc }
    }

    /// The ranking that a thread listing with sort key `sort_by` uses.
    pub fn of(sort_by: OrderBy) -> (r: Ranking)
        ensures
            r == Ranking::of_spec(sort_by),
    {
        let ((column, order), _) = sort_by.into_column_order();
        Ranking { pinned: true, column, order }
    }

    /// The ranking of the recent and the administrator's listings.
    pub fn newest() -> (r: Ranking)
        ensures
            r == Ranking::newest_first(),
    {
        Ranking { pinned: false, column: Column::CreatedAt, order: Order::Desc }
    }

    /// Whether `a` stands before `b`, or level with it.
    pub fn comes_before(&self, a: &Model, b: &Model) -> (r: bool)
        ensures
            r == self.before(*a, *b),
    {
        if self.pinned && a.sticky != b.sticky {
            return a.sticky;
        }
        match self.column {
            Column::Star => {
                if a.star != b.star {
                    match self.order {
                        Order::Asc => a.star < b.star,
                        Order::Desc => a.star > b.star,
                    }
                } else {
                    a.id <= b.id
                }
            },
            Column::CreatedAt => {
                if a.created_at != b.created_at {
                    match self.order {
                        Order::Asc => a.created_at < b.created_at,
                        Order::Desc => a.created_at > b.created_at,
                    }
                } else {
                    a.id <= b.id
                }
            },
        }
    }

    /// Of two rows, one stands before the other.
    pub proof fn lemma_total(self, a: Model, b: Model)
        ensures
            self.before(a, b) || self.before(b, a),
    {
    }

    /// What stands before a row stands before all that the row stands
    /// before.
    pub proof fn lemma_transitive(self, a: Model, b: Model, c: Model)
        requires
            self.before(a, b),
            self.before(b, c),
        ensures
            self.before(a, c),
    {
    }

    /// Where pinned rows come first, no row that is not pinned stands in
    /// front of a pinned one.
    pub proof fn lemma_pinned_first(self, s: Seq<Model>, i: int, j: int)
        requires
            self.pinned,
            self.ordered(s),
            0 <= i < j < s.len(),
            s[j].sticky,
        ensures
            s[i].sticky,
    {
        assert(self.before(s[i], s[j]));
    }

    /// Among rows that are alike in pinning, the keys follow the direction
    /// of the ranking, and rows with the same key follow their ids.
    pub proof fn lemma_keys_in_order(self, s: Seq<Model>, i: int, j: int)
        requires
            self.ordered(s),
            0 <= i < j < s.len(),
            !self.pinned || s[i].sticky == s[j].sticky,
        ensures
            match self.order {
                Order::Asc => self.key(s[i]) <= self.key(s[j]),
                Order::Desc => self.key(s[i]) >= self.key(s[j]),
            },
            self.key(s[i]) == self.key(s[j]) ==> s[i].id <= s[j].id,
    {
        assert(self.before(s[i], s[j]));
    }

    /// The slot lies within the sequence; the rows from the slot on do not
    /// stand before `x`, and the row in front of the slot does.
    pub proof fn lemma_slot(self, s: Seq<Model>, x: Model)
        ensures
            0 <= self.slot(s, x) <= s.len(),
            forall|k: int| self.slot(s, x) <= k < s.len() ==> !self.before(#[trigger] s[k], x),
            self.slot(s, x) > 0 ==> self.before(s[self.slot(s, x) - 1], x),
        decreases s.len(),
    {
        if s.len() > 0 && !self.before(s.last(), x) {
            let t = s.drop_last();
            self.lemma_slot(t, x);
            assert forall|k: int| self.slot(s, x) <= k < s.len() implies !self.before(
                #[trigger] s[k],
                x,
            ) by {
                if k < t.len() {
                    assert(s[k] == t[k]);
                }
            }
            if self.slot(s, x) > 0 {
                assert(s[self.slot(s, x) - 1] == t[self.slot(t, x) - 1]);
            }
        }
    }

    /// Ranking keeps every row, as often as it occurred.
    pub proof fn lemma_ranked_permutes(self, s: Seq<Model>)
        ensures
            self.ranked(s).len() == s.len(),
            self.ranked(s).to_multiset() == s.to_multiset(),
        decreases s.len(),
    {
        broadcast use vstd::seq_lib::to_multiset_build, vstd::seq_lib::to_multiset_insert;

        if s.len() == 0 {
            assert(s =~= Seq::<Model>::empty());
        } else {
            let t = self.ranked(s.drop_last());
            self.lemma_ranked_permutes(s.drop_last());
            self.lemma_slot(t, s.last());
            assert(s =~= s.drop_last().push(s.last()));
        }
    }

    /// The ranked rows are in order.
    pub proof fn lemma_ranked_ordered(self, s: Seq<Model>)
        ensures
            self.ordered(self.ranked(s)),
        decreases s.len(),
    {
        if s.len() > 0 {
            let t = self.ranked(s.drop_last());
            let x = s.last();
            let p = self.slot(t, x);
            let r = t.insert(p, x);
            self.lemma_ranked_ordered(s.drop_last());
            self.lemma_slot(t, x);
            assert forall|i: int, j: int| 0 <= i < j < r.len() implies self.before(r[i], r[j]) by {
                if j == p {
                    // r[i] is a row of t in front of the slot
                    if i < p - 1 {
                        self.lemma_transitive(t[i], t[p - 1], x);
                    }
                } else if i == p {
                    // r[j] is a row of t from the slot on
                    assert(!self.before(t[j - 1], x));
                    self.lemma_total(t[j - 1], x);
                } else {
                    let ti = if i < p { i } else { i - 1 };
                    let tj = if j < p { j } else { j - 1 };
                    assert(r[i] == t[ti] && r[j] == t[tj]);
                }
            }
        }
    }

    /// Sorts a copy of `rows` by the ranking.
    pub fn rank(&self, rows: &Vec<Model>) -> (out: Vec<Model>)
        ensures
            out@ == self.ranked(rows@),
            self.ordered(out@),
            out@.to_multiset() == rows@.to_multiset(),
            out@.len() == rows@.len(),
    {
        let mut out: Vec<Model> = Vec::new();
        let mut i: usize = 0;
        proof {
            assert(rows@.take(0) =~= Seq::<Model>::empty());
        }
        while i < rows.len()
            invariant
                i <= rows.len(),
                out@ == self.ranked(rows@.take(i as int)),
                out@.len() == i,
            decreases rows.len() - i,
        {
            let row = &rows[i];
            let mut j: usize = out.len();
            proof {
                assert(out@.take(j as int) =~= out@);
            }
            while j > 0 && !self.comes_before(&out[j - 1], row)
                invariant
                    j <= out.len(),
                    self.slot(out@, *row) == self.slot(out@.take(j as int), *row),
                decreases j,
            {
                proof {
                    assert(out@.take(j as int).drop_last() =~= out@.take(j - 1));
                }
                j -= 1;
            }
            proof {
                assert(rows@.take(i + 1).drop_last() =~= rows@.take(i as int));
                assert(rows@.take(i + 1).last() == *row);
                if j > 0 {
                    assert(out@.take(j as int).last() == out@[j - 1]);
                }
            }
            out.insert(j, row.copy());
            i += 1;
        }
        proof {
            assert(rows@.take(rows.len() as int) =~= rows@);
            self.lemma_ranked_ordered(rows@);
            self.lemma_ranked_permutes(rows@);
        }
        out
    }
}

} // verus!
