//! Requests of the view-counter endpoints.

use vstd::prelude::*;
use crate::model::view_counter::Model;

verus! {

/// The request for the counters of several pages.
#[derive(Debug)]
pub struct ViewCountQuery {
    pub path: Vec<String>,
    pub types: Vec<ColumnQueryAs>,
}

/// The request to move one counter of a page by one.
#[derive(Debug)]
pub struct SetViewCount {
    pub path: String,
    pub action: SetCountAction,
    pub ty: ColumnQueryAs,
}

/// The direction in which a counter moves.
#[derive(Clone, Copy, Debug, PartialEq, Eq, Structural)]
pub enum SetCountAction {
    Asc,
    Desc,
}

impl Default for SetCountAction {
    fn default() -> (a: SetCountAction)
        ensures
            a == SetCountAction::Asc,
    {
        SetCountAction::Asc
    }
}

/// One of the counters of a page: the views, or one of nine reactions.
#[derive(Clone, Copy, Debug, PartialEq, Eq, Hash, Structural)]
pub enum ColumnQueryAs {
    Times,
    Reaction0,
    Reaction1,
    Reaction2,
    Reaction3,
    Reaction4,
    Reaction5,
    Reaction6,
    Reaction7,
    Reaction8,
}

impl SetCountAction {
    /// The step that the action takes.
    pub open spec fn delta(self) -> int {
        match self {
            SetCountAction::Asc => 1,
            SetCountAction::Desc => -1,
        }
    }
}

impl ColumnQueryAs {
    /// The value of the counter in `model`.
    pub open spec fn of(self, model: Model) -> i32 {
        match self {
            ColumnQueryAs::Times => model.times,
            ColumnQueryAs::Reaction0 => model.reaction0,
            ColumnQueryAs::Reaction1 => model.reaction1,
            ColumnQueryAs::Reaction2 => model.reaction2,
            ColumnQueryAs::Reaction3 => model.reaction3,
            ColumnQueryAs::Reaction4 => model.reaction4,
            ColumnQueryAs::Reaction5 => model.reaction5,
            ColumnQueryAs::Reaction6 => model.reaction6,
            ColumnQueryAs::Reaction7 => model.reaction7,
            ColumnQueryAs::Reaction8 => model.reaction8,
        }
    }

    /// Reads the counter from `model`.
    pub fn get(&self, model: &Model) -> (n: i32)
        ensures
            n == self.of(*model),
    {
        match self {
            ColumnQueryAs::Times => model.times,
            ColumnQueryAs::Reaction0 => model.reaction0,
            ColumnQueryAs::Reaction1 => model.reaction1,
            ColumnQueryAs::Reaction2 => model.reaction2,
            ColumnQueryAs::Reaction3 => model.reaction3,
            ColumnQueryAs::Reaction4 => model.reaction4,
            ColumnQueryAs::Reaction5 => model.reaction5,
            ColumnQueryAs::Reaction6 => model.reaction6,
            ColumnQueryAs::Reaction7 => model.reaction7,
            ColumnQueryAs::Reaction8 => model.reaction8,
        }
    }
}

} // verus!
