//! The registry of commented pages.

use vstd::prelude::*;
use crate::utils::text::same_str;

verus! {

/// A registered page: its id and the path that it is known by.
#[derive(Debug)]
pub struct PathId {
    pub id: i32,
    pub path: String,
}

/// The id registered for `path`: that of the last entry with this path.
pub open spec fn page_id_of(pages: Seq<PathId>, path: Seq<char>) -> Option<i32>
    decreases pages.len(),
{
    if pages.len() == 0 {
        None
    } else if pages.last().path@ == path {
        Some(pages.last().id)
    } else {
        page_id_of(pages.drop_last(), path)
    }
}

/// Looks up the id registered for `path`.
pub fn find_page(pages: &Vec<PathId>, path: &str) -> (r: Option<i32>)
    ensures
        r == page_id_of(pages@, path@),
{
    let mut i: usize = pages.len();
    proof {
        assert(pages@.take(i as int) =~= pages@);
    }
    while i > 0
        invariant
            i <= pages.len(),
            page_id_of(pages@, path@) == page_id_of(pages@.take(i as int), path@),
        decreases i,
    {
        proof {
            assert(pages@.take(i as int).drop_last() =~= pages@.take(i - 1));
            assert(pages@.take(i as int).last() == pages@[i - 1]);
        }
        if same_str(pages[i - 1].path.as_str(), path) {
            return Some(pages[i - 1].id);
        }
        i -= 1;
    }
    None
}

} // verus!
