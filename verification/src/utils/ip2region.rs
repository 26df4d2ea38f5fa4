//! The region that an address belongs to.

use vstd::prelude::*;
use vstd::string::StringExecFns;
use crate::utils::text::{chars_of, join, joined, same_str, text, texts};

verus! {

/// A region as the address database describes it. A part that the
/// database does not know is absent.
#[derive(Debug)]
pub struct Location {
    pub contry: Option<String>,
    pub region: Option<String>,
    pub province: Option<String>,
    pub city: Option<String>,
    pub isp: Option<String>,
}

/// The string as a list: one element where there is one, none otherwise.
pub open spec fn listing(o: Option<String>) -> Seq<String> {
    match o {
        Some(s) => seq![s],
        None => Seq::empty(),
    }
}

/// The parts of `s` between the occurrences of `sep`.
pub open spec fn split_at(s: Seq<char>, sep: char) -> Seq<Seq<char>>
    decreases s.len(),
{
    if s.len() == 0 {
        seq![Seq::empty()]
    } else {
        let rest = split_at(s.drop_last(), sep);
        if s.last() == sep {
            rest.push(Seq::empty())
        } else {
            rest.drop_last().push(rest.last().push(s.last()))
        }
    }
}

/// Part `i` of a record of the address database: absent where the record
/// has no such part, where the part is empty, and where it is `0`.
pub open spec fn field(v: Seq<Seq<char>>, i: int) -> Option<Seq<char>> {
    if 0 <= i < v.len() && v[i].len() > 0 && v[i] != seq!['0'] {
        Some(v[i])
    } else {
        None
    }
}

/// Splits `s` at every occurrence of `sep`.
pub fn split(s: &str, sep: char) -> (parts: Vec<String>)
    ensures
        texts(parts@) == split_at(s@, sep),
{
    let cs = chars_of(s);
    let mut parts: Vec<String> = Vec::new();
    let mut current = String::new();
    let mut i: usize = 0;
    proof {
        assert(cs@.take(0) =~= Seq::<char>::empty());
        assert(texts(parts@).push(current@) =~= seq![Seq::<char>::empty()]);
    }
    while i < cs.len()
        invariant
            i <= cs.len(),
            texts(parts@).push(current@) == split_at(cs@.take(i as int), sep),
        decreases cs.len() - i,
    {
        let ghost before = split_at(cs@.take(i as int), sep);
        proof {
            assert(cs@.take(i + 1).drop_last() =~= cs@.take(i as int));
            assert(cs@.take(i + 1).last() == cs@[i as int]);
            assert(before.last() == current@);
            assert(before.drop_last() =~= texts(parts@));
        }
        if cs[i] == sep {
            let ghost old_parts = parts@;
            parts.push(current);
            current = String::new();
            proof {
                assert(texts(parts@) =~= texts(old_parts).push(parts@.last()@));
                assert(texts(parts@) =~= before);
            }
        } else {
            current.push(cs[i]);
        }
        i += 1;
    }
    proof {
        assert(cs@.take(cs.len() as int) =~= cs@);
    }
    let ghost old_parts = parts@;
    parts.push(current);
    proof {
        assert(texts(parts@) =~= texts(old_parts).push(parts@.last()@));
    }
    parts
}

/// Reads part `i` of a record of the address database.
pub fn get(v: &Vec<&str>, i: usize) -> (r: Option<String>)
    ensures
        text(r) == field(v@.map_values(|s: &str| s@), i as int),
{
    if i >= v.len() {
        return None;
    }
    let part: &str = v[i];
    proof {
        reveal_strlit("");
        reveal_strlit("0");
        assert(""@ =~= Seq::<char>::empty());
        assert("0"@ =~= seq!['0']);
        assert(v@.map_values(|s: &str| s@)[i as int] == part@);
        if part@.len() == 0 {
            assert(part@ =~= ""@);
        }
    }
    if same_str(part, "") || same_str(part, "0") {
        None
    } else {
        Some(String::from_str(part))
    }
}

impl Location {
    /// The region lies in China.
    pub open spec fn domestic(self) -> bool {
        self.contry matches Some(c) && c@ == "\u{4e2d}\u{56fd}"@
    }

    /// The parts that are written, from the largest to the smallest. The
    /// country is left out where it is China.
    pub open spec fn parts(self) -> Seq<String> {
        (if self.domestic() {
            Seq::empty()
        } else {
            listing(self.contry)
        }) + listing(self.province) + listing(self.city) + listing(self.isp)
    }

    /// The first `depth` written parts, with a space between each two.
    pub open spec fn described(self, depth: usize) -> Seq<char> {
        let parts = self.parts();
        joined(texts(if depth <= parts.len() { parts.take(depth as int) } else { parts }), seq![' '])
    }

    /// The region that a record of the address database describes: its
    /// parts, separated by `|`, are country, region, province, city and
    /// provider, in this order.
    pub open spec fn of_record(raw: Seq<char>, loc: Location) -> bool {
        let v = split_at(raw, '|');
        &&& text(loc.contry) == field(v, 0)
        &&& text(loc.region) == field(v, 1)
        &&& text(loc.province) == field(v, 2)
        &&& text(loc.city) == field(v, 3)
        &&& text(loc.isp) == field(v, 4)
    }

    /// Reads a record of the address database.
    pub fn parse(raw: &str) -> (loc: Location)
        ensures
            Location::of_record(raw@, loc),
    {
        let owned = split(raw, '|');
        let mut v: Vec<&str> = Vec::new();
        let mut i: usize = 0;
        while i < owned.len()
            invariant
                i <= owned.len(),
                v@.len() == i,
                forall|k: int| 0 <= k < i ==> (#[trigger] v@[k])@ == owned@[k]@,
            decreases owned.len() - i,
        {
            v.push(owned[i].as_str());
            i += 1;
        }
        proof {
            assert(v@.map_values(|s: &str| s@) =~= texts(owned@));
        }
        Location {
            contry: get(&v, 0),
            region: get(&v, 1),
            province: get(&v, 2),
            city: get(&v, 3),
            isp: get(&v, 4),
        }
    }

    /// Writes the first `depth` known parts of the region, separated by
    /// spaces.
    pub fn to_string(self, depth: usize) -> (s: String)
        ensures
            s@ == self.described(depth),
    {
        let domestic = match &self.contry {
            Some(c) => same_str(c.as_str(), "\u{4e2d}\u{56fd}"),
            None => false,
        };
        let mut parts: Vec<String> = Vec::new();
        if !domestic {
            if let Some(c) = self.contry {
                parts.push(c);
            }
        }
        let ghost p0 = parts@;
        if let Some(p) = self.province {
            parts.push(p);
        }
        let ghost p1 = parts@;
        if let Some(c) = self.city {
            parts.push(c);
        }
        let ghost p2 = parts@;
        if let Some(i) = self.isp {
            parts.push(i);
        }
        proof {
            assert(p1 =~= p0 + listing(self.province));
            assert(p2 =~= p1 + listing(self.city));
            assert(parts@ =~= p2 + listing(self.isp));
            assert(parts@ =~= self.parts());
            reveal_strlit(" ");
            assert(" "@ =~= seq![' ']);
        }
        parts.truncate(depth);
        join(&parts, " ")
    }

    /// A copy of the region.
    pub fn copy(&self) -> (r: Location)
        ensures
            r == *self,
    {
        Location {
            contry: crate::model::comments::clone_opt(&self.contry),
            region: crate::model::comments::clone_opt(&self.region),
            province: crate::model::comments::clone_opt(&self.province),
            city: crate::model::comments::clone_opt(&self.city),
            isp: crate::model::comments::clone_opt(&self.isp),
        }
    }
}

} // verus!
