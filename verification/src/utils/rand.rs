//! Random strings.

use rand::Rng;
use vstd::prelude::*;
use crate::utils::text::chars_of;

verus! {

/// Draws an index below `bound` with `rand::thread_rng` and
/// `rand::Rng::gen_range`.
///
/// Trusted: the index lies below the bound. Which index comes is left
/// open. The crate panics on an empty range, which the precondition leaves
/// out.
#[verifier::external_body]
fn random_index(bound: usize) -> (i: usize)
    requires
        bound > 0,
    ensures
        i < bound,
{
    rand::thread_rng().gen_range(0..bound)
}

/// The letters and digits that a random code is made of.
pub open spec fn alphanumeric() -> Seq<char> {
    "abcdefghijklmnopqrstuvwxyzABCDEFGHIJKLMNOPQRSTUVWXYZ0123456789"@
}

/// Draws `length` characters from `charset`, each independently.
pub fn generate_random_string(charset: &Vec<char>, length: usize) -> (s: String)
    requires
        length > 0 ==> charset@.len() > 0,
    ensures
        s@.len() == length,
        forall|i: int| 0 <= i < length ==> charset@.contains(#[trigger] s@[i]),
{
    let mut s = String::new();
    let mut n: usize = 0;
    while n < length
        invariant
            n <= length,
            length > 0 ==> charset@.len() > 0,
            s@.len() == n,
            forall|i: int| 0 <= i < n ==> charset@.contains(#[trigger] s@[i]),
        decreases length - n,
    {
        let index = random_index(charset.len());
        let c = charset[index];
        proof {
            assert(charset@[index as int] == c);
        }
        s.push(c);
        n += 1;
    }
    s
}

/// Draws a random string of `length` letters and digits.
pub fn rand_alphanumeric(length: usize) -> (s: String)
    ensures
        s@.len() == length,
        forall|i: int| 0 <= i < length ==> alphanumeric().contains(#[trigger] s@[i]),
{
    let charset = chars_of("abcdefghijklmnopqrstuvwxyzABCDEFGHIJKLMNOPQRSTUVWXYZ0123456789");
    proof {
        reveal_strlit("abcdefghijklmnopqrstuvwxyzABCDEFGHIJKLMNOPQRSTUVWXYZ0123456789");
    }
    generate_random_string(&charset, length)
}

} // verus!
