//! The query of the sign-in endpoints.

use vstd::prelude::*;

verus! {

/// Where to send the browser once the sign-in is done.
#[derive(Debug)]
pub struct OAuthQuery {
    pub redirect: Option<String>,
}

} // verus!
