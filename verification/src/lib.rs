//! An in-memory vote-tally library: a store mapping composite poll/choice
//! keys to counts, the logic that builds those keys and the response
//! messages, and the handler that records one vote.

use vstd::prelude::*;

pub mod handler;
pub mod laws;
pub mod store;

verus! {

/// The fixed text served as the liveness/health response.
pub open spec fn version_string() -> Seq<char> {
    "version 0.0.2"@
}

/// Health probe: always the fixed version string, whatever the store holds.
pub fn health() -> (r: &'static str)
    ensures
        r@ == version_string(),
{
    "version 0.0.2"
}

} // verus!
