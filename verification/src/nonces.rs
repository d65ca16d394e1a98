//! What is asked of a store of nonces.
//!
//! The store itself is a file that another crate keeps. Whoever uses it hands a nonce over, and
//! gets it taken or a complaint back. What a store does that works is stated here, so that it
//! can be said what follows from it.

use crate::time::{self, Moment};
use vstd::prelude::*;

verus! {

/// Whether a store remembers a nonce: it was seen, and the time for which it is remembered is
/// not over.
pub open spec fn remembers(
    held: Map<Seq<char>, Moment>,
    nonce: Seq<char>,
    now: Moment,
    ttl: int,
) -> bool {
    held.contains_key(nonce) && !time::later(now, time::plus(held[nonce], ttl))
}

/// The store complains of a nonce that it remembers.
pub open spec fn refuses_what_it_remembers(
    held: Map<Seq<char>, Moment>,
    nonce: Seq<char>,
    now: Moment,
    ttl: int,
    outcome: Result<(), Seq<char>>,
) -> bool {
    remembers(held, nonce, now, ttl) ==> outcome == Err::<(), Seq<char>>(
        "trusted_upstream_nonce_replayed"@,
    )
}

/// The store holds a nonce that it took, with the time at which it was seen.
pub open spec fn holds_what_it_took(
    held: Map<Seq<char>, Moment>,
    nonce: Seq<char>,
    seen_at: Moment,
    outcome: Result<(), Seq<char>>,
) -> bool {
    outcome is Ok ==> held.contains_key(nonce) && held[nonce] == seen_at
}

/// The store has dropped nothing whose time is not over. A store that is full does not keep to
/// that: it drops what it has held longest.
pub open spec fn keeps_what_it_holds(
    before: Map<Seq<char>, Moment>,
    held: Map<Seq<char>, Moment>,
    now: Moment,
    ttl: int,
) -> bool {
    forall|nonce: Seq<char>| #[trigger]
        remembers(before, nonce, now, ttl) ==> held.contains_key(nonce) && held[nonce]
            == before[nonce]
}

} // verus!
