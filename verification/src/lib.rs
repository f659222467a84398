//! Client-side session and synchronization core for a chat-protocol client:
//! media-reference resolution, login-option discovery, session state, the
//! login transaction, and the sync event-dispatch decision.

pub mod digits;
pub mod media;
pub mod inout;
pub mod client;
pub mod discover;

use vstd::prelude::*;

verus! {

/// True when `p` is an initial segment of `s`.
pub open spec fn has_prefix(s: Seq<char>, p: Seq<char>) -> bool {
    p.len() <= s.len() && s.subrange(0, p.len() as int) == p
}

} // verus!
