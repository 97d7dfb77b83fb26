//! Where an event stream resumes.

use vstd::prelude::*;

verus! {

/// The position policy of one event stream.
#[derive(Clone, Copy, Debug, PartialEq, Eq, Structural)]
pub enum CursorKind {
    /// Follows a sequence number that only grows; `start` is the first one
    /// that will be fetched.
    ForwardSequential { start: u64 },
    /// Paces itself against the chain's block production and resumes from the
    /// watermark that the sync engine keeps.
    RateLimited,
}

/// The first sequence number to fetch when `last_persisted` is the highest
/// one on record: one below it, and zero where there is no record or only the
/// record zero.
pub open spec fn forward_start(last_persisted: Option<u64>) -> u64 {
    match last_persisted {
        Some(n) => if n >= 1 { (n - 1) as u64 } else { 0 },
        None => 0,
    }
}

/// Computes the start of a forward cursor from the highest persisted sequence
/// number. The newest record is fetched again, since what depends on it may
/// not have been written when the agent last stopped.
pub fn forward_cursor_start(last_persisted: Option<u64>) -> (start: u64)
    ensures
        start == forward_start(last_persisted),
{
    let latest: u64 = match last_persisted {
        Some(n) => n,
        None => 0,
    };
    latest.saturating_sub(1)
}

/// A forward start never lies beyond the newest record, and at most one
/// record is fetched a second time.
pub proof fn lemma_forward_start_bounds(last_persisted: u64)
    ensures
        forward_start(Some(last_persisted)) <= last_persisted,
        last_persisted - forward_start(Some(last_persisted)) <= 1,
        last_persisted >= 1 ==> forward_start(Some(last_persisted)) == last_persisted - 1,
{
}

} // verus!
