//! A single-fire cancellation token: the first firing counts, later ones are
//! no-ops.
use vstd::prelude::*;

verus! {

/// The token's state after a firing, and whether that firing was the first.
pub open spec fn fire_outcome(fired: bool) -> (bool, bool) {
    (true, !fired)
}

/// Whether an outside request to stop has been received.
#[derive(Debug)]
pub struct CancellationToken {
    fired: bool,
}

impl CancellationToken {
    pub closed spec fn fired(&self) -> bool {
        self.fired
    }

    /// A token that has not fired.
    pub fn new() -> (r: CancellationToken)
        ensures
            !r.fired(),
    {
        CancellationToken { fired: false }
    }

    /// Fires the token; returns whether this was its first firing.
    pub fn fire(&mut self) -> (first: bool)
        ensures
            (final(self).fired(), first) == fire_outcome(old(self).fired()),
    {
        let first = !self.fired;
        self.fired = true;
        first
    }

    /// Whether the token has fired.
    pub fn is_fired(&self) -> (r: bool)
        ensures
            r == self.fired(),
    {
        self.fired
    }
}

/// Firing a token a second time is a no-op: the token stays fired and the
/// second firing does not count as a new one.
pub proof fn lemma_fire_twice(fired: bool)
    ensures
        fire_outcome(fire_outcome(fired).0) == (true, false),
        fire_outcome(fire_outcome(fired).0).0 == fire_outcome(fired).0,
{
}

} // verus!
