use vstd::prelude::*;

verus! {

/// Where the remote player stands in its start-up.
#[derive(Debug, Clone, Copy, PartialEq, Eq, Structural)]
pub enum Readiness {
    /// Constructed, not yet ready.
    Unready,
    /// Signalled ready; stays so.
    Ready,
    /// Construction failed; no remote player exists.
    Failed,
}

/// The one-shot readiness signal: `Unready` moves to `Ready` once, on the
/// ready event, or to `Failed` once, when construction fails. Both are final.
pub struct ReadinessGate {
    state: Readiness,
}

/// The change that `mark_ready` makes: `Unready` becomes `Ready` and the
/// waiters are released; any other state stays and nothing is released.
pub open spec fn marked_ready(before: Readiness, after: Readiness, release: bool) -> bool {
    &&& release == (before == Readiness::Unready)
    &&& after == if before == Readiness::Unready {
        Readiness::Ready
    } else {
        before
    }
}

impl ReadinessGate {
    pub closed spec fn view(&self) -> Readiness {
        self.state
    }

    /// A gate for a player whose construction succeeded (`Unready`) or failed (`Failed`).
    pub fn new(constructed: bool) -> (r: ReadinessGate)
        ensures
            r@ == if constructed {
                Readiness::Unready
            } else {
                Readiness::Failed
            },
    {
        if constructed {
            ReadinessGate { state: Readiness::Unready }
        } else {
            ReadinessGate { state: Readiness::Failed }
        }
    }

    /// The current readiness state.
    pub fn state(&self) -> (r: Readiness)
        ensures
            r == self@,
    {
        self.state
    }

    /// Whether the player is ready.
    pub fn is_ready(&self) -> (r: bool)
        ensures
            r == (self@ == Readiness::Ready),
    {
        match self.state {
            Readiness::Ready => true,
            _ => false,
        }
    }

    /// Records the ready event. Returns whether the waiters for readiness are
    /// to be released now: true on the first ready event of a constructed
    /// player, false ever after and for a failed one.
    pub fn mark_ready(&mut self) -> (release: bool)
        ensures
            marked_ready(old(self)@, final(self)@, release),
    {
        match self.state {
            Readiness::Unready => {
                self.state = Readiness::Ready;
                true
            },
            _ => false,
        }
    }
}

} // verus!
