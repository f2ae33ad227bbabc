use vstd::prelude::*;

verus! {

/// The failures the player wrapper reports.
#[derive(Debug, Clone, Copy, PartialEq, Eq, Structural)]
pub enum PlayerError {
    /// An event name that is empty or not one of the known events.
    InvalidInput,
    /// The remote player constructor did not yield a usable player.
    PlayerConstructionFailed,
}

} // verus!
