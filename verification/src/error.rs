//! What the library reports when it declines an operation.

use vstd::prelude::*;

verus! {

/// Why an operation was declined. A declined operation changes nothing.
#[derive(Clone, Copy, Debug, PartialEq, Eq, Structural)]
pub enum TurnError {
    /// No speaker is registered at that position.
    NoSuchSpeaker,
    /// No speech is logged at that position.
    NoSuchSpeech,
    /// The stopwatch shows zero, so there is no speech to log.
    NothingToCommit,
}

} // verus!
