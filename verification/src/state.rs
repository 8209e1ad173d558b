//! The snapshot of playback state handed back to callers.

use vstd::prelude::*;

verus! {

/// A point-in-time copy of the worker's playback state.
///
/// Positions and durations are whole milliseconds. A snapshot is valid
/// only at the instant it was produced: there is no live subscription.
/// `duration_millis` is never computed by this core; it stays at whatever
/// value the worker's cached state holds (zero unless a caller populated
/// it from separately probed metadata).
#[derive(Clone, Copy, Debug, PartialEq, Eq, Structural)]
pub struct AudioState {
    pub is_playing: bool,
    pub pos_millis: u64,
    pub duration_millis: u64,
}

impl AudioState {
    /// The state a fresh worker caches before any command has run.
    pub open spec fn initial() -> AudioState {
        AudioState { is_playing: false, pos_millis: 0, duration_millis: 0 }
    }

    /// A fresh, not-playing state at position zero.
    pub fn new() -> (s: AudioState)
        ensures
            s == AudioState::initial(),
    {
        AudioState { is_playing: false, pos_millis: 0, duration_millis: 0 }
    }
}

} // verus!
