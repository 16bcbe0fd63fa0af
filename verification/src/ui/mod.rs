//! What the screen shows beside the player: the file browser and the wave
//! display.

use vstd::prelude::*;

pub mod effects;
pub mod fs;

verus! {

/// What the timer sends to the event loop.
#[derive(Clone, Copy, Debug, PartialEq, Eq, Structural)]
pub enum EventType {
    /// Time for a tick of the player.
    Player,
    /// Time for a tick of the radio, which has nothing to do yet.
    Radio,
}

} // verus!
