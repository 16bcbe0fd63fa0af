//! The ways in which a request to the player can fail.

use vstd::prelude::*;

verus! {

/// Why a request was turned down. None of these leaves the playlist or its
/// selection in a broken state.
#[derive(Clone, Copy, Debug, PartialEq, Eq, Structural)]
pub enum PlaybackError {
    /// The source could not be opened.
    UnreadableSource,
    /// The length of the source could not be told, not even in part.
    UnknownDuration,
    /// No output sink could be had for the track.
    DeviceUnavailable,
    /// The index names no entry of the playlist.
    OutOfRange,
    /// There is no output sink to act on.
    NoActiveSink,
}

impl PlaybackError {
    /// A line for the status bar.
    pub open spec fn spec_message(&self) -> Seq<char> {
        match *self {
            PlaybackError::UnreadableSource => "Open failed: unreadable source"@,
            PlaybackError::UnknownDuration => "Open failed: unknown duration"@,
            PlaybackError::DeviceUnavailable => "No output device"@,
            PlaybackError::OutOfRange => "No such entry"@,
            PlaybackError::NoActiveSink => "No active output"@,
        }
    }

    /// A line for the status bar.
    pub fn message(&self) -> (text: String)
        ensures
            text@ == self.spec_message(),
    {
        match self {
            PlaybackError::UnreadableSource => "Open failed: unreadable source".to_owned(),
            PlaybackError::UnknownDuration => "Open failed: unknown duration".to_owned(),
            PlaybackError::DeviceUnavailable => "No output device".to_owned(),
            PlaybackError::OutOfRange => "No such entry".to_owned(),
            PlaybackError::NoActiveSink => "No active output".to_owned(),
        }
    }
}

} // verus!
