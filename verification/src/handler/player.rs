//! The volume keys.

use vstd::prelude::*;
use crate::app::{App, AppState};
use crate::handler::Key;
use crate::media::player::Player;

verus! {

/// One press of a volume key changes the volume by this many hundredths.
pub const VOLUME_STEP: u8 = 5;

/// Full volume, in hundredths.
pub const FULL_VOLUME: u8 = 100;

/// The volume one step down, not below zero.
pub open spec fn spec_quieter(volume: u8) -> u8 {
    if volume >= VOLUME_STEP {
        (volume - VOLUME_STEP) as u8
    } else {
        0
    }
}

/// The volume one step up, not above full volume.
pub open spec fn spec_louder(volume: u8) -> u8 {
    if volume + VOLUME_STEP >= FULL_VOLUME {
        FULL_VOLUME
    } else {
        (volume + VOLUME_STEP) as u8
    }
}

/// The volume one step down, not below zero.
#[verifier::when_used_as_spec(spec_quieter)]
pub fn quieter(volume: u8) -> (lower: u8)
    ensures
        lower == spec_quieter(volume),
{
    if volume >= VOLUME_STEP {
        volume - VOLUME_STEP
    } else {
        0
    }
}

/// The volume one step up, not above full volume.
#[verifier::when_used_as_spec(spec_louder)]
pub fn louder(volume: u8) -> (higher: u8)
    ensures
        higher == spec_louder(volume),
{
    if volume >= FULL_VOLUME - VOLUME_STEP {
        FULL_VOLUME
    } else {
        volume + VOLUME_STEP
    }
}

/// Whether `code` is a volume key.
pub open spec fn is_volume_key(code: Key) -> bool {
    code == Key::Char('-') || code == Key::Char('=')
}

/// The state after a volume key: `-` sets the volume one step down, `=`
/// one step up. Any other key changes nothing.
pub open spec fn after_volume_key(state: AppState, code: Key) -> AppState {
    if code == Key::Char('-') {
        AppState { player: state.player.with_volume(spec_quieter(state.player.volume)), ..state }
    } else if code == Key::Char('=') {
        AppState { player: state.player.with_volume(spec_louder(state.player.volume)), ..state }
    } else {
        state
    }
}

/// Takes a volume key. Tells whether `code` was one.
pub fn handle_player(app: &mut App, code: Key) -> (handled: bool)
    ensures
        handled == is_volume_key(code),
        final(app)@ == after_volume_key(old(app)@, code),
        old(app)@.wf() ==> final(app)@.wf(),
{
    match code {
        Key::Char('-') => {
            let new_volume: u8 = quieter(app.player.volume());
            let _ = app.player.set_volume(new_volume);
            true
        },
        Key::Char('=') => {
            let new_volume: u8 = louder(app.player.volume());
            let _ = app.player.set_volume(new_volume);
            true
        },
        _ => false,
    }
}

} // verus!
