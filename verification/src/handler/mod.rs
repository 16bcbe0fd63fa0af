//! What each key does.

use vstd::prelude::*;
use crate::app::{ActiveModules, App, AppState};
use crate::handler::fs::{after_fs_key, fs_key_handled, handle_fs};
use crate::handler::music_controller::{
    after_playlist_key, after_transport_key, handle_music_controller, handle_playlist,
};
use crate::handler::player::{after_volume_key, handle_player, is_volume_key};

pub mod fs;
pub mod music_controller;
pub mod player;

verus! {

/// A key of the keyboard, as far as the application tells keys apart.
#[derive(Clone, Copy, Debug, PartialEq, Eq, Structural)]
pub enum Key {
    Tab,
    Up,
    Down,
    Left,
    Right,
    Enter,
    /// A character key.
    Char(char),
    /// Any other key.
    Other,
}

/// The state with the keyboard handed to the other part of the screen.
pub open spec fn toggled(state: AppState) -> AppState {
    AppState {
        active: match state.active {
            ActiveModules::Fs => ActiveModules::PlayList,
            ActiveModules::PlayList => ActiveModules::Fs,
        },
        ..state
    }
}

/// The tabulator key hands the keyboard from the file browser to the
/// playlist and back. Tells whether `key` was that key.
pub fn handle_active_modules(app: &mut App, key: Key) -> (handled: bool)
    ensures
        handled == (key == Key::Tab),
        final(app)@ == if key == Key::Tab {
            toggled(old(app)@)
        } else {
            old(app)@
        },
        old(app)@.wf() ==> final(app)@.wf(),
{
    match key {
        Key::Tab => {
            match app.active_modules {
                ActiveModules::Fs => {
                    app.active_modules = ActiveModules::PlayList;
                },
                ActiveModules::PlayList => {
                    app.active_modules = ActiveModules::Fs;
                },
            }
            true
        },
        _ => false,
    }
}

/// The state after `key` was pressed at `now`. The tabulator key hands the
/// keyboard over and that is all. Any other key goes to the part of the
/// screen that has the keyboard. With the file browser, the browser sees it
/// first; a key that the browser does not take for its own is tried as a
/// volume key, and one that is not a volume key as a transport key. With
/// the playlist, only the playlist sees it.
pub open spec fn after_key(state: AppState, key: Key, now: u64) -> AppState {
    if key == Key::Tab {
        toggled(state)
    } else {
        match state.active {
            ActiveModules::Fs => {
                let browsed = after_fs_key(state, key);
                if fs_key_handled(state, key) {
                    browsed
                } else if is_volume_key(key) {
                    after_volume_key(browsed, key)
                } else {
                    after_transport_key(browsed, key, now)
                }
            },
            ActiveModules::PlayList => after_playlist_key(state, key),
        }
    }
}

/// Takes one key at `now`.
pub fn handle_keyboard_event(app: &mut App, key: Key, now: u64)
    requires
        old(app)@.wf(),
    ensures
        final(app)@ == after_key(old(app)@, key, now),
        final(app)@.wf(),
{
    if handle_active_modules(app, key) {
        return ;
    }
    match app.active_modules {
        ActiveModules::Fs => {
            if handle_fs(app, key) {
                return ;
            }
            if handle_player(app, key) {
                return ;
            }
            handle_music_controller(app, key, now);
        },
        ActiveModules::PlayList => {
            handle_playlist(app, key);
        },
    }
}

} // verus!
