//! The transport keys, and the keys of the playlist.

use vstd::prelude::*;
use crate::app::{ActiveModules, App, AppState};
use crate::handler::Key;
use crate::media::model::PlayerState;
use crate::media::player::Player;

verus! {

/// Whether `code` is a transport key: `s` or `n`, small or capital.
pub open spec fn is_transport_key(code: Key) -> bool {
    code == Key::Char('s') || code == Key::Char('S') || code == Key::Char('n') || code
        == Key::Char('N')
}

/// The state after a transport key at `now`: `s` pauses while sound is
/// coming out and resumes while it is not; `n` goes on to the next track.
/// Any other key changes nothing.
pub open spec fn after_transport_key(state: AppState, code: Key, now: u64) -> AppState {
    if code == Key::Char('s') || code == Key::Char('S') {
        AppState {
            player: if state.player.is_playing() {
                state.player.paused(now)
            } else {
                state.player.resumed(now)
            },
            ..state
        }
    } else if code == Key::Char('n') || code == Key::Char('N') {
        AppState { player: state.player.advanced(), ..state }
    } else {
        state
    }
}

/// Takes a transport key at `now`. Tells whether `code` was one.
pub fn handle_music_controller(app: &mut App, code: Key, now: u64) -> (handled: bool)
    requires
        old(app)@.wf(),
    ensures
        handled == is_transport_key(code),
        final(app)@ == after_transport_key(old(app)@, code, now),
        final(app)@.wf(),
{
    match code {
        Key::Char('s') | Key::Char('S') => {
            if app.player.is_playing() {
                let _ = app.player.pause(now);
            } else {
                let _ = app.player.resume(now);
            }
            true
        },
        Key::Char('n') | Key::Char('N') => {
            app.player.next();
            true
        },
        _ => false,
    }
}

/// The position below `at` in a list whose last position is `last`, the
/// top below the last.
pub open spec fn spec_below(at: usize, last: usize) -> usize {
    if at == last {
        0
    } else if at < last {
        (at + 1) as usize
    } else {
        last
    }
}

/// The position above `at` in a list whose last position is `last`, the
/// last above the top.
pub open spec fn spec_above(at: usize, last: usize) -> usize {
    if at == 0 {
        last
    } else {
        (at - 1) as usize
    }
}

/// The position below `at`: see [`spec_below`].
#[verifier::when_used_as_spec(spec_below)]
pub fn below(at: usize, last: usize) -> (to: usize)
    ensures
        to == spec_below(at, last),
{
    if at == last {
        0
    } else if at < last {
        at + 1
    } else {
        last
    }
}

/// The position above `at`: see [`spec_above`].
#[verifier::when_used_as_spec(spec_above)]
pub fn above(at: usize, last: usize) -> (to: usize)
    ensures
        to == spec_above(at, last),
{
    if at == 0 {
        last
    } else {
        at - 1
    }
}

/// Whether the playlist takes `key` for its own: the arrows up and down,
/// while the playlist has the keyboard and its cursor is on an entry.
pub open spec fn playlist_key_handled(state: AppState, key: Key) -> bool {
    state.active == ActiveModules::PlayList && state.player.queue.cursor is Some && (key
        == Key::Down || key == Key::Up)
}

/// The player after a key of the playlist, with the cursor at `at` in a
/// playlist whose last position is `last`. The arrows move the cursor,
/// going round at both ends, and touch nothing that plays; the enter key
/// plays the entry under the cursor; `r` takes it out of the playlist. Any
/// other key changes nothing.
pub open spec fn player_after_playlist_key(
    player: PlayerState,
    key: Key,
    at: usize,
    last: usize,
) -> PlayerState {
    if key == Key::Down {
        player.pointing(spec_below(at, last))
    } else if key == Key::Up {
        player.pointing(spec_above(at, last))
    } else if key == Key::Enter {
        player.picked(at)
    } else if key == Key::Char('r') || key == Key::Char('R') {
        player.without(at)
    } else {
        player
    }
}

/// The state after a key of the playlist. Nothing changes unless the
/// playlist has the keyboard and its cursor is on an entry.
pub open spec fn after_playlist_key(state: AppState, key: Key) -> AppState {
    if state.active == ActiveModules::PlayList && state.player.queue.cursor is Some {
        AppState {
            player: player_after_playlist_key(
                state.player,
                key,
                state.player.queue.cursor->0,
                (state.player.queue.tracks.len() - 1) as usize,
            ),
            ..state
        }
    } else {
        state
    }
}

/// Takes a key of the playlist. Tells whether the key was an arrow that
/// the playlist took.
pub fn handle_playlist(app: &mut App, key: Key) -> (handled: bool)
    requires
        old(app)@.wf(),
    ensures
        handled == playlist_key_handled(old(app)@, key),
        final(app)@ == after_playlist_key(old(app)@, key),
        final(app)@.wf(),
{
    match app.active_modules {
        ActiveModules::Fs => {
            return false;
        },
        ActiveModules::PlayList => {},
    }
    let selected: usize = match app.player.play_list().cursor() {
        Some(selected) => selected,
        None => {
            return false;
        },
    };
    let last: usize = app.player.play_list().len() - 1;
    match key {
        Key::Down => {
            app.player.set_cursor(below(selected, last));
            true
        },
        Key::Up => {
            app.player.set_cursor(above(selected, last));
            true
        },
        Key::Enter => {
            play_selected_song(app, selected);
            false
        },
        Key::Char('r') | Key::Char('R') => {
            remove_from_playlist(app, selected);
            false
        },
        _ => false,
    }
}

/// Plays the entry at `selected`. Tells whether it names an entry.
pub fn play_selected_song(app: &mut App, selected: usize) -> (done: bool)
    requires
        old(app)@.wf(),
    ensures
        final(app)@ == (AppState { player: old(app)@.player.picked(selected), ..old(app)@ }),
        final(app)@.wf(),
        done == (selected < old(app)@.player.queue.tracks.len()),
{
    app.player.play_selected(selected)
}

/// Takes the entry at `selected` out of the playlist. Tells whether it
/// named an entry.
pub fn remove_from_playlist(app: &mut App, selected: usize) -> (done: bool)
    requires
        old(app)@.wf(),
    ensures
        final(app)@ == (AppState { player: old(app)@.player.without(selected), ..old(app)@ }),
        final(app)@.wf(),
        done == (selected < old(app)@.player.queue.tracks.len()),
{
    app.player.remove_from_playlist(selected)
}

} // verus!
