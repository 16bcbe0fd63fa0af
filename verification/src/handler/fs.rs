//! The keys of the file browser.

use vstd::prelude::*;
use crate::app::{ActiveModules, App, AppState, FsRequest};
use crate::handler::Key;
use crate::ui::fs::Browser;

verus! {

/// Requests to look at `count` files in a row, the first at position
/// `first`.
pub open spec fn inspections(first: int, count: nat, once: bool) -> Seq<FsRequest> {
    Seq::new(count, |k: int| FsRequest::Inspect { file: (first + k) as usize, once })
}

/// What the entry under the cursor asks of the caller. At the top: to go to
/// the parent directory. On a subdirectory: to go into it. On a file: to
/// look at it, and with `once` at every file after it as well. Where the
/// cursor is not set, or beyond the entries: nothing.
pub open spec fn requests_for(fs: Browser, once: bool) -> Seq<FsRequest> {
    match fs.index {
        None => Seq::empty(),
        Some(at) => if at == 0 {
            seq![FsRequest::Ascend]
        } else if at <= fs.dirs.len() {
            seq![FsRequest::Descend((at - 1) as usize)]
        } else if at - fs.dirs.len() - 1 < fs.files.len() {
            let file = at - fs.dirs.len() - 1;
            seq![FsRequest::Inspect { file: file as usize, once }] + if once {
                inspections(file + 1, (fs.files.len() - file - 1) as nat, once)
            } else {
                Seq::empty()
            }
        } else {
            Seq::empty()
        },
    }
}

/// The state after the entry under the cursor was picked: what it asks of
/// the caller is noted. A cursor that was not set goes to the top.
pub open spec fn after_add_media(state: AppState, once: bool) -> AppState {
    AppState {
        fs: match state.fs.index {
            None => Browser { index: Some(0usize), ..state.fs },
            Some(_) => state.fs,
        },
        requests: state.requests + requests_for(state.fs, once),
        ..state
    }
}

/// Picks the entry under the cursor of the file browser. Tells whether
/// anything was asked of the caller.
pub fn add_media_to_player(app: &mut App, once: bool) -> (asked: bool)
    requires
        old(app)@.wf(),
    ensures
        final(app)@ == after_add_media(old(app)@, once),
        final(app)@.wf(),
        asked == (requests_for(old(app)@.fs, once).len() > 0),
{
    let at: usize = match app.fs.selected() {
        Some(at) => at,
        None => {
            app.fs.select(Some(0));
            assert(app@.requests =~= old(app)@.requests + requests_for(old(app)@.fs, once));
            return false;
        },
    };
    let dirs: usize = app.fs.dirs().len();
    let files: usize = app.fs.files().len();
    if at == 0 {
        app.requests.push(FsRequest::Ascend);
        assert(app@.requests =~= old(app)@.requests + requests_for(old(app)@.fs, once));
        return true;
    }
    if at <= dirs {
        app.requests.push(FsRequest::Descend(at - 1));
        assert(app@.requests =~= old(app)@.requests + requests_for(old(app)@.fs, once));
        return true;
    }
    let file: usize = at - dirs - 1;
    if file >= files {
        assert(app@.requests =~= old(app)@.requests + requests_for(old(app)@.fs, once));
        return false;
    }
    app.requests.push(FsRequest::Inspect { file, once });
    if once {
        let mut next: usize = file + 1;
        while next < files
            invariant
                file < next <= files,
                app.fs == old(app).fs,
                app.player == old(app).player,
                app.active_modules == old(app).active_modules,
                app.msg == old(app).msg,
                app.config == old(app).config,
                app@.requests =~= old(app)@.requests + seq![FsRequest::Inspect { file, once }]
                    + inspections(file + 1, (next - file - 1) as nat, once),
            decreases files - next,
        {
            app.requests.push(FsRequest::Inspect { file: next, once });
            next = next + 1;
        }
    }
    assert(app@.requests =~= old(app)@.requests + requests_for(old(app)@.fs, once));
    true
}

/// Whether the file browser takes `key` for its own: the arrows up and
/// down, while the browser has the keyboard and its cursor is set.
pub open spec fn fs_key_handled(state: AppState, key: Key) -> bool {
    state.active == ActiveModules::Fs && state.fs.index is Some && (key == Key::Down || key
        == Key::Up)
}

/// The state after a key of the file browser. The arrows up and down move
/// the cursor, going round at both ends; the arrows right and left pick
/// the entry under the cursor, to be added to the end of the playlist if it
/// is a file. Nothing changes unless the browser has the keyboard.
pub open spec fn after_fs_key(state: AppState, key: Key) -> AppState {
    if state.active != ActiveModules::Fs {
        state
    } else if key == Key::Down {
        AppState { fs: state.fs.down(), ..state }
    } else if key == Key::Up {
        AppState { fs: state.fs.up(), ..state }
    } else if key == Key::Right || key == Key::Left {
        after_add_media(state, false)
    } else {
        state
    }
}

/// Takes a key of the file browser. Tells whether the key was an arrow
/// that moved a cursor that was set.
pub fn handle_fs(app: &mut App, key: Key) -> (handled: bool)
    requires
        old(app)@.wf(),
    ensures
        handled == fs_key_handled(old(app)@, key),
        final(app)@ == after_fs_key(old(app)@, key),
        final(app)@.wf(),
{
    match app.active_modules {
        ActiveModules::PlayList => {
            return false;
        },
        ActiveModules::Fs => {},
    }
    match key {
        Key::Down => app.fs.move_down(),
        Key::Up => app.fs.move_up(),
        Key::Right => {
            add_media_to_player(app, false);
            false
        },
        Key::Left => {
            add_media_to_player(app, false);
            false
        },
        _ => false,
    }
}

} // verus!
