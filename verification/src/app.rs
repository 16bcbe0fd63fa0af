//! The state of the whole application: the player, the file browser, which
//! of the two has the keyboard, and the line of the status bar.
//!
//! Wherever the disk has to be read, the application notes a request. Its
//! caller carries the requests out in order and reports what came of each.

use vstd::prelude::*;
use vstd::string::*;
use crate::config::Config;
use crate::media::error::PlaybackError;
use crate::media::media::{spec_label, verdict, Media, Source, SourceReport, Verdict};
use crate::media::model::PlayerState;
use crate::media::player::{MusicPlayer, Player};
use crate::media::playlist::Track;
use crate::ui::fs::{entries_of, Browser, DirItem, FsExplorer};
use crate::ui::EventType;

verus! {

/// The part of the screen that has the keyboard.
#[derive(Clone, Copy, Debug, PartialEq, Eq, Structural)]
pub enum ActiveModules {
    /// The file browser.
    Fs,
    /// The playlist.
    PlayList,
}

/// Something the caller has to do on the disk for the file browser.
#[derive(Clone, Copy, Debug, PartialEq, Eq, Structural)]
pub enum FsRequest {
    /// Go to the parent of the directory shown, list it, and report with
    /// [`App::entered`]. Where there is no parent, do nothing.
    Ascend,
    /// Go to the subdirectory at this position, list it, and report with
    /// [`App::entered`].
    Descend(usize),
    /// Look at the file at position `file` and report what was found with
    /// [`App::file_inspected`], handing `once` on.
    Inspect { file: usize, once: bool },
}

/// The application.
pub struct App {
    pub player: MusicPlayer,
    pub fs: FsExplorer,
    pub active_modules: ActiveModules,
    pub config: Config,
    pub msg: String,
    pub requests: Vec<FsRequest>,
}

/// What the application holds, as plain values.
pub struct AppState {
    pub player: PlayerState,
    pub fs: Browser,
    pub active: ActiveModules,
    pub config: Config,
    pub msg: Seq<char>,
    pub requests: Seq<FsRequest>,
}

impl View for App {
    type V = AppState;

    open spec fn view(&self) -> AppState {
        AppState {
            player: self.player@,
            fs: self.fs@,
            active: self.active_modules,
            config: self.config,
            msg: self.msg@,
            requests: self.requests@,
        }
    }
}

impl AppState {
    /// The invariants of the player and of the file browser.
    pub open spec fn wf(self) -> bool {
        self.player.wf() && self.fs.wf()
    }

    /// The state after one event of the timer at `now`: a tick of the
    /// player, or nothing.
    pub open spec fn after_event(self, event: EventType, now: u64) -> AppState {
        match event {
            EventType::Player => AppState { player: self.player.ticked(now), ..self },
            EventType::Radio => self,
        }
    }
}

impl App {
    /// The application as it starts: a new player, a browser on the
    /// directory at `current_path` with the entries of `listing`, the
    /// keyboard with the browser, the usual timing, and a greeting in the
    /// status bar. `None`
    /// if the browser cannot be set up: see [`FsExplorer::default`].
    pub fn new(current_path: Option<String>, listing: Option<Vec<DirItem>>) -> (app: Option<Self>)
        ensures
            match (current_path, listing) {
                (Some(path), Some(items)) => app is Some && app->0@ == (AppState {
                    player: PlayerState::fresh(),
                    fs: Browser::opened(path@, entries_of(items@)),
                    active: ActiveModules::Fs,
                    config: Config::spec_default(),
                    msg: "Welcome to wy-media"@,
                    requests: Seq::empty(),
                }) && app->0@.wf(),
                _ => app is None,
            },
    {
        let fs = match FsExplorer::default(current_path, listing) {
            Ok(fs) => fs,
            Err(_) => {
                return None;
            },
        };
        Some(
            App {
                player: MusicPlayer::new(),
                fs,
                active_modules: ActiveModules::Fs,
                config: Config::default(),
                msg: "Welcome to wy-media".to_owned(),
                requests: Vec::new(),
            },
        )
    }

    /// Puts `msg` into the status bar.
    pub fn set_msg(&mut self, msg: &str)
        ensures
            final(self)@ == (AppState { msg: msg@, ..old(self)@ }),
    {
        self.msg = msg.to_owned();
    }

    /// Takes one event of the timer at `now`.
    pub fn handle_events(&mut self, event: EventType, now: u64)
        requires
            old(self)@.wf(),
        ensures
            final(self)@ == old(self)@.after_event(event, now),
            final(self)@.wf(),
    {
        match event {
            EventType::Player => {
                self.player.tick(now);
            },
            EventType::Radio => {},
        }
    }

    /// The caller reports that it went to the directory at `path` and
    /// listed it: see [`FsExplorer::enter`].
    pub fn entered(&mut self, path: String, listing: Option<Vec<DirItem>>)
        requires
            old(self)@.wf(),
        ensures
            final(self)@.wf(),
            final(self)@ == (AppState {
                fs: match listing {
                    Some(items) => Browser::opened(path@, entries_of(items@)),
                    None => Browser { current_path: path@, index: Some(0usize), ..old(self)@.fs },
                },
                ..old(self)@
            }),
    {
        self.fs.enter(path, listing);
    }

    /// The caller reports what it found at the file at position `file` of
    /// the browser. The file is added to the player under its name as its
    /// path, and the status bar says how that went. Tells whether the
    /// player took or passed over the file; a position that names no file
    /// changes nothing.
    pub fn file_inspected(&mut self, file: usize, once: bool, report: SourceReport, now: u64) -> (done:
        bool)
        requires
            old(self)@.wf(),
        ensures
            final(self)@.wf(),
            final(self)@.fs == old(self)@.fs,
            final(self)@.active == old(self)@.active,
            final(self)@.config == old(self)@.config,
            final(self)@.requests == old(self)@.requests,
            file >= old(self)@.fs.files.len() ==> !done && final(self)@ == old(self)@,
            file < old(self)@.fs.files.len() ==> match verdict(
                old(self)@.fs.files[file as int],
                report,
            ) {
                Verdict::Ignored => {
                    &&& done
                    &&& final(self)@.player == old(self)@.player
                    &&& final(self)@.msg == "Start playing"@
                },
                Verdict::Refused(_) => {
                    &&& !done
                    &&& final(self)@.player == old(self)@.player
                    &&& final(self)@.msg == "Open failed: "@ + old(self)@.fs.files[file as int]
                },
                Verdict::Accepted(duration) => {
                    &&& done
                    &&& final(self)@.msg == "Start playing"@
                    &&& exists|component: Option<Seq<char>>|
                        final(self)@.player == old(self)@.player.enqueued(
                            Track {
                                name: #[trigger] spec_label(
                                    component,
                                    old(self)@.fs.files[file as int],
                                ),
                                path: old(self)@.fs.files[file as int],
                                duration,
                            },
                            once,
                            now,
                        )
                },
            },
    {
        let files = self.fs.files();
        if file >= files.len() {
            return false;
        }
        let name: String = files[file].clone();
        let media = Media { src: Source::Local(name.clone()) };
        match self.player.add_to_list(media, once, report, now) {
            Ok(_) => {
                self.msg = "Start playing".to_owned();
                true
            },
            Err(_) => {
                self.msg = "Open failed: ".to_owned().concat(name.as_str());
                false
            },
        }
    }

    /// The caller reports what came of the sink that the player ordered
    /// last. If it stands, the player starts the track on it. If it does
    /// not, the player is told that it has no sink, and the status bar
    /// gives the reason that the caller named. Tells whether a track was
    /// started.
    pub fn sink_reported(&mut self, outcome: Result<(), PlaybackError>, now: u64) -> (started: bool)
        requires
            old(self)@.wf(),
        ensures
            final(self)@.wf(),
            final(self)@ == match outcome {
                Ok(_) => AppState { player: old(self)@.player.acquired(now), ..old(self)@ },
                Err(error) => AppState {
                    player: old(self)@.player.denied(),
                    msg: error.spec_message(),
                    ..old(self)@
                },
            },
            started == (outcome is Ok && match old(self)@.player.pending {
                Some(index) => index < old(self)@.player.queue.tracks.len(),
                None => false,
            }),
    {
        match outcome {
            Ok(_) => self.player.sink_acquired(now),
            Err(error) => {
                self.player.sink_unavailable();
                self.msg = error.message();
                false
            },
        }
    }

    /// Hands out the requests gathered since the last call, oldest first.
    pub fn take_requests(&mut self) -> (requests: Vec<FsRequest>)
        ensures
            requests@ == old(self)@.requests,
            final(self)@ == (AppState { requests: Seq::empty(), ..old(self)@ }),
    {
        let mut requests: Vec<FsRequest> = Vec::new();
        std::mem::swap(&mut self.requests, &mut requests);
        requests
    }
}

} // verus!
