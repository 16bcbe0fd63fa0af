//! The player as plain values, and each of its operations as a function
//! from one such value to the next.
//!
//! The player never touches the output device. It keeps a record of the
//! sink it believes to exist, and a list of the commands that its caller
//! has to carry out on the real sink, in order. Where a track has to be
//! loaded, the old sink is given up at once and the player waits to hear
//! whether a new one could be had.

use vstd::prelude::*;
use crate::media::error::PlaybackError;
use crate::media::playlist::{Queue, Track};
use crate::media::status::PlayStatus;

verus! {

/// One thing the caller has to do to the output sink.
#[derive(Clone, Copy, Debug, PartialEq, Eq, Structural)]
pub enum SinkCommand {
    /// Let the sink run.
    Play,
    /// Hold the sink.
    Pause,
    /// Empty the sink.
    Stop,
    /// Set the sink's volume, in hundredths of full volume.
    SetVolume(u8),
    /// Release the sink and acquire a new one bound to the source of the
    /// playlist entry at this position.
    Load(usize),
}

/// What the player knows of its output sink.
#[derive(Clone, Copy, Debug, PartialEq, Eq, Structural)]
pub enum SinkState {
    /// There is none: it was given up for a track change, and no new one
    /// has been reported yet, or none could be had.
    Absent,
    /// There is one, held or running.
    Ready { paused: bool },
}

/// Everything the player holds.
pub struct PlayerState {
    /// The playlist, its selection and its cursor.
    pub queue: Queue,
    /// The play state of the selected track.
    pub status: PlayStatus,
    /// The output sink.
    pub sink: SinkState,
    /// The position whose track is being loaded, while the answer on its
    /// sink is awaited.
    pub pending: Option<usize>,
    /// Volume in hundredths of full volume. It outlives every sink.
    pub volume: u8,
    /// Whether a track was ever accepted.
    pub initialized: bool,
    /// Played time of the selected track as of the last tick.
    pub current_time: u64,
    /// Length of the selected track as of the last tick.
    pub total_time: u64,
    /// Commands not yet collected by the caller, oldest first.
    pub commands: Seq<SinkCommand>,
}

impl PlayerState {
    /// The state of a new player: nothing queued, a fresh running sink at
    /// full volume, nothing to carry out.
    pub open spec fn fresh() -> PlayerState {
        PlayerState {
            queue: Queue::empty(),
            status: PlayStatus::Waiting,
            sink: SinkState::Ready { paused: false },
            pending: None,
            volume: 100,
            initialized: false,
            current_time: 0,
            total_time: 0,
            commands: Seq::empty(),
        }
    }

    /// The invariant of the player: that of its playlist; while a track is
    /// being loaded there is no sink; and without a sink the play state is
    /// at waiting.
    pub open spec fn wf(self) -> bool {
        &&& self.queue.wf()
        &&& self.pending is Some ==> self.sink is Absent
        &&& self.sink is Absent ==> self.status is Waiting
    }

    /// Sound is coming out: a track was once accepted, the sink is there
    /// and not held, and the playlist is not empty.
    pub open spec fn is_playing(self) -> bool {
        self.initialized && self.sink == (SinkState::Ready { paused: false })
            && self.queue.tracks.len() > 0
    }

    /// How a request that needs the sink comes out: it fails where there
    /// is none.
    pub open spec fn sink_outcome(self) -> Result<(), PlaybackError> {
        if self.sink is Ready {
            Ok(())
        } else {
            Err(PlaybackError::NoActiveSink)
        }
    }

    /// The length of the selected track.
    pub open spec fn selected_duration(self) -> u64
        recommends
            self.wf(),
            self.queue.selected is Some,
    {
        self.queue.tracks[self.queue.selected->0 as int].duration
    }

    /// The state with `command` handed to the sink, if there is a sink.
    pub open spec fn told(self, command: SinkCommand) -> PlayerState {
        if self.sink is Ready {
            PlayerState { commands: self.commands.push(command), ..self }
        } else {
            self
        }
    }

    /// Hard stop: the play state goes back to waiting whatever it was, and
    /// the sink is emptied.
    pub open spec fn halted(self) -> PlayerState {
        PlayerState { status: PlayStatus::Waiting, ..self }.told(SinkCommand::Stop)
    }

    /// The play state after `then` was asked of the selected track. With
    /// no track selected it stays as it is.
    pub open spec fn status_or(self, then: PlayStatus) -> PlayStatus {
        if self.queue.selected is Some {
            then
        } else {
            self.status
        }
    }

    /// Play at `now`: the sink is let run and the selected track starts or
    /// goes on. Without a sink nothing happens.
    pub open spec fn played(self, now: u64) -> PlayerState {
        if self.sink is Ready {
            PlayerState {
                status: self.status_or(self.status.started(now)),
                sink: SinkState::Ready { paused: false },
                commands: self.commands.push(SinkCommand::Play),
                ..self
            }
        } else {
            self
        }
    }

    /// Pause at `now`: the sink is held and the selected track halts.
    /// Without a sink nothing happens.
    pub open spec fn paused(self, now: u64) -> PlayerState {
        if self.sink is Ready {
            PlayerState {
                status: self.status_or(self.status.paused(now)),
                sink: SinkState::Ready { paused: true },
                commands: self.commands.push(SinkCommand::Pause),
                ..self
            }
        } else {
            self
        }
    }

    /// Resume at `now`: the sink is let run and the selected track goes
    /// on if it was halted. Without a sink nothing happens.
    pub open spec fn resumed(self, now: u64) -> PlayerState {
        if self.sink is Ready {
            PlayerState {
                status: self.status_or(self.status.resumed(now)),
                sink: SinkState::Ready { paused: false },
                commands: self.commands.push(SinkCommand::Play),
                ..self
            }
        } else {
            self
        }
    }

    /// The volume set to `volume`: kept for every later sink, and handed to
    /// the present one if there is one.
    pub open spec fn with_volume(self, volume: u8) -> PlayerState {
        PlayerState { volume, ..self }.told(SinkCommand::SetVolume(volume))
    }

    /// The track at `index` asked for: the play state goes back to waiting,
    /// the sink is given up, and a new one bound to that track is ordered.
    /// The selection stays until the new sink is reported. An index that
    /// names no entry changes nothing.
    pub open spec fn loading(self, index: usize) -> PlayerState {
        if index < self.queue.tracks.len() {
            PlayerState {
                status: PlayStatus::Waiting,
                sink: SinkState::Absent,
                pending: Some(index),
                commands: self.commands.push(SinkCommand::Load(index)),
                ..self
            }
        } else {
            self
        }
    }

    /// The new sink reported at `now`: it runs, at the volume kept; the
    /// track it was ordered for becomes the selected one and starts to
    /// play. The cursor stays. Where no track was being loaded nothing happens; where the
    /// entry has left the playlist meanwhile the sink is taken and nothing
    /// is played.
    pub open spec fn acquired(self, now: u64) -> PlayerState {
        match self.pending {
            None => self,
            Some(index) => {
                let ready = PlayerState {
                    sink: SinkState::Ready { paused: false },
                    pending: None,
                    commands: self.commands.push(SinkCommand::SetVolume(self.volume)),
                    ..self
                };
                if index < self.queue.tracks.len() {
                    PlayerState { queue: ready.queue.chosen(index), ..ready }.played(now)
                } else {
                    ready
                }
            },
        }
    }

    /// No sink could be had: the player stays without one and no track is
    /// being loaded any more. The selection is as it was before the load.
    pub open spec fn denied(self) -> PlayerState {
        PlayerState { pending: None, ..self }
    }

    /// Next track: hard stop, then the entry after the selected one is
    /// loaded, the first after the last. An empty playlist changes nothing.
    pub open spec fn advanced(self) -> PlayerState {
        if self.queue.tracks.len() == 0 {
            self
        } else {
            self.halted().loading(self.queue.following())
        }
    }

    /// The entry at `index` picked for playing: hard stop if sound is
    /// coming out, then that entry is loaded. An index beyond the length of
    /// the playlist changes nothing; the length itself names no entry
    /// either, but is stopped for.
    pub open spec fn picked(self, index: usize) -> PlayerState {
        if index > self.queue.tracks.len() {
            self
        } else if self.is_playing() {
            self.halted().loading(index)
        } else {
            self.loading(index)
        }
    }

    /// The entry at `index` taken out of the playlist. If it was the
    /// selected one, the selection goes to the front, or to nothing if no
    /// entry is left; else the selection stays on its track. The cursor
    /// goes to the front. Neither the play state nor the sink is touched.
    /// An index that names no entry changes nothing.
    pub open spec fn without(self, index: usize) -> PlayerState {
        if index < self.queue.tracks.len() {
            PlayerState { queue: self.queue.removed(index), ..self }
        } else {
            self
        }
    }

    /// The cursor moved to `index`. Nothing else changes: what plays is
    /// what played before. An index that names no entry changes nothing.
    pub open spec fn pointing(self, index: usize) -> PlayerState {
        if index < self.queue.tracks.len() {
            PlayerState { queue: self.queue.pointed(index), ..self }
        } else {
            self
        }
    }

    /// Whether the selected track has run its length at `now`.
    pub open spec fn finished_at(self, now: u64) -> bool {
        self.queue.selected is Some && self.status is Playing && self.status.elapsed_at(now)
            >= self.selected_duration()
    }

    /// One tick at `now`.
    ///
    /// With an empty playlist: hard stop. Otherwise, by the play state of
    /// the selected track: a waiting one starts from zero if sound is
    /// coming out; a live one that has run its length gives way to the
    /// next track, and one that has not has its played time and length
    /// noted; a halted one has its fixed played time and length noted.
    pub open spec fn ticked(self, now: u64) -> PlayerState {
        if self.queue.selected is None {
            self.halted()
        } else {
            match self.status {
                PlayStatus::Waiting => if self.is_playing() {
                    PlayerState { status: PlayStatus::Playing(now, 0), ..self }
                } else {
                    self
                },
                PlayStatus::Playing(_, _) => if self.finished_at(now) {
                    self.advanced()
                } else {
                    PlayerState {
                        current_time: self.status.elapsed_at(now) as u64,
                        total_time: self.selected_duration(),
                        ..self
                    }
                },
                PlayStatus::Stopped(accumulated) => PlayerState {
                    current_time: accumulated,
                    total_time: self.selected_duration(),
                    ..self
                },
            }
        }
    }

    /// The playlist after `track` was accepted. With `replace`, or into an
    /// empty playlist: hard stop, the playlist is cleared, `track` becomes
    /// its only and selected entry, and a sink bound to it is ordered.
    /// Otherwise `track` goes to the end and nothing else moves.
    pub open spec fn queued(self, track: Track, replace: bool) -> PlayerState {
        if replace || self.queue.tracks.len() == 0 {
            PlayerState {
                queue: Queue::empty().inserted(track),
                ..self.halted()
            }.loading(0)
        } else {
            PlayerState { queue: self.queue.inserted(track), ..self }
        }
    }

    /// `track` accepted at `now`: it is queued as [`Self::queued`] says
    /// and the player counts as initialized from then on. Where the queue
    /// was replaced, playback of the selected track is asked for and one
    /// tick follows; an append leaves playback as it is.
    pub open spec fn enqueued(self, track: Track, replace: bool, now: u64) -> PlayerState {
        let taken = PlayerState { initialized: true, ..self.queued(track, replace) };
        if replace || self.queue.tracks.len() == 0 {
            taken.played(now).ticked(now)
        } else {
            taken
        }
    }

    /// The state after the caller has collected the commands.
    pub open spec fn collected(self) -> PlayerState {
        PlayerState { commands: Seq::empty(), ..self }
    }
}

} // verus!
