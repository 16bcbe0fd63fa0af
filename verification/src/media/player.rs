//! The player: a playlist, the play state of its selected track, and the
//! record of an output sink that is torn down and acquired anew whenever
//! the track changes.

use vstd::prelude::*;
use vstd::arithmetic::div_mod::{lemma_mod_self_0, lemma_small_mod};
use crate::media::error::PlaybackError;
use crate::media::media::{
    assess, file_label, label_of, spec_label, verdict, Media, Source, SourceReport, Verdict,
};
use crate::media::model::{PlayerState, SinkCommand, SinkState};
use crate::media::playlist::{PlayList, PlayListItem, Track};
use crate::media::status::PlayStatus;

verus! {

/// What a player does. Every operation is stated over the player's state as
/// plain values; the time is handed in as a reading of a monotonic clock,
/// in nanoseconds.
pub trait Player: Sized + View<V = PlayerState> {
    /// A player with an empty playlist and a fresh sink.
    fn new() -> (player: Self)
        ensures
            player@ == PlayerState::fresh(),
            player@.wf(),
    ;

    /// Adds `media` to the playlist, given what the caller found at its
    /// source. With `once`, or into an empty playlist, the new track
    /// replaces the queue and is loaded; otherwise it goes to the end.
    /// The track's label is the last component of its path, as the
    /// platform tells components apart, and the whole path where that
    /// gives none: see [`spec_label`].
    fn add_to_list(&mut self, media: Media, once: bool, report: SourceReport, now: u64) -> (added:
        Result<(), PlaybackError>)
        requires
            old(self)@.wf(),
        ensures
            final(self)@.wf(),
            match verdict(media.spec_path(), report) {
                Verdict::Ignored => {
                    &&& added == Ok::<(), PlaybackError>(())
                    &&& final(self)@ == old(self)@
                },
                Verdict::Refused(error) => {
                    &&& added == Err::<(), PlaybackError>(error)
                    &&& final(self)@ == old(self)@
                },
                Verdict::Accepted(duration) => {
                    &&& added == Ok::<(), PlaybackError>(())
                    &&& exists|component: Option<Seq<char>>|
                        final(self)@ == old(self)@.enqueued(
                            Track {
                                name: #[trigger] spec_label(component, media.spec_path()),
                                path: media.spec_path(),
                                duration,
                            },
                            once,
                            now,
                        )
                },
            },
    ;

    /// Starts or continues playback of the selected track. Fails, and
    /// changes nothing, where there is no sink to act on.
    fn play(&mut self, now: u64) -> (done: Result<(), PlaybackError>)
        ensures
            final(self)@ == old(self)@.played(now),
            old(self)@.wf() ==> final(self)@.wf(),
            done == old(self)@.sink_outcome(),
    ;

    /// Loads and plays the entry at `selected`, after a hard stop if sound
    /// is coming out. Tells whether `selected` names an entry.
    fn play_selected(&mut self, selected: usize) -> (done: bool)
        requires
            old(self)@.wf(),
        ensures
            final(self)@ == old(self)@.picked(selected),
            final(self)@.wf(),
            done == (selected < old(self)@.queue.tracks.len()),
    ;

    /// Goes on to the next track, the first after the last. Tells whether
    /// there was a track to go to.
    fn next(&mut self) -> (done: bool)
        requires
            old(self)@.wf(),
        ensures
            final(self)@ == old(self)@.advanced(),
            final(self)@.wf(),
            done == (old(self)@.queue.tracks.len() > 0),
    ;

    /// Hard stop. The play state is reset in any case; the request fails
    /// where there is no sink to act on.
    fn stop(&mut self) -> (done: Result<(), PlaybackError>)
        ensures
            final(self)@ == old(self)@.halted(),
            old(self)@.wf() ==> final(self)@.wf(),
            done == old(self)@.sink_outcome(),
    ;

    /// Halts playback of the selected track. Fails, and changes nothing,
    /// where there is no sink to act on.
    fn pause(&mut self, now: u64) -> (done: Result<(), PlaybackError>)
        ensures
            final(self)@ == old(self)@.paused(now),
            old(self)@.wf() ==> final(self)@.wf(),
            done == old(self)@.sink_outcome(),
    ;

    /// Continues playback of a halted track. Fails, and changes nothing,
    /// where there is no sink to act on.
    fn resume(&mut self, now: u64) -> (done: Result<(), PlaybackError>)
        ensures
            final(self)@ == old(self)@.resumed(now),
            old(self)@.wf() ==> final(self)@.wf(),
            done == old(self)@.sink_outcome(),
    ;

    /// Played time and length of the selected track, as of the last tick.
    fn get_progress(&self) -> (progress: (u64, u64))
        ensures
            progress == (self@.current_time, self@.total_time),
    ;

    /// Whether sound is coming out.
    fn is_playing(&self) -> (playing: bool)
        ensures
            playing == self@.is_playing(),
    ;

    /// The heartbeat: brings the play state up to `now`.
    fn tick(&mut self, now: u64)
        requires
            old(self)@.wf(),
        ensures
            final(self)@ == old(self)@.ticked(now),
            final(self)@.wf(),
    ;

    /// The volume, in hundredths of full volume.
    fn volume(&self) -> (volume: u8)
        ensures
            volume == self@.volume,
    ;

    /// Sets the volume, in hundredths of full volume. The value is not
    /// clamped. It is kept for later sinks in any case; the request fails
    /// where there is no sink to hand it to.
    fn set_volume(&mut self, new_volume: u8) -> (done: Result<(), PlaybackError>)
        ensures
            final(self)@ == old(self)@.with_volume(new_volume),
            old(self)@.wf() ==> final(self)@.wf(),
            done == old(self)@.sink_outcome(),
    ;

    /// Gives up the sink and orders a new one for the entry at `index`.
    /// Tells whether `index` names an entry.
    fn load_new_song(&mut self, index: usize) -> (done: bool)
        ensures
            final(self)@ == old(self)@.loading(index),
            old(self)@.wf() ==> final(self)@.wf(),
            done == (index < old(self)@.queue.tracks.len()),
    ;

    /// Takes the entry at `song_index` out of the playlist. Tells whether
    /// it named an entry.
    fn remove_from_playlist(&mut self, song_index: usize) -> (done: bool)
        requires
            old(self)@.wf(),
        ensures
            final(self)@ == old(self)@.without(song_index),
            final(self)@.wf(),
            done == (song_index < old(self)@.queue.tracks.len()),
    ;

    /// The caller reports that the sink ordered last stands. Tells whether
    /// a track was started on it.
    fn sink_acquired(&mut self, now: u64) -> (done: bool)
        requires
            old(self)@.wf(),
        ensures
            final(self)@ == old(self)@.acquired(now),
            final(self)@.wf(),
            done == match old(self)@.pending {
                Some(index) => index < old(self)@.queue.tracks.len(),
                None => false,
            },
    ;

    /// The caller reports that no sink could be had.
    fn sink_unavailable(&mut self)
        ensures
            final(self)@ == old(self)@.denied(),
            old(self)@.wf() ==> final(self)@.wf(),
    ;

    /// Hands out the commands gathered since the last call, oldest first.
    fn take_commands(&mut self) -> (commands: Vec<SinkCommand>)
        ensures
            commands@ == old(self)@.commands,
            final(self)@ == old(self)@.collected(),
            old(self)@.wf() ==> final(self)@.wf(),
    ;
}

/// The player of this library.
pub struct MusicPlayer {
    current_time: u64,
    total_time: u64,
    play_list: PlayList,
    status: PlayStatus,
    sink: SinkState,
    pending: Option<usize>,
    volume: u8,
    initialized: bool,
    commands: Vec<SinkCommand>,
}

impl View for MusicPlayer {
    type V = PlayerState;

    closed spec fn view(&self) -> PlayerState {
        PlayerState {
            queue: self.play_list@,
            status: self.status,
            sink: self.sink,
            pending: self.pending,
            volume: self.volume,
            initialized: self.initialized,
            current_time: self.current_time,
            total_time: self.total_time,
            commands: self.commands@,
        }
    }
}

impl MusicPlayer {
    /// The playlist.
    pub fn play_list(&self) -> (list: &PlayList)
        ensures
            list@ == self@.queue,
    {
        &self.play_list
    }

    /// The play state of the selected track.
    pub fn status(&self) -> (status: PlayStatus)
        ensures
            status == self@.status,
    {
        self.status
    }

    /// What the player knows of its output sink.
    pub fn sink(&self) -> (sink: SinkState)
        ensures
            sink == self@.sink,
    {
        self.sink
    }

    /// The position whose track is being loaded, if one is.
    pub fn pending(&self) -> (pending: Option<usize>)
        ensures
            pending == self@.pending,
    {
        self.pending
    }

    /// Whether a track was ever accepted.
    pub fn initialized(&self) -> (initialized: bool)
        ensures
            initialized == self@.initialized,
    {
        self.initialized
    }

    /// Played time of the selected track as of the last tick.
    pub fn current_time(&self) -> (span: u64)
        ensures
            span == self@.current_time,
    {
        self.current_time
    }

    /// Length of the selected track as of the last tick.
    pub fn total_time(&self) -> (span: u64)
        ensures
            span == self@.total_time,
    {
        self.total_time
    }

    /// The label of the selected track, if there is one.
    pub fn playing_track_name(&self) -> (name: Option<String>)
        requires
            self@.wf(),
        ensures
            match self@.queue.selected {
                Some(index) => name is Some && name->0@ == self@.queue.tracks[index as int].name,
                None => name is None,
            },
    {
        match self.playing_song() {
            Some(song) => Some(song.name.clone()),
            None => None,
        }
    }

    /// The labels of all tracks, in playback order.
    pub fn track_names(&self) -> (names: Vec<String>)
        ensures
            names@.len() == self@.queue.tracks.len(),
            forall|i: int|
                0 <= i < names@.len() ==> (#[trigger] names@[i])@ == self@.queue.tracks[i].name,
    {
        let mut names: Vec<String> = Vec::new();
        let len: usize = self.play_list.len();
        let mut at: usize = 0;
        while at < len
            invariant
                at <= len,
                len == self@.queue.tracks.len(),
                names@.len() == at,
                forall|i: int|
                    0 <= i < at ==> (#[trigger] names@[i])@ == self@.queue.tracks[i].name,
            decreases len - at,
        {
            match self.play_list.get(at) {
                Some(song) => {
                    names.push(song.name.clone());
                },
                None => {},
            }
            at = at + 1;
        }
        names
    }

    /// The selected track, if there is one.
    pub fn playing_song(&self) -> (song: Option<&PlayListItem>)
        requires
            self@.wf(),
        ensures
            match self@.queue.selected {
                Some(index) => song is Some && song->0@ == self@.queue.tracks[index as int],
                None => song is None,
            },
    {
        match self.play_list.selected() {
            Some(index) => self.play_list.get(index),
            None => None,
        }
    }

    /// Moves the cursor of the playlist to `index`. Tells whether `index`
    /// names an entry; if not, nothing changes. What plays is not touched.
    pub fn set_cursor(&mut self, index: usize) -> (done: bool)
        requires
            old(self)@.wf(),
        ensures
            final(self)@ == old(self)@.pointing(index),
            final(self)@.wf(),
            done == (index < old(self)@.queue.tracks.len()),
    {
        self.play_list.set_cursor(index)
    }

    /// Takes `track` into the playlist at `now`. With `once`, or into an
    /// empty playlist, it replaces the queue and is loaded, playback is
    /// asked for and one tick follows. Otherwise it goes to the end and
    /// playback is left as it is.
    pub fn enqueue(&mut self, track: PlayListItem, once: bool, now: u64)
        requires
            old(self)@.wf(),
        ensures
            final(self)@ == old(self)@.enqueued(track@, once, now),
            final(self)@.wf(),
    {
        if once || self.play_list.is_empty() {
            let _ = self.stop();
            self.play_list.clear();
            self.play_list.insert(track);
            self.load_new_song(0);
            self.initialized = true;
            let _ = self.play(now);
            self.tick(now);
        } else {
            self.play_list.insert(track);
            self.initialized = true;
        }
    }

    /// Adds the file at `path`, given what the caller found there: see
    /// [`Player::add_to_list`].
    pub fn play_with_file(&mut self, path: String, once: bool, report: SourceReport, now: u64) -> (added:
        Result<(), PlaybackError>)
        requires
            old(self)@.wf(),
        ensures
            final(self)@.wf(),
            match verdict(path@, report) {
                Verdict::Ignored => {
                    &&& added == Ok::<(), PlaybackError>(())
                    &&& final(self)@ == old(self)@
                },
                Verdict::Refused(error) => {
                    &&& added == Err::<(), PlaybackError>(error)
                    &&& final(self)@ == old(self)@
                },
                Verdict::Accepted(duration) => {
                    &&& added == Ok::<(), PlaybackError>(())
                    &&& exists|component: Option<Seq<char>>|
                        final(self)@ == old(self)@.enqueued(
                            Track {
                                name: #[trigger] spec_label(component, path@),
                                path: path@,
                                duration,
                            },
                            once,
                            now,
                        )
                },
            },
    {
        match assess(path.as_str(), report) {
            Verdict::Ignored => Ok(()),
            Verdict::Refused(error) => Err(error),
            Verdict::Accepted(duration) => {
                let component = file_label(path.as_str());
                let name = label_of(component, &path);
                let track = PlayListItem { name, path, duration };
                self.enqueue(track, once, now);
                Ok(())
            },
        }
    }

    /// Hands `command` to the sink, if there is one.
    fn tell(&mut self, command: SinkCommand)
        ensures
            final(self)@ == old(self)@.told(command),
    {
        match self.sink {
            SinkState::Ready { .. } => {
                self.commands.push(command);
            },
            SinkState::Absent => {},
        }
    }
}

impl Player for MusicPlayer {
    fn new() -> (player: Self) {
        MusicPlayer {
            current_time: 0,
            total_time: 0,
            play_list: PlayList::default(),
            status: PlayStatus::Waiting,
            sink: SinkState::Ready { paused: false },
            pending: None,
            volume: 100,
            initialized: false,
            commands: Vec::new(),
        }
    }

    fn play(&mut self, now: u64) -> (done: Result<(), PlaybackError>) {
        match self.sink {
            SinkState::Ready { .. } => {
                if self.play_list.selected().is_some() {
                    self.status = self.status.play(now);
                }
                self.sink = SinkState::Ready { paused: false };
                self.commands.push(SinkCommand::Play);
                Ok(())
            },
            SinkState::Absent => Err(PlaybackError::NoActiveSink),
        }
    }

    fn stop(&mut self) -> (done: Result<(), PlaybackError>) {
        self.status = PlayStatus::Waiting;
        self.tell(SinkCommand::Stop);
        match self.sink {
            SinkState::Ready { .. } => Ok(()),
            SinkState::Absent => Err(PlaybackError::NoActiveSink),
        }
    }

    fn pause(&mut self, now: u64) -> (done: Result<(), PlaybackError>) {
        match self.sink {
            SinkState::Ready { .. } => {
                if self.play_list.selected().is_some() {
                    self.status = self.status.pause(now);
                }
                self.sink = SinkState::Ready { paused: true };
                self.commands.push(SinkCommand::Pause);
                Ok(())
            },
            SinkState::Absent => Err(PlaybackError::NoActiveSink),
        }
    }

    fn resume(&mut self, now: u64) -> (done: Result<(), PlaybackError>) {
        match self.sink {
            SinkState::Ready { .. } => {
                if self.play_list.selected().is_some() {
                    self.status = self.status.resume(now);
                }
                self.sink = SinkState::Ready { paused: false };
                self.commands.push(SinkCommand::Play);
                Ok(())
            },
            SinkState::Absent => Err(PlaybackError::NoActiveSink),
        }
    }

    fn get_progress(&self) -> (progress: (u64, u64)) {
        (self.current_time, self.total_time)
    }

    fn is_playing(&self) -> (playing: bool) {
        let running = match self.sink {
            SinkState::Ready { paused } => !paused,
            SinkState::Absent => false,
        };
        self.initialized && running && !self.play_list.is_empty()
    }

    fn volume(&self) -> (volume: u8) {
        self.volume
    }

    fn set_volume(&mut self, new_volume: u8) -> (done: Result<(), PlaybackError>) {
        self.volume = new_volume;
        self.tell(SinkCommand::SetVolume(new_volume));
        match self.sink {
            SinkState::Ready { .. } => Ok(()),
            SinkState::Absent => Err(PlaybackError::NoActiveSink),
        }
    }

    fn add_to_list(&mut self, media: Media, once: bool, report: SourceReport, now: u64) -> (added:
        Result<(), PlaybackError>) {
        match media.src {
            Source::Local(path) => self.play_with_file(path, once, report, now),
        }
    }

    fn play_selected(&mut self, selected: usize) -> (done: bool) {
        let len: usize = self.play_list.len();
        if selected > len {
            return false;
        }
        if self.is_playing() {
            let _ = self.stop();
        }
        self.load_new_song(selected)
    }

    fn next(&mut self) -> (done: bool) {
        let len: usize = self.play_list.len();
        match self.play_list.selected() {
            None => false,
            Some(index) => {
                let _ = self.stop();
                let following: usize = if index + 1 >= len {
                    0
                } else {
                    index + 1
                };
                proof {
                    if index + 1 >= len {
                        lemma_mod_self_0(len as int);
                    } else {
                        lemma_small_mod((index + 1) as nat, len as nat);
                    }
                }
                self.load_new_song(following)
            },
        }
    }

    fn tick(&mut self, now: u64) {
        let playing = self.is_playing();
        let duration: u64 = match self.playing_song() {
            None => {
                let _ = self.stop();
                return ;
            },
            Some(song) => song.duration,
        };
        match self.status {
            PlayStatus::Waiting => {
                if playing {
                    self.status = PlayStatus::Playing(now, 0);
                }
            },
            PlayStatus::Playing(_, _) => {
                let elapsed: u64 = self.status.elapsed(now);
                if elapsed >= duration {
                    self.next();
                } else {
                    self.current_time = elapsed;
                    self.total_time = duration;
                }
            },
            PlayStatus::Stopped(accumulated) => {
                self.current_time = accumulated;
                self.total_time = duration;
            },
        }
    }

    fn load_new_song(&mut self, index: usize) -> (done: bool) {
        if index < self.play_list.len() {
            self.status = PlayStatus::Waiting;
            self.sink = SinkState::Absent;
            self.pending = Some(index);
            self.commands.push(SinkCommand::Load(index));
            true
        } else {
            false
        }
    }

    fn remove_from_playlist(&mut self, song_index: usize) -> (done: bool) {
        match self.play_list.remove(song_index) {
            Ok(_) => true,
            Err(_) => false,
        }
    }

    fn sink_acquired(&mut self, now: u64) -> (done: bool) {
        match self.pending {
            None => false,
            Some(index) => {
                self.pending = None;
                self.sink = SinkState::Ready { paused: false };
                self.commands.push(SinkCommand::SetVolume(self.volume));
                if self.play_list.select(index) {
                    let _ = self.play(now);
                    true
                } else {
                    false
                }
            },
        }
    }

    fn sink_unavailable(&mut self) {
        self.pending = None;
    }

    fn take_commands(&mut self) -> (commands: Vec<SinkCommand>) {
        let mut commands: Vec<SinkCommand> = Vec::new();
        std::mem::swap(&mut self.commands, &mut commands);
        commands
    }
}

} // verus!
