//! The queue of tracks, in playback order, which of them is selected for
//! playing, and where the cursor of the list stands.

use vstd::prelude::*;
use crate::media::error::PlaybackError;

verus! {

/// One playable entry of the playlist. Nothing in it changes once the entry
/// has been made.
pub struct PlayListItem {
    /// Display label.
    pub name: String,
    /// Where the source is found again.
    pub path: String,
    /// Total length, in nanoseconds.
    pub duration: u64,
}

/// What a playlist entry holds, as plain values.
pub struct Track {
    pub name: Seq<char>,
    pub path: Seq<char>,
    pub duration: u64,
}

impl View for PlayListItem {
    type V = Track;

    open spec fn view(&self) -> Track {
        Track { name: self.name@, path: self.path@, duration: self.duration }
    }
}

/// What a playlist holds, as plain values: the tracks in playback order,
/// the position of the track that plays, and the position of the cursor
/// with which the list is walked.
pub struct Queue {
    pub tracks: Seq<Track>,
    /// The track that the play state belongs to.
    pub selected: Option<usize>,
    /// The entry that is highlighted. Moving it does not touch playback.
    pub cursor: Option<usize>,
}

/// A position of a list of `len` entries: none exactly when the list is
/// empty, and else one that names an entry.
pub open spec fn position_in(position: Option<usize>, len: nat) -> bool {
    match position {
        None => len == 0,
        Some(i) => i < len,
    }
}

impl Queue {
    /// A selection exists exactly when there is a track, and then it names
    /// one; the same holds of the cursor; and the tracks can be counted by
    /// the machine.
    pub open spec fn wf(self) -> bool {
        &&& self.tracks.len() <= usize::MAX
        &&& position_in(self.selected, self.tracks.len())
        &&& position_in(self.cursor, self.tracks.len())
    }

    /// The queue with nothing in it.
    pub open spec fn empty() -> Queue {
        Queue { tracks: Seq::empty(), selected: None, cursor: None }
    }

    /// The queue after `track` was appended. The first track ever appended
    /// becomes the selected one and has the cursor; otherwise selection and
    /// cursor stay.
    pub open spec fn inserted(self, track: Track) -> Queue {
        Queue {
            tracks: self.tracks.push(track),
            selected: match self.selected {
                None => Some(0usize),
                Some(i) => Some(i),
            },
            cursor: match self.cursor {
                None => Some(0usize),
                Some(i) => Some(i),
            },
        }
    }

    /// The queue after the entry at `index` was taken out. Taking out the
    /// selected entry moves the selection to the front, or to nothing if no
    /// entry is left; taking out another one leaves the selection on the
    /// track it was on. The cursor always goes to the front, or to nothing
    /// if no entry is left.
    pub open spec fn removed(self, index: usize) -> Queue {
        let tracks = self.tracks.remove(index as int);
        Queue {
            tracks,
            selected: match self.selected {
                None => None,
                Some(i) => if tracks.len() == 0 {
                    None
                } else if index == i {
                    Some(0usize)
                } else if index < i {
                    Some((i - 1) as usize)
                } else {
                    Some(i)
                },
            },
            cursor: if tracks.len() == 0 {
                None
            } else {
                Some(0usize)
            },
        }
    }

    /// The queue with the selection moved to `index`.
    pub open spec fn chosen(self, index: usize) -> Queue {
        Queue { selected: Some(index), ..self }
    }

    /// The queue with the cursor moved to `index`.
    pub open spec fn pointed(self, index: usize) -> Queue {
        Queue { cursor: Some(index), ..self }
    }

    /// The position after the selected one, going round to the front after
    /// the last.
    pub open spec fn following(self) -> usize
        recommends
            self.selected is Some,
            self.tracks.len() > 0,
    {
        ((self.selected->0 + 1) % (self.tracks.len() as int)) as usize
    }
}

/// An ordered sequence of tracks with a selected position and a cursor.
pub struct PlayList {
    lists: Vec<PlayListItem>,
    selected: Option<usize>,
    cursor: Option<usize>,
}

impl View for PlayList {
    type V = Queue;

    closed spec fn view(&self) -> Queue {
        Queue {
            tracks: Seq::new(self.lists@.len(), |i: int| self.lists@[i]@),
            selected: self.selected,
            cursor: self.cursor,
        }
    }
}

impl PlayList {
    /// The invariant of the playlist: see [`Queue::wf`].
    pub open spec fn wf(&self) -> bool {
        self@.wf()
    }

    /// An empty playlist with nothing selected and no cursor.
    pub fn default() -> (list: Self)
        ensures
            list@ == Queue::empty(),
            list.wf(),
    {
        let list = PlayList { lists: Vec::new(), selected: None, cursor: None };
        assert(list@.tracks =~= Seq::empty());
        list
    }

    /// The number of tracks.
    pub fn len(&self) -> (n: usize)
        ensures
            n == self@.tracks.len(),
    {
        self.lists.len()
    }

    /// Whether there is no track.
    pub fn is_empty(&self) -> (b: bool)
        ensures
            b == (self@.tracks.len() == 0),
    {
        self.lists.len() == 0
    }

    /// The position of the track that plays.
    pub fn selected(&self) -> (index: Option<usize>)
        ensures
            index == self@.selected,
    {
        self.selected
    }

    /// The position of the cursor.
    pub fn cursor(&self) -> (index: Option<usize>)
        ensures
            index == self@.cursor,
    {
        self.cursor
    }

    /// The track at `index`, if there is one.
    pub fn get(&self, index: usize) -> (item: Option<&PlayListItem>)
        ensures
            index < self@.tracks.len() ==> item is Some && item->0@ == self@.tracks[index as int],
            index >= self@.tracks.len() ==> item is None,
    {
        if index < self.lists.len() {
            Some(&self.lists[index])
        } else {
            None
        }
    }

    /// Appends `track` and returns its position.
    pub fn insert(&mut self, track: PlayListItem) -> (index: usize)
        requires
            old(self).wf(),
        ensures
            final(self)@ == old(self)@.inserted(track@),
            final(self).wf(),
            index == old(self)@.tracks.len(),
    {
        let index: usize = self.lists.len();
        self.lists.push(track);
        if self.selected.is_none() {
            self.selected = Some(0);
        }
        if self.cursor.is_none() {
            self.cursor = Some(0);
        }
        assert(self@.tracks =~= old(self)@.tracks.push(track@));
        assert(self.lists@.len() == self.lists.len());
        index
    }

    /// Takes the entry at `index` out of the playlist and hands it back.
    /// An index that names no entry is turned down and nothing changes.
    pub fn remove(&mut self, index: usize) -> (taken: Result<PlayListItem, PlaybackError>)
        requires
            old(self).wf(),
        ensures
            final(self).wf(),
            index < old(self)@.tracks.len() ==> taken is Ok
                && taken->Ok_0@ == old(self)@.tracks[index as int]
                && final(self)@ == old(self)@.removed(index),
            index >= old(self)@.tracks.len() ==> taken == Err::<PlayListItem, PlaybackError>(
                PlaybackError::OutOfRange,
            ) && final(self)@ == old(self)@,
    {
        if index >= self.lists.len() {
            return Err(PlaybackError::OutOfRange);
        }
        let item = self.lists.remove(index);
        match self.selected {
            None => {},
            Some(i) => {
                if self.lists.len() == 0 {
                    self.selected = None;
                } else if index == i {
                    self.selected = Some(0);
                } else if index < i {
                    self.selected = Some(i - 1);
                }
            },
        }
        if self.lists.len() == 0 {
            self.cursor = None;
        } else {
            self.cursor = Some(0);
        }
        assert(self@.tracks =~= old(self)@.tracks.remove(index as int));
        Ok(item)
    }

    /// Makes the entry at `index` the selected one. An index that names no
    /// entry is turned down and nothing changes.
    pub fn select(&mut self, index: usize) -> (done: bool)
        requires
            old(self).wf(),
        ensures
            final(self).wf(),
            done == (index < old(self)@.tracks.len()),
            done ==> final(self)@ == old(self)@.chosen(index),
            !done ==> final(self)@ == old(self)@,
    {
        if index < self.lists.len() {
            self.selected = Some(index);
            true
        } else {
            false
        }
    }

    /// Moves the cursor to `index`. An index that names no entry is turned
    /// down and nothing changes.
    pub fn set_cursor(&mut self, index: usize) -> (done: bool)
        requires
            old(self).wf(),
        ensures
            final(self).wf(),
            done == (index < old(self)@.tracks.len()),
            done ==> final(self)@ == old(self)@.pointed(index),
            !done ==> final(self)@ == old(self)@,
    {
        if index < self.lists.len() {
            self.cursor = Some(index);
            true
        } else {
            false
        }
    }

    /// Drops every track, the selection and the cursor.
    pub fn clear(&mut self)
        ensures
            final(self)@ == Queue::empty(),
            final(self).wf(),
    {
        self.lists.clear();
        self.selected = None;
        self.cursor = None;
        assert(self@.tracks =~= Seq::empty());
    }
}

} // verus!
