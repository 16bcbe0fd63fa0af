//! What holds of the player whatever it is asked to do.

use vstd::prelude::*;
use vstd::arithmetic::div_mod::{lemma_mod_pos_bound, lemma_mod_self_0};
use crate::media::model::{PlayerState, SinkCommand, SinkState};
use crate::media::playlist::{Queue, Track};
use crate::media::status::{capped, PlayStatus};

verus! {

impl PlayerState {
    /// What the play state has accumulated is no more than the selected
    /// track is long.
    pub open spec fn in_bounds(self) -> bool {
        self.queue.selected is Some ==> self.status.within(self.selected_duration())
    }
}

/// A playlist has no selection exactly when it has no track, and no cursor
/// exactly then.
pub proof fn lemma_selection_none_iff_empty(queue: Queue)
    requires
        queue.wf(),
    ensures
        queue.selected is None <==> queue.tracks.len() == 0,
        queue.cursor is None <==> queue.tracks.len() == 0,
{
}

/// Every operation on the playlist keeps its invariant, as long as the
/// machine can count one track more where one is added.
pub proof fn lemma_queue_stays_wf(queue: Queue, track: Track, index: usize)
    requires
        queue.wf(),
    ensures
        Queue::empty().wf(),
        queue.tracks.len() < usize::MAX ==> queue.inserted(track).wf(),
        index < queue.tracks.len() ==> queue.removed(index).wf(),
        index < queue.tracks.len() ==> queue.chosen(index).wf(),
        index < queue.tracks.len() ==> queue.pointed(index).wf(),
        queue.tracks.len() > 0 ==> queue.following() < queue.tracks.len(),
{
    if queue.tracks.len() > 0 {
        let n = queue.tracks.len() as int;
        let i = queue.selected->0 as int;
        if i + 1 == n {
            lemma_mod_self_0(n);
        }
    }
}

/// Every operation of the player keeps its invariant, and with it that of
/// the playlist: a selection exists exactly when there is a track.
pub proof fn lemma_player_stays_wf(
    state: PlayerState,
    now: u64,
    index: usize,
    volume: u8,
    track: Track,
    replace: bool,
)
    requires
        state.wf(),
    ensures
        PlayerState::fresh().wf(),
        state.played(now).wf(),
        state.paused(now).wf(),
        state.resumed(now).wf(),
        state.halted().wf(),
        state.with_volume(volume).wf(),
        state.loading(index).wf(),
        state.acquired(now).wf(),
        state.denied().wf(),
        state.advanced().wf(),
        state.picked(index).wf(),
        state.without(index).wf(),
        state.pointing(index).wf(),
        state.ticked(now).wf(),
        state.queue.tracks.len() < usize::MAX ==> state.enqueued(track, replace, now).wf(),
        state.collected().wf(),
{
    lemma_queue_stays_wf(state.queue, track, index);
}

/// A pause that comes no later than the end of the track halts it with a
/// played time between zero and the track's length, and that time is what
/// had been played when the pause came.
pub proof fn lemma_pause_within_duration(status: PlayStatus, now: u64, duration: u64)
    requires
        status is Playing,
        status.elapsed_at(now) <= duration,
    ensures
        status.paused(now) == PlayStatus::Stopped(status.elapsed_at(now) as u64),
        0 <= status.paused(now)->Stopped_0 <= duration,
        status.paused(now).within(duration),
{
}

/// A live track that a tick finds short of its end is noted with a played
/// time below its length; one that has reached its end leaves the live
/// state.
pub proof fn lemma_tick_within_duration(state: PlayerState, now: u64)
    requires
        state.wf(),
        state.queue.selected is Some,
        state.status is Playing,
    ensures
        !state.finished_at(now) ==> state.ticked(now).current_time < state.ticked(now).total_time
            && state.ticked(now).total_time == state.selected_duration()
            && state.ticked(now).current_time == state.status.elapsed_at(now),
        state.finished_at(now) ==> state.ticked(now).status == PlayStatus::Waiting,
{
}

/// Once what the play state has accumulated is within the selected track's
/// length it stays so, whatever is asked of the player, with two
/// exceptions. A pause keeps it only if it comes no later than the end of
/// the track. Taking the selected entry itself out of the playlist puts
/// another track under the play state, and promises nothing; taking out any
/// other entry keeps it.
pub proof fn lemma_accumulated_stays_in_bounds(
    state: PlayerState,
    now: u64,
    index: usize,
    volume: u8,
    track: Track,
    replace: bool,
)
    requires
        state.wf(),
        state.in_bounds(),
    ensures
        PlayerState::fresh().in_bounds(),
        state.played(now).in_bounds(),
        state.queue.selected is Some && state.status.elapsed_at(now) <= state.selected_duration()
            ==> state.paused(now).in_bounds(),
        state.resumed(now).in_bounds(),
        state.halted().in_bounds(),
        state.with_volume(volume).in_bounds(),
        state.loading(index).in_bounds(),
        state.acquired(now).in_bounds(),
        state.denied().in_bounds(),
        state.advanced().in_bounds(),
        state.picked(index).in_bounds(),
        state.pointing(index).in_bounds(),
        state.queue.selected != Some(index) ==> state.without(index).in_bounds(),
        state.ticked(now).in_bounds(),
        state.queue.tracks.len() < usize::MAX ==> state.enqueued(track, replace, now).in_bounds(),
        state.collected().in_bounds(),
{
    lemma_queue_stays_wf(state.queue, track, index);
}

/// Moving the cursor touches nothing that plays: the selection, the play
/// state, the sink and what a tick makes of them are as they would be had
/// the cursor stayed.
pub proof fn lemma_cursor_leaves_playback(state: PlayerState, index: usize, now: u64)
    requires
        state.wf(),
    ensures
        state.pointing(index).queue.selected == state.queue.selected,
        state.pointing(index).queue.tracks == state.queue.tracks,
        state.pointing(index).status == state.status,
        state.pointing(index).sink == state.sink,
        state.pointing(index).commands == state.commands,
        state.pointing(index).finished_at(now) == state.finished_at(now),
        state.pointing(index).ticked(now) == state.ticked(now).pointing(index),
{
}

/// A second pause changes nothing of the play state, the sink or the
/// playlist: the track stays halted with the played time of the first.
pub proof fn lemma_pause_twice(state: PlayerState, first: u64, second: u64)
    ensures
        state.status.paused(first).paused(second) == state.status.paused(first),
        state.paused(first).paused(second).status == state.paused(first).status,
        state.paused(first).paused(second).sink == state.paused(first).sink,
        state.paused(first).paused(second).queue == state.paused(first).queue,
        state.status is Playing && state.sink is Ready && state.queue.selected is Some
            ==> state.paused(first).paused(second).status == PlayStatus::Stopped(
            capped(state.status.elapsed_at(first)),
        ),
{
}

/// Pause, then resume, however much later: the played time right after the
/// resume is the played time at the pause. No time is counted while the
/// track is halted.
pub proof fn lemma_pause_then_resume(status: PlayStatus, paused_at: u64, resumed_at: u64)
    requires
        status is Playing,
    ensures
        status.paused(paused_at).resumed(resumed_at) == PlayStatus::Playing(
            resumed_at,
            capped(status.elapsed_at(paused_at)),
        ),
        status.paused(paused_at).resumed(resumed_at).elapsed_at(resumed_at) == capped(
            status.elapsed_at(paused_at),
        ),
        status.elapsed_at(paused_at) <= u64::MAX ==> status.paused(paused_at).resumed(
            resumed_at,
        ).elapsed_at(resumed_at) == status.elapsed_at(paused_at),
{
}

/// The same of the player as a whole, where it has a sink and a selected
/// track.
pub proof fn lemma_player_pause_then_resume(state: PlayerState, paused_at: u64, resumed_at: u64)
    requires
        state.status is Playing,
        state.sink is Ready,
        state.queue.selected is Some,
    ensures
        state.paused(paused_at).resumed(resumed_at).status.elapsed_at(resumed_at) == capped(
            state.status.elapsed_at(paused_at),
        ),
        state.paused(paused_at).resumed(resumed_at).sink == (SinkState::Ready { paused: false }),
        state.paused(paused_at).resumed(resumed_at).queue == state.queue,
{
}

/// A tick that finds the selected track at or past its end goes on to the
/// next track, once: the state is that of one step to the next track, the
/// entry ordered is the one after the selected, the first after the last,
/// and a further tick, whenever it comes, orders nothing more while the
/// sink is awaited. When the sink is reported, that entry is the selected
/// one and plays from zero.
pub proof fn lemma_tick_advances_once(state: PlayerState, now: u64, later: u64, ready: u64)
    requires
        state.wf(),
        state.finished_at(now),
    ensures
        state.ticked(now) == state.advanced(),
        state.ticked(now).pending == Some(state.queue.following()),
        state.queue.following() == (state.queue.selected->0 + 1) % (state.queue.tracks.len() as int),
        state.ticked(now).commands == state.halted().commands.push(
            SinkCommand::Load(state.queue.following()),
        ),
        state.ticked(now).ticked(later) == state.ticked(now),
        state.ticked(now).acquired(ready).queue.selected == Some(state.queue.following()),
        state.ticked(now).acquired(ready).status == PlayStatus::Playing(ready, 0),
{
    lemma_queue_stays_wf(state.queue, state.queue.tracks[0], 0);
    lemma_mod_pos_bound(state.queue.selected->0 + 1, state.queue.tracks.len() as int);
}

/// Going on to the next track in a playlist of one entry selects that entry
/// again: it waits until its sink is reported and then plays from zero.
pub proof fn lemma_next_of_single(state: PlayerState, ready: u64)
    requires
        state.wf(),
        state.queue.tracks.len() == 1,
    ensures
        state.advanced().pending == Some(0usize),
        state.advanced().status == PlayStatus::Waiting,
        state.advanced().queue.selected == Some(0usize),
        state.advanced().acquired(ready).queue.selected == Some(0usize),
        state.advanced().acquired(ready).status == PlayStatus::Playing(ready, 0),
{
    lemma_mod_self_0(1);
}

/// Taking the last entry out leaves an empty playlist with no selection;
/// the tick after that is a hard stop, which empties the sink if there is
/// one.
pub proof fn lemma_remove_last_then_tick(state: PlayerState, now: u64)
    requires
        state.wf(),
        state.queue.tracks.len() == 1,
    ensures
        state.without(0).queue.tracks.len() == 0,
        state.without(0).queue.selected is None,
        state.without(0).ticked(now) == state.without(0).halted(),
        state.without(0).ticked(now).status == PlayStatus::Waiting,
        state.sink is Ready ==> state.without(0).ticked(now).commands == state.commands.push(
            SinkCommand::Stop,
        ),
{
}

/// The volume outlives the sink: whatever was set last is what the next
/// sink is told when it is reported.
pub proof fn lemma_volume_survives_track_change(state: PlayerState, volume: u8, ready: u64)
    requires
        state.wf(),
        state.queue.tracks.len() > 0,
    ensures
        state.with_volume(volume).volume == volume,
        state.with_volume(volume).advanced().volume == volume,
        state.with_volume(volume).advanced().acquired(ready).volume == volume,
        state.with_volume(volume).advanced().acquired(ready).commands
            == state.with_volume(volume).advanced().commands.push(
            SinkCommand::SetVolume(volume),
        ).push(SinkCommand::Play),
{
    lemma_queue_stays_wf(state.queue, state.queue.tracks[0], 0);
}

} // verus!
