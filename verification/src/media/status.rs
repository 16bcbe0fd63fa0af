//! The play state of the selected track, and how time moves it.
//!
//! Points in time and spans of time are both counted in nanoseconds. A
//! point in time is a reading of a monotonic clock; a reading that lies
//! before the start of a span counts as no time passed.

use vstd::prelude::*;

verus! {

/// Where playback of the selected track stands.
#[derive(Clone, Copy, Debug, PartialEq, Eq, Structural)]
pub enum PlayStatus {
    /// Selected, not yet started.
    Waiting,
    /// Live since the first field, with the second field already played
    /// before that.
    Playing(u64, u64),
    /// Halted after this much was played.
    Stopped(u64),
}

/// The time from `start` to `now`, or nothing if `now` lies before `start`.
pub open spec fn since(start: u64, now: u64) -> nat {
    if now >= start {
        (now - start) as nat
    } else {
        0
    }
}

/// `n`, held to what a span of time can represent.
pub open spec fn capped(n: nat) -> u64 {
    if n > u64::MAX {
        u64::MAX
    } else {
        n as u64
    }
}

/// The time from `start` to `now`, or zero if `now` lies before `start`.
pub fn time_since(start: u64, now: u64) -> (span: u64)
    ensures
        span == since(start, now),
{
    if now >= start {
        now - start
    } else {
        0
    }
}

impl PlayStatus {
    /// How much of the track has been played when the clock reads `now`.
    pub open spec fn elapsed_at(self, now: u64) -> nat {
        match self {
            PlayStatus::Waiting => 0,
            PlayStatus::Playing(started_at, accumulated) => (accumulated + since(started_at, now)) as nat,
            PlayStatus::Stopped(accumulated) => accumulated as nat,
        }
    }

    /// The state after a request to play at `now`: a waiting track starts
    /// from zero, a halted one goes on from where it halted, a live one is
    /// left alone.
    pub open spec fn started(self, now: u64) -> PlayStatus {
        match self {
            PlayStatus::Waiting => PlayStatus::Playing(now, 0),
            PlayStatus::Playing(_, _) => self,
            PlayStatus::Stopped(accumulated) => PlayStatus::Playing(now, accumulated),
        }
    }

    /// The state after a request to pause at `now`: a live track halts with
    /// all it has played so far, anything else is left alone.
    pub open spec fn paused(self, now: u64) -> PlayStatus {
        match self {
            PlayStatus::Playing(_, _) => PlayStatus::Stopped(capped(self.elapsed_at(now))),
            _ => self,
        }
    }

    /// The state after a request to resume at `now`: a halted track goes on
    /// from where it halted, anything else is left alone.
    pub open spec fn resumed(self, now: u64) -> PlayStatus {
        match self {
            PlayStatus::Stopped(accumulated) => PlayStatus::Playing(now, accumulated),
            _ => self,
        }
    }

    /// Whether what the state has accumulated fits in a track of length
    /// `duration`.
    pub open spec fn within(self, duration: u64) -> bool {
        match self {
            PlayStatus::Waiting => true,
            PlayStatus::Playing(_, accumulated) => accumulated <= duration,
            PlayStatus::Stopped(accumulated) => accumulated <= duration,
        }
    }

    /// How much of the track has been played at `now`, held to the largest
    /// span that can be represented.
    pub fn elapsed(self, now: u64) -> (span: u64)
        ensures
            span == capped(self.elapsed_at(now)),
    {
        match self {
            PlayStatus::Waiting => 0,
            PlayStatus::Playing(started_at, accumulated) => {
                accumulated.saturating_add(time_since(started_at, now))
            },
            PlayStatus::Stopped(accumulated) => accumulated,
        }
    }

    /// Starts or continues playback at `now`.
    pub fn play(self, now: u64) -> (next: PlayStatus)
        ensures
            next == self.started(now),
    {
        match self {
            PlayStatus::Waiting => PlayStatus::Playing(now, 0),
            PlayStatus::Playing(_, _) => self,
            PlayStatus::Stopped(accumulated) => PlayStatus::Playing(now, accumulated),
        }
    }

    /// Halts a live track at `now`.
    pub fn pause(self, now: u64) -> (next: PlayStatus)
        ensures
            next == self.paused(now),
    {
        match self {
            PlayStatus::Playing(_, _) => PlayStatus::Stopped(self.elapsed(now)),
            _ => self,
        }
    }

    /// Continues a halted track at `now`.
    pub fn resume(self, now: u64) -> (next: PlayStatus)
        ensures
            next == self.resumed(now),
    {
        match self {
            PlayStatus::Stopped(accumulated) => PlayStatus::Playing(now, accumulated),
            _ => self,
        }
    }
}

} // verus!
