//! Playback core of a terminal music player: an ordered playlist, the play
//! state of its selected track, and the timing rules that decide when a
//! track has ended.

pub mod app;
pub mod config;
pub mod handler;
pub mod media;
pub mod ui;
