//! The playlist, the play state and the player that owns them.

pub mod error;
pub mod laws;
pub mod media;
pub mod model;
pub mod player;
pub mod playlist;
pub mod status;
