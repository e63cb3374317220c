//! Playback-control core of a small local audio player.
//!
//! The library tracks "where we are" in the current track with wall-clock
//! timestamps handed in by the caller, and models the actor-style command
//! protocol that serializes all access to the player from concurrent
//! callers.  Decoding and device output are left to the audio backend that
//! drives this state machine.


mod actor;
mod laws;
mod player;
mod track;

pub use actor::apply_command;
pub use actor::run_queue;
pub use actor::Command;
pub use actor::Reply;
pub use player::LoadOutcome;
pub use player::Player;
pub use player::PlayerError;
pub use player::SeekDecision;
pub use player::StatusResponse;
pub use track::CurrentTrack;
pub use track::TrackInfo;
