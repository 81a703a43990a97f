//! Core of a voice-playback orchestrator for a multi-room music bot:
//! the per-room track queue with its reorder operations, the
//! song-resolution pipeline that turns a user-supplied string into an
//! ordered stream of tracks, and the per-room session life cycle with
//! its retried disconnect.

pub mod timefmt;
pub mod track;
pub mod queue;
pub mod pipeline;
pub mod records;
pub mod request;
pub mod search;
pub mod session;
