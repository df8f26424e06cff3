//! Voice-session manager: per-guild audio sessions, their playback queues,
//! and the idle watchdog that tears down inactive sessions.
//!
//! The library owns the state machines only.  The realtime gateway, the audio
//! transport and the media resolver are external collaborators: callers hand
//! their outcomes in as plain values, and every decision taken on those values
//! is specified and verified here.

pub mod models;
pub mod queue;
pub mod registry;
pub mod session;
pub mod track;
pub mod watchdog;
