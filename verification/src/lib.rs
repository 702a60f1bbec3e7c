//! Verified core of a per-connection voice-session recorder.
//!
//! The crate combines per-speaker PCM buffers into one mixed track,
//! accumulates the mix in a WAV container, and drives the recording
//! session's state machine from control messages and voice events.

pub mod bridge;
pub mod config;
pub mod message;
pub mod mixer;
pub mod recorder;
pub mod session;
pub mod speakers;
pub mod wav;
