//! Per-guild voice sessions: a registry of connections, a playback queue and
//! a playback controller for each guild, and paged views over them.
//!
//! Voice transport, the chat gateway and reply delivery stay outside: the
//! library decides, and the caller performs what was decided.

pub mod error;
pub mod track;
pub mod queue;
pub mod status;
pub mod session;
pub mod connection;
pub mod laws;
pub mod gateway;
pub mod util;
pub mod command;
