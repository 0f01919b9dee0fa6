use vstd::prelude::*;

verus! {

/// Where a track stands in its playback.
#[derive(Debug, Clone, Copy, PartialEq, Eq, Structural)]
pub enum TrackMode {
    Play,
    Pause,
    Stop,
    End,
}

/// How often a track repeats: `Finite(n)` plays it `n` more times.
#[derive(Debug, Clone, Copy, PartialEq, Eq, Structural)]
pub enum TrackLoop {
    Infinite,
    Finite(usize),
}

/// What remains of a track once it has left playback.
#[derive(Debug, Clone, PartialEq, Eq)]
pub struct TrackInfo {
    pub url: String,
}

/// A queued track request: the caller's id for its resolved input, its
/// source, and the volume (in hundredths) set on it.
#[derive(Debug, Clone, PartialEq, Eq)]
pub struct PendingTrack {
    pub id: u64,
    pub url: String,
    pub volume: u32,
}

/// The track that is playing or paused.
#[derive(Debug, Clone, PartialEq, Eq)]
pub struct CurrentTrack {
    pub id: u64,
    pub url: String,
    pub mode: TrackMode,
    pub volume: u32,
    pub loops: TrackLoop,
}

/// What the voice transport reports of one track: its mode, its volume in
/// hundredths, how far it has played and how long it has played in all, in
/// milliseconds, and its loop state.
#[derive(Debug, Clone, Copy, PartialEq, Eq, Structural)]
pub struct TrackReport {
    pub mode: TrackMode,
    pub volume: u32,
    pub position_ms: u64,
    pub total_ms: u64,
    pub loops: TrackLoop,
}

/// A snapshot of one track: its id and source from the library's records,
/// the rest as the voice transport reports it.
#[derive(Debug, Clone, PartialEq, Eq)]
pub struct TrackStatus {
    pub id: u64,
    pub url: String,
    pub mode: TrackMode,
    pub volume: u32,
    pub position_ms: u64,
    pub total_ms: u64,
    pub loops: TrackLoop,
}

} // verus!
