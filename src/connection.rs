use vstd::prelude::*;
use std::collections::HashMap;
use crate::error::{granted, PlayerError};
use crate::command::{CallAction, CallActionKind};
use crate::queue::DropKind;
use crate::session::{copy_current, holds_page, GuildSession, PlayOutcome, SessionView};
use crate::status::holds_status;
use crate::status::holds_status_page;
use crate::track::{CurrentTrack, TrackInfo, TrackLoop, TrackReport, TrackStatus};

verus! {

/// Where a guild stands: a connection being set up, a live session, a
/// session whose connection moves to another channel, or a session whose
/// connection is being torn down.
#[derive(Debug)]
pub enum GuildState {
    Joining(u64),
    Connected(GuildSession),
    Moving(GuildSession, u64),
    Leaving(GuildSession),
}

/// A guild's standing as a mathematical value.
pub enum GuildView {
    Joining(u64),
    Connected(SessionView),
    Moving(SessionView, u64),
    Leaving(SessionView),
}

impl View for GuildState {
    type V = GuildView;

    open spec fn view(&self) -> GuildView {
        match self {
            GuildState::Joining(c) => GuildView::Joining(*c),
            GuildState::Connected(s) => GuildView::Connected(s@),
            GuildState::Moving(s, c) => GuildView::Moving(s@, *c),
            GuildState::Leaving(s) => GuildView::Leaving(s@),
        }
    }
}

/// A request for the status of a guild's current track.
#[derive(Debug, Clone, Copy)]
pub struct GetCurrentStatus {
    pub guild: u64,
}

#[derive(Debug)]
pub struct CurrentStatus {
    pub current_track: TrackStatus,
}

/// A request for a page (counted from one) of a guild's queue.
#[derive(Debug, Clone, Copy)]
pub struct GetQueueStatus {
    pub guild: u64,
    pub page: usize,
}

/// Queued tracks whose status resolved, each with its position in the
/// queue, and the id and failure of each track on the page whose status
/// lookup failed.
#[derive(Debug)]
pub struct QueueStatus {
    pub tracks: Vec<(usize, TrackStatus)>,
    pub failures: Vec<(u64, String)>,
}

/// A request for a page (counted from one) of a guild's history.
#[derive(Debug, Clone, Copy)]
pub struct GetHistoryStatus {
    pub guild: u64,
    pub page: usize,
}

/// Archived tracks, each with its position in the history.
#[derive(Debug)]
pub struct HistoryStatus {
    pub history: Vec<(usize, TrackInfo)>,
}

/// The live session of guild `g`, if it has one.
pub open spec fn session_of(m: Map<u64, GuildView>, g: u64) -> Option<SessionView> {
    if m.contains_key(g) && m[g] is Connected {
        Some(m[g]->Connected_0)
    } else {
        None
    }
}

/// The guilds after `f` has acted on the live session of `g`; without one,
/// nothing changes.
pub open spec fn updated(m: Map<u64, GuildView>, g: u64, f: spec_fn(SessionView) -> SessionView) -> Map<u64, GuildView> {
    match session_of(m, g) {
        Some(s) => m.insert(g, GuildView::Connected(f(s))),
        None => m,
    }
}

/// What `f` answers on the live session of `g`; without one, `NotConnected`.
pub open spec fn answered<T>(m: Map<u64, GuildView>, g: u64, f: spec_fn(SessionView) -> Result<T, PlayerError>) -> Result<T, PlayerError> {
    match session_of(m, g) {
        Some(s) => f(s),
        None => Err(PlayerError::NotConnected),
    }
}

/// The channel that guild `g` is joining, if it is joining one.
pub open spec fn joining_channel(m: Map<u64, GuildView>, g: u64) -> Option<u64> {
    if m.contains_key(g) && m[g] is Joining {
        Some(m[g]->Joining_0)
    } else {
        None
    }
}

/// The session of guild `g` that is being torn down, if there is one.
pub open spec fn leaving_session(m: Map<u64, GuildView>, g: u64) -> Option<SessionView> {
    if m.contains_key(g) && m[g] is Leaving {
        Some(m[g]->Leaving_0)
    } else {
        None
    }
}

/// The session of `g` whose connection moves, with the channel it moves to.
pub open spec fn moving_of(m: Map<u64, GuildView>, g: u64) -> Option<(SessionView, u64)> {
    if m.contains_key(g) && m[g] is Moving {
        Some((m[g]->Moving_0, m[g]->Moving_1))
    } else {
        None
    }
}

/// A live session whose connection can move to `channel`: it is on another.
pub open spec fn can_move(m: Map<u64, GuildView>, g: u64, channel: u64) -> bool {
    session_of(m, g) matches Some(s) && s.channel != channel
}

/// A join for `g` to `channel` is taken when the guild has nothing, and
/// when its live session is on another channel, which the session then
/// moves to. It is refused with `AlreadyConnected` when the session is
/// already on that channel, and while a join, a move or a leave is on its
/// way; a join refused during a leave can be asked again once the leave has
/// finished.
pub open spec fn join_result(m: Map<u64, GuildView>, g: u64, channel: u64) -> Result<(), PlayerError> {
    granted(!m.contains_key(g) || can_move(m, g, channel), PlayerError::AlreadyConnected)
}

pub open spec fn after_join(m: Map<u64, GuildView>, g: u64, channel: u64) -> Map<u64, GuildView> {
    if !m.contains_key(g) {
        m.insert(g, GuildView::Joining(channel))
    } else if can_move(m, g, channel) {
        m.insert(g, GuildView::Moving(session_of(m, g)->0, channel))
    } else {
        m
    }
}

/// A join in progress ends in a fresh session when the transport connected,
/// and in nothing when it failed. A move in progress ends with the session,
/// all it holds kept, on the new channel when the transport connected, and
/// on the old one when it failed.
pub open spec fn join_finished(m: Map<u64, GuildView>, g: u64, outcome: Result<(), String>) -> Map<u64, GuildView> {
    match joining_channel(m, g) {
        Some(c) => match outcome {
            Ok(_) => m.insert(g, GuildView::Connected(SessionView::fresh(c))),
            Err(_) => m.remove(g),
        },
        None => match moving_of(m, g) {
            Some((s, c)) => match outcome {
                Ok(_) => m.insert(g, GuildView::Connected(SessionView { channel: c, ..s })),
                Err(_) => m.insert(g, GuildView::Connected(s)),
            },
            None => m,
        },
    }
}

pub open spec fn join_finish_result(m: Map<u64, GuildView>, g: u64, outcome: Result<(), String>) -> Result<(), PlayerError> {
    if joining_channel(m, g) is Some || moving_of(m, g) is Some {
        match outcome {
            Ok(_) => Ok(()),
            Err(e) => Err(PlayerError::TransportError(e)),
        }
    } else {
        Err(PlayerError::NotConnected)
    }
}

pub open spec fn leave_result(m: Map<u64, GuildView>, g: u64) -> Result<(), PlayerError> {
    granted(session_of(m, g) is Some, PlayerError::NotConnected)
}

pub open spec fn after_leave(m: Map<u64, GuildView>, g: u64) -> Map<u64, GuildView> {
    match session_of(m, g) {
        Some(s) => m.insert(g, GuildView::Leaving(s)),
        None => m,
    }
}

/// A leave in progress removes all of the session when the transport
/// disconnected, and makes it live again when it failed.
pub open spec fn leave_finished(m: Map<u64, GuildView>, g: u64, outcome: Result<(), String>) -> Map<u64, GuildView> {
    match leaving_session(m, g) {
        Some(s) => match outcome {
            Ok(_) => m.remove(g),
            Err(_) => m.insert(g, GuildView::Connected(s)),
        },
        None => m,
    }
}

pub open spec fn leave_finish_result(m: Map<u64, GuildView>, g: u64, outcome: Result<(), String>) -> Result<(), PlayerError> {
    match leaving_session(m, g) {
        Some(_) => match outcome {
            Ok(_) => Ok(()),
            Err(e) => Err(PlayerError::TransportError(e)),
        },
        None => Err(PlayerError::NotConnected),
    }
}

/// What the current-track view answers for `g`.
pub open spec fn current_view(m: Map<u64, GuildView>, g: u64, rs: Seq<(u64, Result<TrackReport, String>)>)
    -> Result<Result<TrackStatus, Seq<char>>, PlayerError>
{
    match session_of(m, g) {
        Some(s) => s.status(rs),
        None => Err(PlayerError::NotConnected),
    }
}

/// What the queue view answers for page `page` of `g`: page zero is
/// refused first, then a guild without a live session.
pub open spec fn queue_view(m: Map<u64, GuildView>, g: u64, page: int, rs: Seq<(u64, Result<TrackReport, String>)>)
    -> Result<(Seq<(usize, TrackStatus)>, Seq<(u64, Seq<char>)>), PlayerError>
{
    if page <= 0 {
        Err(PlayerError::InvalidPage)
    } else {
        match session_of(m, g) {
            Some(s) => s.queue_page(page, rs),
            None => Err(PlayerError::NotConnected),
        }
    }
}

/// What the history view answers for page `page` of `g`: page zero is
/// refused first; a guild without a live session has no history.
pub open spec fn history_view(m: Map<u64, GuildView>, g: u64, page: int) -> Result<Seq<(usize, TrackInfo)>, PlayerError> {
    if page <= 0 {
        Err(PlayerError::InvalidPage)
    } else {
        match session_of(m, g) {
            Some(s) => s.history_page(page),
            None => Err(PlayerError::NoHistory),
        }
    }
}

/// Every session, live or leaving, is well formed.
pub open spec fn sessions_wf(m: Map<u64, GuildView>) -> bool {
    forall|g: u64| #[trigger] m.contains_key(g) ==> match m[g] {
        GuildView::Connected(s) => s.wf(),
        GuildView::Leaving(s) => s.wf(),
        GuildView::Moving(s, _) => s.wf(),
        GuildView::Joining(_) => true,
    }
}

/// The registry of voice sessions, one at most for each guild, and the
/// playback state each of them holds.
///
/// Joining, moving to another channel and leaving come in two steps around
/// the voice transport's own work: while one of them is on its way for a
/// guild, no other join or leave for it is taken, and its session answers
/// nothing.
#[derive(Debug)]
pub struct Connector {
    guilds: HashMap<u64, GuildState>,
}

impl View for Connector {
    type V = Map<u64, GuildView>;

    closed spec fn view(&self) -> Map<u64, GuildView> {
        self.guilds@.map_values(|s: GuildState| s@)
    }
}

impl Connector {
    pub open spec fn wf(&self) -> bool {
        sessions_wf(self@)
    }

    /// A registry with no guild in it.
    pub fn new() -> (r: Connector)
        ensures
            r@ == Map::<u64, GuildView>::empty(),
            r.wf(),
    {
        let r = Connector { guilds: HashMap::new() };
        assert(r@ =~= Map::<u64, GuildView>::empty());
        r
    }

    /// Takes the live session of `guild` out of the registry.
    fn take_session(&mut self, guild: u64) -> (r: Option<GuildSession>)
        ensures
            match session_of(old(self)@, guild) {
                Some(s) => r matches Some(t) && t@ == s && final(self)@ == old(self)@.remove(guild),
                None => r is None && final(self)@ == old(self)@,
            },
    {
        match self.guilds.remove(&guild) {
            Some(GuildState::Connected(s)) => {
                assert(self@ =~= old(self)@.remove(guild));
                Some(s)
            },
            Some(other) => {
                self.guilds.insert(guild, other);
                assert(self@ =~= old(self)@);
                None
            },
            None => {
                assert(self@ =~= old(self)@);
                None
            },
        }
    }

    /// Puts a live session back under `guild`.
    fn put_session(&mut self, guild: u64, s: GuildSession)
        ensures
            final(self)@ == old(self)@.insert(guild, GuildView::Connected(s@)),
    {
        self.guilds.insert(guild, GuildState::Connected(s));
        assert(self@ =~= old(self)@.insert(guild, GuildView::Connected(s@)));
    }

    /// The guild has a live session.
    pub fn is_connected(&self, guild: u64) -> (r: bool)
        ensures
            r == session_of(self@, guild) is Some,
    {
        match self.guilds.get(&guild) {
            Some(GuildState::Connected(_)) => true,
            _ => false,
        }
    }

    /// First step of a join: claims `guild` for a connection to `channel`.
    /// A live session on another channel starts moving there; a session
    /// already on `channel`, or a join, move or leave on its way, is refused
    /// with `AlreadyConnected`.
    pub fn begin_join(&mut self, guild: u64, channel: u64) -> (r: Result<(), PlayerError>)
        requires
            old(self).wf(),
        ensures
            final(self).wf(),
            r == join_result(old(self)@, guild, channel),
            final(self)@ == after_join(old(self)@, guild, channel),
    {
        let movable = match self.guilds.get(&guild) {
            None => {
                self.guilds.insert(guild, GuildState::Joining(channel));
                assert(self@ =~= old(self)@.insert(guild, GuildView::Joining(channel)));
                return Ok(());
            },
            Some(GuildState::Connected(s)) => s.channel != channel,
            Some(_) => false,
        };
        if !movable {
            return Err(PlayerError::AlreadyConnected);
        }
        match self.take_session(guild) {
            Some(s) => {
                let ghost mid = self@;
                self.guilds.insert(guild, GuildState::Moving(s, channel));
                assert(self@ =~= mid.insert(guild, GuildView::Moving(s@, channel)));
                assert(self@ =~= old(self)@.insert(guild, GuildView::Moving(s@, channel)));
                Ok(())
            },
            None => Err(PlayerError::AlreadyConnected),
        }
    }

    /// Second step of a join, with what the voice transport answered. A new
    /// connection gives the guild a fresh session on success and leaves
    /// nothing on failure; a move puts the session, with all it holds, on
    /// the new channel on success and back on the old one on failure.
    pub fn finish_join(&mut self, guild: u64, outcome: Result<(), String>) -> (r: Result<(), PlayerError>)
        requires
            old(self).wf(),
        ensures
            final(self).wf(),
            r == join_finish_result(old(self)@, guild, outcome),
            final(self)@ == join_finished(old(self)@, guild, outcome),
    {
        match self.guilds.remove(&guild) {
            Some(GuildState::Joining(channel)) => {
                match outcome {
                    Ok(_) => {
                        let s = GuildSession::new(channel);
                        self.guilds.insert(guild, GuildState::Connected(s));
                        assert(self@ =~= old(self)@.insert(guild, GuildView::Connected(SessionView::fresh(channel))));
                        Ok(())
                    },
                    Err(e) => {
                        assert(self@ =~= old(self)@.remove(guild));
                        Err(PlayerError::TransportError(e))
                    },
                }
            },
            Some(GuildState::Moving(mut s, channel)) => {
                match outcome {
                    Ok(_) => {
                        let ghost s0 = s@;
                        s.channel = channel;
                        self.put_session(guild, s);
                        assert(s@ == (SessionView { channel, ..s0 }));
                        assert(self@ =~= old(self)@.insert(guild, GuildView::Connected(SessionView { channel, ..s0 })));
                        Ok(())
                    },
                    Err(e) => {
                        let ghost s0 = s@;
                        self.put_session(guild, s);
                        assert(self@ =~= old(self)@.insert(guild, GuildView::Connected(s0)));
                        Err(PlayerError::TransportError(e))
                    },
                }
            },
            Some(other) => {
                self.guilds.insert(guild, other);
                assert(self@ =~= old(self)@);
                Err(PlayerError::NotConnected)
            },
            None => {
                assert(self@ =~= old(self)@);
                Err(PlayerError::NotConnected)
            },
        }
    }

    /// First step of a leave: the live session of `guild` stops answering
    /// while its connection is torn down.
    pub fn begin_leave(&mut self, guild: u64) -> (r: Result<(), PlayerError>)
        requires
            old(self).wf(),
        ensures
            final(self).wf(),
            r == leave_result(old(self)@, guild),
            final(self)@ == after_leave(old(self)@, guild),
    {
        match self.take_session(guild) {
            Some(s) => {
                let ghost mid = self@;
                self.guilds.insert(guild, GuildState::Leaving(s));
                assert(self@ =~= mid.insert(guild, GuildView::Leaving(s@)));
                assert(self@ =~= old(self)@.insert(guild, GuildView::Leaving(s@)));
                Ok(())
            },
            None => Err(PlayerError::NotConnected),
        }
    }

    /// Second step of a leave, with what the voice transport answered: on
    /// success all of the session's state goes; on failure the session is
    /// live again.
    pub fn finish_leave(&mut self, guild: u64, outcome: Result<(), String>) -> (r: Result<(), PlayerError>)
        requires
            old(self).wf(),
        ensures
            final(self).wf(),
            r == leave_finish_result(old(self)@, guild, outcome),
            final(self)@ == leave_finished(old(self)@, guild, outcome),
    {
        match self.guilds.remove(&guild) {
            Some(GuildState::Leaving(s)) => {
                match outcome {
                    Ok(_) => {
                        assert(self@ =~= old(self)@.remove(guild));
                        Ok(())
                    },
                    Err(e) => {
                        self.put_session(guild, s);
                        assert(self@ =~= old(self)@.insert(guild, GuildView::Connected(s@)));
                        Err(PlayerError::TransportError(e))
                    },
                }
            },
            Some(other) => {
                self.guilds.insert(guild, other);
                assert(self@ =~= old(self)@);
                Err(PlayerError::NotConnected)
            },
            None => {
                assert(self@ =~= old(self)@);
                Err(PlayerError::NotConnected)
            },
        }
    }

    /// Appends a resolved track to the queue of `guild`; returns its position.
    pub fn enqueue(&mut self, guild: u64, id: u64, url: String) -> (r: Result<usize, PlayerError>)
        requires
            old(self).wf(),
        ensures
            final(self).wf(),
            final(self)@ == updated(old(self)@, guild, |s: SessionView| s.enqueue(id, url)),
            r == answered(old(self)@, guild, |s: SessionView| Ok(s.queue.len() as usize)),
    {
        match self.take_session(guild) {
            Some(mut s) => {
                let r = s.enqueue(id, url);
                self.put_session(guild, s);
                Ok(r)
            },
            None => Err(PlayerError::NotConnected),
        }
    }

    /// Queues `request` if given, then starts the head of the queue when
    /// nothing is current.
    pub fn play(&mut self, guild: u64, request: Option<(u64, String)>) -> (r: Result<PlayOutcome, PlayerError>)
        requires
            old(self).wf(),
        ensures
            final(self).wf(),
            final(self)@ == updated(old(self)@, guild, |s: SessionView| s.play(request)),
            r == answered(old(self)@, guild, |s: SessionView| s.play_result(request)),
    {
        match self.take_session(guild) {
            Some(mut s) => {
                let r = s.play(request);
                self.put_session(guild, s);
                r
            },
            None => Err(PlayerError::NotConnected),
        }
    }

    /// Pauses the current track of `guild`.
    pub fn pause(&mut self, guild: u64) -> (r: Result<(), PlayerError>)
        requires
            old(self).wf(),
        ensures
            final(self).wf(),
            final(self)@ == updated(old(self)@, guild, |s: SessionView| s.pause()),
            r == answered(old(self)@, guild, |s: SessionView| granted(s.is_playing(), PlayerError::NotPlaying)),
    {
        match self.take_session(guild) {
            Some(mut s) => {
                let r = s.pause();
                self.put_session(guild, s);
                r
            },
            None => Err(PlayerError::NotConnected),
        }
    }

    /// Resumes the current track of `guild`.
    pub fn resume(&mut self, guild: u64) -> (r: Result<(), PlayerError>)
        requires
            old(self).wf(),
        ensures
            final(self).wf(),
            final(self)@ == updated(old(self)@, guild, |s: SessionView| s.resume()),
            r == answered(old(self)@, guild, |s: SessionView| granted(s.is_paused(), PlayerError::NotPlaying)),
    {
        match self.take_session(guild) {
            Some(mut s) => {
                let r = s.resume();
                self.put_session(guild, s);
                r
            },
            None => Err(PlayerError::NotConnected),
        }
    }

    /// Halts and archives the current track of `guild` and empties its queue.
    /// A second stop finds nothing to halt and succeeds again.
    pub fn stop(&mut self, guild: u64) -> (r: Result<(), PlayerError>)
        requires
            old(self).wf(),
        ensures
            final(self).wf(),
            final(self)@ == updated(old(self)@, guild, |s: SessionView| s.stop()),
            r == answered(old(self)@, guild, |s: SessionView| Ok(())),
    {
        match self.take_session(guild) {
            Some(mut s) => {
                let r = s.stop();
                self.put_session(guild, s);
                Ok(r)
            },
            None => Err(PlayerError::NotConnected),
        }
    }

    /// Switches looping of the current track of `guild` on or off.
    pub fn toggle_loop(&mut self, guild: u64) -> (r: Result<TrackLoop, PlayerError>)
        requires
            old(self).wf(),
        ensures
            final(self).wf(),
            final(self)@ == updated(old(self)@, guild, |s: SessionView| s.toggle_loop()),
            r == answered(old(self)@, guild, |s: SessionView| s.loop_result()),
    {
        match self.take_session(guild) {
            Some(mut s) => {
                let r = s.toggle_loop();
                self.put_session(guild, s);
                r
            },
            None => Err(PlayerError::NotConnected),
        }
    }

    /// Moves the queued track at `from` to position `to`.
    pub fn slide(&mut self, guild: u64, from: usize, to: usize) -> (r: Result<(), PlayerError>)
        requires
            old(self).wf(),
        ensures
            final(self).wf(),
            final(self)@ == updated(old(self)@, guild, |s: SessionView| s.slide(from as int, to as int)),
            r == answered(old(self)@, guild, |s: SessionView| s.slide_result(from as int, to as int)),
    {
        match self.take_session(guild) {
            Some(mut s) => {
                let r = s.slide(from, to);
                self.put_session(guild, s);
                r
            },
            None => Err(PlayerError::NotConnected),
        }
    }

    /// Removes the queued tracks of `guild` that `kind` selects.
    pub fn drop(&mut self, guild: u64, kind: DropKind) -> (r: Result<(), PlayerError>)
        requires
            old(self).wf(),
        ensures
            final(self).wf(),
            final(self)@ == updated(old(self)@, guild, |s: SessionView| s.drop(kind)),
            r == answered(old(self)@, guild, |s: SessionView| granted(s.drop_fits(kind), PlayerError::OutOfBounds)),
    {
        match self.take_session(guild) {
            Some(mut s) => {
                let r = s.drop(kind);
                self.put_session(guild, s);
                r
            },
            None => Err(PlayerError::NotConnected),
        }
    }

    /// Handles the notice that track `id` of `guild` played to its end;
    /// returns the track that starts next, if any.
    pub fn finish_track(&mut self, guild: u64, id: u64) -> (r: Result<Option<CurrentTrack>, PlayerError>)
        requires
            old(self).wf(),
        ensures
            final(self).wf(),
            final(self)@ == updated(old(self)@, guild, |s: SessionView| s.finish_track(id)),
            r == answered(old(self)@, guild, |s: SessionView| Ok(s.finish_result(id))),
    {
        match self.take_session(guild) {
            Some(mut s) => {
                let r = s.finish_track(id);
                self.put_session(guild, s);
                Ok(r)
            },
            None => Err(PlayerError::NotConnected),
        }
    }

    /// Sets the volume of the current track of `guild` alone, or its default
    /// volume and that of the current track and every queued one. Returns
    /// the ids of the tracks whose playback must follow.
    pub fn set_volume(&mut self, guild: u64, volume: u32, current_only: bool) -> (r: Result<Vec<u64>, PlayerError>)
        requires
            old(self).wf(),
        ensures
            final(self).wf(),
            final(self)@ == updated(old(self)@, guild, |s: SessionView| s.set_volume(volume, current_only)),
            match session_of(old(self)@, guild) {
                Some(s) => if s.volume_refused(current_only) {
                    r == Err::<Vec<u64>, PlayerError>(PlayerError::NotPlaying)
                } else {
                    r matches Ok(ids) && ids@ == s.volume_targets(current_only)
                },
                None => r == Err::<Vec<u64>, PlayerError>(PlayerError::NotConnected),
            },
    {
        match self.take_session(guild) {
            Some(mut s) => {
                let r = s.set_volume(volume, current_only);
                self.put_session(guild, s);
                r
            },
            None => Err(PlayerError::NotConnected),
        }
    }

    /// Puts the queue of `guild` in a random order.
    pub fn shuffle(&mut self, guild: u64) -> (r: Result<(), PlayerError>)
        requires
            old(self).wf(),
        ensures
            final(self).wf(),
            match session_of(old(self)@, guild) {
                Some(s) => {
                    &&& r is Ok
                    &&& session_of(final(self)@, guild) matches Some(t)
                    &&& final(self)@ == old(self)@.insert(guild, GuildView::Connected(t))
                    &&& t == (SessionView { queue: t.queue, ..s })
                    &&& t.queue.to_multiset() == s.queue.to_multiset()
                    &&& t.queue.len() == s.queue.len()
                },
                None => r == Err::<(), PlayerError>(PlayerError::NotConnected) && final(self)@ == old(self)@,
            },
    {
        match self.take_session(guild) {
            Some(mut s) => {
                s.shuffle();
                self.put_session(guild, s);
                Ok(())
            },
            None => Err(PlayerError::NotConnected),
        }
    }

    /// An administrative request that does nothing and always succeeds.
    pub fn fix(&self, guild: u64) -> (r: Result<(), PlayerError>)
        ensures
            r == Ok::<(), PlayerError>(()),
    {
        Ok(())
    }

    /// The library's record of the current track of `guild`: what it last
    /// asked the transport to do with it.
    pub fn current_track(&self, guild: u64) -> (r: Option<CurrentTrack>)
        ensures
            r == match session_of(self@, guild) {
                Some(s) => s.current,
                None => None::<CurrentTrack>,
            },
    {
        match self.guilds.get(&guild) {
            Some(GuildState::Connected(s)) => match &s.current {
                Some(c) => Some(copy_current(c)),
                None => None,
            },
            _ => None,
        }
    }

    /// The status of the current track of the guild asked about, from the
    /// transport's reports, given as track ids with what was reported.
    pub fn current_status(&self, query: GetCurrentStatus, reports: &Vec<(u64, Result<TrackReport, String>)>)
        -> (r: Result<CurrentStatus, PlayerError>)
        ensures
            holds_status(
                match r { Ok(c) => Ok(c.current_track), Err(e) => Err(e) },
                current_view(self@, query.guild, reports@),
            ),
    {
        let r = match self.guilds.get(&query.guild) {
            Some(GuildState::Connected(s)) => s.current_status(reports),
            _ => Err(PlayerError::NotConnected),
        };
        match r {
            Ok(t) => Ok(CurrentStatus { current_track: t }),
            Err(e) => Err(e),
        }
    }

    /// A page (counted from one) of the queue of the guild asked about, with
    /// each track's status from the transport's reports. Page zero is
    /// refused before anything else.
    pub fn queue_status(&self, query: GetQueueStatus, reports: &Vec<(u64, Result<TrackReport, String>)>)
        -> (r: Result<QueueStatus, PlayerError>)
        ensures
            query.page == 0 ==> r matches Err(PlayerError::InvalidPage),
            holds_status_page(
                match r { Ok(q) => Ok((q.tracks, q.failures)), Err(e) => Err(e) },
                queue_view(self@, query.guild, query.page as int, reports@),
            ),
    {
        if query.page == 0 {
            return Err(PlayerError::InvalidPage);
        }
        let r = match self.guilds.get(&query.guild) {
            Some(GuildState::Connected(s)) => s.queue_page(query.page, reports),
            _ => Err(PlayerError::NotConnected),
        };
        match r {
            Ok((tracks, failures)) => Ok(QueueStatus { tracks, failures }),
            Err(e) => Err(e),
        }
    }

    /// A page (counted from one) of the history of the guild asked about.
    /// Page zero is refused before anything else; a guild without a live
    /// session has no history, since a leave takes the history with it.
    pub fn history_status(&self, query: GetHistoryStatus) -> (r: Result<HistoryStatus, PlayerError>)
        ensures
            query.page == 0 ==> r matches Err(PlayerError::InvalidPage),
            holds_page(
                match r { Ok(h) => Ok(h.history), Err(e) => Err(e) },
                history_view(self@, query.guild, query.page as int),
            ),
    {
        if query.page == 0 {
            return Err(PlayerError::InvalidPage);
        }
        let r = match self.guilds.get(&query.guild) {
            Some(GuildState::Connected(s)) => s.history_page(query.page),
            _ => Err(PlayerError::NoHistory),
        };
        match r {
            Ok(history) => Ok(HistoryStatus { history }),
            Err(e) => Err(e),
        }
    }

    /// Serves a connection or queue request of `action.guild`. A join or a
    /// leave is only begun here: the caller finishes it with what the voice
    /// transport answers.
    pub fn handle(&mut self, action: &CallAction) -> (r: Result<(), PlayerError>)
        requires
            old(self).wf(),
        ensures
            final(self).wf(),
            ({
                let g = action.guild;
                match action.kind {
                    CallActionKind::Join { channel } => r == join_result(old(self)@, g, channel)
                        && final(self)@ == after_join(old(self)@, g, channel),
                    CallActionKind::Leave => r == leave_result(old(self)@, g) && final(self)@ == after_leave(old(self)@, g),
                    CallActionKind::Slide { from, to } => {
                        &&& final(self)@ == updated(old(self)@, g, |s: SessionView| s.slide(from as int, to as int))
                        &&& r == answered(old(self)@, g, |s: SessionView| s.slide_result(from as int, to as int))
                    },
                    CallActionKind::Drop { kind } => {
                        &&& final(self)@ == updated(old(self)@, g, |s: SessionView| s.drop(kind))
                        &&& r == answered(old(self)@, g, |s: SessionView| granted(s.drop_fits(kind), PlayerError::OutOfBounds))
                    },
                    CallActionKind::Fix => r == Ok::<(), PlayerError>(()) && final(self)@ == old(self)@,
                    CallActionKind::Stop => {
                        &&& final(self)@ == updated(old(self)@, g, |s: SessionView| s.stop())
                        &&& r == answered(old(self)@, g, |s: SessionView| Ok::<(), PlayerError>(()))
                    },
                }
            }),
    {
        let guild = action.guild;
        match &action.kind {
            CallActionKind::Join { channel } => self.begin_join(guild, *channel),
            CallActionKind::Leave => self.begin_leave(guild),
            CallActionKind::Slide { from, to } => self.slide(guild, *from, *to),
            CallActionKind::Drop { kind } => self.drop(guild, *kind),
            CallActionKind::Fix => self.fix(guild),
            CallActionKind::Stop => self.stop(guild),
        }
    }
}

} // verus!
