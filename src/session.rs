use vstd::prelude::*;
use crate::error::{granted, PlayerError};
use crate::queue::{
    drop_tracks, page_bounds, page_count, range_end, range_fits, range_start, shuffle, slid,
    slide, without_range, DropKind, PAGE_SIZE,
};
use crate::status::{holds_status, holds_status_page, lookup, lookup_status, messages, page_failures, page_statuses, resolve_page};
use crate::track::{CurrentTrack, PendingTrack, TrackInfo, TrackLoop, TrackMode, TrackReport, TrackStatus};

verus! {

/// The volume of a new session, in hundredths: full volume.
pub const DEFAULT_VOLUME: u32 = 100;

/// What a request to play led to.
#[derive(Debug, PartialEq, Eq)]
pub enum PlayOutcome {
    /// The head of the queue became the current track.
    Started(CurrentTrack),
    /// A track was already current; the given source was queued at this position.
    Queued(usize),
    /// A track was already current and no source was given: nothing changed.
    AlreadyActive,
}

/// Everything one guild's voice session holds.
#[derive(Debug)]
pub struct GuildSession {
    pub channel: u64,
    pub queue: Vec<PendingTrack>,
    pub current: Option<CurrentTrack>,
    pub default_volume: u32,
    pub history: Vec<TrackInfo>,
}

/// A session as a mathematical value.
pub struct SessionView {
    pub channel: u64,
    pub queue: Seq<PendingTrack>,
    pub current: Option<CurrentTrack>,
    pub default_volume: u32,
    pub history: Seq<TrackInfo>,
}

impl View for GuildSession {
    type V = SessionView;

    open spec fn view(&self) -> SessionView {
        SessionView {
            channel: self.channel,
            queue: self.queue@,
            current: self.current,
            default_volume: self.default_volume,
            history: self.history@,
        }
    }
}

/// A queued track once it starts, at `volume`.
pub open spec fn started(p: PendingTrack, volume: u32) -> CurrentTrack {
    CurrentTrack { id: p.id, url: p.url, mode: TrackMode::Play, volume, loops: TrackLoop::Finite(0) }
}

/// The record that a finished or stopped track leaves in the history.
pub open spec fn archived(c: CurrentTrack) -> TrackInfo {
    TrackInfo { url: c.url }
}

/// The history after the current track, if any, has left playback.
pub open spec fn archive_current(h: Seq<TrackInfo>, c: Option<CurrentTrack>) -> Seq<TrackInfo> {
    match c {
        Some(t) => h.push(archived(t)),
        None => h,
    }
}

/// A pending track with its volume set to `volume`.
pub open spec fn with_volume(p: PendingTrack, volume: u32) -> PendingTrack {
    PendingTrack { volume, ..p }
}

/// The entries of page `page` (counted from one) of `s`, each with its position.
pub open spec fn page_of<T>(s: Seq<T>, page: int) -> Result<Seq<(usize, T)>, PlayerError> {
    if page <= 0 {
        Err(PlayerError::InvalidPage)
    } else if page > page_count(s.len() as int) {
        Err(PlayerError::OutOfBounds)
    } else {
        let start = PAGE_SIZE * (page - 1);
        let end = if start + PAGE_SIZE <= s.len() { start + PAGE_SIZE } else { s.len() as int };
        Ok(Seq::new((end - start) as nat, |k: int| ((start + k) as usize, s[start + k])))
    }
}

/// An executable list holds what a page result says.
pub open spec fn holds_page<T>(r: Result<Vec<(usize, T)>, PlayerError>, s: Result<Seq<(usize, T)>, PlayerError>) -> bool {
    match r {
        Ok(v) => s == Ok::<Seq<(usize, T)>, PlayerError>(v@),
        Err(e) => s == Err::<Seq<(usize, T)>, PlayerError>(e),
    }
}

impl SessionView {
    /// A session just joined to `channel`.
    pub open spec fn fresh(channel: u64) -> SessionView {
        SessionView {
            channel,
            queue: Seq::empty(),
            current: None,
            default_volume: DEFAULT_VOLUME,
            history: Seq::empty(),
        }
    }

    /// The current track, if any, is playing or paused: one that stopped or
    /// ended has left.
    pub open spec fn wf(self) -> bool {
        self.current matches Some(c) ==> (c.mode == TrackMode::Play || c.mode == TrackMode::Pause)
    }

    pub open spec fn enqueue(self, id: u64, url: String) -> SessionView {
        SessionView {
            queue: self.queue.push(PendingTrack { id, url, volume: self.default_volume }),
            ..self
        }
    }

    /// The head of the queue becomes the current track, at the default volume.
    pub open spec fn start_next(self) -> SessionView {
        SessionView {
            queue: self.queue.drop_first(),
            current: Some(started(self.queue[0], self.default_volume)),
            ..self
        }
    }

    /// The session after a request to play, queueing `request` first if given.
    pub open spec fn play(self, request: Option<(u64, String)>) -> SessionView {
        let s = match request {
            Some((id, url)) => self.enqueue(id, url),
            None => self,
        };
        if s.current is None && s.queue.len() > 0 {
            s.start_next()
        } else {
            s
        }
    }

    pub open spec fn play_result(self, request: Option<(u64, String)>) -> Result<PlayOutcome, PlayerError> {
        if self.current is Some {
            match request {
                Some(_) => Ok(PlayOutcome::Queued(self.queue.len() as usize)),
                None => Ok(PlayOutcome::AlreadyActive),
            }
        } else if self.queue.len() == 0 && request is None {
            Err(PlayerError::QueueEmpty)
        } else {
            Ok(PlayOutcome::Started(self.play(request).current->0))
        }
    }

    /// The current track with its mode set to `mode`.
    pub open spec fn with_mode(self, mode: TrackMode) -> SessionView {
        SessionView { current: Some(CurrentTrack { mode, ..self.current->0 }), ..self }
    }

    pub open spec fn is_playing(self) -> bool {
        self.current matches Some(c) && c.mode == TrackMode::Play
    }

    pub open spec fn is_paused(self) -> bool {
        self.current matches Some(c) && c.mode == TrackMode::Pause
    }

    pub open spec fn pause(self) -> SessionView {
        if self.is_playing() { self.with_mode(TrackMode::Pause) } else { self }
    }

    pub open spec fn resume(self) -> SessionView {
        if self.is_paused() { self.with_mode(TrackMode::Play) } else { self }
    }

    pub open spec fn slide(self, from: int, to: int) -> SessionView {
        if 0 <= from < self.queue.len() && 0 <= to < self.queue.len() {
            SessionView { queue: slid(self.queue, from, to), ..self }
        } else {
            self
        }
    }

    pub open spec fn slide_result(self, from: int, to: int) -> Result<(), PlayerError> {
        granted(0 <= from < self.queue.len() && 0 <= to < self.queue.len(), PlayerError::OutOfBounds)
    }

    pub open spec fn drop_fits(self, kind: DropKind) -> bool {
        match kind {
            DropKind::Index(i) => i < self.queue.len(),
            DropKind::Range((lo, hi)) => range_fits(lo, hi, self.queue.len() as int),
        }
    }

    pub open spec fn drop(self, kind: DropKind) -> SessionView {
        match kind {
            DropKind::Index(i) => if i < self.queue.len() {
                SessionView { queue: self.queue.remove(i as int), ..self }
            } else {
                self
            },
            DropKind::Range((lo, hi)) => if range_fits(lo, hi, self.queue.len() as int) {
                SessionView { queue: without_range(self.queue, range_start(lo), range_end(hi)->0), ..self }
            } else {
                self
            },
        }
    }

    pub open spec fn loop_result(self) -> Result<TrackLoop, PlayerError> {
        match self.current {
            Some(c) => Ok(Self::toggled(c.loops)),
            None => Err(PlayerError::NotPlaying),
        }
    }

    /// The status of the current track as the transport reports it.
    pub open spec fn status(self, rs: Seq<(u64, Result<TrackReport, String>)>) -> Result<Result<TrackStatus, Seq<char>>, PlayerError> {
        match self.current {
            Some(c) => Ok(lookup(rs, c.id, c.url)),
            None => Err(PlayerError::NotPlaying),
        }
    }

    /// The current track halts and is archived; the rest of the queue is dropped.
    pub open spec fn stop(self) -> SessionView {
        SessionView {
            queue: Seq::empty(),
            current: None,
            history: archive_current(self.history, self.current),
            ..self
        }
    }

    /// The loop state that toggling leaves: looping starts from none and
    /// stops from any other.
    pub open spec fn toggled(l: TrackLoop) -> TrackLoop {
        if l == TrackLoop::Finite(0) {
            TrackLoop::Infinite
        } else {
            TrackLoop::Finite(0)
        }
    }

    pub open spec fn toggle_loop(self) -> SessionView {
        match self.current {
            Some(c) => SessionView {
                current: Some(CurrentTrack { loops: Self::toggled(c.loops), ..c }),
                ..self
            },
            None => self,
        }
    }

    /// The session after a volume change: of the current track alone, or of
    /// the default, the current track and every queued track.
    pub open spec fn set_volume(self, volume: u32, current_only: bool) -> SessionView {
        let current = match self.current {
            Some(c) => Some(CurrentTrack { volume, ..c }),
            None => None,
        };
        if current_only {
            SessionView { current, ..self }
        } else {
            SessionView {
                current,
                default_volume: volume,
                queue: self.queue.map_values(|p: PendingTrack| with_volume(p, volume)),
                ..self
            }
        }
    }

    /// Only the current track's volume was asked for, and there is none.
    pub open spec fn volume_refused(self, current_only: bool) -> bool {
        current_only && self.current is None
    }

    /// The tracks whose playback volume must change, by id: the current one
    /// first, then, unless `current_only`, the queued ones in order.
    pub open spec fn volume_targets(self, current_only: bool) -> Seq<u64> {
        let head = match self.current {
            Some(c) => seq![c.id],
            None => Seq::empty(),
        };
        if current_only {
            head
        } else {
            head + self.queue.map_values(|p: PendingTrack| p.id)
        }
    }

    /// The session after the track `id` has played to its end: it is
    /// archived and the next queued track starts. A notice for a track that
    /// is no longer current changes nothing.
    pub open spec fn finish_track(self, id: u64) -> SessionView {
        if self.current matches Some(c) && c.id == id {
            let s = SessionView {
                current: None,
                history: self.history.push(archived(self.current->0)),
                ..self
            };
            if s.queue.len() > 0 {
                s.start_next()
            } else {
                s
            }
        } else {
            self
        }
    }

    /// The track that the end of track `id` starts, if any.
    pub open spec fn finish_result(self, id: u64) -> Option<CurrentTrack> {
        if self.current matches Some(c) && c.id == id && self.queue.len() > 0 {
            Some(started(self.queue[0], self.default_volume))
        } else {
            None
        }
    }

    /// A page of the queue with each track's status as the transport
    /// reports it; a lookup that fails does not stop the others, and the
    /// failures are gathered beside the statuses that resolved.
    pub open spec fn queue_page(self, page: int, rs: Seq<(u64, Result<TrackReport, String>)>)
        -> Result<(Seq<(usize, TrackStatus)>, Seq<(u64, Seq<char>)>), PlayerError>
    {
        match page_of(self.queue, page) {
            Ok(entries) => Ok(resolve_page(rs, entries)),
            Err(e) => Err(e),
        }
    }

    pub open spec fn history_page(self, page: int) -> Result<Seq<(usize, TrackInfo)>, PlayerError> {
        if page > 0 && self.history.len() == 0 {
            Err(PlayerError::NoHistory)
        } else {
            page_of(self.history, page)
        }
    }
}

/// A copy of the current track.
pub fn copy_current(c: &CurrentTrack) -> (r: CurrentTrack)
    ensures
        r == *c,
{
    CurrentTrack { id: c.id, url: c.url.clone(), mode: c.mode, volume: c.volume, loops: c.loops }
}

impl GuildSession {
    /// A session just joined to `channel`: empty queue, nothing playing,
    /// full volume, empty history.
    pub fn new(channel: u64) -> (s: GuildSession)
        ensures
            s@ == SessionView::fresh(channel),
    {
        GuildSession {
            channel,
            queue: Vec::new(),
            current: None,
            default_volume: DEFAULT_VOLUME,
            history: Vec::new(),
        }
    }

    /// Appends a track at the default volume; returns its position.
    pub fn enqueue(&mut self, id: u64, url: String) -> (r: usize)
        ensures
            final(self)@ == old(self)@.enqueue(id, url),
            r == old(self)@.queue.len(),
    {
        let pos = self.queue.len();
        let vol = self.default_volume;
        self.queue.push(PendingTrack { id, url, volume: vol });
        pos
    }

    fn start_next(&mut self) -> (r: CurrentTrack)
        requires
            old(self).current is None,
            old(self)@.queue.len() > 0,
        ensures
            final(self)@ == old(self)@.start_next(),
            r == final(self)@.current->0,
    {
        let head = self.queue.remove(0);
        let track = CurrentTrack {
            id: head.id,
            url: head.url,
            mode: TrackMode::Play,
            volume: self.default_volume,
            loops: TrackLoop::Finite(0),
        };
        let status = copy_current(&track);
        self.current = Some(track);
        assert(self@.queue =~= old(self)@.queue.drop_first());
        status
    }

    /// Queues `request` if given, then starts the head of the queue when
    /// nothing is current.
    pub fn play(&mut self, request: Option<(u64, String)>) -> (r: Result<PlayOutcome, PlayerError>)
        ensures
            final(self)@ == old(self)@.play(request),
            r == old(self)@.play_result(request),
    {
        let given = request.is_some();
        let mut pos: usize = 0;
        match request {
            Some((id, url)) => {
                pos = self.enqueue(id, url);
            },
            None => {},
        }
        if self.current.is_some() {
            if given {
                Ok(PlayOutcome::Queued(pos))
            } else {
                Ok(PlayOutcome::AlreadyActive)
            }
        } else if self.queue.len() == 0 {
            Err(PlayerError::QueueEmpty)
        } else {
            let status = self.start_next();
            Ok(PlayOutcome::Started(status))
        }
    }

    /// Pauses the current track; only a playing one can be paused.
    pub fn pause(&mut self) -> (r: Result<(), PlayerError>)
        ensures
            final(self)@ == old(self)@.pause(),
            r == granted(old(self)@.is_playing(), PlayerError::NotPlaying),
    {
        match &mut self.current {
            Some(c) => {
                if c.mode == TrackMode::Play {
                    c.mode = TrackMode::Pause;
                    Ok(())
                } else {
                    Err(PlayerError::NotPlaying)
                }
            },
            None => Err(PlayerError::NotPlaying),
        }
    }

    /// Resumes the current track; only a paused one can be resumed.
    pub fn resume(&mut self) -> (r: Result<(), PlayerError>)
        ensures
            final(self)@ == old(self)@.resume(),
            r == granted(old(self)@.is_paused(), PlayerError::NotPlaying),
    {
        match &mut self.current {
            Some(c) => {
                if c.mode == TrackMode::Pause {
                    c.mode = TrackMode::Play;
                    Ok(())
                } else {
                    Err(PlayerError::NotPlaying)
                }
            },
            None => Err(PlayerError::NotPlaying),
        }
    }

    /// Halts and archives the current track and drops the rest of the queue.
    /// Stopping an idle session changes nothing.
    pub fn stop(&mut self)
        ensures
            final(self)@ == old(self)@.stop(),
    {
        match self.current.take() {
            Some(c) => {
                self.history.push(TrackInfo { url: c.url });
            },
            None => {},
        }
        self.queue.clear();
    }

    /// Switches looping of the current track on or off; returns the new state.
    pub fn toggle_loop(&mut self) -> (r: Result<TrackLoop, PlayerError>)
        ensures
            final(self)@ == old(self)@.toggle_loop(),
            r == old(self)@.loop_result(),
    {
        match &mut self.current {
            Some(c) => {
                let next = match c.loops {
                    TrackLoop::Finite(0) => TrackLoop::Infinite,
                    _ => TrackLoop::Finite(0),
                };
                c.loops = next;
                Ok(next)
            },
            None => Err(PlayerError::NotPlaying),
        }
    }

    /// Sets the volume of the current track alone, or the default volume and
    /// that of the current track and every queued one. Returns the ids of the
    /// tracks whose playback must follow.
    pub fn set_volume(&mut self, volume: u32, current_only: bool) -> (r: Result<Vec<u64>, PlayerError>)
        ensures
            final(self)@ == old(self)@.set_volume(volume, current_only),
            old(self)@.volume_refused(current_only) ==> r == Err::<Vec<u64>, PlayerError>(PlayerError::NotPlaying),
            !old(self)@.volume_refused(current_only) ==> (r matches Ok(ids) && ids@ == old(self)@.volume_targets(current_only)),
    {
        let ghost s0 = self@;
        let mut ids: Vec<u64> = Vec::new();
        match &mut self.current {
            Some(c) => {
                c.volume = volume;
                ids.push(c.id);
            },
            None => {
                if current_only {
                    return Err(PlayerError::NotPlaying);
                }
            },
        }
        assert(ids@ =~= s0.volume_targets(true));
        if current_only {
            return Ok(ids);
        }
        self.default_volume = volume;
        let ghost head = ids@;
        let ghost q0 = self.queue@;
        let ghost s1 = self@;
        let n = self.queue.len();
        let mut i: usize = 0;
        while i < n
            invariant
                n == q0.len(),
                0 <= i <= n,
                self@ == (SessionView { queue: self.queue@, ..s1 }),
                self.queue@.len() == n,
                forall|k: int| 0 <= k < i ==> #[trigger] self.queue@[k] == with_volume(q0[k], volume),
                forall|k: int| i <= k < n ==> #[trigger] self.queue@[k] == q0[k],
                ids@ == head + q0.subrange(0, i as int).map_values(|p: PendingTrack| p.id),
            decreases n - i,
        {
            let id = self.queue[i].id;
            let url = self.queue[i].url.clone();
            self.queue.set(i, PendingTrack { id, url, volume });
            ids.push(id);
            assert(q0.subrange(0, i + 1).map_values(|p: PendingTrack| p.id)
                =~= q0.subrange(0, i as int).map_values(|p: PendingTrack| p.id).push(id));
            i += 1;
        }
        assert(q0.subrange(0, n as int) =~= q0);
        assert(ids@ =~= s0.volume_targets(false));
        assert(self.queue@ =~= q0.map_values(|p: PendingTrack| with_volume(p, volume)));
        assert(self@ =~= s0.set_volume(volume, false));
        Ok(ids)
    }

    /// Handles the notice that track `id` played to its end: archives it and
    /// starts the next queued track, whose status it returns.
    pub fn finish_track(&mut self, id: u64) -> (r: Option<CurrentTrack>)
        ensures
            final(self)@ == old(self)@.finish_track(id),
            r == old(self)@.finish_result(id),
    {
        let is_current = match &self.current {
            Some(c) => c.id == id,
            None => false,
        };
        if !is_current {
            return None;
        }
        match self.current.take() {
            Some(c) => {
                self.history.push(TrackInfo { url: c.url });
            },
            None => {},
        }
        if self.queue.len() > 0 {
            Some(self.start_next())
        } else {
            None
        }
    }

    /// Moves the queued track at `from` to position `to`.
    pub fn slide(&mut self, from: usize, to: usize) -> (r: Result<(), PlayerError>)
        ensures
            final(self)@ == old(self)@.slide(from as int, to as int),
            r == old(self)@.slide_result(from as int, to as int),
    {
        slide(&mut self.queue, from, to)
    }

    /// Removes the queued tracks that `kind` selects.
    pub fn drop(&mut self, kind: DropKind) -> (r: Result<(), PlayerError>)
        ensures
            final(self)@ == old(self)@.drop(kind),
            r == granted(old(self)@.drop_fits(kind), PlayerError::OutOfBounds),
    {
        drop_tracks(&mut self.queue, kind)
    }

    /// Puts the queue in a random order.
    pub fn shuffle(&mut self)
        ensures
            final(self)@.queue.len() == old(self)@.queue.len(),
            final(self)@.queue.to_multiset() == old(self)@.queue.to_multiset(),
            final(self)@ == (SessionView { queue: final(self)@.queue, ..old(self)@ }),
    {
        shuffle(&mut self.queue)
    }

    /// The status of the current track, from the transport's reports.
    pub fn current_status(&self, rs: &Vec<(u64, Result<TrackReport, String>)>) -> (r: Result<TrackStatus, PlayerError>)
        ensures
            holds_status(r, self@.status(rs@)),
    {
        match &self.current {
            Some(c) => match lookup_status(rs, c.id, &c.url) {
                Ok(t) => Ok(t),
                Err(e) => Err(PlayerError::TransportError(e)),
            },
            None => Err(PlayerError::NotPlaying),
        }
    }

    /// Page `page` (counted from one) of the queue: each track whose status
    /// the transport reported, with its position, and beside them the id and
    /// failure of each track whose lookup failed.
    pub fn queue_page(&self, page: usize, rs: &Vec<(u64, Result<TrackReport, String>)>)
        -> (r: Result<(Vec<(usize, TrackStatus)>, Vec<(u64, String)>), PlayerError>)
        ensures
            holds_status_page(r, self@.queue_page(page as int, rs@)),
    {
        let (start, end) = match page_bounds(self.queue.len(), page) {
            Ok(b) => b,
            Err(e) => return Err(e),
        };
        let ghost entries = page_of(self@.queue, page as int)->Ok_0;
        assert(entries.len() == end - start);
        let mut oks: Vec<(usize, TrackStatus)> = Vec::new();
        let mut fails: Vec<(u64, String)> = Vec::new();
        let mut i: usize = start;
        while i < end
            invariant
                start <= i <= end <= self.queue@.len(),
                entries.len() == end - start,
                forall|k: int| 0 <= k < end - start ==> #[trigger] entries[k] == ((start + k) as usize, self.queue@[start + k]),
                oks@ == page_statuses(rs@, entries.subrange(0, i - start)),
                messages(fails@) == page_failures(rs@, entries.subrange(0, i - start)),
            decreases end - i,
        {
            let ghost before = entries.subrange(0, i - start);
            let ghost upto = entries.subrange(0, i - start + 1);
            assert(upto.drop_last() =~= before);
            assert(upto.last() == entries[i - start]);
            let t = &self.queue[i];
            match lookup_status(rs, t.id, &t.url) {
                Ok(st) => {
                    oks.push((i, st));
                },
                Err(e) => {
                    let ghost f0 = fails@;
                    fails.push((t.id, e));
                    assert(messages(fails@) =~= messages(f0).push((t.id, e@)));
                },
            }
            i += 1;
        }
        assert(entries.subrange(0, end - start) =~= entries);
        Ok((oks, fails))
    }

    /// Page `page` (counted from one) of the history, oldest first.
    pub fn history_page(&self, page: usize) -> (r: Result<Vec<(usize, TrackInfo)>, PlayerError>)
        ensures
            holds_page(r, self@.history_page(page as int)),
    {
        if page > 0 && self.history.len() == 0 {
            return Err(PlayerError::NoHistory);
        }
        let (start, end) = match page_bounds(self.history.len(), page) {
            Ok(b) => b,
            Err(e) => return Err(e),
        };
        let mut out: Vec<(usize, TrackInfo)> = Vec::new();
        let mut i: usize = start;
        while i < end
            invariant
                start <= i <= end <= self.history@.len(),
                out@.len() == i - start,
                forall|k: int| 0 <= k < i - start ==> #[trigger] out@[k] == ((start + k) as usize, self.history@[start + k]),
            decreases end - i,
        {
            out.push((i, TrackInfo { url: self.history[i].url.clone() }));
            i += 1;
        }
        assert(Ok::<Seq<(usize, TrackInfo)>, PlayerError>(out@) == self@.history_page(page as int)) by {
            if let Ok(v) = self@.history_page(page as int) {
                assert(out@ =~= v);
            }
        }
        Ok(out)
    }
}

} // verus!
