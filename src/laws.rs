//! What holds across several operations, stated over the models that the
//! operations' own contracts use.

use vstd::prelude::*;
use crate::connection::{
    after_join, after_leave, answered, current_view, history_view, join_finished, join_result,
    leave_finished, leave_result, queue_view, session_of, updated, GuildView,
};
use crate::error::PlayerError;
use crate::queue::page_count;
use crate::session::{page_of, SessionView, DEFAULT_VOLUME};
use crate::status::{lookup, page_failures, page_statuses, report_of, status_of};
use crate::track::{CurrentTrack, PendingTrack, TrackInfo, TrackLoop, TrackMode, TrackReport, TrackStatus};

verus! {

/// What each of a run of joins for guild `g`, to the channels in order,
/// answers.
pub open spec fn join_answers(m: Map<u64, GuildView>, g: u64, channels: Seq<u64>) -> Seq<Result<(), PlayerError>>
    decreases channels.len(),
{
    if channels.len() == 0 {
        Seq::empty()
    } else {
        seq![join_result(m, g, channels[0])] + join_answers(after_join(m, g, channels[0]), g, channels.drop_first())
    }
}

/// The guilds after a run of joins for guild `g`.
pub open spec fn after_joins(m: Map<u64, GuildView>, g: u64, channels: Seq<u64>) -> Map<u64, GuildView>
    decreases channels.len(),
{
    if channels.len() == 0 {
        m
    } else {
        after_joins(after_join(m, g, channels[0]), g, channels.drop_first())
    }
}

proof fn join_answers_len(m: Map<u64, GuildView>, g: u64, channels: Seq<u64>)
    ensures
        join_answers(m, g, channels).len() == channels.len(),
    decreases channels.len(),
{
    if channels.len() > 0 {
        join_answers_len(after_join(m, g, channels[0]), g, channels.drop_first());
    }
}

proof fn joins_refused_once_taken(m: Map<u64, GuildView>, g: u64, channels: Seq<u64>)
    requires
        m.contains_key(g),
        session_of(m, g) is None,
    ensures
        join_answers(m, g, channels).len() == channels.len(),
        forall|i: int| 0 <= i < channels.len() ==> #[trigger] join_answers(m, g, channels)[i]
            == Err::<(), PlayerError>(PlayerError::AlreadyConnected),
        after_joins(m, g, channels) == m,
    decreases channels.len(),
{
    if channels.len() > 0 {
        joins_refused_once_taken(m, g, channels.drop_first());
        let rest = join_answers(m, g, channels.drop_first());
        assert forall|i: int| 0 <= i < channels.len() implies #[trigger] join_answers(m, g, channels)[i]
            == Err::<(), PlayerError>(PlayerError::AlreadyConnected) by {
            if i > 0 {
                assert(join_answers(m, g, channels)[i] == rest[i - 1]);
            }
        }
    }
}

/// Joins for one guild exclude each other. Of any number of joins for a
/// guild that has nothing, the first is taken and every other one is
/// refused with `AlreadyConnected`; once the taken one connects, the guild
/// holds one fresh session, on the first join's channel, at full volume.
/// While a join, a move or a leave is on its way, every join is refused and
/// nothing changes. A live session refuses a join to its own channel; of
/// any number of joins whose first names another channel, the first moves
/// the session there, every other one is refused, and once the move
/// connects the guild holds the same session on the new channel.
pub proof fn join_is_exclusive(m: Map<u64, GuildView>, g: u64, channels: Seq<u64>)
    ensures
        join_answers(m, g, channels).len() == channels.len(),
        m.contains_key(g) && session_of(m, g) is None ==> {
            &&& forall|i: int| 0 <= i < channels.len() ==> #[trigger] join_answers(m, g, channels)[i]
                == Err::<(), PlayerError>(PlayerError::AlreadyConnected)
            &&& after_joins(m, g, channels) == m
        },
        !m.contains_key(g) && channels.len() > 0 ==> {
            let done = after_joins(m, g, channels);
            &&& join_answers(m, g, channels)[0] is Ok
            &&& forall|i: int| 1 <= i < channels.len() ==> #[trigger] join_answers(m, g, channels)[i]
                == Err::<(), PlayerError>(PlayerError::AlreadyConnected)
            &&& done == m.insert(g, GuildView::Joining(channels[0]))
            &&& session_of(join_finished(done, g, Ok(())), g) == Some(SessionView::fresh(channels[0]))
            &&& SessionView::fresh(channels[0]).default_volume == DEFAULT_VOLUME
        },
        session_of(m, g) is Some && channels.len() > 0 ==> {
            let s = session_of(m, g)->0;
            let done = after_joins(m, g, channels);
            &&& channels[0] == s.channel ==> join_answers(m, g, channels)[0]
                == Err::<(), PlayerError>(PlayerError::AlreadyConnected)
            &&& channels[0] != s.channel ==> {
                &&& join_answers(m, g, channels)[0] is Ok
                &&& forall|i: int| 1 <= i < channels.len() ==> #[trigger] join_answers(m, g, channels)[i]
                    == Err::<(), PlayerError>(PlayerError::AlreadyConnected)
                &&& session_of(join_finished(done, g, Ok(())), g) == Some(SessionView { channel: channels[0], ..s })
            }
        },
{
    join_answers_len(m, g, channels);
    if m.contains_key(g) && session_of(m, g) is None {
        joins_refused_once_taken(m, g, channels);
    } else if channels.len() > 0 {
        let m1 = after_join(m, g, channels[0]);
        if session_of(m1, g) is None {
            joins_refused_once_taken(m1, g, channels.drop_first());
            let rest = join_answers(m1, g, channels.drop_first());
            assert forall|i: int| 1 <= i < channels.len() implies #[trigger] join_answers(m, g, channels)[i]
                == Err::<(), PlayerError>(PlayerError::AlreadyConnected) by {
                assert(join_answers(m, g, channels)[i] == rest[i - 1]);
            }
        }
    } else {
        joins_refused_once_taken(m.insert(g, GuildView::Joining(0)), g, channels);
    }
}

/// A leave of a playing session takes it all away: while the connection is
/// torn down the guild answers `NotConnected`, a second leave is refused
/// with `NotConnected`, and once torn down nothing of the session remains,
/// not even its history, so that a later join starts from an empty queue,
/// no current track and full volume.
pub proof fn leave_clears_session(m: Map<u64, GuildView>, g: u64, channel: u64, rs: Seq<(u64, Result<TrackReport, String>)>)
    requires
        session_of(m, g) matches Some(s) && s.is_playing(),
    ensures
        leave_result(m, g) is Ok,
        ({
            let leaving = after_leave(m, g);
            let gone = leave_finished(leaving, g, Ok(()));
            &&& current_view(leaving, g, rs) == Err::<Result<TrackStatus, Seq<char>>, PlayerError>(PlayerError::NotConnected)
            &&& leave_result(leaving, g) == Err::<(), PlayerError>(PlayerError::NotConnected)
            &&& !gone.contains_key(g)
            &&& current_view(gone, g, rs) == Err::<Result<TrackStatus, Seq<char>>, PlayerError>(PlayerError::NotConnected)
            &&& history_view(gone, g, 1) == Err::<Seq<(usize, TrackInfo)>, PlayerError>(PlayerError::NoHistory)
            &&& session_of(join_finished(after_join(gone, g, channel), g, Ok(())), g)
                == Some(SessionView::fresh(channel))
        }),
{
}

/// Stopping is idempotent: a second stop answers as the first did (success
/// for a live session, `NotConnected` without one) and changes nothing more.
pub proof fn stop_is_idempotent(m: Map<u64, GuildView>, g: u64)
    ensures
        ({
            let once = updated(m, g, |s: SessionView| s.stop());
            &&& answered(once, g, |s: SessionView| Ok::<(), PlayerError>(()))
                == answered(m, g, |s: SessionView| Ok::<(), PlayerError>(()))
            &&& updated(once, g, |s: SessionView| s.stop()) == once
            &&& session_of(m, g) is Some ==> {
                &&& answered(m, g, |s: SessionView| Ok::<(), PlayerError>(())) is Ok
                &&& session_of(once, g) matches Some(t) && t.current is None && t.queue.len() == 0
            }
        }),
{
    if let Some(s) = session_of(m, g) {
        let once = updated(m, g, |s: SessionView| s.stop());
        assert(session_of(once, g) == Some(s.stop()));
        assert(s.stop().stop() =~= s.stop());
        assert(once.insert(g, GuildView::Connected(s.stop())) =~= once);
    }
}

/// Paging rejects page zero with `InvalidPage`, whatever the guild holds;
/// and for a live session every page of the queue past the last one that
/// holds an entry with `OutOfBounds`, whatever the queue holds.
pub proof fn paging_bounds(m: Map<u64, GuildView>, g: u64, page: int, rs: Seq<(u64, Result<TrackReport, String>)>)
    ensures
        queue_view(m, g, 0, rs) == Err::<(Seq<(usize, TrackStatus)>, Seq<(u64, Seq<char>)>), PlayerError>(PlayerError::InvalidPage),
        history_view(m, g, 0) == Err::<Seq<(usize, TrackInfo)>, PlayerError>(PlayerError::InvalidPage),
        session_of(m, g) is Some && page > 0 && page > page_count(session_of(m, g)->0.queue.len() as int) ==>
            queue_view(m, g, page, rs) == Err::<(Seq<(usize, TrackStatus)>, Seq<(u64, Seq<char>)>), PlayerError>(PlayerError::OutOfBounds),
{
}

/// A history page (from one on) of a guild without a live session, or with
/// an empty history, is refused with `NoHistory`.
pub proof fn history_absent(m: Map<u64, GuildView>, g: u64, page: int)
    requires
        page > 0,
        session_of(m, g) is None || session_of(m, g)->0.history.len() == 0,
    ensures
        history_view(m, g, page) == Err::<Seq<(usize, TrackInfo)>, PlayerError>(PlayerError::NoHistory),
{
}

/// Two tracks queued one after the other on an empty queue are listed in
/// that order, at positions zero and one, on the first page, each with the
/// status the transport reports for it.
pub proof fn enqueue_keeps_order(
    m: Map<u64, GuildView>,
    g: u64,
    a: u64,
    a_url: String,
    b: u64,
    b_url: String,
    rs: Seq<(u64, Result<TrackReport, String>)>,
)
    requires
        session_of(m, g) is Some,
        session_of(m, g)->0.queue.len() == 0,
        report_of(rs, a) is Some && report_of(rs, a)->0 is Ok,
        report_of(rs, b) is Some && report_of(rs, b)->0 is Ok,
    ensures
        ({
            let m2 = updated(updated(m, g, |s: SessionView| s.enqueue(a, a_url)), g, |s: SessionView| s.enqueue(b, b_url));
            queue_view(m2, g, 1, rs) == Ok::<(Seq<(usize, TrackStatus)>, Seq<(u64, Seq<char>)>), PlayerError>((seq![
                (0usize, status_of(a, a_url, report_of(rs, a)->0->Ok_0)),
                (1usize, status_of(b, b_url, report_of(rs, b)->0->Ok_0)),
            ], Seq::empty()))
        }),
{
    let s = session_of(m, g)->0;
    let s2 = s.enqueue(a, a_url).enqueue(b, b_url);
    let m1 = updated(m, g, |s: SessionView| s.enqueue(a, a_url));
    let m2 = updated(m1, g, |s: SessionView| s.enqueue(b, b_url));
    assert(session_of(m1, g) == Some(s.enqueue(a, a_url)));
    assert(session_of(m2, g) == Some(s2));
    assert(s2.queue.len() == 2);
    assert(page_count(2) == 1);
    let entries = page_of(s2.queue, 1)->Ok_0;
    assert(entries.len() == 2);
    let e1 = entries.drop_last();
    let e0 = e1.drop_last();
    assert(e0.len() == 0);
    assert(e1.last() == entries[0]);
    assert(entries.last() == entries[1]);
    assert(entries[0].1 == PendingTrack { id: a, url: a_url, volume: s.default_volume });
    assert(entries[1].1 == PendingTrack { id: b, url: b_url, volume: s.default_volume });
    assert(entries[0].0 == 0usize);
    assert(entries[1].0 == 1usize);
    let ta = status_of(a, a_url, report_of(rs, a)->0->Ok_0);
    let tb = status_of(b, b_url, report_of(rs, b)->0->Ok_0);
    assert(lookup(rs, a, a_url) == Ok::<TrackStatus, Seq<char>>(ta));
    assert(lookup(rs, b, b_url) == Ok::<TrackStatus, Seq<char>>(tb));
    assert(page_failures(rs, e0) == Seq::<(u64, Seq<char>)>::empty());
    assert(page_statuses(rs, e0) == Seq::<(usize, TrackStatus)>::empty());
    assert(page_failures(rs, e1) == Seq::<(u64, Seq<char>)>::empty());
    assert(page_statuses(rs, e1) == Seq::<(usize, TrackStatus)>::empty().push((0usize, ta)));
    assert(page_failures(rs, entries) == Seq::<(u64, Seq<char>)>::empty());
    assert(page_statuses(rs, entries) =~= seq![
        (0usize, status_of(a, a_url, report_of(rs, a)->0->Ok_0)),
        (1usize, status_of(b, b_url, report_of(rs, b)->0->Ok_0)),
    ]);
}

/// A volume change for the whole session reaches the default volume, the
/// current track and every queued track; a track queued afterwards takes
/// it on, and plays at it once it starts.
pub proof fn volume_is_inherited(s: SessionView, volume: u32, id: u64, url: String)
    ensures
        ({
            let set = s.set_volume(volume, false);
            let queued = set.enqueue(id, url);
            &&& set.default_volume == volume
            &&& set.current matches Some(c) ==> c.volume == volume
            &&& forall|i: int| 0 <= i < set.queue.len() ==> #[trigger] set.queue[i].volume == volume
            &&& queued.queue.last().volume == volume
            &&& (s.current is None && s.queue.len() == 0) ==> queued.play(None).current == Some(
                CurrentTrack { id, url, mode: TrackMode::Play, volume, loops: TrackLoop::Finite(0) },
            )
        }),
{
}

/// Every track that playback starts, on request or after the one before it
/// ended, plays at the session's default volume.
pub proof fn started_at_default_volume(s: SessionView, request: Option<(u64, String)>, id: u64)
    ensures
        s.current is None ==> (s.play(request).current matches Some(c) ==> c.volume == s.default_volume),
        s.finish_result(id) matches Some(t) ==> t.volume == s.default_volume,
{
}

} // verus!
