//! Track status as the voice transport reports it, matched to the tracks
//! that the library holds.

use vstd::prelude::*;
use crate::error::PlayerError;
use crate::track::{PendingTrack, TrackReport, TrackStatus};

verus! {

/// The report given for track `id`: the first one under that id.
pub open spec fn report_of(rs: Seq<(u64, Result<TrackReport, String>)>, id: u64) -> Option<Result<TrackReport, String>>
    decreases rs.len(),
{
    if rs.len() == 0 {
        None
    } else if rs[0].0 == id {
        Some(rs[0].1)
    } else {
        report_of(rs.drop_first(), id)
    }
}

/// The failure of a track for which no report was given.
pub open spec fn unreported() -> Seq<char> {
    "no status reported"@
}

/// A track's status from its id, its source and the transport's report.
pub open spec fn status_of(id: u64, url: String, r: TrackReport) -> TrackStatus {
    TrackStatus {
        id,
        url,
        mode: r.mode,
        volume: r.volume,
        position_ms: r.position_ms,
        total_ms: r.total_ms,
        loops: r.loops,
    }
}

/// The status of track `id`, or the text of why it has none.
pub open spec fn lookup(rs: Seq<(u64, Result<TrackReport, String>)>, id: u64, url: String) -> Result<TrackStatus, Seq<char>> {
    match report_of(rs, id) {
        Some(Ok(r)) => Ok(status_of(id, url, r)),
        Some(Err(e)) => Err(e@),
        None => Err(unreported()),
    }
}

/// The statuses of the entries whose lookup succeeded, in order.
pub open spec fn page_statuses(rs: Seq<(u64, Result<TrackReport, String>)>, entries: Seq<(usize, PendingTrack)>) -> Seq<(usize, TrackStatus)>
    decreases entries.len(),
{
    if entries.len() == 0 {
        Seq::empty()
    } else {
        let rest = page_statuses(rs, entries.drop_last());
        let (i, p) = entries.last();
        match lookup(rs, p.id, p.url) {
            Ok(t) => rest.push((i, t)),
            Err(_) => rest,
        }
    }
}

/// The failures among the lookups of the entries, in order, each with its
/// track's id.
pub open spec fn page_failures(rs: Seq<(u64, Result<TrackReport, String>)>, entries: Seq<(usize, PendingTrack)>) -> Seq<(u64, Seq<char>)>
    decreases entries.len(),
{
    if entries.len() == 0 {
        Seq::empty()
    } else {
        let rest = page_failures(rs, entries.drop_last());
        let (_, p) = entries.last();
        match lookup(rs, p.id, p.url) {
            Ok(_) => rest,
            Err(m) => rest.push((p.id, m)),
        }
    }
}

/// A page as the view shows it: every status that resolved, in order, and
/// beside them the failures of the lookups that did not. A failed lookup
/// does not fail the page.
pub open spec fn resolve_page(rs: Seq<(u64, Result<TrackReport, String>)>, entries: Seq<(usize, PendingTrack)>) -> (Seq<(usize, TrackStatus)>, Seq<(u64, Seq<char>)>) {
    (page_statuses(rs, entries), page_failures(rs, entries))
}

/// The failures with the text of each message.
pub open spec fn messages(v: Seq<(u64, String)>) -> Seq<(u64, Seq<char>)> {
    v.map_values(|f: (u64, String)| (f.0, f.1@))
}

/// An executable answer holds what a status answer says: a status, a
/// failure of the view, or the transport's failure for the track.
pub open spec fn holds_status(r: Result<TrackStatus, PlayerError>, s: Result<Result<TrackStatus, Seq<char>>, PlayerError>) -> bool {
    match s {
        Ok(Ok(t)) => r == Ok::<TrackStatus, PlayerError>(t),
        Ok(Err(m)) => r matches Err(PlayerError::TransportError(x)) && x@ == m,
        Err(e) => r == Err::<TrackStatus, PlayerError>(e),
    }
}

/// An executable page holds what a page answer says: the statuses that
/// resolved with the gathered failures beside them, or a failure of the view.
pub open spec fn holds_status_page(
    r: Result<(Vec<(usize, TrackStatus)>, Vec<(u64, String)>), PlayerError>,
    s: Result<(Seq<(usize, TrackStatus)>, Seq<(u64, Seq<char>)>), PlayerError>,
) -> bool {
    match s {
        Ok((v, f)) => r matches Ok((x, y)) && x@ == v && messages(y@) == f,
        Err(e) => r == Err::<(Vec<(usize, TrackStatus)>, Vec<(u64, String)>), PlayerError>(e),
    }
}

/// The report given for track `id`.
pub fn find_report(rs: &Vec<(u64, Result<TrackReport, String>)>, id: u64) -> (r: Option<Result<TrackReport, String>>)
    ensures
        r == report_of(rs@, id),
{
    let mut i: usize = 0;
    assert(rs@.subrange(0, rs@.len() as int) =~= rs@);
    while i < rs.len()
        invariant
            0 <= i <= rs@.len(),
            report_of(rs@, id) == report_of(rs@.subrange(i as int, rs@.len() as int), id),
        decreases rs@.len() - i,
    {
        let ghost rest = rs@.subrange(i as int, rs@.len() as int);
        assert(rest.drop_first() =~= rs@.subrange(i + 1, rs@.len() as int));
        assert(rest[0] == rs@[i as int]);
        if rs[i].0 == id {
            return match &rs[i].1 {
                Ok(rep) => Some(Ok(*rep)),
                Err(e) => Some(Err(e.clone())),
            };
        }
        i += 1;
    }
    None
}

/// The status of track `id` with source `url`, or why it has none.
pub fn lookup_status(rs: &Vec<(u64, Result<TrackReport, String>)>, id: u64, url: &String) -> (r: Result<TrackStatus, String>)
    ensures
        match lookup(rs@, id, *url) {
            Ok(t) => r == Ok::<TrackStatus, String>(t),
            Err(m) => r matches Err(x) && x@ == m,
        },
{
    match find_report(rs, id) {
        Some(Ok(rep)) => Ok(TrackStatus {
            id,
            url: url.clone(),
            mode: rep.mode,
            volume: rep.volume,
            position_ms: rep.position_ms,
            total_ms: rep.total_ms,
            loops: rep.loops,
        }),
        Some(Err(e)) => Err(e),
        None => {
            let m = String::from_str("no status reported");
            proof {
                reveal_strlit("no status reported");
            }
            Err(m)
        },
    }
}

} // verus!
