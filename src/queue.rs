use vstd::prelude::*;
use crate::error::{granted, PlayerError};
use crate::track::PendingTrack;
use rand::seq::SliceRandom;

verus! {

/// The queue after moving the element at `from` so that it stands just before
/// the elements that are at or after `to` once it has been taken out.
pub open spec fn slid<T>(q: Seq<T>, from: int, to: int) -> Seq<T> {
    q.remove(from).insert(to, q[from])
}

/// Moves `q[from]` to position `to`, keeping the order of all the others.
pub fn slide(q: &mut Vec<PendingTrack>, from: usize, to: usize) -> (r: Result<(), PlayerError>)
    ensures
        r == granted(from < old(q)@.len() && to < old(q)@.len(), PlayerError::OutOfBounds),
        r is Err ==> final(q)@ == old(q)@,
        r is Ok ==> final(q)@ == slid(old(q)@, from as int, to as int),
{
    if from >= q.len() || to >= q.len() {
        return Err(PlayerError::OutOfBounds);
    }
    let moved = q.remove(from);
    q.insert(to, moved);
    Ok(())
}

/// One end of a range of queue positions.
#[derive(Debug, Clone, Copy, PartialEq, Eq, Structural)]
pub enum RangeBound {
    Included(usize),
    Excluded(usize),
    Unbounded,
}

/// Which queued tracks to remove: one position, or a range of them.
#[derive(Debug, Clone, Copy)]
pub enum DropKind {
    Index(usize),
    Range((RangeBound, RangeBound)),
}

/// The first position a start bound takes in.
pub open spec fn range_start(b: RangeBound) -> int {
    match b {
        RangeBound::Included(s) => s as int,
        RangeBound::Excluded(s) => s + 1,
        RangeBound::Unbounded => 0,
    }
}

/// The position just past an end bound; an open end has none.
pub open spec fn range_end(b: RangeBound) -> Option<int> {
    match b {
        RangeBound::Included(e) => Some(e + 1),
        RangeBound::Excluded(e) => Some(e as int),
        RangeBound::Unbounded => None,
    }
}

/// A range can be removed from a queue of `len` elements: its end is
/// bounded, it does not run backwards, and it ends within the queue.
pub open spec fn range_fits(lo: RangeBound, hi: RangeBound, len: int) -> bool {
    &&& range_end(hi) is Some
    &&& range_start(lo) <= range_end(hi)->0 <= len
}

/// The queue without the positions in `[lo, hi)`.
pub open spec fn without_range<T>(q: Seq<T>, lo: int, hi: int) -> Seq<T> {
    q.subrange(0, lo) + q.subrange(hi, q.len() as int)
}

/// Removes the element at `index`.
pub fn drop_index(q: &mut Vec<PendingTrack>, index: usize) -> (r: Result<(), PlayerError>)
    ensures
        r == granted(index < old(q)@.len(), PlayerError::OutOfBounds),
        r is Err ==> final(q)@ == old(q)@,
        r is Ok ==> final(q)@ == old(q)@.remove(index as int),
{
    if index >= q.len() {
        return Err(PlayerError::OutOfBounds);
    }
    let _ = q.remove(index);
    Ok(())
}

/// Removes the elements whose positions lie between `lo` and `hi`. An open
/// end is refused: the queue may grow while the request is on its way.
pub fn drop_range(q: &mut Vec<PendingTrack>, lo: RangeBound, hi: RangeBound) -> (r: Result<(), PlayerError>)
    ensures
        r == granted(range_fits(lo, hi, old(q)@.len() as int), PlayerError::OutOfBounds),
        r is Err ==> final(q)@ == old(q)@,
        r is Ok ==> final(q)@ == without_range(old(q)@, range_start(lo), range_end(hi)->0),
{
    let len = q.len();
    let end: usize = match hi {
        RangeBound::Included(e) => {
            if e >= len {
                return Err(PlayerError::OutOfBounds);
            }
            e + 1
        },
        RangeBound::Excluded(e) => {
            if e > len {
                return Err(PlayerError::OutOfBounds);
            }
            e
        },
        RangeBound::Unbounded => {
            return Err(PlayerError::OutOfBounds);
        },
    };
    let start: usize = match lo {
        RangeBound::Included(s) => s,
        RangeBound::Excluded(s) => {
            if s >= end {
                return Err(PlayerError::OutOfBounds);
            }
            s + 1
        },
        RangeBound::Unbounded => 0,
    };
    if start > end {
        return Err(PlayerError::OutOfBounds);
    }
    let mut tail = q.split_off(end);
    q.truncate(start);
    q.append(&mut tail);
    Ok(())
}

/// Removes what `kind` selects.
pub fn drop_tracks(q: &mut Vec<PendingTrack>, kind: DropKind) -> (r: Result<(), PlayerError>)
    ensures
        r is Err ==> final(q)@ == old(q)@,
        match kind {
            DropKind::Index(i) => {
                &&& r == granted(i < old(q)@.len(), PlayerError::OutOfBounds)
                &&& r is Ok ==> final(q)@ == old(q)@.remove(i as int)
            },
            DropKind::Range((lo, hi)) => {
                &&& r == granted(range_fits(lo, hi, old(q)@.len() as int), PlayerError::OutOfBounds)
                &&& r is Ok ==> final(q)@ == without_range(old(q)@, range_start(lo), range_end(hi)->0)
            },
        },
{
    match kind {
        DropKind::Index(i) => drop_index(q, i),
        DropKind::Range((lo, hi)) => drop_range(q, lo, hi),
    }
}

/// Relies on `rand::seq::SliceRandom::shuffle` with `rand::thread_rng`: it
/// only swaps elements, so what the queue holds stays the same.
#[verifier::external_body]
fn shuffle_slice(q: &mut Vec<PendingTrack>)
    ensures
        final(q)@.len() == old(q)@.len(),
        final(q)@.to_multiset() == old(q)@.to_multiset(),
{
    q.as_mut_slice().shuffle(&mut rand::thread_rng())
}

/// Puts the queue in a random order.
pub fn shuffle(q: &mut Vec<PendingTrack>)
    ensures
        final(q)@.len() == old(q)@.len(),
        final(q)@.to_multiset() == old(q)@.to_multiset(),
{
    shuffle_slice(q)
}

/// How many entries a page of a status view holds.
pub const PAGE_SIZE: usize = 10;

/// How many pages `len` entries fill.
pub open spec fn page_count(len: int) -> int {
    (len + PAGE_SIZE - 1) / PAGE_SIZE as int
}

/// The positions `[start, end)` shown on page `page` (counted from one) of a
/// list of `len` entries.
pub fn page_bounds(len: usize, page: usize) -> (r: Result<(usize, usize), PlayerError>)
    ensures
        page == 0 ==> r == Err::<(usize, usize), PlayerError>(PlayerError::InvalidPage),
        page > 0 && page > page_count(len as int) ==> r == Err::<(usize, usize), PlayerError>(PlayerError::OutOfBounds),
        page > 0 && page <= page_count(len as int) ==> (r matches Ok((start, end)) && {
            &&& start == PAGE_SIZE * (page - 1)
            &&& end == if start + PAGE_SIZE <= len { start + PAGE_SIZE } else { len as int }
            &&& start < end <= len
        }),
{
    if page == 0 {
        return Err(PlayerError::InvalidPage);
    }
    let before: usize = page - 1;
    if before > len / PAGE_SIZE {
        assert(page > page_count(len as int)) by (nonlinear_arith)
            requires before == page - 1, before > len / 10, page_count(len as int) == (len + 9) / 10;
        return Err(PlayerError::OutOfBounds);
    }
    assert(before * 10 <= len) by (nonlinear_arith) requires before <= len / 10;
    let start: usize = before * PAGE_SIZE;
    if start >= len {
        assert(page > page_count(len as int)) by (nonlinear_arith)
            requires before == page - 1, before * 10 >= len, page_count(len as int) == (len + 9) / 10;
        return Err(PlayerError::OutOfBounds);
    }
    assert(page <= page_count(len as int)) by (nonlinear_arith)
        requires before == page - 1, before * 10 < len, page_count(len as int) == (len + 9) / 10;
    let end: usize = if len - start >= PAGE_SIZE { start + PAGE_SIZE } else { len };
    Ok((start, end))
}

} // verus!
