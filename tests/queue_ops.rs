use vcall::error::PlayerError;
use vcall::queue::{drop_tracks, page_bounds, shuffle, slide, DropKind, RangeBound};
use vcall::track::PendingTrack;

fn tracks(names: &[&str]) -> Vec<PendingTrack> {
    names
        .iter()
        .enumerate()
        .map(|(i, n)| PendingTrack { id: i as u64, url: n.to_string(), volume: 100 })
        .collect()
}

fn urls(q: &[PendingTrack]) -> Vec<String> {
    q.iter().map(|t| t.url.clone()).collect()
}

#[test]
fn slide_moves_before_target() {
    let mut q = tracks(&["A", "B", "C", "D"]);
    assert_eq!(slide(&mut q, 2, 0), Ok(()));
    assert_eq!(urls(&q), vec!["C", "A", "B", "D"]);
}

#[test]
fn slide_to_last_position() {
    let mut q = tracks(&["A", "B", "C", "D"]);
    assert_eq!(slide(&mut q, 0, 3), Ok(()));
    assert_eq!(urls(&q), vec!["B", "C", "D", "A"]);
}

#[test]
fn slide_out_of_bounds_leaves_queue() {
    let mut q = tracks(&["A", "B"]);
    assert_eq!(slide(&mut q, 2, 0), Err(PlayerError::OutOfBounds));
    assert_eq!(slide(&mut q, 0, 2), Err(PlayerError::OutOfBounds));
    assert_eq!(urls(&q), vec!["A", "B"]);
}

#[test]
fn drop_single_index() {
    let mut q = tracks(&["A", "B", "C"]);
    assert_eq!(drop_tracks(&mut q, DropKind::Index(1)), Ok(()));
    assert_eq!(urls(&q), vec!["A", "C"]);
    assert_eq!(drop_tracks(&mut q, DropKind::Index(2)), Err(PlayerError::OutOfBounds));
}

#[test]
fn drop_half_open_range() {
    let mut q = tracks(&["A", "B", "C", "D"]);
    let r = DropKind::Range((RangeBound::Included(1), RangeBound::Excluded(3)));
    assert_eq!(drop_tracks(&mut q, r), Ok(()));
    assert_eq!(urls(&q), vec!["A", "D"]);
}

#[test]
fn drop_closed_range_and_open_start() {
    let mut q = tracks(&["A", "B", "C", "D"]);
    let r = DropKind::Range((RangeBound::Unbounded, RangeBound::Included(1)));
    assert_eq!(drop_tracks(&mut q, r), Ok(()));
    assert_eq!(urls(&q), vec!["C", "D"]);
    let mut q = tracks(&["A", "B", "C", "D"]);
    let r = DropKind::Range((RangeBound::Excluded(0), RangeBound::Included(3)));
    assert_eq!(drop_tracks(&mut q, r), Ok(()));
    assert_eq!(urls(&q), vec!["A"]);
}

#[test]
fn drop_open_end_is_refused() {
    let mut q = tracks(&["A", "B", "C"]);
    let r = DropKind::Range((RangeBound::Included(0), RangeBound::Unbounded));
    assert_eq!(drop_tracks(&mut q, r), Err(PlayerError::OutOfBounds));
    assert_eq!(urls(&q), vec!["A", "B", "C"]);
}

#[test]
fn drop_range_past_end_or_backwards_is_refused() {
    let mut q = tracks(&["A", "B", "C"]);
    let past = DropKind::Range((RangeBound::Included(1), RangeBound::Excluded(4)));
    assert_eq!(drop_tracks(&mut q, past), Err(PlayerError::OutOfBounds));
    let past_incl = DropKind::Range((RangeBound::Included(1), RangeBound::Included(3)));
    assert_eq!(drop_tracks(&mut q, past_incl), Err(PlayerError::OutOfBounds));
    let backwards = DropKind::Range((RangeBound::Included(2), RangeBound::Excluded(1)));
    assert_eq!(drop_tracks(&mut q, backwards), Err(PlayerError::OutOfBounds));
    let huge = DropKind::Range((RangeBound::Excluded(usize::MAX), RangeBound::Included(usize::MAX)));
    assert_eq!(drop_tracks(&mut q, huge), Err(PlayerError::OutOfBounds));
    assert_eq!(urls(&q), vec!["A", "B", "C"]);
}

#[test]
fn drop_empty_range_keeps_queue() {
    let mut q = tracks(&["A", "B"]);
    let r = DropKind::Range((RangeBound::Included(1), RangeBound::Excluded(1)));
    assert_eq!(drop_tracks(&mut q, r), Ok(()));
    assert_eq!(urls(&q), vec!["A", "B"]);
}

#[test]
fn shuffle_keeps_every_track() {
    let names: Vec<String> = (0..50).map(|i| format!("t{}", i)).collect();
    let refs: Vec<&str> = names.iter().map(|s| s.as_str()).collect();
    let mut q = tracks(&refs);
    shuffle(&mut q);
    assert_eq!(q.len(), 50);
    let mut ids: Vec<u64> = q.iter().map(|t| t.id).collect();
    ids.sort();
    assert_eq!(ids, (0..50).collect::<Vec<u64>>());
}

#[test]
fn page_bounds_values() {
    assert_eq!(page_bounds(25, 0), Err(PlayerError::InvalidPage));
    assert_eq!(page_bounds(25, 1), Ok((0, 10)));
    assert_eq!(page_bounds(25, 3), Ok((20, 25)));
    assert_eq!(page_bounds(25, 4), Err(PlayerError::OutOfBounds));
    assert_eq!(page_bounds(20, 2), Ok((10, 20)));
    assert_eq!(page_bounds(20, 3), Err(PlayerError::OutOfBounds));
    assert_eq!(page_bounds(0, 1), Err(PlayerError::OutOfBounds));
    assert_eq!(page_bounds(5, usize::MAX), Err(PlayerError::OutOfBounds));
}
