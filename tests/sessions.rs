use vcall::command::{CallAction, CallActionKind};
use vcall::connection::{Connector, GetCurrentStatus, GetHistoryStatus, GetQueueStatus};
use vcall::error::{aggregate, PlayerError};
use vcall::gateway::MessageRef;
use vcall::queue::{DropKind, RangeBound};
use vcall::session::PlayOutcome;
use vcall::track::{TrackLoop, TrackMode, TrackReport};

const G: u64 = 7;

fn report() -> TrackReport {
    TrackReport { mode: TrackMode::Pause, volume: 100, position_ms: 1500, total_ms: 3000, loops: TrackLoop::Finite(0) }
}

fn reports() -> Vec<(u64, Result<TrackReport, String>)> {
    (0..100).map(|id| (id, Ok(report()))).collect()
}

fn joined() -> Connector {
    let mut c = Connector::new();
    assert_eq!(c.begin_join(G, 3), Ok(()));
    assert_eq!(c.finish_join(G, Ok(())), Ok(()));
    c
}

fn queued_urls(c: &Connector) -> Vec<String> {
    let mut out = Vec::new();
    let mut page = 1;
    while let Ok(q) = c.queue_status(GetQueueStatus { guild: G, page }, &reports()) {
        out.extend(q.tracks.into_iter().map(|(_, t)| t.url));
        page += 1;
    }
    out
}

fn with_queue(names: &[&str]) -> Connector {
    let mut c = joined();
    for (i, n) in names.iter().enumerate() {
        assert_eq!(c.enqueue(G, i as u64, n.to_string()), Ok(i));
    }
    c
}

#[test]
fn second_join_is_refused() {
    let mut c = Connector::new();
    assert_eq!(c.begin_join(G, 3), Ok(()));
    assert_eq!(c.begin_join(G, 3), Err(PlayerError::AlreadyConnected));
    assert_eq!(c.begin_join(G, 4), Err(PlayerError::AlreadyConnected));
    assert_eq!(c.finish_join(G, Ok(())), Ok(()));
    assert_eq!(c.begin_join(G, 3), Err(PlayerError::AlreadyConnected));
    assert!(c.is_connected(G));
    assert!(!c.is_connected(G + 1));
    assert_eq!(c.begin_join(G + 1, 3), Ok(()));
}

#[test]
fn failed_join_leaves_nothing() {
    let mut c = Connector::new();
    assert_eq!(c.begin_join(G, 3), Ok(()));
    assert_eq!(c.finish_join(G, Err("refused".to_string())), Err(PlayerError::TransportError("refused".to_string())));
    assert!(!c.is_connected(G));
    assert_eq!(c.finish_join(G, Ok(())), Err(PlayerError::NotConnected));
    assert_eq!(c.begin_join(G, 3), Ok(()));
}

#[test]
fn leave_without_session() {
    let mut c = Connector::new();
    assert_eq!(c.begin_leave(G), Err(PlayerError::NotConnected));
    assert_eq!(c.finish_leave(G, Ok(())), Err(PlayerError::NotConnected));
    assert_eq!(c.begin_join(G, 3), Ok(()));
    assert_eq!(c.begin_leave(G), Err(PlayerError::NotConnected));
}

#[test]
fn enqueue_then_list_in_order() {
    let mut c = joined();
    assert_eq!(c.enqueue(G, 1, "A".to_string()), Ok(0));
    assert_eq!(c.enqueue(G, 2, "B".to_string()), Ok(1));
    let q = c.queue_status(GetQueueStatus { guild: G, page: 1 }, &reports()).unwrap();
    let listed: Vec<(usize, String)> = q.tracks.iter().map(|(i, t)| (*i, t.url.clone())).collect();
    assert_eq!(listed, vec![(0, "A".to_string()), (1, "B".to_string())]);
    assert_eq!(q.tracks[0].1.mode, TrackMode::Pause);
    assert_eq!(q.tracks[0].1.volume, 100);
}

#[test]
fn enqueue_needs_session() {
    let mut c = Connector::new();
    assert_eq!(c.enqueue(G, 1, "A".to_string()), Err(PlayerError::NotConnected));
}

#[test]
fn slide_through_registry() {
    let mut c = with_queue(&["A", "B", "C", "D"]);
    assert_eq!(c.slide(G, 2, 0), Ok(()));
    assert_eq!(queued_urls(&c), vec!["C", "A", "B", "D"]);
    assert_eq!(c.slide(G, 4, 0), Err(PlayerError::OutOfBounds));
}

#[test]
fn drop_through_registry() {
    let mut c = with_queue(&["A", "B", "C"]);
    assert_eq!(c.drop(G, DropKind::Index(1)), Ok(()));
    assert_eq!(queued_urls(&c), vec!["A", "C"]);
    let mut c = with_queue(&["A", "B", "C", "D"]);
    let r = DropKind::Range((RangeBound::Included(1), RangeBound::Excluded(3)));
    assert_eq!(c.drop(G, r), Ok(()));
    assert_eq!(queued_urls(&c), vec!["A", "D"]);
}

#[test]
fn handle_serves_call_actions() {
    let mut c = Connector::new();
    let from = MessageRef { message: 1, channel: 2 };
    let join = CallAction { kind: CallActionKind::Join { channel: 3 }, from, guild: G };
    assert_eq!(c.handle(&join), Ok(()));
    assert_eq!(c.handle(&join), Err(PlayerError::AlreadyConnected));
    assert_eq!(c.finish_join(G, Ok(())), Ok(()));
    c.enqueue(G, 0, "A".to_string()).unwrap();
    c.enqueue(G, 1, "B".to_string()).unwrap();
    let slide = CallAction { kind: CallActionKind::Slide { from: 1, to: 0 }, from, guild: G };
    assert_eq!(c.handle(&slide), Ok(()));
    assert_eq!(queued_urls(&c), vec!["B", "A"]);
    let fix = CallAction { kind: CallActionKind::Fix, from, guild: G + 1 };
    assert_eq!(c.handle(&fix), Ok(()));
    let stop = CallAction { kind: CallActionKind::Stop, from, guild: G };
    assert_eq!(c.handle(&stop), Ok(()));
    assert!(queued_urls(&c).is_empty());
    let leave = CallAction { kind: CallActionKind::Leave, from, guild: G };
    assert_eq!(c.handle(&leave), Ok(()));
    assert_eq!(c.handle(&leave), Err(PlayerError::NotConnected));
}

#[test]
fn play_with_empty_queue() {
    let mut c = joined();
    assert_eq!(c.play(G, None), Err(PlayerError::QueueEmpty));
}

#[test]
fn play_starts_head_then_queues() {
    let mut c = with_queue(&["A", "B"]);
    match c.play(G, None) {
        Ok(PlayOutcome::Started(t)) => {
            assert_eq!(t.url, "A");
            assert_eq!(t.id, 0);
            assert_eq!(t.mode, TrackMode::Play);
            assert_eq!(t.volume, 100);
        },
        other => panic!("unexpected {:?}", other),
    }
    assert_eq!(queued_urls(&c), vec!["B"]);
    assert_eq!(c.play(G, Some((9, "C".to_string()))), Ok(PlayOutcome::Queued(1)));
    assert_eq!(c.play(G, None), Ok(PlayOutcome::AlreadyActive));
    assert_eq!(queued_urls(&c), vec!["B", "C"]);
}

#[test]
fn play_with_url_on_idle_session() {
    let mut c = joined();
    match c.play(G, Some((5, "X".to_string()))) {
        Ok(PlayOutcome::Started(t)) => assert_eq!((t.id, t.url.as_str()), (5, "X")),
        other => panic!("unexpected {:?}", other),
    }
    assert!(queued_urls(&c).is_empty());
}

#[test]
fn pause_and_resume() {
    let mut c = with_queue(&["A"]);
    assert_eq!(c.pause(G), Err(PlayerError::NotPlaying));
    assert_eq!(c.resume(G), Err(PlayerError::NotPlaying));
    c.play(G, None).unwrap();
    assert_eq!(c.resume(G), Err(PlayerError::NotPlaying));
    assert_eq!(c.pause(G), Ok(()));
    assert_eq!(c.current_track(G).unwrap().mode, TrackMode::Pause);
    assert_eq!(c.pause(G), Err(PlayerError::NotPlaying));
    assert_eq!(c.resume(G), Ok(()));
    assert_eq!(c.current_track(G).unwrap().mode, TrackMode::Play);
}

#[test]
fn loop_toggles() {
    let mut c = with_queue(&["A"]);
    assert_eq!(c.toggle_loop(G), Err(PlayerError::NotPlaying));
    c.play(G, None).unwrap();
    assert_eq!(c.toggle_loop(G), Ok(TrackLoop::Infinite));
    assert_eq!(c.current_track(G).unwrap().loops, TrackLoop::Infinite);
    assert_eq!(c.toggle_loop(G), Ok(TrackLoop::Finite(0)));
}

#[test]
fn volume_reaches_default_current_and_queue() {
    let mut c = with_queue(&["A", "B", "C"]);
    c.play(G, None).unwrap();
    assert_eq!(c.set_volume(G, 50, false), Ok(vec![0, 1, 2]));
    assert_eq!(c.current_track(G).unwrap().volume, 50);
    c.enqueue(G, 9, "D".to_string()).unwrap();
    assert_eq!(c.finish_track(G, 0).unwrap().unwrap().volume, 50);
    assert_eq!(c.stop(G), Ok(()));
    c.enqueue(G, 10, "E".to_string()).unwrap();
    match c.play(G, None) {
        Ok(PlayOutcome::Started(t)) => assert_eq!(t.volume, 50),
        other => panic!("unexpected {:?}", other),
    }
}

#[test]
fn volume_of_current_only() {
    let mut c = with_queue(&["A", "B"]);
    assert_eq!(c.set_volume(G, 30, true), Err(PlayerError::NotPlaying));
    c.play(G, None).unwrap();
    assert_eq!(c.set_volume(G, 30, true), Ok(vec![0]));
    assert_eq!(c.current_track(G).unwrap().volume, 30);
    assert_eq!(c.finish_track(G, 0).unwrap().unwrap().volume, 100);
    assert_eq!(c.set_volume(G + 1, 30, true), Err(PlayerError::NotConnected));
}

#[test]
fn leave_while_playing_clears_all() {
    let mut c = with_queue(&["A", "B"]);
    c.play(G, None).unwrap();
    assert_eq!(c.begin_leave(G), Ok(()));
    assert_eq!(c.current_status(GetCurrentStatus { guild: G }, &reports()).err(), Some(PlayerError::NotConnected));
    assert_eq!(c.begin_leave(G), Err(PlayerError::NotConnected));
    assert_eq!(c.begin_join(G, 3), Err(PlayerError::AlreadyConnected));
    assert_eq!(c.finish_leave(G, Ok(())), Ok(()));
    assert_eq!(c.current_status(GetCurrentStatus { guild: G }, &reports()).err(), Some(PlayerError::NotConnected));
    assert_eq!(c.queue_status(GetQueueStatus { guild: G, page: 1 }, &reports()).err(), Some(PlayerError::NotConnected));
    c.begin_join(G, 3).unwrap();
    c.finish_join(G, Ok(())).unwrap();
    assert_eq!(c.current_status(GetCurrentStatus { guild: G }, &reports()).err(), Some(PlayerError::NotPlaying));
    assert_eq!(c.queue_status(GetQueueStatus { guild: G, page: 1 }, &reports()).err(), Some(PlayerError::OutOfBounds));
}

#[test]
fn failed_leave_restores_session() {
    let mut c = with_queue(&["A"]);
    assert_eq!(c.begin_leave(G), Ok(()));
    assert_eq!(c.finish_leave(G, Err("gone".to_string())), Err(PlayerError::TransportError("gone".to_string())));
    assert!(c.is_connected(G));
    assert_eq!(queued_urls(&c), vec!["A"]);
}

#[test]
fn queue_pages() {
    let names: Vec<String> = (0..23).map(|i| format!("t{}", i)).collect();
    let refs: Vec<&str> = names.iter().map(|s| s.as_str()).collect();
    let c = with_queue(&refs);
    assert_eq!(c.queue_status(GetQueueStatus { guild: G, page: 0 }, &reports()).err(), Some(PlayerError::InvalidPage));
    let p3 = c.queue_status(GetQueueStatus { guild: G, page: 3 }, &reports()).unwrap();
    let idx: Vec<usize> = p3.tracks.iter().map(|(i, _)| *i).collect();
    assert_eq!(idx, vec![20, 21, 22]);
    assert_eq!(p3.tracks[0].1.url, "t20");
    assert_eq!(c.queue_status(GetQueueStatus { guild: G, page: 1 }, &reports()).unwrap().tracks.len(), 10);
    assert_eq!(c.queue_status(GetQueueStatus { guild: G, page: 4 }, &reports()).err(), Some(PlayerError::OutOfBounds));
}

#[test]
fn empty_queue_pages() {
    let c = joined();
    assert_eq!(c.queue_status(GetQueueStatus { guild: G, page: 0 }, &reports()).err(), Some(PlayerError::InvalidPage));
    assert_eq!(c.queue_status(GetQueueStatus { guild: G, page: 1 }, &reports()).err(), Some(PlayerError::OutOfBounds));
}

#[test]
fn stop_twice_succeeds() {
    let mut c = with_queue(&["A", "B"]);
    c.play(G, None).unwrap();
    assert_eq!(c.stop(G), Ok(()));
    assert_eq!(c.stop(G), Ok(()));
    assert_eq!(c.current_status(GetCurrentStatus { guild: G }, &reports()).err(), Some(PlayerError::NotPlaying));
    assert!(queued_urls(&c).is_empty());
    let h = c.history_status(GetHistoryStatus { guild: G, page: 1 }).unwrap();
    assert_eq!(h.history.len(), 1);
    assert_eq!(h.history[0].1.url, "A");
}

#[test]
fn track_end_advances_and_archives() {
    let mut c = with_queue(&["A", "B"]);
    assert_eq!(c.history_status(GetHistoryStatus { guild: G, page: 1 }).err(), Some(PlayerError::NoHistory));
    c.play(G, None).unwrap();
    assert_eq!(c.finish_track(G, 99), Ok(None));
    let next = c.finish_track(G, 0).unwrap().unwrap();
    assert_eq!((next.id, next.url.as_str(), next.volume), (1, "B", 100));
    assert_eq!(c.finish_track(G, 1), Ok(None));
    assert_eq!(c.current_status(GetCurrentStatus { guild: G }, &reports()).err(), Some(PlayerError::NotPlaying));
    let h = c.history_status(GetHistoryStatus { guild: G, page: 1 }).unwrap();
    let urls: Vec<(usize, String)> = h.history.into_iter().map(|(i, t)| (i, t.url)).collect();
    assert_eq!(urls, vec![(0, "A".to_string()), (1, "B".to_string())]);
    assert_eq!(c.history_status(GetHistoryStatus { guild: G, page: 0 }).err(), Some(PlayerError::InvalidPage));
    assert_eq!(c.history_status(GetHistoryStatus { guild: G, page: 2 }).err(), Some(PlayerError::OutOfBounds));
    assert_eq!(c.finish_track(G + 1, 1), Err(PlayerError::NotConnected));
}

#[test]
fn shuffle_keeps_queue() {
    let mut c = with_queue(&["A", "B", "C", "D", "E"]);
    assert_eq!(c.shuffle(G), Ok(()));
    let mut urls = queued_urls(&c);
    urls.sort();
    assert_eq!(urls, vec!["A", "B", "C", "D", "E"]);
    assert_eq!(c.shuffle(G + 1), Err(PlayerError::NotConnected));
}

#[test]
fn fix_always_succeeds() {
    let c = Connector::new();
    assert_eq!(c.fix(G), Ok(()));
}

#[test]
fn aggregate_collects_failures() {
    assert_eq!(aggregate(vec![(1, Ok(())), (2, Ok(()))]), Ok(()));
    assert_eq!(aggregate(vec![]), Ok(()));
    let r = aggregate(vec![(1, Err("x".to_string())), (2, Ok(())), (3, Err("y".to_string()))]);
    assert_eq!(r, Err(PlayerError::AggregateError(vec![(1, "x".to_string()), (3, "y".to_string())])));
}

#[test]
fn status_comes_from_reports() {
    let mut c = with_queue(&["A", "B"]);
    c.play(G, None).unwrap();
    let rep = TrackReport { mode: TrackMode::Play, volume: 80, position_ms: 12_000, total_ms: 12_500, loops: TrackLoop::Infinite };
    let cur = c.current_status(GetCurrentStatus { guild: G }, &vec![(5, Ok(report())), (0, Ok(rep))]).unwrap().current_track;
    assert_eq!((cur.id, cur.url.as_str()), (0, "A"));
    assert_eq!((cur.mode, cur.volume, cur.position_ms, cur.total_ms, cur.loops), (TrackMode::Play, 80, 12_000, 12_500, TrackLoop::Infinite));
    let q = c.queue_status(GetQueueStatus { guild: G, page: 1 }, &reports()).unwrap();
    assert_eq!(q.tracks.len(), 1);
    assert_eq!((q.tracks[0].0, q.tracks[0].1.url.as_str(), q.tracks[0].1.position_ms, q.tracks[0].1.total_ms), (0, "B", 1500, 3000));
}

#[test]
fn current_status_reports_transport_failure() {
    let mut c = with_queue(&["A"]);
    c.play(G, None).unwrap();
    let r = c.current_status(GetCurrentStatus { guild: G }, &vec![(0, Err("finished".to_string()))]);
    assert_eq!(r.err(), Some(PlayerError::TransportError("finished".to_string())));
    let r = c.current_status(GetCurrentStatus { guild: G }, &vec![]);
    assert_eq!(r.err(), Some(PlayerError::TransportError("no status reported".to_string())));
}

#[test]
fn queue_status_gathers_failures() {
    let c = with_queue(&["A", "B", "C", "D"]);
    let rs = vec![(0, Ok(report())), (1, Err("gone".to_string())), (2, Ok(report()))];
    let q = c.queue_status(GetQueueStatus { guild: G, page: 1 }, &rs).unwrap();
    let listed: Vec<(usize, String)> = q.tracks.iter().map(|(i, t)| (*i, t.url.clone())).collect();
    assert_eq!(listed, vec![(0, "A".to_string()), (2, "C".to_string())]);
    assert_eq!(q.failures, vec![(1, "gone".to_string()), (3, "no status reported".to_string())]);
    let q = c.queue_status(GetQueueStatus { guild: G, page: 1 }, &reports()).unwrap();
    assert_eq!(q.tracks.len(), 4);
    assert!(q.failures.is_empty());
}

#[test]
fn page_zero_refused_first() {
    let c = Connector::new();
    assert_eq!(c.queue_status(GetQueueStatus { guild: G, page: 0 }, &reports()).err(), Some(PlayerError::InvalidPage));
    assert_eq!(c.history_status(GetHistoryStatus { guild: G, page: 0 }).err(), Some(PlayerError::InvalidPage));
    assert_eq!(c.queue_status(GetQueueStatus { guild: G, page: 1 }, &reports()).err(), Some(PlayerError::NotConnected));
}

#[test]
fn history_of_guild_without_session() {
    let mut c = with_queue(&["A"]);
    c.play(G, None).unwrap();
    c.stop(G).unwrap();
    assert_eq!(c.history_status(GetHistoryStatus { guild: G, page: 1 }).unwrap().history.len(), 1);
    c.begin_leave(G).unwrap();
    c.finish_leave(G, Ok(())).unwrap();
    assert_eq!(c.history_status(GetHistoryStatus { guild: G, page: 1 }).err(), Some(PlayerError::NoHistory));
    assert_eq!(c.history_status(GetHistoryStatus { guild: G + 1, page: 2 }).err(), Some(PlayerError::NoHistory));
}

#[test]
fn join_to_other_channel_moves_session() {
    let mut c = with_queue(&["A", "B"]);
    c.play(G, None).unwrap();
    assert_eq!(c.begin_join(G, 3), Err(PlayerError::AlreadyConnected));
    assert_eq!(c.begin_join(G, 4), Ok(()));
    assert_eq!(c.begin_join(G, 5), Err(PlayerError::AlreadyConnected));
    assert_eq!(c.enqueue(G, 9, "C".to_string()), Err(PlayerError::NotConnected));
    assert_eq!(c.begin_leave(G), Err(PlayerError::NotConnected));
    assert_eq!(c.finish_join(G, Ok(())), Ok(()));
    assert_eq!(queued_urls(&c), vec!["B"]);
    assert_eq!(c.current_track(G).unwrap().url, "A");
    assert_eq!(c.begin_join(G, 4), Err(PlayerError::AlreadyConnected));
    assert_eq!(c.begin_join(G, 3), Ok(()));
}

#[test]
fn failed_move_keeps_session() {
    let mut c = with_queue(&["A"]);
    assert_eq!(c.begin_join(G, 4), Ok(()));
    assert_eq!(c.finish_join(G, Err("no route".to_string())), Err(PlayerError::TransportError("no route".to_string())));
    assert!(c.is_connected(G));
    assert_eq!(queued_urls(&c), vec!["A"]);
    assert_eq!(c.begin_join(G, 3), Err(PlayerError::AlreadyConnected));
}
