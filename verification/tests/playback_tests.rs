use auric::app::playback::{check_track_ended, next_track, prev_track, EndAction, Queue};
use auric::config::RepeatMode;
use uuid::Uuid;

#[test]
fn next_in_an_empty_queue() {
    assert_eq!(next_track(0, 0, None), None);
    assert_eq!(next_track(0, 5, Some(17)), None);
    assert_eq!(prev_track(0, 0), None);
}

#[test]
fn next_wraps_around() {
    assert_eq!(next_track(3, 0, None), Some(1));
    assert_eq!(next_track(3, 1, None), Some(2));
    assert_eq!(next_track(3, 2, None), Some(0));
    assert_eq!(next_track(1, 0, None), Some(0));
    assert_eq!(next_track(3, 7, None), Some(2));
    assert_eq!(next_track(5, usize::MAX, None), Some(((usize::MAX as u128 + 1) % 5) as usize));
}

#[test]
fn shuffled_next_follows_the_draw() {
    assert_eq!(next_track(4, 0, Some(0)), Some(0));
    assert_eq!(next_track(4, 0, Some(6)), Some(2));
    assert_eq!(next_track(4, 3, Some(7)), Some(3));
    assert_eq!(next_track(10, 3, Some(u64::MAX)), Some((u64::MAX % 10) as usize));
}

#[test]
fn prev_wraps_around() {
    assert_eq!(prev_track(3, 2), Some(1));
    assert_eq!(prev_track(3, 1), Some(0));
    assert_eq!(prev_track(3, 0), Some(2));
    assert_eq!(prev_track(1, 0), Some(0));
}

#[test]
fn next_then_prev_returns() {
    for len in 1..6usize {
        for pos in 0..len {
            let next = next_track(len, pos, None).unwrap();
            assert!(next < len);
            assert_eq!(prev_track(len, next), Some(pos));
        }
    }
}

#[test]
fn end_of_track() {
    assert_eq!(check_track_ended(RepeatMode::One, 0, 3), EndAction::Replay);
    assert_eq!(check_track_ended(RepeatMode::One, 2, 3), EndAction::Replay);
    assert_eq!(check_track_ended(RepeatMode::All, 0, 3), EndAction::Advance);
    assert_eq!(check_track_ended(RepeatMode::All, 2, 3), EndAction::Advance);
    assert_eq!(check_track_ended(RepeatMode::All, 0, 0), EndAction::Advance);
    assert_eq!(check_track_ended(RepeatMode::Off, 0, 3), EndAction::Advance);
    assert_eq!(check_track_ended(RepeatMode::Off, 1, 3), EndAction::Advance);
    assert_eq!(check_track_ended(RepeatMode::Off, 2, 3), EndAction::Stop);
    assert_eq!(check_track_ended(RepeatMode::Off, 0, 0), EndAction::Stop);
    assert_eq!(check_track_ended(RepeatMode::Off, usize::MAX, 3), EndAction::Stop);
}

fn ids(ns: &[u128]) -> Vec<Uuid> {
    ns.iter().map(|n| Uuid::from_u128(*n)).collect()
}

#[test]
fn removal_before_the_playing_place_moves_it() {
    let mut queue = Queue { ids: ids(&[1, 2, 3, 4]), position: 2 };
    assert!(queue.handle_track_removal(&Uuid::from_u128(1)));
    assert_eq!(queue.ids, ids(&[2, 3, 4]));
    assert_eq!(queue.position, 1);
}

#[test]
fn removal_at_or_after_the_playing_place_leaves_it() {
    let mut queue = Queue { ids: ids(&[1, 2, 3, 4]), position: 2 };
    assert!(queue.handle_track_removal(&Uuid::from_u128(3)));
    assert_eq!(queue.ids, ids(&[1, 2, 4]));
    assert_eq!(queue.position, 2);
    assert!(queue.handle_track_removal(&Uuid::from_u128(4)));
    assert_eq!(queue.ids, ids(&[1, 2]));
    assert_eq!(queue.position, 2);
}

#[test]
fn removal_takes_the_first_occurrence_only() {
    let mut queue = Queue { ids: ids(&[5, 6, 5]), position: 0 };
    assert!(queue.handle_track_removal(&Uuid::from_u128(5)));
    assert_eq!(queue.ids, ids(&[6, 5]));
    assert_eq!(queue.position, 0);
}

#[test]
fn removal_of_an_unqueued_track_changes_nothing() {
    let mut queue = Queue { ids: ids(&[1, 2]), position: 1 };
    assert!(!queue.handle_track_removal(&Uuid::from_u128(9)));
    assert_eq!(queue.ids, ids(&[1, 2]));
    assert_eq!(queue.position, 1);
    let mut empty = Queue { ids: Vec::new(), position: 0 };
    assert!(!empty.handle_track_removal(&Uuid::from_u128(9)));
}
