use netplay_rooms::clock::{Clock, SystemClock};
use netplay_rooms::ids::{ConnectionId, PlayerIndex, RoomId};
use netplay_rooms::room_debug_event::{current_timestamp_ms, timestamp_or_zero};

#[test]
fn room_ids_are_random_version_four_uuids() {
    let first = RoomId::new();
    let second = RoomId::new();
    assert_ne!(first, second);
    let uuid = first.as_uuid();
    assert_eq!(uuid.as_u128(), first.0);
    assert_eq!(uuid.get_version_num(), 4);
}

#[test]
fn connection_ids_are_distinct() {
    let first = ConnectionId::new();
    let second = ConnectionId::new();
    assert!(!first.same(&second));
    assert!(first.same(&first));
}

#[test]
fn player_indexes_number_slots_from_one_for_display() {
    assert_eq!(PlayerIndex::one().zero_based(), 0);
    assert_eq!(PlayerIndex::two().display_number(), 2);
    assert_eq!(PlayerIndex::new(1, 2), Some(PlayerIndex::two()));
    assert_eq!(PlayerIndex::new(2, 2), None);
}

#[test]
fn clocks_move_forward() {
    let clock = SystemClock::new();
    let first = clock.now();
    let second = clock.now();
    assert!(second >= first);
    assert!(current_timestamp_ms() > 1_600_000_000_000);
}

#[test]
fn timestamps_before_the_epoch_read_as_zero() {
    assert_eq!(timestamp_or_zero(Some(1_700_000_000_123)), 1_700_000_000_123);
    assert_eq!(timestamp_or_zero(None), 0);
}
