use netplay_rooms::fast_input_relay_buffer::{FastInputFrame, FastInputRelayBuffer};
use netplay_rooms::ids::{ConnectionId, PlayerIndex};
use netplay_rooms::input_frame_relay_buffer::{InputFrame, InputFrameRelayBuffer};

fn fast_frame(room_epoch: u64, session_epoch: u64, frame: u64) -> FastInputFrame {
    FastInputFrame {
        room_epoch,
        session_epoch,
        player_index: PlayerIndex::one(),
        frame,
        payload: vec![0],
    }
}

fn input(player_index: PlayerIndex, frame: u64) -> InputFrame {
    InputFrame {
        frame,
        payload: vec![0],
        player_index,
    }
}

#[test]
fn drains_only_active_epoch_records() {
    let source = ConnectionId::new();
    let active = fast_frame(7, 9, 2);
    let stale = fast_frame(6, 9, 2);
    let mut buffer = FastInputRelayBuffer::default();

    buffer.push(source, active.clone());
    buffer.push(source, stale);

    let drained = buffer.drain_frame(2, 7, 9);

    assert_eq!(drained.len(), 1);
    assert_eq!(drained[0].frame, active);
}

#[test]
fn fast_records_drain_once_and_in_arrival_order() {
    let first = ConnectionId(1);
    let second = ConnectionId(2);
    let mut buffer = FastInputRelayBuffer::new();
    buffer.push(first, fast_frame(7, 9, 4));
    buffer.push(second, fast_frame(7, 9, 4));
    buffer.push(first, fast_frame(7, 9, 5));
    assert!(buffer.drain_frame(3, 7, 9).is_empty());
    let drained = buffer.drain_frame(4, 7, 9);
    assert_eq!(drained.len(), 2);
    assert_eq!(drained[0].source, first);
    assert_eq!(drained[1].source, second);
    assert!(buffer.drain_frame(4, 7, 9).is_empty());
    assert_eq!(buffer.drain_frame(5, 7, 8).len(), 0);
}

#[test]
fn drains_only_released_frame() {
    let mut buffer = InputFrameRelayBuffer::default();
    let source = ConnectionId::new();

    buffer.push(source, input(PlayerIndex::one(), 2));
    buffer.push(source, input(PlayerIndex::one(), 3));

    assert!(buffer.drain_frame(1, 7, 9).is_empty());

    let drained = buffer.drain_frame(2, 7, 9);

    assert_eq!(drained.len(), 1);
    assert_eq!(drained[0].batch.frames[0].frame, 2);
    assert_eq!(drained[0].batch.room_epoch, 7);
    assert_eq!(drained[0].batch.session_epoch, 9);
    assert_eq!(buffer.drain_frame(3, 7, 9)[0].batch.frames[0].frame, 3);
}

#[test]
fn released_input_is_grouped_by_socket_and_player() {
    let mut buffer = InputFrameRelayBuffer::new();
    let host = ConnectionId(1);
    let guest = ConnectionId(2);
    buffer.push(host, input(PlayerIndex::one(), 6));
    buffer.push(guest, input(PlayerIndex::two(), 6));
    buffer.push(host, input(PlayerIndex::one(), 6));
    let drained = buffer.drain_frame(6, 3, 4);
    assert_eq!(drained.len(), 2);
    assert_eq!(drained[0].source, host);
    assert_eq!(drained[0].batch.player_index, PlayerIndex::one());
    assert_eq!(drained[0].batch.frames.len(), 2);
    assert_eq!(drained[1].source, guest);
    assert_eq!(drained[1].batch.frames.len(), 1);

    buffer.push(host, input(PlayerIndex::one(), 7));
    buffer.clear();
    assert!(buffer.drain_frame(7, 3, 4).is_empty());
}
