use netplay_rooms::errors::RoomError;
use netplay_rooms::ids::{ConnectionId, PlayerIndex};
use netplay_rooms::input_frame_acceptance::{InputFrameAcceptance, InputFrameLimits};
use netplay_rooms::input_frame_relay_buffer::InputFrame;
use netplay_rooms::invite_code::InviteCode;
use netplay_rooms::link_cable_room_state::LinkCableDescriptor;
use netplay_rooms::player_slot::ClientTransportCapabilities;
use netplay_rooms::room::NetplayRoom;
use netplay_rooms::room_connection_diagnostics::RoomStatus;
use netplay_rooms::room_frame_clock_ops::ServerFrame;
use netplay_rooms::room_scope::RoomScope;

const HOST: ConnectionId = ConnectionId(11);
const GUEST: ConnectionId = ConnectionId(22);
const HOST_INPUT: ConnectionId = ConnectionId(77);
const GUEST_INPUT: ConnectionId = ConnectionId(88);
const LIMITS: InputFrameLimits = InputFrameLimits { max_future_frame_distance: 10 };

fn room_with(link: Option<LinkCableDescriptor>, protocol_version: u16) -> NetplayRoom {
    NetplayRoom::new_with_protocol_and_resume(
        "host-subject".to_string(),
        HOST,
        InviteCode::parse("AB23CD").expect("code"),
        link,
        RoomScope::new(7).expect("scope"),
        3,
        protocol_version,
        "host-resume".to_string(),
        "host-input".to_string(),
        100,
    )
}

fn playing_room() -> NetplayRoom {
    let mut room = room_with(None, 5);
    room.join_guest_with_resume(
        "guest-subject".to_string(),
        GUEST,
        "guest-resume".to_string(),
        "guest-input".to_string(),
        200,
        ClientTransportCapabilities::default(),
    )
    .expect("guest joins");
    let (room_epoch, session_epoch) = (room.room_epoch, room.session_epoch);
    room.attach_input_socket(PlayerIndex::one(), room_epoch, session_epoch, "host-input", HOST_INPUT, 300)
        .expect("host input socket");
    room.attach_input_socket(PlayerIndex::two(), room_epoch, session_epoch, "guest-input", GUEST_INPUT, 300)
        .expect("guest input socket");
    room.status = RoomStatus::Playing;
    room
}

fn frame(player_index: PlayerIndex, frame: u64) -> InputFrame {
    InputFrame { frame, payload: vec![1, 2], player_index }
}

#[test]
fn input_is_refused_outside_play() {
    let mut room = playing_room();
    room.status = RoomStatus::CheckingCompatibility;
    assert_eq!(
        room.accept_input_frame(HOST_INPUT, &frame(PlayerIndex::one(), 0), LIMITS),
        Err(RoomError::NotPlaying)
    );
}

#[test]
fn input_is_refused_in_link_rooms() {
    let link = LinkCableDescriptor {
        system_family: "gba".to_string(),
        link_protocol: "gba-sio-multi-v1".to_string(),
        runtime_profile: "mgba-link-runtime-v1".to_string(),
        max_players: 2,
    };
    let mut room = room_with(Some(link), 5);
    room.status = RoomStatus::Playing;
    assert_eq!(
        room.accept_input_frame(HOST_INPUT, &frame(PlayerIndex::one(), 0), LIMITS),
        Err(RoomError::NotPlaying)
    );
}

#[test]
fn input_from_an_unknown_socket_is_refused() {
    let mut room = playing_room();
    assert_eq!(
        room.accept_input_frame(ConnectionId(99), &frame(PlayerIndex::one(), 0), LIMITS),
        Err(RoomError::UnknownConnection)
    );
    // A control connection is no input socket.
    assert_eq!(
        room.accept_input_frame(HOST, &frame(PlayerIndex::one(), 0), LIMITS),
        Err(RoomError::UnknownConnection)
    );
}

#[test]
fn input_for_another_slot_is_spoofing() {
    let mut room = playing_room();
    assert_eq!(
        room.accept_input_frame(GUEST_INPUT, &frame(PlayerIndex::one(), 0), LIMITS),
        Err(RoomError::SlotSpoofing(PlayerIndex::one()))
    );
}

#[test]
fn input_too_far_ahead_is_refused() {
    let mut room = playing_room();
    assert_eq!(
        room.accept_input_frame(HOST_INPUT, &frame(PlayerIndex::one(), 11), LIMITS),
        Err(RoomError::FutureFrameTooLarge)
    );
    assert_eq!(
        room.accept_input_frame(HOST_INPUT, &frame(PlayerIndex::one(), 10), LIMITS),
        Ok(InputFrameAcceptance::Relay)
    );
}

#[test]
fn accepted_frames_advance_the_cursor_and_repeats_are_dropped() {
    let mut room = playing_room();
    assert_eq!(
        room.accept_input_frame(GUEST_INPUT, &frame(PlayerIndex::two(), 3), LIMITS),
        Ok(InputFrameAcceptance::Relay)
    );
    assert_eq!(room.sync.last_input_frames.get(&1), Some(&3));
    assert_eq!(room.sync.next_input_frames.get(&1), Some(&4));
    assert_eq!(
        room.accept_input_frame(GUEST_INPUT, &frame(PlayerIndex::two(), 3), LIMITS),
        Ok(InputFrameAcceptance::Ignore)
    );
    assert_eq!(
        room.accept_input_frame(GUEST_INPUT, &frame(PlayerIndex::two(), 2), LIMITS),
        Ok(InputFrameAcceptance::Ignore)
    );
    assert_eq!(
        room.accept_input_frame(GUEST_INPUT, &frame(PlayerIndex::two(), 5), LIMITS),
        Ok(InputFrameAcceptance::Relay)
    );
    assert_eq!(room.sync.next_input_frames.get(&1), Some(&6));
    // The other player's cursor is untouched.
    assert_eq!(room.sync.next_input_frames.get(&0), None);
}

#[test]
fn paused_rooms_still_take_input() {
    let mut room = playing_room();
    room.status = RoomStatus::Paused;
    assert_eq!(
        room.accept_input_frame(HOST_INPUT, &frame(PlayerIndex::one(), 0), LIMITS),
        Ok(InputFrameAcceptance::Relay)
    );
}

#[test]
fn the_clock_waits_for_host_input() {
    let mut room = playing_room();
    assert_eq!(room.release_next_server_frame(), None);
    assert_eq!(
        room.accept_input_frame(GUEST_INPUT, &frame(PlayerIndex::two(), 0), LIMITS),
        Ok(InputFrameAcceptance::Relay)
    );
    assert_eq!(room.release_next_server_frame(), None);
    assert_eq!(
        room.accept_input_frame(HOST_INPUT, &frame(PlayerIndex::one(), 1), LIMITS),
        Ok(InputFrameAcceptance::Relay)
    );
    let (room_epoch, session_epoch) = (room.room_epoch, room.session_epoch);
    assert_eq!(
        room.release_next_server_frame(),
        Some(ServerFrame { room_epoch, session_epoch, frame: 0, canonical_frame: 0 })
    );
    assert_eq!(
        room.release_next_server_frame(),
        Some(ServerFrame { room_epoch, session_epoch, frame: 1, canonical_frame: 1 })
    );
    assert_eq!(room.sync.released_frame, Some(1));
    assert_eq!(room.sync.next_release_frame, 2);
    assert_eq!(room.release_next_server_frame(), None);
}

#[test]
fn the_clock_only_runs_while_playing() {
    let mut room = playing_room();
    assert_eq!(
        room.accept_input_frame(HOST_INPUT, &frame(PlayerIndex::one(), 0), LIMITS),
        Ok(InputFrameAcceptance::Relay)
    );
    room.status = RoomStatus::Paused;
    assert_eq!(room.release_next_server_frame(), None);
    assert_eq!(room.sync.released_frame, None);
}

#[test]
fn strict_controller_input_needs_protocol_five_and_a_controller_room() {
    assert!(room_with(None, 5).uses_strict_controller_input());
    assert!(!room_with(None, 4).uses_strict_controller_input());
    let link = LinkCableDescriptor {
        system_family: "gba".to_string(),
        link_protocol: "gba-sio-multi-v1".to_string(),
        runtime_profile: "mgba-link-runtime-v1".to_string(),
        max_players: 2,
    };
    assert!(!room_with(Some(link), 5).uses_strict_controller_input());
}
