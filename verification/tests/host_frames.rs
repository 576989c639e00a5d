use netplay_rooms::errors::RoomError;
use netplay_rooms::ids::{ConnectionId, PlayerIndex};
use netplay_rooms::input_frame_acceptance::{InputFrameAcceptance, InputFrameLimits};
use netplay_rooms::input_frame_relay_buffer::InputFrame;
use netplay_rooms::invite_code::InviteCode;
use netplay_rooms::player_slot::{ClientTransportCapabilities, PlayerStatus};
use netplay_rooms::room::{NetplayRoom, ScheduledSessionStart};
use netplay_rooms::room_connection_diagnostics::RoomStatus;
use netplay_rooms::room_host_frame_ops::{
    AcceptedInputCursor, HostFrameOpen, HostFrameOpenOutcome, ServerFrameReleaseV5,
};
use netplay_rooms::room_scope::RoomScope;

const HOST: ConnectionId = ConnectionId(11);
const GUEST: ConnectionId = ConnectionId(22);
const HOST_INPUT: ConnectionId = ConnectionId(77);
const GUEST_INPUT: ConnectionId = ConnectionId(88);
const LIMITS: InputFrameLimits = InputFrameLimits { max_future_frame_distance: 10 };

fn joined_room(protocol_version: u16) -> NetplayRoom {
    let mut room = NetplayRoom::new_with_protocol_and_resume(
        "host-subject".to_string(),
        HOST,
        InviteCode::parse("AB23CD").expect("code"),
        None,
        RoomScope::new(7).expect("scope"),
        3,
        protocol_version,
        "host-resume".to_string(),
        "host-input".to_string(),
        100,
    );
    room.join_guest_with_resume(
        "guest-subject".to_string(),
        GUEST,
        "guest-resume".to_string(),
        "guest-input".to_string(),
        200,
        ClientTransportCapabilities::default(),
    )
    .expect("guest joins");
    let (room_epoch, session_epoch) = (room.room_epoch, room.session_epoch);
    room.attach_input_socket(PlayerIndex::one(), room_epoch, session_epoch, "host-input", HOST_INPUT, 300)
        .expect("host input socket");
    room.attach_input_socket(PlayerIndex::two(), room_epoch, session_epoch, "guest-input", GUEST_INPUT, 300)
        .expect("guest input socket");
    room
}

fn open(room: &NetplayRoom, frame: u64) -> HostFrameOpen {
    HostFrameOpen { room_epoch: room.room_epoch, session_epoch: room.session_epoch, frame }
}

#[test]
fn only_the_host_input_socket_of_a_strict_room_opens_frames() {
    let legacy = joined_room(4);
    let mut legacy = legacy;
    let frame = open(&legacy, 0);
    assert_eq!(legacy.accept_host_frame_open(HOST_INPUT, frame, 0), Err(RoomError::InvalidPayload));

    let mut room = joined_room(5);
    room.status = RoomStatus::Playing;
    let frame = open(&room, 0);
    assert_eq!(room.accept_host_frame_open(ConnectionId(99), frame, 0), Err(RoomError::UnknownConnection));
    assert_eq!(room.accept_host_frame_open(GUEST_INPUT, frame, 0), Err(RoomError::HostOnly));
}

#[test]
fn playing_rooms_release_covered_host_frames_once() {
    let mut room = joined_room(5);
    room.status = RoomStatus::Playing;
    let frame = open(&room, 0);
    assert_eq!(room.accept_host_frame_open(HOST_INPUT, frame, 0), Err(RoomError::OutOfOrderFrame));

    assert_eq!(
        room.accept_input_frame(HOST_INPUT, &InputFrame { frame: 0, payload: vec![1], player_index: PlayerIndex::one() }, LIMITS),
        Ok(InputFrameAcceptance::Relay)
    );
    let expected = ServerFrameReleaseV5 {
        room_epoch: room.room_epoch,
        session_epoch: room.session_epoch,
        released_frame: 0,
        next_host_frame: 1,
        accepted_inputs: vec![
            AcceptedInputCursor { player_index: PlayerIndex::one(), next_expected_frame: 1 },
            AcceptedInputCursor { player_index: PlayerIndex::two(), next_expected_frame: 0 },
        ],
    };
    assert_eq!(room.accept_host_frame_open(HOST_INPUT, frame, 0), Ok(HostFrameOpenOutcome::Released(expected.clone())));
    assert_eq!(room.sync.released_frame, Some(0));
    assert_eq!(room.sync.next_release_frame, 1);
    assert_eq!(room.accept_host_frame_open(HOST_INPUT, frame, 5), Ok(HostFrameOpenOutcome::Duplicate(expected.clone())));
    assert_eq!(room.accept_host_frame_open(HOST_INPUT, open(&room, 3), 5), Err(RoomError::OutOfOrderFrame));
    let stale = HostFrameOpen { room_epoch: room.room_epoch - 1, session_epoch: room.session_epoch, frame: 9 };
    assert_eq!(room.accept_host_frame_open(HOST_INPUT, stale, 5), Ok(HostFrameOpenOutcome::Duplicate(expected)));
}

#[test]
fn transition_boundaries_ignore_opens() {
    let mut room = joined_room(5);
    room.status = RoomStatus::RepairingState;
    let frame = open(&room, 0);
    assert_eq!(room.accept_host_frame_open(HOST_INPUT, frame, 0), Ok(HostFrameOpenOutcome::IgnoredTransitionBoundary));
    room.status = RoomStatus::CheckingCompatibility;
    assert_eq!(room.accept_host_frame_open(HOST_INPUT, frame, 0), Ok(HostFrameOpenOutcome::IgnoredTransitionBoundary));
}

#[test]
fn a_scheduled_first_frame_waits_for_its_server_time() {
    let mut room = joined_room(5);
    room.status = RoomStatus::StartScheduled;
    room.sync.next_input_frames.insert(0, 1);
    let frame = open(&room, 0);
    assert_eq!(room.accept_host_frame_open(HOST_INPUT, frame, 500), Err(RoomError::RoomNotReady));
    room.sync.scheduled_start = Some(ScheduledSessionStart { start_frame: 0, server_time_ms: 1_000 });
    assert_eq!(
        room.accept_host_frame_open(HOST_INPUT, frame, 500),
        Ok(HostFrameOpenOutcome::Pending { delay_ms: 500 })
    );
    assert_eq!(room.sync.pending_host_frame_open, Some(0));
    assert_eq!(room.release_due_v5_host_frame(999), None);
    let released = room.release_due_v5_host_frame(1_000).expect("due release");
    assert_eq!(released.released_frame, 0);
    assert_eq!(released.next_host_frame, 1);
    assert_eq!(room.status(), RoomStatus::Playing);
    assert_eq!(room.players[0].status, PlayerStatus::Playing);
    assert_eq!(room.players[1].status, PlayerStatus::Playing);
    assert_eq!(room.sync.pending_host_frame_open, None);
    assert_eq!(room.release_due_v5_host_frame(2_000), None);
}

#[test]
fn a_scheduled_first_frame_past_its_time_releases_at_once() {
    let mut room = joined_room(5);
    room.status = RoomStatus::StartScheduled;
    room.sync.next_input_frames.insert(0, 1);
    room.sync.scheduled_start = Some(ScheduledSessionStart { start_frame: 0, server_time_ms: 1_000 });
    let frame = open(&room, 0);
    match room.accept_host_frame_open(HOST_INPUT, frame, 1_200) {
        Ok(HostFrameOpenOutcome::Released(release)) => assert_eq!(release.released_frame, 0),
        other => panic!("unexpected {other:?}"),
    }
    assert_eq!(room.status(), RoomStatus::Playing);
}
