use netplay_rooms::errors::RoomError;
use netplay_rooms::ids::{ConnectionId, PlayerIndex};
use netplay_rooms::invite_code::InviteCode;
use netplay_rooms::link_cable_data_plane::{LinkCableDataPlaneStatus, Wakeup};
use netplay_rooms::link_cable_room_state::{LinkCableCompatibility, LinkCableDescriptor, LinkCableMode};
use netplay_rooms::player_slot::{
    ClientNetworkQualityReport, ClientRuntimeState, ClientTransportCapabilities, PlayerRole, PlayerRuntimeState, PlayerStatus,
};
use netplay_rooms::room::{GameplaySession, NetplayRoom, LEGACY_NETPLAY_PROTOCOL_VERSION};
use netplay_rooms::room_connection_diagnostics::RoomStatus;
use netplay_rooms::room_connection_ops::PlayerReconnectRequest;
use netplay_rooms::room_scope::RoomScope;
use netplay_rooms::recovery_config::RoomRecoveryConfig;

const HOST: ConnectionId = ConnectionId(11);
const GUEST: ConnectionId = ConnectionId(22);
const JOIN_TIMEOUT_MS: u64 = 600_000;

fn controller_room() -> NetplayRoom {
    NetplayRoom::new_with_protocol_and_resume(
        "host-subject".to_string(),
        HOST,
        InviteCode::parse("AB23CD").expect("code"),
        None,
        RoomScope::new(7).expect("scope"),
        3,
        5,
        "host-resume".to_string(),
        "host-input".to_string(),
        100,
    )
}

fn link_descriptor() -> LinkCableDescriptor {
    LinkCableDescriptor {
        system_family: "gba".to_string(),
        link_protocol: "gba-sio-multi-v1".to_string(),
        runtime_profile: "mgba-link-runtime-v1".to_string(),
        max_players: 2,
    }
}

fn link_room() -> NetplayRoom {
    NetplayRoom::new_with_protocol_and_resume(
        "host-subject".to_string(),
        HOST,
        InviteCode::parse("AB23CD").expect("code"),
        Some(link_descriptor()),
        RoomScope::new(7).expect("scope"),
        3,
        5,
        "host-resume".to_string(),
        "host-input".to_string(),
        100,
    )
}

fn link_compatibility(core_build_id: &str) -> LinkCableCompatibility {
    LinkCableCompatibility {
        protocol_version: 5,
        system_family: "gba".to_string(),
        link_protocol: "gba-sio-multi-v1".to_string(),
        runtime_profile: "mgba-link-runtime-v1".to_string(),
        core_build_id: core_build_id.to_string(),
        supported_modes: vec![LinkCableMode::Multi],
    }
}

fn join(room: &mut NetplayRoom) -> PlayerIndex {
    room.join_guest_with_resume(
        "guest-subject".to_string(),
        GUEST,
        "guest-resume".to_string(),
        "guest-input".to_string(),
        200,
        ClientTransportCapabilities::default(),
    )
    .expect("guest joins")
}

fn reconnect<'a>(token: &'a str, room_epoch: u64, connection_id: ConnectionId, now: u64) -> PlayerReconnectRequest<'a> {
    PlayerReconnectRequest {
        player_index: PlayerIndex::two(),
        resume_token_hash: token,
        next_resume_token_hash: "guest-resume-2".to_string(),
        input_socket_token_hash: "guest-input-2".to_string(),
        room_epoch,
        connection_id,
        now,
        capabilities: ClientTransportCapabilities::default(),
    }
}

#[test]
fn new_room_reserves_the_host_slot() {
    let room = controller_room();
    assert_eq!(room.status(), RoomStatus::WaitingForGuest);
    assert_eq!(room.max_players(), 2);
    assert_eq!(room.protocol_version(), 5);
    assert_eq!(room.room_epoch, 1);
    assert_eq!(room.session_epoch, 1);
    assert_eq!(room.players[0].role, PlayerRole::Host);
    assert_eq!(room.players[0].connection_id, Some(HOST));
    assert_eq!(room.players[0].last_seen_at, Some(100));
    assert_eq!(room.players[1].status, PlayerStatus::Empty);
    assert_eq!(room.player_index_for_connection(HOST), Some(PlayerIndex::one()));
    assert!(!room.is_link_cable());
}

#[test]
fn legacy_constructor_uses_the_legacy_protocol() {
    let room = NetplayRoom::new_with_resume(
        "host-subject".to_string(),
        HOST,
        InviteCode::parse("AB23CD").expect("code"),
        None,
        RoomScope::new(7).expect("scope"),
        3,
        String::new(),
        String::new(),
        0,
    );
    assert_eq!(room.protocol_version(), LEGACY_NETPLAY_PROTOCOL_VERSION);
}

#[test]
fn guest_join_restarts_compatibility_and_fills_the_room() {
    let mut room = controller_room();
    assert_eq!(join(&mut room), PlayerIndex::two());
    assert_eq!(room.status(), RoomStatus::CheckingCompatibility);
    assert_eq!(room.room_epoch, 2);
    assert_eq!(room.session_epoch, 2);
    assert_eq!(room.players[1].status, PlayerStatus::Connected);
    assert_eq!(room.players[1].subject_key.as_deref(), Some("guest-subject"));
    assert_eq!(room.connected_player_indices(), vec![PlayerIndex::one(), PlayerIndex::two()]);
    assert_eq!(
        room.join_guest("third".to_string(), ConnectionId(33), 300),
        Err(RoomError::RoomFull)
    );
}

#[test]
fn guest_disconnect_before_play_frees_the_slot() {
    let mut room = controller_room();
    join(&mut room);
    assert_eq!(room.disconnect(GUEST, 300), Ok(false));
    assert_eq!(room.status(), RoomStatus::WaitingForGuest);
    assert_eq!(room.players[1].status, PlayerStatus::Empty);
    assert_eq!(room.players[1].subject_key, None);
    assert_eq!(room.disconnect(GUEST, 300), Err(RoomError::UnknownConnection));
}

#[test]
fn host_disconnect_before_play_closes_the_room() {
    let mut room = controller_room();
    assert_eq!(room.disconnect(HOST, 300), Ok(true));
    assert_eq!(room.status(), RoomStatus::Closed);
    assert_eq!(room.players[0].status, PlayerStatus::Disconnected);
    assert_eq!(
        room.join_guest("guest".to_string(), GUEST, 400),
        Err(RoomError::RoomClosed)
    );
}

#[test]
fn host_reattach_checks_the_subject() {
    let mut room = controller_room();
    assert_eq!(
        room.attach_host(&"someone-else".to_string(), ConnectionId(44), 300),
        Err(RoomError::HostSubjectMismatch)
    );
    assert_eq!(
        room.attach_host(&"host-subject".to_string(), ConnectionId(44), 300),
        Ok(PlayerIndex::one())
    );
    assert_eq!(room.players[0].connection_id, Some(ConnectionId(44)));
    assert_eq!(room.players[0].input_socket_control_connection_id, Some(ConnectionId(44)));
    assert_eq!(room.players[0].resume_token_hash.as_deref(), Some(""));
}

#[test]
fn dropped_player_recovers_with_its_resume_token() {
    let mut room = controller_room();
    join(&mut room);
    room.status = RoomStatus::Playing;
    let epoch_before = room.room_epoch;

    assert_eq!(room.disconnect_with_recovery(GUEST, 1_000, 5_000), Ok(false));
    assert_eq!(room.status(), RoomStatus::Recovering);
    assert_eq!(room.room_epoch, epoch_before + 1);
    assert_eq!(room.players[1].status, PlayerStatus::Reconnecting);
    assert_eq!(room.players[1].reconnect_deadline, Some(6_000));
    assert_eq!(room.players[1].reconnect_room_epoch, Some(epoch_before));
    assert_eq!(room.players[1].connection_id, None);
    assert!(!room.is_recovery_expired(5_999));
    assert!(room.is_recovery_expired(6_000));

    let fresh = ConnectionId(55);
    assert_eq!(
        room.reconnect_player(reconnect("wrong", epoch_before, fresh, 2_000)),
        Err(RoomError::ResumeTokenInvalid)
    );
    assert_eq!(
        room.reconnect_player(reconnect("guest-resume", epoch_before - 1, fresh, 2_000)),
        Err(RoomError::StaleRoomEpoch)
    );
    assert_eq!(room.reconnect_player(reconnect("guest-resume", epoch_before, fresh, 2_000)), Ok(()));
    assert_eq!(room.status(), RoomStatus::CheckingCompatibility);
    assert_eq!(room.players[1].connection_id, Some(fresh));
    assert_eq!(room.players[1].status, PlayerStatus::Connected);
    assert_eq!(room.players[1].resume_token_hash.as_deref(), Some("guest-resume-2"));
    assert_eq!(room.players[1].reconnect_deadline, None);
    assert_eq!(
        room.reconnect_player(reconnect("guest-resume", epoch_before, ConnectionId(66), 2_500)),
        Err(RoomError::ResumeTokenInvalid)
    );
}

#[test]
fn reconnect_after_the_grace_period_expires_the_slot() {
    let mut room = controller_room();
    join(&mut room);
    room.status = RoomStatus::Playing;
    let epoch_before = room.room_epoch;
    assert_eq!(room.disconnect_with_recovery(GUEST, 1_000, 5_000), Ok(false));
    assert_eq!(
        room.reconnect_player(reconnect("guest-resume", epoch_before, ConnectionId(55), 6_000)),
        Err(RoomError::RecoveryExpired)
    );
    assert_eq!(room.players[1].status, PlayerStatus::RecoveryExpired);
    assert_eq!(room.players[1].runtime_state, PlayerRuntimeState::RecoveryExpired);
}

#[test]
fn heartbeats_update_liveness_and_stale_marks() {
    let mut room = controller_room();
    join(&mut room);
    assert_eq!(
        room.record_heartbeat(ConnectionId(99), 500, None, None, ClientRuntimeState::Playing),
        Err(RoomError::UnknownConnection)
    );
    assert_eq!(
        room.record_heartbeat(GUEST, 500, Some(42), None, ClientRuntimeState::Playing),
        Ok(())
    );
    assert_eq!(room.players[1].last_seen_at, Some(500));
    assert_eq!(room.players[1].latest_local_frame, Some(42));
    assert_eq!(room.players[1].latest_local_frame_reported_at, Some(500));
    assert_eq!(room.players[1].runtime_state, PlayerRuntimeState::Playing);

    assert!(!room.mark_stale_connections(10_000, 5_000, 15_000));
    room.status = RoomStatus::Playing;
    assert!(room.mark_stale_connections(6_000, 5_000, 15_000));
    assert_eq!(room.players[0].runtime_state, PlayerRuntimeState::Stale);
    assert_eq!(room.players[1].runtime_state, PlayerRuntimeState::Stale);
    assert!(!room.mark_stale_connections(6_000, 5_000, 15_000));
}

#[test]
fn heartbeat_timeouts_enter_recovery() {
    let mut room = controller_room();
    join(&mut room);
    room.status = RoomStatus::Playing;
    assert_eq!(
        room.record_heartbeat(HOST, 19_000, None, None, ClientRuntimeState::Playing),
        Ok(())
    );
    let epoch_before = room.room_epoch;
    assert!(!room.recover_stale_connections(10_000, 15_000, 30_000));
    assert!(room.recover_stale_connections(20_000, 15_000, 30_000));
    assert_eq!(room.status(), RoomStatus::Recovering);
    assert_eq!(room.room_epoch, epoch_before + 1);
    assert_eq!(room.players[0].connection_id, Some(HOST));
    assert_eq!(room.players[1].connection_id, None);
    assert_eq!(room.players[1].status, PlayerStatus::Reconnecting);
    assert_eq!(room.players[1].reconnect_deadline, Some(50_000));
    assert_eq!(room.players[1].reconnect_room_epoch, Some(epoch_before));
    assert!(!room.recover_stale_connections(20_000, 15_000, 30_000));
}

#[test]
fn idle_rooms_are_detected_only_when_nobody_is_connected() {
    let mut room = controller_room();
    assert!(!room.is_idle_disconnected(1_000_000, 1_000));
    assert_eq!(room.disconnect(HOST, 500), Ok(true));
    assert!(!room.is_idle_disconnected(1_000, 1_000));
    assert!(room.is_idle_disconnected(1_500, 1_000));
}

#[test]
fn player_exit_closes_the_room_for_everyone() {
    let mut room = controller_room();
    join(&mut room);
    assert_eq!(room.player_exited(ConnectionId(99), 700), Err(RoomError::UnknownConnection));
    assert_eq!(room.player_exited(GUEST, 700), Ok(PlayerIndex::two()));
    assert_eq!(room.status(), RoomStatus::Closed);
    for slot in &room.players {
        assert_eq!(slot.status, PlayerStatus::Disconnected);
        assert_eq!(slot.connection_id, None);
        assert_eq!(slot.last_seen_at, Some(700));
    }
}

#[test]
fn runner_handoff_preserves_then_expires_a_guest_slot() {
    let mut room = controller_room();
    join(&mut room);
    assert_eq!(room.arm_runner_handoff(ConnectionId(99), 1_000, 500), Err(RoomError::UnknownConnection));
    assert_eq!(room.arm_runner_handoff(GUEST, 1_000, 500), Ok(()));
    assert_eq!(room.players[1].runner_handoff_deadline, Some(1_500));
    assert_eq!(room.disconnect_with_recovery(GUEST, 1_100, 5_000), Ok(false));
    assert_eq!(room.players[1].status, PlayerStatus::Reconnecting);
    assert_eq!(room.players[1].runner_handoff_deadline, Some(1_500));
    assert_eq!(room.status(), RoomStatus::CheckingCompatibility);
    assert_eq!(room.expire_runner_handoffs(1_200), None);
    assert_eq!(room.expire_runner_handoffs(1_500), Some(false));
    assert_eq!(room.status(), RoomStatus::WaitingForGuest);
    assert_eq!(room.players[1].status, PlayerStatus::Empty);
}

#[test]
fn runner_claims_an_armed_slot_with_its_token() {
    let mut room = controller_room();
    join(&mut room);
    let epoch = room.room_epoch;
    assert_eq!(room.arm_runner_handoff(GUEST, 1_000, 500), Ok(()));
    let runner = ConnectionId(77);
    assert_eq!(room.reconnect_player(reconnect("guest-resume", epoch, runner, 1_200)), Ok(()));
    assert_eq!(room.players[1].connection_id, Some(runner));
    assert_eq!(room.players[1].runtime_state, PlayerRuntimeState::Reconnecting);
    assert_eq!(room.players[1].runner_handoff_deadline, None);
    assert_eq!(room.cancel_runner_handoff(runner), Ok(()));
}

#[test]
fn expired_host_handoff_closes_the_room() {
    let mut room = controller_room();
    assert_eq!(room.arm_runner_handoff(HOST, 1_000, 500), Ok(()));
    assert_eq!(room.disconnect(HOST, 1_100), Ok(false));
    assert_eq!(room.expire_runner_handoffs(2_000), Some(true));
    assert_eq!(room.status(), RoomStatus::Closed);
    room.status = RoomStatus::Playing;
    assert_eq!(room.arm_runner_handoff(GUEST, 1_000, 500), Err(RoomError::RoomNotReady));
}

#[test]
fn link_room_binds_players_and_matches_compatibility() {
    let mut room = link_room();
    assert!(room.is_link_cable());
    assert_eq!(join(&mut room), PlayerIndex::two());
    match &room.gameplay {
        GameplaySession::LinkCable(session) => {
            assert!(session.data_plane.endpoints[1].is_some());
            assert_eq!(session.data_plane.status, LinkCableDataPlaneStatus::Waiting);
        }
        GameplaySession::ControllerNetplay => panic!("link room"),
    }
    assert_eq!(room.take_link_wakeup(), Wakeup::Both);
    assert_eq!(room.take_link_wakeup(), Wakeup::Neither);

    assert_eq!(
        room.set_link_cable_compatibility_for_connection(HOST, link_compatibility("sb1")),
        Ok(())
    );
    assert_eq!(room.players[0].status, PlayerStatus::CheckingCompatibility);
    assert_eq!(
        room.set_link_cable_compatibility_for_connection(GUEST, link_compatibility("sb1")),
        Ok(())
    );
    assert_eq!(room.status(), RoomStatus::SyncingState);
    assert_eq!(room.players[1].runtime_state, PlayerRuntimeState::Syncing);
}

#[test]
fn link_compatibility_mismatch_fails_every_player() {
    let mut room = link_room();
    join(&mut room);
    assert_eq!(
        room.set_link_cable_compatibility_for_connection(HOST, link_compatibility("sb1")),
        Ok(())
    );
    assert_eq!(
        room.set_link_cable_compatibility_for_connection(GUEST, link_compatibility("sb2")),
        Err(RoomError::CompatibilityMismatch)
    );
    assert_eq!(room.status(), RoomStatus::CheckingCompatibility);
    assert_eq!(room.players[0].status, PlayerStatus::CompatibilityFailed);
    assert_eq!(room.players[1].status, PlayerStatus::CompatibilityFailed);

    let mut wrong_family = link_compatibility("sb1");
    wrong_family.system_family = "gb".to_string();
    assert_eq!(
        room.set_link_cable_compatibility_for_connection(HOST, wrong_family),
        Err(RoomError::CompatibilityMismatch)
    );
    assert_eq!(
        room.set_link_cable_compatibility_for_connection(ConnectionId(99), link_compatibility("sb1")),
        Err(RoomError::UnknownConnection)
    );
}

#[test]
fn controller_rooms_refuse_link_work() {
    let mut room = controller_room();
    join(&mut room);
    assert_eq!(
        room.set_link_cable_compatibility_for_connection(HOST, link_compatibility("sb1")),
        Err(RoomError::CompatibilityMismatch)
    );
    assert!(matches!(room.claim_link_cable_receiver(HOST), Ok(None)));
    assert_eq!(room.link_cable_route_for_connection(HOST), Err(RoomError::NotPlaying));
    assert_eq!(room.take_link_wakeup(), Wakeup::Neither);
}

#[test]
fn link_receivers_activate_the_cable_once_both_claim() {
    let mut room = link_room();
    assert_eq!(room.claim_link_cable_receiver(HOST).err(), Some(RoomError::UnknownConnection));
    assert_eq!(room.attach_host(&"host-subject".to_string(), HOST, 150), Ok(PlayerIndex::one()));
    join(&mut room);
    let host_claim = room.claim_link_cable_receiver(HOST).expect("host claim").expect("link");
    assert_eq!(host_claim.local_slot, PlayerIndex::one());
    assert_eq!(room.claim_link_cable_receiver(HOST).err(), Some(RoomError::RoomNotReady));
    let guest_claim = room.claim_link_cable_receiver(GUEST).expect("guest claim").expect("link");
    assert_eq!(guest_claim.snapshot.status, LinkCableDataPlaneStatus::Active);
    assert_eq!(guest_claim.snapshot.cable_epoch, 1);
    let snapshot = room
        .link_cable_diagnostic_snapshot_for_connection(GUEST)
        .expect("snapshot")
        .expect("link");
    assert_eq!(snapshot.local_slot, PlayerIndex::two());
    assert_eq!(room.link_cable_route_for_connection(GUEST), Err(RoomError::NotPlaying));
    room.status = RoomStatus::Playing;
    assert_eq!(room.link_cable_route_for_connection(GUEST), Ok(PlayerIndex::two()));
}

#[test]
fn link_guest_disconnect_invalidates_its_endpoint() {
    let mut room = link_room();
    assert_eq!(room.attach_host(&"host-subject".to_string(), HOST, 150), Ok(PlayerIndex::one()));
    join(&mut room);
    assert_eq!(room.disconnect(GUEST, 500), Ok(false));
    match &room.gameplay {
        GameplaySession::LinkCable(session) => {
            assert!(session.data_plane.endpoints[1].is_none());
            assert!(session.data_plane.endpoints[0].is_some());
        }
        GameplaySession::ControllerNetplay => panic!("link room"),
    }
    assert_eq!(room.disconnect(HOST, 600), Ok(true));
    match &room.gameplay {
        GameplaySession::LinkCable(session) => {
            assert_eq!(session.data_plane.status, LinkCableDataPlaneStatus::Closed);
        }
        GameplaySession::ControllerNetplay => panic!("link room"),
    }
}

#[test]
fn input_sockets_attach_with_their_token_and_current_epochs() {
    let mut room = controller_room();
    join(&mut room);
    let input = ConnectionId(88);
    let (room_epoch, session_epoch) = (room.room_epoch, room.session_epoch);
    assert_eq!(
        room.attach_input_socket(PlayerIndex::two(), room_epoch - 1, session_epoch, "guest-input", input, 900),
        Err(RoomError::StaleRoomEpoch)
    );
    assert_eq!(
        room.attach_input_socket(PlayerIndex::two(), room_epoch, session_epoch + 1, "guest-input", input, 900),
        Err(RoomError::StaleSessionEpoch)
    );
    assert_eq!(
        room.attach_input_socket(PlayerIndex::two(), room_epoch, session_epoch, "host-input", input, 900),
        Err(RoomError::ResumeTokenInvalid)
    );
    assert_eq!(
        room.attach_input_socket(PlayerIndex::two(), room_epoch, session_epoch, "guest-input", input, 900),
        Ok(())
    );
    assert_eq!(room.players[1].input_connection_id, Some(input));
    assert_eq!(room.players[1].last_seen_at, Some(900));
    assert_eq!(room.player_index_for_input_connection(input), Some(PlayerIndex::two()));

    assert_eq!(room.disconnect_input_socket(ConnectionId(89), 950), Err(RoomError::UnknownConnection));
    assert_eq!(room.disconnect_input_socket(input, 950), Ok(false));
    assert_eq!(room.players[1].input_connection_id, None);
    assert_eq!(room.status(), RoomStatus::CheckingCompatibility);
}

#[test]
fn losing_an_input_socket_during_play_enters_recovery() {
    let mut room = controller_room();
    join(&mut room);
    let input = ConnectionId(88);
    let (room_epoch, session_epoch) = (room.room_epoch, room.session_epoch);
    assert_eq!(
        room.attach_input_socket(PlayerIndex::two(), room_epoch, session_epoch, "guest-input", input, 900),
        Ok(())
    );
    room.status = RoomStatus::Playing;
    assert_eq!(room.disconnect_input_socket(input, 950), Ok(true));
    assert_eq!(room.status(), RoomStatus::Recovering);
    assert_eq!(room.room_epoch, room_epoch + 1);
    assert_eq!(room.players[1].reconnect_room_epoch, Some(room_epoch));
}

#[test]
fn close_descriptions_name_the_slot_without_secrets() {
    let mut room = controller_room();
    room.join_guest_with_resume(
        "android:device-7".to_string(),
        GUEST,
        "guest-resume".to_string(),
        "guest-input".to_string(),
        200,
        ClientTransportCapabilities::default(),
    )
    .expect("guest joins");
    assert_eq!(
        room.describe_control_connection(GUEST, "socket\nreset   by peer"),
        "control socket closed for p2 role=guest client=android roomStatus=checkingCompatibility \
playerStatus=connected runtime=connected roomEpoch=2 sessionEpoch=2 reason=socket reset by peer"
    );
    assert_eq!(
        room.describe_input_connection(GUEST, ""),
        "input socket closed for unknown connection roomStatus=checkingCompatibility roomEpoch=2 \
sessionEpoch=2 reason=unspecified"
    );
}

#[test]
fn readiness_needs_a_full_room_of_ready_players_with_input_sockets() {
    let mut room = controller_room();
    assert!(!room.connected_players_are_ready());
    join(&mut room);
    assert!(!room.connected_players_are_ready());
    room.sync.ready_players.insert(0);
    room.sync.ready_players.insert(1);
    assert!(room.connected_players_are_ready());
    assert!(!room.connected_players_have_input_sockets());
    let (room_epoch, session_epoch) = (room.room_epoch, room.session_epoch);
    room.attach_input_socket(PlayerIndex::one(), room_epoch, session_epoch, "host-input", ConnectionId(81), 300)
        .expect("host input");
    assert!(!room.connected_players_have_input_sockets());
    room.attach_input_socket(PlayerIndex::two(), room_epoch, session_epoch, "guest-input", ConnectionId(82), 300)
        .expect("guest input");
    assert!(room.connected_players_have_input_sockets());
}

#[test]
fn gameplay_provider_is_selected_by_the_descriptor() {
    let controller = GameplaySession::new(None, RoomScope::new(3).expect("scope"), 1, 1);
    assert!(controller.is_controller_netplay());
    assert!(controller.link_cable().is_none());
    let link = GameplaySession::new(Some(link_descriptor()), RoomScope::new(3).expect("scope"), 1, 1);
    assert!(link.is_link_cable());
    assert_eq!(link.link_cable().expect("link").data_plane.status, LinkCableDataPlaneStatus::Waiting);
}

#[test]
fn lifecycle_sweep_times_out_silent_players_and_expires_idle_rooms() {
    let config = RoomRecoveryConfig::default();
    let mut room = controller_room();
    join(&mut room);
    room.status = RoomStatus::Playing;

    let quiet = room.sweep_lifecycle(20_000, config, JOIN_TIMEOUT_MS);
    assert_eq!(quiet.handoff_expired, None);
    assert!(quiet.heartbeat_stale);
    assert!(!quiet.heartbeat_timed_out);
    assert!(!quiet.expired);

    let timed_out = room.sweep_lifecycle(40_000, config, JOIN_TIMEOUT_MS);
    assert!(timed_out.heartbeat_timed_out);
    assert_eq!(room.status(), RoomStatus::Recovering);
    assert!(!timed_out.expired);

    let expired = room.sweep_lifecycle(40_000 + config.reconnect_grace, config, JOIN_TIMEOUT_MS);
    assert!(expired.expired);
}

#[test]
fn waiting_rooms_expire_after_the_join_timeout() {
    let config = RoomRecoveryConfig::default();
    let mut room = controller_room();
    assert_eq!(room.created_at, 100);
    assert!(!room.sweep_lifecycle(100 + JOIN_TIMEOUT_MS - 1, config, JOIN_TIMEOUT_MS).expired);
    assert!(room.sweep_lifecycle(100 + 601_000, config, JOIN_TIMEOUT_MS).expired);
}

#[test]
fn joined_rooms_do_not_expire_as_waiting_rooms() {
    let config = RoomRecoveryConfig::default();
    let mut room = controller_room();
    join(&mut room);
    assert!(!room.sweep_lifecycle(601_100, config, JOIN_TIMEOUT_MS).expired);
}

fn synced_link_room() -> NetplayRoom {
    let mut room = link_room();
    join(&mut room);
    room.set_link_cable_compatibility_for_connection(HOST, link_compatibility("sb1")).expect("host compatibility");
    room.set_link_cable_compatibility_for_connection(GUEST, link_compatibility("sb1")).expect("guest compatibility");
    assert_eq!(room.status(), RoomStatus::SyncingState);
    room
}

#[test]
fn the_room_plays_once_every_player_is_ready() {
    let mut room = synced_link_room();
    assert_eq!(room.mark_ready(ConnectionId(99), None, 700), Err(RoomError::UnknownConnection));
    let report = ClientNetworkQualityReport {
        round_trip_ms: Some(200),
        jitter_ms: None,
        late_input_frames: None,
        prediction_frames: None,
        stall_count: None,
    };
    assert_eq!(room.mark_ready(HOST, Some(report), 700), Ok(false));
    assert_eq!(room.status(), RoomStatus::Ready);
    assert_eq!(room.players[0].status, PlayerStatus::Ready);
    assert_eq!(room.players[0].latest_network_reported_at, Some(700));
    assert_eq!(room.players[1].status, PlayerStatus::SyncingState);
    assert_eq!(room.input_delay_frames, 3);

    assert_eq!(room.mark_ready(GUEST, None, 800), Ok(true));
    assert_eq!(room.status(), RoomStatus::Playing);
    assert_eq!(room.players[0].status, PlayerStatus::Playing);
    assert_eq!(room.players[1].status, PlayerStatus::Playing);
    assert_eq!(room.players[1].runtime_state, PlayerRuntimeState::Playing);
    // One fresh 200 ms round trip asks for 100 ms one way (6 frames) plus
    // one safety frame.
    assert_eq!(room.input_delay_frames, 7);
}

#[test]
fn ready_marks_need_a_syncing_room() {
    let mut room = link_room();
    join(&mut room);
    assert_eq!(room.status(), RoomStatus::CheckingCompatibility);
    assert_eq!(room.mark_ready(HOST, None, 700), Err(RoomError::RoomNotReady));
}

#[test]
fn controller_rooms_need_the_snapshot_and_input_sockets_before_ready() {
    let mut room = controller_room();
    join(&mut room);
    room.status = RoomStatus::SyncingState;
    assert_eq!(room.mark_ready(HOST, None, 700), Err(RoomError::RoomNotReady));
    room.sync.host_snapshot_completed = true;
    assert_eq!(room.mark_ready(HOST, None, 700), Err(RoomError::RoomNotReady));
    let (room_epoch, session_epoch) = (room.room_epoch, room.session_epoch);
    room.attach_input_socket(PlayerIndex::one(), room_epoch, session_epoch, "host-input", ConnectionId(77), 650)
        .expect("host input");
    room.attach_input_socket(PlayerIndex::two(), room_epoch, session_epoch, "guest-input", ConnectionId(88), 650)
        .expect("guest input");
    assert_eq!(room.mark_ready(HOST, None, 700), Ok(false));
    assert_eq!(room.mark_ready(GUEST, None, 700), Ok(true));
    assert_eq!(room.status(), RoomStatus::Playing);
    assert_eq!(room.input_delay_frames, 3);
}

#[test]
fn scheduled_start_clients_wait_ready() {
    let mut room = synced_link_room();
    room.players[0].supports_scheduled_start = true;
    room.players[1].supports_scheduled_start = true;
    assert_eq!(room.mark_ready(HOST, None, 700), Ok(false));
    assert_eq!(room.mark_ready(GUEST, None, 700), Ok(false));
    assert_eq!(room.status(), RoomStatus::Ready);
    assert_eq!(room.players[1].status, PlayerStatus::Ready);
}
