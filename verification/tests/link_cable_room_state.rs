use netplay_rooms::errors::RoomError;
use netplay_rooms::ids::PlayerIndex;
use netplay_rooms::link_cable_room_state::{
    LinkCableCompatibility, LinkCableDescriptor, LinkCableMode, LinkCableRoomState,
};

const NETPLAY_PROTOCOL_VERSION: u16 = 5;

fn link_descriptor() -> LinkCableDescriptor {
    LinkCableDescriptor {
        system_family: "gba".to_string(),
        link_protocol: "gba-sio-multi-v1".to_string(),
        runtime_profile: "mgba-link-runtime-v1".to_string(),
        max_players: 2,
    }
}

fn compatibility(core_build_id: &str) -> LinkCableCompatibility {
    LinkCableCompatibility {
        protocol_version: NETPLAY_PROTOCOL_VERSION,
        system_family: "gba".to_string(),
        link_protocol: "gba-sio-multi-v1".to_string(),
        runtime_profile: "mgba-link-runtime-v1".to_string(),
        core_build_id: core_build_id.to_string(),
        supported_modes: vec![LinkCableMode::Multi],
    }
}

#[test]
fn compatible_players_match() {
    let mut state = LinkCableRoomState::default();
    let link = link_descriptor();

    state
        .set_compatibility(
            PlayerIndex::one(),
            NETPLAY_PROTOCOL_VERSION,
            &link,
            compatibility("android-mgba-0.10.5-sb1"),
        )
        .expect("p1 compatibility");
    state
        .set_compatibility(
            PlayerIndex::two(),
            NETPLAY_PROTOCOL_VERSION,
            &link,
            compatibility("android-mgba-0.10.5-sb1"),
        )
        .expect("p2 compatibility");

    assert!(state.connected_players_are_compatible(&[PlayerIndex::one(), PlayerIndex::two()], 2));
}

#[test]
fn mismatched_core_build_does_not_match() {
    let mut state = LinkCableRoomState::default();
    let link = link_descriptor();

    state
        .set_compatibility(
            PlayerIndex::one(),
            NETPLAY_PROTOCOL_VERSION,
            &link,
            compatibility("android-mgba-0.10.5-sb1"),
        )
        .expect("p1 compatibility");
    state
        .set_compatibility(
            PlayerIndex::two(),
            NETPLAY_PROTOCOL_VERSION,
            &link,
            compatibility("android-mgba-0.10.5-sb2"),
        )
        .expect("p2 compatibility");

    assert!(!state.connected_players_are_compatible(&[PlayerIndex::one(), PlayerIndex::two()], 2));
}

#[test]
fn descriptor_or_version_mismatch_is_refused_and_forgets_the_old_report() {
    let mut state = LinkCableRoomState::default();
    let link = link_descriptor();
    state
        .set_compatibility(PlayerIndex::one(), NETPLAY_PROTOCOL_VERSION, &link, compatibility("a"))
        .expect("p1 compatibility");
    assert!(state.connected_players_have_compatibility(&[PlayerIndex::one()], 1));

    let mut wrong_profile = compatibility("a");
    wrong_profile.runtime_profile = "other-runtime".to_string();
    assert_eq!(
        state.set_compatibility(PlayerIndex::one(), NETPLAY_PROTOCOL_VERSION, &link, wrong_profile),
        Err(RoomError::CompatibilityMismatch)
    );
    assert!(!state.connected_players_have_compatibility(&[PlayerIndex::one()], 1));

    assert_eq!(
        state.set_compatibility(PlayerIndex::one(), NETPLAY_PROTOCOL_VERSION + 1, &link, compatibility("a")),
        Err(RoomError::CompatibilityMismatch)
    );
}

#[test]
fn compatibility_needs_every_connected_player_and_a_full_room() {
    let mut state = LinkCableRoomState::default();
    let link = link_descriptor();
    assert!(!state.connected_players_are_compatible(&[], 0));
    state
        .set_compatibility(PlayerIndex::one(), NETPLAY_PROTOCOL_VERSION, &link, compatibility("a"))
        .expect("p1 compatibility");
    assert!(!state.connected_players_have_compatibility(&[PlayerIndex::one()], 2));
    assert!(!state.connected_players_have_compatibility(&[PlayerIndex::one(), PlayerIndex::two()], 2));
    state.reset();
    assert!(!state.connected_players_have_compatibility(&[PlayerIndex::one()], 1));
}
