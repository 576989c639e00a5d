use netplay_rooms::room_connection_diagnostics::{
    client_kind_label, normalize_exit_reason, player_status_label, role_label, room_status_label, runtime_state_label,
    sanitize_reason, RoomStatus,
};
use netplay_rooms::player_slot::{PlayerRole, PlayerRuntimeState, PlayerStatus};

#[test]
fn sanitizes_multiline_close_reason() {
    assert_eq!(
        sanitize_reason("runtime\nfailed\tbad packet"),
        "runtime failed bad packet"
    );
}

#[test]
fn empty_reasons_are_unspecified_and_long_ones_are_cut() {
    assert_eq!(sanitize_reason(" \r\n\t "), "unspecified");
    let long = "x".repeat(200);
    assert_eq!(sanitize_reason(&long).chars().count(), 160);
    assert_eq!(sanitize_reason("  a   b  "), "a b");
}

#[test]
fn client_kind_uses_only_the_subject_prefix() {
    assert_eq!(client_kind_label(Some("android:abc")), "android");
    assert_eq!(client_kind_label(Some("desktop:1:2")), "desktop");
    assert_eq!(client_kind_label(Some("web:abc")), "unknown");
    assert_eq!(client_kind_label(Some("android")), "unknown");
    assert_eq!(client_kind_label(None), "unknown");
}

#[test]
fn labels_are_camel_case() {
    assert_eq!(role_label(PlayerRole::Guest), "guest");
    assert_eq!(room_status_label(RoomStatus::WaitingForGuest), "waitingForGuest");
    assert_eq!(player_status_label(PlayerStatus::RecoveryExpired), "recoveryExpired");
    assert_eq!(runtime_state_label(PlayerRuntimeState::DeterministicReady), "deterministicReady");
}

#[test]
fn exit_reasons_are_trimmed_bounded_and_defaulted() {
    assert_eq!(normalize_exit_reason("  done playing \n".to_string()), "done playing");
    assert_eq!(normalize_exit_reason(" \t\n".to_string()), "userQuit");
    assert_eq!(normalize_exit_reason(String::new()), "userQuit");
    let long = "x".repeat(100);
    assert_eq!(normalize_exit_reason(long).len(), 80);
}

#[test]
fn labels_name_each_state() {
    assert_eq!(role_label(PlayerRole::Guest), "guest");
    assert_eq!(room_status_label(RoomStatus::RepairingState), "repairingState");
    assert_eq!(player_status_label(PlayerStatus::CompatibilityFailed), "compatibilityFailed");
    assert_eq!(runtime_state_label(PlayerRuntimeState::DeterministicReady), "deterministicReady");
}
