use netplay_rooms::adaptive_input_delay_policy::{
    delay_for_report, frames_for_ms, AdaptiveInputDelayPolicy, InputDelayChangeReason,
};
use netplay_rooms::ids::{ConnectionId, PlayerIndex};
use netplay_rooms::player_slot::{ClientNetworkQualityReport, PlayerSlot};

#[test]
fn converts_latency_to_conservative_frame_delay() {
    let report = ClientNetworkQualityReport {
        round_trip_ms: Some(80),
        jitter_ms: Some(10),
        ..ClientNetworkQualityReport::default()
    };

    assert_eq!(delay_for_report(&report), Some(4));
}

#[test]
fn local_runtime_stalls_do_not_raise_network_delay() {
    let report = ClientNetworkQualityReport {
        round_trip_ms: Some(2),
        jitter_ms: Some(0),
        stall_count: Some(20),
        ..ClientNetworkQualityReport::default()
    };

    assert_eq!(delay_for_report(&report), Some(2));
}

#[test]
fn late_input_raises_network_delay() {
    let report = ClientNetworkQualityReport {
        round_trip_ms: Some(2),
        jitter_ms: Some(0),
        late_input_frames: Some(1),
        ..ClientNetworkQualityReport::default()
    };

    assert_eq!(delay_for_report(&report), Some(3));
}

#[test]
fn rounds_milliseconds_up_to_frames() {
    assert_eq!(frames_for_ms(1), 1);
    assert_eq!(frames_for_ms(17), 2);
}

#[test]
fn frames_are_capped_and_reports_without_rtt_are_ignored() {
    assert_eq!(frames_for_ms(u32::MAX), 8);
    assert_eq!(delay_for_report(&ClientNetworkQualityReport::default()), None);
    let heavy = ClientNetworkQualityReport {
        round_trip_ms: Some(2_000),
        ..ClientNetworkQualityReport::default()
    };
    assert_eq!(delay_for_report(&heavy), Some(8));
}

fn connected_slot(index: u8, rtt: u32, reported_at: u64) -> PlayerSlot {
    let mut slot = PlayerSlot::empty(PlayerIndex::new(index, 2).expect("index"));
    slot.connection_id = Some(ConnectionId::new());
    slot.latest_network_report = Some(ClientNetworkQualityReport {
        round_trip_ms: Some(rtt),
        jitter_ms: Some(0),
        ..ClientNetworkQualityReport::default()
    });
    slot.latest_network_reported_at = Some(reported_at);
    slot
}

#[test]
fn initial_decision_raises_delay_from_fresh_samples() {
    let policy = AdaptiveInputDelayPolicy::new(0);
    let players = vec![connected_slot(0, 80, 1_000), connected_slot(1, 20, 1_000)];
    let decision = policy
        .initial_decision(2, &players, 0, None, 2_000)
        .expect("delay change");
    assert_eq!(decision.input_delay_frames, 4);
    assert_eq!(decision.reason, InputDelayChangeReason::InitialLatency);
    assert_eq!(policy.initial_decision(4, &players, 0, None, 2_000), None);
}

#[test]
fn initial_decision_does_not_lower_delay_on_partial_samples() {
    let policy = AdaptiveInputDelayPolicy::new(0);
    let mut stale = connected_slot(1, 20, 0);
    stale.latest_network_reported_at = Some(0);
    let players = vec![connected_slot(0, 20, 20_000), stale];
    assert_eq!(policy.initial_decision(5, &players, 0, None, 20_000), None);

    let fresh = vec![connected_slot(0, 20, 20_000), connected_slot(1, 20, 20_000)];
    let lowered = policy
        .initial_decision(5, &fresh, 0, None, 20_000)
        .expect("lowered delay");
    assert_eq!(lowered.input_delay_frames, 2);
}

#[test]
fn prediction_pressure_raises_delay_above_default() {
    let policy = AdaptiveInputDelayPolicy::new(0);
    let mut slot = PlayerSlot::empty(PlayerIndex::new(0, 2).expect("index"));
    slot.connection_id = Some(ConnectionId::new());
    slot.latest_local_frame = Some(150);
    slot.latest_local_frame_reported_at = Some(500);
    let decision = policy
        .initial_decision(2, &[slot], 100, Some(100), 600)
        .expect("pressure decision");
    assert_eq!(decision.input_delay_frames, 3);
}
