//! Adaptive controller-netplay input-delay policy.
//!
//! The relay uses client health samples to choose the input delay. The
//! policy is pure so room mutation stays in the room operations. Instants
//! are milliseconds on the registry's monotonic clock.

use vstd::prelude::*;
use crate::player_slot::{ClientNetworkQualityReport, PlayerSlot};

verus! {

/// Input delay a controller session starts with.
pub const DEFAULT_CONTROLLER_INPUT_DELAY_FRAMES: u8 = 2;
/// Largest input delay the relay ever selects.
pub const MAX_CONTROLLER_INPUT_DELAY_FRAMES: u8 = 8;
/// Smallest delay the adaptive policy selects.
pub const MIN_AUTOMATIC_INPUT_DELAY_FRAMES: u8 = 2;
/// Frames added on top of the measured one-way latency.
pub const LATENCY_SAFETY_FRAMES: u8 = 1;
/// Prediction distance (frames) that counts as high pressure.
pub const HIGH_PREDICTION_PRESSURE_FRAMES: u64 = 45;
/// How long a health sample stays usable, in milliseconds.
pub const HEALTH_SAMPLE_FRESHNESS_MS: u64 = 10_000;

/// Why an input-delay value was selected.
#[derive(Clone, Copy, Debug, PartialEq, Eq, Structural)]
pub enum InputDelayChangeReason {
    /// Chosen from startup latency samples.
    InitialLatency,
}

/// Relay decision for a new input-delay value.
#[derive(Clone, Copy, Debug, PartialEq, Eq, Structural)]
pub struct AdaptiveInputDelayDecision {
    /// New input-delay frame count.
    pub input_delay_frames: u8,
    /// Why this value was selected.
    pub reason: InputDelayChangeReason,
}

/// Target delay computed from the connected players' samples.
#[derive(Clone, Copy, Debug, PartialEq, Eq, Structural)]
pub struct AdaptiveInputDelayTarget {
    /// Every connected player supplied a fresh, usable network sample.
    pub all_connected_players_have_fresh_network_samples: bool,
    /// Selected delay.
    pub input_delay_frames: u8,
}

/// `v` clamped into `[lo, hi]`.
pub open spec fn clamp(v: int, lo: int, hi: int) -> int {
    if v < lo { lo } else if v > hi { hi } else { v }
}

/// Frames needed to cover `ms` milliseconds at 60 frames per second,
/// rounded up and capped at the largest delay.
pub open spec fn frames_for_ms_spec(ms: int) -> int {
    let frames = (ms * 60 + 999) / 1000;
    if frames > MAX_CONTROLLER_INPUT_DELAY_FRAMES { MAX_CONTROLLER_INPUT_DELAY_FRAMES as int } else { frames }
}

/// Delay a report asks for: one-way latency plus jitter in frames, one
/// safety frame, one more under runtime pressure, clamped to the policy range.
pub open spec fn delay_for_report_spec(report: ClientNetworkQualityReport) -> Option<u8> {
    match report.round_trip_ms {
        None => None,
        Some(rtt) => {
            let one_way = if rtt == u32::MAX { (u32::MAX as int) / 2 } else { (rtt + 1) / 2 };
            let jitter = match report.jitter_ms { Some(j) => j as int, None => 0 };
            let latency_ms = if one_way + jitter > u32::MAX { u32::MAX as int } else { one_way + jitter };
            let pressure = if (match report.late_input_frames { Some(l) => l > 0, None => false })
                || (match report.prediction_frames { Some(p) => p >= 30, None => false }) { 1int } else { 0int };
            Some(clamp(frames_for_ms_spec(latency_ms) + LATENCY_SAFETY_FRAMES + pressure,
                MIN_AUTOMATIC_INPUT_DELAY_FRAMES as int, MAX_CONTROLLER_INPUT_DELAY_FRAMES as int) as u8)
        },
    }
}

/// A sample reported at `reported_at` is at most ten seconds old at `now`
/// (a report from the future counts as fresh).
pub open spec fn is_fresh_spec(reported_at: Option<u64>, now: u64) -> bool {
    match reported_at {
        None => false,
        Some(t) => now <= t || now - t <= HEALTH_SAMPLE_FRESHNESS_MS,
    }
}

/// Rounds milliseconds up to 60 Hz frames, capped at the largest delay.
pub fn frames_for_ms(milliseconds: u32) -> (f: u8)
    ensures
        f as int == frames_for_ms_spec(milliseconds as int),
{
    let frames = (milliseconds as u64 * 60 + 999) / 1000;
    if frames > MAX_CONTROLLER_INPUT_DELAY_FRAMES as u64 {
        MAX_CONTROLLER_INPUT_DELAY_FRAMES
    } else {
        frames as u8
    }
}

/// Converts a client's network report into a conservative frame delay.
pub fn delay_for_report(report: &ClientNetworkQualityReport) -> (d: Option<u8>)
    ensures
        d == delay_for_report_spec(*report),
        d matches Some(v) ==> MIN_AUTOMATIC_INPUT_DELAY_FRAMES <= v <= MAX_CONTROLLER_INPUT_DELAY_FRAMES,
{
    let round_trip_ms = match report.round_trip_ms {
        None => return None,
        Some(rtt) => rtt,
    };
    let one_way_ms = round_trip_ms.saturating_add(1) / 2;
    let jitter_ms = match report.jitter_ms {
        Some(j) => j,
        None => 0,
    };
    let late = match report.late_input_frames {
        Some(l) => l > 0,
        None => false,
    };
    let predicting = match report.prediction_frames {
        Some(p) => p >= 30,
        None => false,
    };
    let runtime_pressure: u8 = if late || predicting { 1 } else { 0 };
    let latency_frames = frames_for_ms(one_way_ms.saturating_add(jitter_ms));
    let delay = latency_frames + LATENCY_SAFETY_FRAMES + runtime_pressure;
    let clamped = if delay < MIN_AUTOMATIC_INPUT_DELAY_FRAMES {
        MIN_AUTOMATIC_INPUT_DELAY_FRAMES
    } else if delay > MAX_CONTROLLER_INPUT_DELAY_FRAMES {
        MAX_CONTROLLER_INPUT_DELAY_FRAMES
    } else {
        delay
    };
    Some(clamped)
}

/// Whether a sample reported at `reported_at` is still usable at `now`.
pub fn is_fresh(reported_at: Option<u64>, now: u64) -> (b: bool)
    ensures
        b == is_fresh_spec(reported_at, now),
{
    match reported_at {
        None => false,
        Some(t) => now.saturating_sub(t) <= HEALTH_SAMPLE_FRESHNESS_MS,
    }
}

/// Delay a connected slot's fresh network sample asks for, if any.
pub open spec fn slot_report_delay(slot: PlayerSlot, now: u64) -> Option<u8> {
    match slot.latest_network_report {
        Some(report) => if is_fresh_spec(slot.latest_network_reported_at, now) { delay_for_report_spec(report) } else { None },
        None => None,
    }
}

/// The slot's fresh local frame runs at least 45 frames ahead of `baseline`.
pub open spec fn slot_under_prediction_pressure(slot: PlayerSlot, baseline: u64, now: u64) -> bool {
    match slot.latest_local_frame {
        Some(f) => is_fresh_spec(slot.latest_local_frame_reported_at, now) && f >= baseline
            && f - baseline >= HIGH_PREDICTION_PRESSURE_FRAMES,
        None => false,
    }
}

/// Largest delay any connected slot among `players` asks for (starting from
/// the policy minimum); prediction pressure asks for the default plus one.
pub open spec fn players_target(players: Seq<PlayerSlot>, baseline: u64, now: u64) -> int
    decreases players.len(),
{
    if players.len() == 0 {
        MIN_AUTOMATIC_INPUT_DELAY_FRAMES as int
    } else {
        let rest = players_target(players.drop_last(), baseline, now);
        let p = players.last();
        if p.connection_id is None {
            rest
        } else {
            let with_report = match slot_report_delay(p, now) {
                Some(d) => if d > rest { d as int } else { rest },
                None => rest,
            };
            if slot_under_prediction_pressure(p, baseline, now) && DEFAULT_CONTROLLER_INPUT_DELAY_FRAMES + 1 > with_report {
                DEFAULT_CONTROLLER_INPUT_DELAY_FRAMES + 1
            } else {
                with_report
            }
        }
    }
}

/// Number of connected slots.
pub open spec fn connected_count(players: Seq<PlayerSlot>) -> nat
    decreases players.len(),
{
    if players.len() == 0 {
        0
    } else {
        connected_count(players.drop_last()) + if players.last().connection_id is Some { 1nat } else { 0nat }
    }
}

/// Number of connected slots with a fresh, usable network sample.
pub open spec fn fresh_report_count(players: Seq<PlayerSlot>, now: u64) -> nat
    decreases players.len(),
{
    if players.len() == 0 {
        0
    } else {
        fresh_report_count(players.drop_last(), now)
            + if players.last().connection_id is Some && slot_report_delay(players.last(), now) is Some { 1nat } else { 0nat }
    }
}

/// Some connected slot supplied a usable sample (network or prediction pressure).
pub open spec fn saw_sample(players: Seq<PlayerSlot>, baseline: u64, now: u64) -> bool {
    exists|i: int| 0 <= i < players.len() && (#[trigger] players[i]).connection_id is Some
        && (slot_report_delay(players[i], now) is Some || slot_under_prediction_pressure(players[i], baseline, now))
}

/// Target the policy computes for `players`.
pub open spec fn target_delay_spec(players: Seq<PlayerSlot>, baseline: u64, now: u64) -> Option<AdaptiveInputDelayTarget> {
    if connected_count(players) == 0 || !saw_sample(players, baseline, now) {
        None
    } else {
        Some(AdaptiveInputDelayTarget {
            all_connected_players_have_fresh_network_samples: fresh_report_count(players, now) == connected_count(players),
            input_delay_frames: clamp(players_target(players, baseline, now),
                MIN_AUTOMATIC_INPUT_DELAY_FRAMES as int, MAX_CONTROLLER_INPUT_DELAY_FRAMES as int) as u8,
        })
    }
}

proof fn lemma_target_bounds(players: Seq<PlayerSlot>, baseline: u64, now: u64)
    ensures
        MIN_AUTOMATIC_INPUT_DELAY_FRAMES <= players_target(players, baseline, now) <= MAX_CONTROLLER_INPUT_DELAY_FRAMES,
        fresh_report_count(players, now) <= connected_count(players),
        connected_count(players) <= players.len(),
    decreases players.len(),
{
    if players.len() > 0 {
        lemma_target_bounds(players.drop_last(), baseline, now);
    }
}

/// Computes the target delay from every connected player's fresh samples.
pub fn target_delay(players: &[PlayerSlot], room_frame: u64, released_frame: Option<u64>, now: u64) -> (t: Option<AdaptiveInputDelayTarget>)
    ensures
        t == target_delay_spec(players@, match released_frame { Some(f) => f, None => room_frame }, now),
{
    let baseline = match released_frame {
        Some(f) => f,
        None => room_frame,
    };
    let mut connected: usize = 0;
    let mut fresh_network_sample_count: usize = 0;
    let mut saw: bool = false;
    let mut target: u8 = MIN_AUTOMATIC_INPUT_DELAY_FRAMES;
    let mut i: usize = 0;
    while i < players.len()
        invariant
            i <= players@.len(),
            connected as nat == connected_count(players@.subrange(0, i as int)),
            fresh_network_sample_count as nat == fresh_report_count(players@.subrange(0, i as int), now),
            target as int == players_target(players@.subrange(0, i as int), baseline, now),
            saw == saw_sample(players@.subrange(0, i as int), baseline, now),
        decreases players@.len() - i,
    {
        let player = &players[i];
        let ghost prefix = players@.subrange(0, i as int);
        let ghost next = players@.subrange(0, i + 1);
        proof {
            assert(next.drop_last() == prefix);
            assert(next.last() == *player);
            lemma_target_bounds(prefix, baseline, now);
            lemma_target_bounds(next, baseline, now);
        }
        if player.connection_id.is_some() {
            connected = connected + 1;
            let report_delay = match &player.latest_network_report {
                Some(report) => if is_fresh(player.latest_network_reported_at, now) { delay_for_report(report) } else { None },
                None => None,
            };
            if let Some(d) = report_delay {
                saw = true;
                fresh_network_sample_count = fresh_network_sample_count + 1;
                if d > target {
                    target = d;
                }
            }
            let pressure = match player.latest_local_frame {
                Some(local_frame) => is_fresh(player.latest_local_frame_reported_at, now)
                    && local_frame.saturating_sub(baseline) >= HIGH_PREDICTION_PRESSURE_FRAMES,
                None => false,
            };
            if pressure {
                saw = true;
                if DEFAULT_CONTROLLER_INPUT_DELAY_FRAMES + 1 > target {
                    target = DEFAULT_CONTROLLER_INPUT_DELAY_FRAMES + 1;
                }
            }
            proof {
                if report_delay is Some || pressure {
                    assert(next[i as int] == *player);
                }
            }
        }
        proof {
            assert forall|j: int| 0 <= j < prefix.len() implies #[trigger] next[j] == prefix[j] by {}
            if saw_sample(next, baseline, now) && !(player.connection_id is Some
                && (slot_report_delay(*player, now) is Some || slot_under_prediction_pressure(*player, baseline, now))) {
                let j = choose|j: int| 0 <= j < next.len() && (#[trigger] next[j]).connection_id is Some
                    && (slot_report_delay(next[j], now) is Some || slot_under_prediction_pressure(next[j], baseline, now));
                assert(j < i as int);
                assert(prefix[j] == next[j]);
            }
            if saw_sample(prefix, baseline, now) {
                let j = choose|j: int| 0 <= j < prefix.len() && (#[trigger] prefix[j]).connection_id is Some
                    && (slot_report_delay(prefix[j], now) is Some || slot_under_prediction_pressure(prefix[j], baseline, now));
                assert(next[j] == prefix[j]);
            }
        }
        i = i + 1;
    }
    proof {
        assert(players@.subrange(0, players@.len() as int) == players@);
        lemma_target_bounds(players@, baseline, now);
    }
    if connected == 0 || !saw {
        return None;
    }
    Some(AdaptiveInputDelayTarget {
        all_connected_players_have_fresh_network_samples: fresh_network_sample_count == connected,
        input_delay_frames: target,
    })
}

/// The decision the policy takes for a target when the current delay is
/// `current`: a change only when the target differs, and never a decrease
/// unless every connected player has a fresh network sample.
pub open spec fn decision_for(target: Option<AdaptiveInputDelayTarget>, current: u8) -> Option<AdaptiveInputDelayDecision> {
    match target {
        None => None,
        Some(t) => if t.input_delay_frames == current
            || (t.input_delay_frames < current && !t.all_connected_players_have_fresh_network_samples) {
            None
        } else {
            Some(AdaptiveInputDelayDecision {
                input_delay_frames: t.input_delay_frames,
                reason: InputDelayChangeReason::InitialLatency,
            })
        },
    }
}

/// Computes startup input-delay decisions from room health.
#[derive(Clone, Copy, Debug)]
pub struct AdaptiveInputDelayPolicy;

impl AdaptiveInputDelayPolicy {
    /// Creates a policy anchored to the room creation time.
    pub fn new(_now: u64) -> (p: Self) {
        AdaptiveInputDelayPolicy
    }

    /// Records that a delay change was applied or scheduled.
    pub fn mark_changed(&mut self, _now: u64)
        ensures
            *final(self) == *old(self),
    {
    }

    /// Selects the initial delay when gameplay starts.
    pub fn initial_decision(
        &self,
        current_delay: u8,
        players: &[PlayerSlot],
        room_frame: u64,
        released_frame: Option<u64>,
        now: u64,
    ) -> (d: Option<AdaptiveInputDelayDecision>)
        ensures
            d == decision_for(target_delay_spec(players@, match released_frame { Some(f) => f, None => room_frame }, now), current_delay),
    {
        let target = match target_delay(players, room_frame, released_frame, now) {
            None => return None,
            Some(t) => t,
        };
        if target.input_delay_frames == current_delay {
            return None;
        }
        if target.input_delay_frames < current_delay && !target.all_connected_players_have_fresh_network_samples {
            return None;
        }
        Some(AdaptiveInputDelayDecision {
            input_delay_frames: target.input_delay_frames,
            reason: InputDelayChangeReason::InitialLatency,
        })
    }
}

/// The policy changes the delay only to a different value inside the policy
/// range, and lowers it only when every connected player supplied a fresh
/// network sample.
pub proof fn law_initial_decision_never_lowers_on_partial_samples(players: Seq<PlayerSlot>, baseline: u64, now: u64, current: u8)
    ensures
        decision_for(target_delay_spec(players, baseline, now), current) matches Some(d) ==> {
            &&& d.input_delay_frames != current
            &&& MIN_AUTOMATIC_INPUT_DELAY_FRAMES <= d.input_delay_frames <= MAX_CONTROLLER_INPUT_DELAY_FRAMES
            &&& d.input_delay_frames < current ==> fresh_report_count(players, now) == connected_count(players)
            &&& d.reason == InputDelayChangeReason::InitialLatency
        },
        connected_count(players) == 0 || !saw_sample(players, baseline, now)
            ==> decision_for(target_delay_spec(players, baseline, now), current) is None,
{
    lemma_target_bounds(players, baseline, now);
}

/// The target covers every connected player's fresh evidence: it is at
/// least the delay each fresh network sample asks for, and at least the
/// default delay plus one for a player under prediction pressure.
pub proof fn law_target_covers_every_fresh_sample(players: Seq<PlayerSlot>, baseline: u64, now: u64, j: int)
    requires
        0 <= j < players.len(),
        players[j].connection_id is Some,
    ensures
        slot_report_delay(players[j], now) matches Some(d) ==> players_target(players, baseline, now) >= d,
        slot_under_prediction_pressure(players[j], baseline, now)
            ==> players_target(players, baseline, now) >= DEFAULT_CONTROLLER_INPUT_DELAY_FRAMES + 1,
    decreases players.len(),
{
    if j < players.len() - 1 {
        law_target_covers_every_fresh_sample(players.drop_last(), baseline, now, j);
        assert(players.drop_last()[j] == players[j]);
    }
}

/// Longer latencies never ask for fewer frames.
pub proof fn law_frames_for_ms_is_monotone(a: int, b: int)
    requires
        0 <= a <= b,
    ensures
        frames_for_ms_spec(a) <= frames_for_ms_spec(b),
{
    assert((a * 60 + 999) / 1000 <= (b * 60 + 999) / 1000) by (nonlinear_arith)
        requires 0 <= a <= b;
}

/// Rounding is upward: the frames cover the latency unless capped.
pub proof fn law_frames_cover_latency(ms: int)
    requires
        0 <= ms,
    ensures
        frames_for_ms_spec(ms) == MAX_CONTROLLER_INPUT_DELAY_FRAMES || frames_for_ms_spec(ms) * 1000 >= ms * 60,
{
    assert(((ms * 60 + 999) / 1000) * 1000 >= ms * 60) by (nonlinear_arith)
        requires 0 <= ms;
}

/// The target is the largest ask: it is the policy minimum, or exactly the
/// delay some connected player's fresh network sample asks for, or the
/// default delay plus one for a connected player under prediction pressure.
/// With `law_target_covers_every_fresh_sample` it is the maximum of these.
pub proof fn law_target_is_the_largest_ask(players: Seq<PlayerSlot>, baseline: u64, now: u64)
    ensures
        players_target(players, baseline, now) == MIN_AUTOMATIC_INPUT_DELAY_FRAMES as int
            || exists|j: int| 0 <= j < players.len() && (#[trigger] players[j]).connection_id is Some && (
                (slot_report_delay(players[j], now) matches Some(d) && d as int == players_target(players, baseline, now))
                || (slot_under_prediction_pressure(players[j], baseline, now)
                    && players_target(players, baseline, now) == DEFAULT_CONTROLLER_INPUT_DELAY_FRAMES as int + 1)),
    decreases players.len(),
{
    if players.len() > 0 {
        let rest = players.drop_last();
        law_target_is_the_largest_ask(rest, baseline, now);
        let last = players.len() - 1;
        assert(players.last() == players[last]);
        if players_target(players, baseline, now) == players_target(rest, baseline, now)
            && players_target(rest, baseline, now) != MIN_AUTOMATIC_INPUT_DELAY_FRAMES as int {
            let j = choose|j: int| 0 <= j < rest.len() && (#[trigger] rest[j]).connection_id is Some && (
                (slot_report_delay(rest[j], now) matches Some(d) && d as int == players_target(rest, baseline, now))
                || (slot_under_prediction_pressure(rest[j], baseline, now)
                    && players_target(rest, baseline, now) == DEFAULT_CONTROLLER_INPUT_DELAY_FRAMES as int + 1));
            assert(players[j] == rest[j]);
        }
    }
}

/// A report's ask covers its whole one-way latency, jitter included: the
/// delay is the largest one, or its frames after the safety frame span at
/// least half the round trip plus the jitter at 60 frames per second.
pub proof fn law_report_delay_covers_latency_and_jitter(report: ClientNetworkQualityReport)
    requires
        report.round_trip_ms matches Some(rtt) && rtt < u32::MAX
            && (rtt + 1) / 2 + (match report.jitter_ms { Some(j) => j as int, None => 0 }) <= u32::MAX,
    ensures
        delay_for_report_spec(report) matches Some(d) && (
            d == MAX_CONTROLLER_INPUT_DELAY_FRAMES
            || (d - LATENCY_SAFETY_FRAMES) * 1000 >= (
                (report.round_trip_ms->0 + 1) / 2 + (match report.jitter_ms { Some(j) => j as int, None => 0 })) * 60),
{
    let rtt = report.round_trip_ms->0;
    let jitter: int = match report.jitter_ms { Some(j) => j as int, None => 0 };
    let ms = (rtt + 1) / 2 + jitter;
    law_frames_cover_latency(ms);
}

/// More jitter never asks for a smaller delay: two reports that differ only
/// in their jitter ask in the order of their jitters.
pub proof fn law_report_delay_grows_with_jitter(report: ClientNetworkQualityReport, more_jitter: u32)
    requires
        report.round_trip_ms is Some,
        (match report.jitter_ms { Some(j) => j, None => 0u32 }) <= more_jitter,
    ensures
        delay_for_report_spec(report) matches Some(d)
            && delay_for_report_spec(ClientNetworkQualityReport { jitter_ms: Some(more_jitter), ..report }) matches Some(e)
            && d <= e,
{
    let rtt = report.round_trip_ms->0;
    let one_way: int = if rtt == u32::MAX { (u32::MAX as int) / 2 } else { (rtt + 1) / 2 };
    let j: int = match report.jitter_ms { Some(j) => j as int, None => 0 };
    let a = if one_way + j > u32::MAX { u32::MAX as int } else { one_way + j };
    let b = if one_way + more_jitter > u32::MAX { u32::MAX as int } else { one_way + more_jitter };
    law_frames_for_ms_is_monotone(a, b);
}

/// Runtime pressure costs one more frame: a report that shows late input
/// asks for one frame more than the same report without it, unless the ask
/// sits at the edge of the policy range (the largest delay, or the smallest
/// one that the safety frame already reaches).
pub proof fn law_late_input_adds_a_frame(report: ClientNetworkQualityReport, late: u32)
    requires
        report.round_trip_ms is Some,
        late > 0,
        report.prediction_frames is None,
    ensures
        delay_for_report_spec(ClientNetworkQualityReport { late_input_frames: None, ..report }) matches Some(calm)
            && delay_for_report_spec(ClientNetworkQualityReport { late_input_frames: Some(late), ..report }) matches Some(pressed)
            && pressed >= calm
            && (pressed == calm + 1 || pressed == MAX_CONTROLLER_INPUT_DELAY_FRAMES
                || pressed == MIN_AUTOMATIC_INPUT_DELAY_FRAMES),
{
}

} // verus!
