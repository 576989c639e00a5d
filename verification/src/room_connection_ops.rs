//! Connection lifecycle and recovery operations for active rooms.
//!
//! This module owns slot attachment, disconnection, resume-token recovery, and
//! heartbeat-derived liveness state. It intentionally avoids compatibility,
//! snapshot, and input relay rules.

use vstd::prelude::*;
use crate::errors::RoomError;
use crate::ids::{ConnectionId, PlayerIndex};
use crate::player_slot::{
    guest_slot, runtime_state_of, ClientNetworkQualityReport, ClientRuntimeState, ClientTransportCapabilities,
    PlayerRole, PlayerRuntimeState, PlayerSlot, PlayerStatus,
};
use crate::resume_token::ResumeTokenHash;
use crate::room::{
    clear_slot, connection_player, connection_position, detached, is_live_status, enter_recovery, forget_player, is_recoverable_status, link_bound,
    link_closed, link_invalidated, reconnecting_slot, reset_sync, restore_checking, saturating_dec,
    saturating_inc, same_identity, room_model_wf, NetplayRoom, RoomModel,
};
use crate::room_runner_handoff_ops::preserve_outcome;
use crate::text::str_eq;
use crate::room::link_replaced;
use crate::room_connection_diagnostics::RoomStatus;

verus! {

/// A client that supports none of the optional transport features.
pub open spec fn no_capabilities() -> ClientTransportCapabilities {
    ClientTransportCapabilities {
        supports_state_file_relay: false,
        supports_rom_file_relay: false,
        supports_scheduled_start: false,
        supports_clock_sync: false,
        supports_fast_input_relay: false,
    }
}

/// Index of the first empty slot.
pub open spec fn empty_position(players: Seq<PlayerSlot>) -> Option<int> {
    if exists|i: int| 0 <= i < players.len() && players[i].status == PlayerStatus::Empty {
        Some(choose|i: int| 0 <= i < players.len() && players[i].status == PlayerStatus::Empty
            && forall|j: int| 0 <= j < i ==> players[j].status != PlayerStatus::Empty)
    } else {
        None
    }
}

/// Outcome of a guest joining with the given identity, tokens and
/// capabilities at `now`.
pub open spec fn join_outcome(
    m: RoomModel,
    subject_key: String,
    connection_id: ConnectionId,
    resume_token_hash: ResumeTokenHash,
    input_socket_token_hash: ResumeTokenHash,
    now: u64,
    capabilities: ClientTransportCapabilities,
) -> (RoomModel, Result<PlayerIndex, RoomError>) {
    if m.status == RoomStatus::Closed {
        (m, Err(RoomError::RoomClosed))
    } else {
        match empty_position(m.players) {
            None => (m, Err(RoomError::RoomFull)),
            Some(p) => {
                let player_index = m.players[p].player_index;
                let joined = RoomModel {
                    players: m.players.update(p, guest_slot(m.players[p], subject_key, connection_id,
                        resume_token_hash, input_socket_token_hash, now, capabilities)),
                    room_epoch: saturating_inc(m.room_epoch),
                    session_epoch: saturating_inc(m.session_epoch),
                    ..m
                };
                let checking = restore_checking(joined);
                if checking.link is None {
                    (checking, Ok(player_index))
                } else {
                    let (bound, r) = link_bound(checking, player_index, connection_id);
                    match r {
                        Ok(_) => (bound, Ok(player_index)),
                        Err(e) => (
                            clear_slot(RoomModel { status: RoomStatus::Closed, ..link_closed(bound) }, player_index.0 as int, false),
                            Err(e),
                        ),
                    }
                }
            },
        }
    }
}

/// The host slot reclaimed by the host's new control connection at `now`.
pub open spec fn attached_host_slot(
    s: PlayerSlot,
    connection_id: ConnectionId,
    resume_token_hash: ResumeTokenHash,
    input_socket_token_hash: ResumeTokenHash,
    now: u64,
    capabilities: ClientTransportCapabilities,
) -> PlayerSlot {
    PlayerSlot {
        connection_id: Some(connection_id),
        input_connection_id: None,
        status: PlayerStatus::Connected,
        runtime_state: PlayerRuntimeState::Connected,
        resume_token_hash: Some(resume_token_hash),
        input_socket_token_hash: Some(input_socket_token_hash),
        input_socket_control_connection_id: Some(connection_id),
        supports_state_file_relay: capabilities.supports_state_file_relay,
        supports_rom_file_relay: capabilities.supports_rom_file_relay,
        supports_scheduled_start: capabilities.supports_scheduled_start,
        supports_clock_sync: capabilities.supports_clock_sync,
        supports_fast_input_relay: capabilities.supports_fast_input_relay,
        reconnect_deadline: None,
        reconnect_room_epoch: None,
        runner_handoff_deadline: None,
        last_seen_at: Some(now),
        latest_local_frame: None,
        latest_local_frame_reported_at: None,
        latest_network_report: None,
        latest_network_reported_at: None,
        ..s
    }
}

/// Outcome of the verified host subject `subject_key` attaching the control
/// connection `connection_id` to the host slot at `now`.
pub open spec fn attach_host_outcome(
    m: RoomModel,
    subject_key: Seq<char>,
    connection_id: ConnectionId,
    resume_token_hash: ResumeTokenHash,
    input_socket_token_hash: ResumeTokenHash,
    now: u64,
    capabilities: ClientTransportCapabilities,
) -> (RoomModel, Result<PlayerIndex, RoomError>) {
    if m.status == RoomStatus::Closed {
        (m, Err(RoomError::RoomClosed))
    } else if m.players.len() == 0 {
        (m, Err(RoomError::UnknownConnection))
    } else {
        let host = m.players[0];
        if !(host.subject_key matches Some(k) && k@ == subject_key) {
            (m, Err(RoomError::HostSubjectMismatch))
        } else {
            let (m1, invalidated) = match host.connection_id {
                Some(previous) => if previous != connection_id {
                    link_invalidated(m, previous)
                } else {
                    (m, Ok(()))
                },
                None => (m, Ok(())),
            };
            match invalidated {
                Err(e) => (m1, Err(e)),
                Ok(()) => {
                    let m2 = RoomModel {
                        players: m1.players.update(0, attached_host_slot(m1.players[0], connection_id,
                            resume_token_hash, input_socket_token_hash, now, capabilities)),
                        ready: m1.ready.remove(host.player_index.0),
                        ..m1
                    };
                    if m2.link is None {
                        (m2, Ok(host.player_index))
                    } else {
                        let (m3, r) = link_bound(m2, host.player_index, connection_id);
                        match r {
                            Ok(_) => (m3, Ok(host.player_index)),
                            Err(e) => (m3, Err(e)),
                        }
                    }
                },
            }
        }
    }
}

/// Slot `s` after every player intentionally ended the room at `now`.
pub open spec fn exited_slot(s: PlayerSlot, now: u64) -> PlayerSlot {
    if s.status == PlayerStatus::Empty {
        s
    } else {
        PlayerSlot {
            connection_id: None,
            input_connection_id: None,
            input_socket_token_hash: None,
            input_socket_control_connection_id: None,
            last_seen_at: Some(now),
            latest_local_frame: None,
            latest_local_frame_reported_at: None,
            latest_network_report: None,
            latest_network_reported_at: None,
            reconnect_deadline: None,
            reconnect_room_epoch: None,
            runner_handoff_deadline: None,
            status: PlayerStatus::Disconnected,
            runtime_state: PlayerRuntimeState::Disconnected,
            ..s
        }
    }
}

/// The room after one player intentionally left at `now`.
pub open spec fn exited_room(m: RoomModel, now: u64) -> RoomModel {
    let r = reset_sync(RoomModel { status: RoomStatus::Closed, ..link_closed(m) }, 0);
    RoomModel { players: Seq::new(r.players.len(), |i: int| exited_slot(r.players[i], now)), ..r }
}

/// Outcome of the control connection `connection_id` going away at `now`:
/// an armed runner handoff keeps the slot; in a recoverable room the slot
/// waits `grace` for its player and the room enters recovery; otherwise a
/// guest slot empties and the room waits for a guest, while a departed host
/// closes the room. `Ok(true)` reports that the room closed.
pub open spec fn disconnect_outcome(m: RoomModel, connection_id: ConnectionId, now: u64, grace: u64)
    -> (RoomModel, Result<bool, RoomError>)
{
    let (m1, preserved) = preserve_outcome(m, connection_id, now);
    match preserved {
        Err(e) => (m1, Err(e)),
        Ok(true) => {
            let (m2, invalidated) = link_invalidated(m1, connection_id);
            match invalidated {
                Err(e) => (m2, Err(e)),
                Ok(()) => (m2, Ok(false)),
            }
        },
        Ok(false) => {
            let (m2, invalidated) = link_invalidated(m1, connection_id);
            match invalidated {
                Err(e) => (m2, Err(e)),
                Ok(()) => match connection_position(m2.players, connection_id) {
                    None => (m2, Err(RoomError::UnknownConnection)),
                    Some(p) => {
                        let slot = m2.players[p];
                        let player = slot.player_index.0 as int;
                        let is_host = slot.role == PlayerRole::Host;
                        let already_recovering = m2.status == RoomStatus::Recovering;
                        let epoch = match slot.reconnect_room_epoch {
                            Some(e) => e,
                            None => if already_recovering { saturating_dec(m2.room_epoch) } else { m2.room_epoch },
                        };
                        let m3 = forget_player(RoomModel { players: m2.players.update(p, detached(slot, now)), ..m2 }, slot.player_index.0);
                        if is_recoverable_status(m2.status) {
                            let m4 = RoomModel {
                                players: if player < m3.players.len() {
                                    m3.players.update(player, reconnecting_slot(m3.players[player], now, grace, epoch))
                                } else {
                                    m3.players
                                },
                                ..m3
                            };
                            if !already_recovering {
                                let m5 = enter_recovery(m4, epoch);
                                (m5, Ok(m5.status == RoomStatus::Closed))
                            } else {
                                (m4, Ok(false))
                            }
                        } else {
                            let m4 = clear_slot(m3, player, is_host);
                            if is_host {
                                (m4, Ok(true))
                            } else {
                                (RoomModel { status: RoomStatus::WaitingForGuest, ..m4 }, Ok(false))
                            }
                        }
                    },
                },
            }
        },
    }
}

/// Reconnect claim submitted by the room registry after validating
/// transport context.
pub struct PlayerReconnectRequest<'a> {
    /// Slot index the reconnecting client is reclaiming.
    pub player_index: PlayerIndex,
    /// Server-side hash of the long-lived control resume token.
    pub resume_token_hash: &'a str,
    /// Server-side hash of the rotated control resume token.
    pub next_resume_token_hash: ResumeTokenHash,
    /// Server-side hash of the newly issued input socket token.
    pub input_socket_token_hash: ResumeTokenHash,
    /// Room epoch observed by the reconnecting client.
    pub room_epoch: u64,
    /// Fresh control socket connection id.
    pub connection_id: ConnectionId,
    /// Registry clock timestamp for timeout checks and liveness updates.
    pub now: u64,
    /// Optional transport features this client can use after reconnecting.
    pub capabilities: ClientTransportCapabilities,
}

/// Slot `s` reclaimed by a reconnecting client.
pub open spec fn reclaimed_slot(
    s: PlayerSlot,
    connection_id: ConnectionId,
    next_resume_token_hash: ResumeTokenHash,
    input_socket_token_hash: ResumeTokenHash,
    now: u64,
    capabilities: ClientTransportCapabilities,
) -> PlayerSlot {
    PlayerSlot {
        connection_id: Some(connection_id),
        input_connection_id: None,
        status: PlayerStatus::Connected,
        runtime_state: PlayerRuntimeState::Reconnecting,
        resume_token_hash: Some(next_resume_token_hash),
        input_socket_token_hash: Some(input_socket_token_hash),
        input_socket_control_connection_id: Some(connection_id),
        supports_state_file_relay: capabilities.supports_state_file_relay,
        supports_rom_file_relay: capabilities.supports_rom_file_relay,
        supports_scheduled_start: capabilities.supports_scheduled_start,
        supports_clock_sync: capabilities.supports_clock_sync,
        supports_fast_input_relay: capabilities.supports_fast_input_relay,
        last_seen_at: Some(now),
        latest_local_frame: None,
        latest_local_frame_reported_at: None,
        latest_network_report: None,
        latest_network_reported_at: None,
        reconnect_deadline: None,
        reconnect_room_epoch: None,
        runner_handoff_deadline: None,
        ..s
    }
}

/// Whether slot `s`'s reconnect or handoff window closed by `now`.
pub open spec fn reclaim_window_closed(s: PlayerSlot, now: u64) -> bool {
    ||| (s.reconnect_deadline matches Some(deadline) && now >= deadline)
    ||| (s.runner_handoff_deadline matches Some(deadline) && now >= deadline)
}

/// Why a client may not reclaim slot `player_index` with the resume-token
/// hash `resume_token_hash` at `now`, if it may not: the token must match,
/// the slot must be waiting for its player (or armed for a runner handoff),
/// the client must know the current or the pre-recovery room epoch, and the
/// window must still be open.
pub open spec fn reclaim_refusal(m: RoomModel, player_index: PlayerIndex, resume_token_hash: Seq<char>, room_epoch: u64, now: u64)
    -> Option<RoomError>
{
    let p = player_index.0 as int;
    if m.status == RoomStatus::Closed {
        Some(RoomError::RoomClosed)
    } else if p >= m.players.len() {
        Some(RoomError::UnknownConnection)
    } else {
        let slot = m.players[p];
        let runner_handoff = slot.runner_handoff_deadline is Some;
        let accepted_epoch = match slot.reconnect_room_epoch { Some(e) => e, None => m.room_epoch };
        if !(slot.resume_token_hash matches Some(h) && h@ == resume_token_hash) {
            Some(RoomError::ResumeTokenInvalid)
        } else if !runner_handoff && (slot.connection_id is Some || slot.reconnect_deadline is None) {
            Some(RoomError::ResumeTokenInvalid)
        } else if room_epoch != accepted_epoch && room_epoch != m.room_epoch {
            Some(RoomError::StaleRoomEpoch)
        } else if reclaim_window_closed(slot, now) {
            Some(RoomError::RecoveryExpired)
        } else {
            None
        }
    }
}

/// An admitted reclaim of slot `player_index`: a runner handoff moves the
/// link endpoint to the new connection; an ordinary reconnect restarts
/// compatibility checking and binds the endpoint afresh.
pub open spec fn reclaim_commit(
    m: RoomModel,
    player_index: PlayerIndex,
    next_resume_token_hash: ResumeTokenHash,
    input_socket_token_hash: ResumeTokenHash,
    connection_id: ConnectionId,
    now: u64,
    capabilities: ClientTransportCapabilities,
) -> (RoomModel, Result<(), RoomError>) {
    let p = player_index.0 as int;
    let slot = m.players[p];
    let runner_handoff = slot.runner_handoff_deadline is Some;
    let (m1, prebind) = if m.link is Some && runner_handoff && slot.connection_id is Some {
        let (n, r) = link_replaced(m, player_index, slot.connection_id->0, connection_id);
        (n, Some(r))
    } else {
        (m, None)
    };
    if prebind matches Some(Err(_)) {
        (m1, Err(prebind->0->Err_0))
    } else {
        let m2 = RoomModel {
            players: m1.players.update(p, reclaimed_slot(m1.players[p], connection_id, next_resume_token_hash,
                input_socket_token_hash, now, capabilities)),
            ..m1
        };
        let m3 = if !runner_handoff { restore_checking(m2) } else { m2 };
        if m3.link is Some && prebind is None {
            let (m4, r) = link_bound(m3, player_index, connection_id);
            match r {
                Err(e) => (m4, Err(e)),
                Ok(_) => (m4, Ok(())),
            }
        } else {
            (m3, Ok(()))
        }
    }
}

/// Outcome of a client reclaiming slot `player_index`; a refused claim
/// changes nothing, except that a claim after its window closed marks the
/// slot's recovery expired.
pub open spec fn reconnect_outcome(
    m: RoomModel,
    player_index: PlayerIndex,
    resume_token_hash: Seq<char>,
    next_resume_token_hash: ResumeTokenHash,
    input_socket_token_hash: ResumeTokenHash,
    room_epoch: u64,
    connection_id: ConnectionId,
    now: u64,
    capabilities: ClientTransportCapabilities,
) -> (RoomModel, Result<(), RoomError>) {
    match reclaim_refusal(m, player_index, resume_token_hash, room_epoch, now) {
        Some(RoomError::RecoveryExpired) => {
            let p = player_index.0 as int;
            (RoomModel {
                players: m.players.update(p, PlayerSlot {
                    status: PlayerStatus::RecoveryExpired,
                    runtime_state: PlayerRuntimeState::RecoveryExpired,
                    ..m.players[p]
                }),
                ..m
            }, Err(RoomError::RecoveryExpired))
        },
        Some(e) => (m, Err(e)),
        None => reclaim_commit(m, player_index, next_resume_token_hash, input_socket_token_hash, connection_id, now,
            capabilities),
    }
}

/// Milliseconds from `earlier` to `now`, zero when `earlier` is later.
pub open spec fn elapsed(now: u64, earlier: u64) -> u64 {
    if now >= earlier { (now - earlier) as u64 } else { 0 }
}

/// Whether slot `s`'s reconnect deadline passed at `now`.
pub open spec fn recovery_deadline_passed(s: PlayerSlot, now: u64) -> bool {
    s.reconnect_deadline matches Some(deadline) && now >= deadline
}

/// Slot `s` after a heartbeat at `now`.
pub open spec fn heartbeat_slot(
    s: PlayerSlot,
    now: u64,
    local_frame: Option<u64>,
    network: Option<ClientNetworkQualityReport>,
    runtime_state: ClientRuntimeState,
) -> PlayerSlot {
    let s1 = PlayerSlot { last_seen_at: Some(now), runtime_state: runtime_state_of(runtime_state), ..s };
    let s2 = match local_frame {
        Some(f) => PlayerSlot { latest_local_frame: Some(f), latest_local_frame_reported_at: Some(now), ..s1 },
        None => s1,
    };
    match network {
        Some(n) => PlayerSlot { latest_network_report: Some(n), latest_network_reported_at: Some(now), ..s2 },
        None => s2,
    }
}

/// Outcome of a heartbeat from the control connection `connection_id`.
pub open spec fn heartbeat_outcome(
    m: RoomModel,
    connection_id: ConnectionId,
    now: u64,
    local_frame: Option<u64>,
    network: Option<ClientNetworkQualityReport>,
    runtime_state: ClientRuntimeState,
) -> (RoomModel, Result<(), RoomError>) {
    match connection_player(m.players, connection_id) {
        None => (m, Err(RoomError::UnknownConnection)),
        Some(player_index) => {
            let p = player_index.0 as int;
            let players = if p < m.players.len() {
                m.players.update(p, heartbeat_slot(m.players[p], now, local_frame, network, runtime_state))
            } else {
                m.players
            };
            (RoomModel { players, ..m }, Ok(()))
        },
    }
}

/// Whether connected slot `s` has gone quiet for at least `stale` but less
/// than `disconnect` milliseconds at `now` and is not yet marked stale.
pub open spec fn turns_stale(s: PlayerSlot, now: u64, stale: u64, disconnect: u64) -> bool {
    &&& s.connection_id is Some
    &&& s.last_seen_at is Some
    &&& elapsed(now, s.last_seen_at->0) >= stale
    &&& elapsed(now, s.last_seen_at->0) < disconnect
    &&& s.runtime_state != PlayerRuntimeState::Stale
}

/// Slot `s` with its staleness at `now` recorded.
pub open spec fn staled_slot(s: PlayerSlot, now: u64, stale: u64, disconnect: u64) -> PlayerSlot {
    if turns_stale(s, now, stale, disconnect) { PlayerSlot { runtime_state: PlayerRuntimeState::Stale, ..s } } else { s }
}

/// Outcome of marking heartbeat-stale sockets at `now` in a live room; the
/// flag reports whether any slot changed.
pub open spec fn stale_outcome(m: RoomModel, now: u64, stale: u64, disconnect: u64) -> (RoomModel, bool) {
    if !is_live_status(m.status) {
        (m, false)
    } else {
        (RoomModel { players: Seq::new(m.players.len(), |i: int| staled_slot(m.players[i], now, stale, disconnect)), ..m },
            exists|i: int| 0 <= i < m.players.len() && turns_stale(#[trigger] m.players[i], now, stale, disconnect))
    }
}

/// Whether a recovering room has passed a player's reconnect deadline.
pub open spec fn recovery_expired(m: RoomModel, now: u64) -> bool {
    m.status == RoomStatus::Recovering && exists|i: int| 0 <= i < m.players.len() && recovery_deadline_passed(#[trigger] m.players[i], now)
}

/// Whether some slot is occupied, every occupied slot has been quiet for
/// `idle_timeout`, and no slot has a control connection.
pub open spec fn idle_disconnected(players: Seq<PlayerSlot>, now: u64, idle_timeout: u64) -> bool {
    &&& exists|i: int| 0 <= i < players.len() && (#[trigger] players[i]).status != PlayerStatus::Empty
    &&& forall|i: int| 0 <= i < players.len() && (#[trigger] players[i]).status != PlayerStatus::Empty
        && players[i].last_seen_at is Some ==> elapsed(now, players[i].last_seen_at->0) >= idle_timeout
    &&& forall|i: int| 0 <= i < players.len() ==> (#[trigger] players[i]).connection_id is None
}

/// Whether connected slot `s` has been quiet for at least `disconnect`
/// milliseconds at `now`.
pub open spec fn timed_out(s: PlayerSlot, now: u64, disconnect: u64) -> bool {
    &&& s.connection_id is Some
    &&& s.last_seen_at is Some
    &&& elapsed(now, s.last_seen_at->0) >= disconnect
}

/// Slots whose heartbeat timed out at `now`, with their connections, in
/// slot order.
pub open spec fn timed_out_connections(players: Seq<PlayerSlot>, now: u64, disconnect: u64) -> Seq<(PlayerIndex, ConnectionId)>
    decreases players.len(),
{
    if players.len() == 0 {
        Seq::empty()
    } else {
        let prior = timed_out_connections(players.drop_last(), now, disconnect);
        let s = players.last();
        if timed_out(s, now, disconnect) {
            prior.push((s.player_index, s.connection_id->0))
        } else {
            prior
        }
    }
}

/// Slot `s` waiting for its player after a heartbeat timeout at `now`.
pub open spec fn timed_out_slot(s: PlayerSlot, now: u64, grace: u64, room_epoch: u64) -> PlayerSlot {
    PlayerSlot {
        connection_id: None,
        input_connection_id: None,
        input_socket_token_hash: None,
        input_socket_control_connection_id: None,
        last_seen_at: Some(now),
        status: PlayerStatus::Reconnecting,
        runtime_state: PlayerRuntimeState::Reconnecting,
        reconnect_deadline: Some((now + grace) as u64),
        reconnect_room_epoch: Some(room_epoch),
        runner_handoff_deadline: None,
        ..s
    }
}

/// Handling the timed-out connections in `timed_out`, in order; a link
/// endpoint that cannot be invalidated closes the room and stops the walk,
/// which the flag reports.
pub open spec fn recover_walk(m: RoomModel, timed_out: Seq<(PlayerIndex, ConnectionId)>, now: u64, grace: u64)
    -> (RoomModel, bool)
    decreases timed_out.len(),
{
    if timed_out.len() == 0 {
        (m, false)
    } else {
        let (m1, closed) = recover_walk(m, timed_out.drop_last(), now, grace);
        if closed {
            (m1, true)
        } else {
            let (player_index, connection_id) = timed_out.last();
            let (m2, invalidated) = link_invalidated(m1, connection_id);
            if invalidated is Err {
                (RoomModel { status: RoomStatus::Closed, ..link_closed(m2) }, true)
            } else {
                let p = player_index.0 as int;
                let m3 = forget_player(m2, player_index.0);
                let players = if p < m3.players.len() {
                    m3.players.update(p, timed_out_slot(m3.players[p], now, grace, m3.room_epoch))
                } else {
                    m3.players
                };
                (RoomModel { players, ..m3 }, false)
            }
        }
    }
}

/// Outcome of policing heartbeats at `now` in a live room: every connection
/// quiet for `disconnect` milliseconds loses its slot's sockets, the slot
/// waits `grace` for its player, and the room enters recovery. The flag
/// reports whether anything timed out.
pub open spec fn recover_outcome(m: RoomModel, now: u64, disconnect: u64, grace: u64) -> (RoomModel, bool) {
    let timed_out = timed_out_connections(m.players, now, disconnect);
    if !is_live_status(m.status) || timed_out.len() == 0 {
        (m, false)
    } else {
        let (m1, closed) = recover_walk(m, timed_out, now, grace);
        if closed { (m1, true) } else { (enter_recovery(m1, m1.room_epoch), true) }
    }
}

impl PlayerSlot {
    /// Takes the host slot over for a new control connection.
    pub fn attach_host_connection(
        &mut self,
        connection_id: ConnectionId,
        resume_token_hash: ResumeTokenHash,
        input_socket_token_hash: ResumeTokenHash,
        now: u64,
        capabilities: ClientTransportCapabilities,
    )
        ensures
            *final(self) == attached_host_slot(*old(self), connection_id, resume_token_hash,
                input_socket_token_hash, now, capabilities),
    {
        self.connection_id = Some(connection_id);
        self.input_connection_id = None;
        self.status = PlayerStatus::Connected;
        self.runtime_state = PlayerRuntimeState::Connected;
        self.resume_token_hash = Some(resume_token_hash);
        self.input_socket_token_hash = Some(input_socket_token_hash);
        self.input_socket_control_connection_id = Some(connection_id);
        self.supports_state_file_relay = capabilities.supports_state_file_relay;
        self.supports_rom_file_relay = capabilities.supports_rom_file_relay;
        self.supports_scheduled_start = capabilities.supports_scheduled_start;
        self.supports_clock_sync = capabilities.supports_clock_sync;
        self.supports_fast_input_relay = capabilities.supports_fast_input_relay;
        self.reconnect_deadline = None;
        self.reconnect_room_epoch = None;
        self.runner_handoff_deadline = None;
        self.last_seen_at = Some(now);
        self.latest_local_frame = None;
        self.latest_local_frame_reported_at = None;
        self.latest_network_report = None;
        self.latest_network_reported_at = None;
    }

    /// Hands the slot to a reconnecting client.
    pub fn reclaim(
        &mut self,
        connection_id: ConnectionId,
        next_resume_token_hash: ResumeTokenHash,
        input_socket_token_hash: ResumeTokenHash,
        now: u64,
        capabilities: ClientTransportCapabilities,
    )
        ensures
            *final(self) == reclaimed_slot(*old(self), connection_id, next_resume_token_hash,
                input_socket_token_hash, now, capabilities),
    {
        self.connection_id = Some(connection_id);
        self.input_connection_id = None;
        self.status = PlayerStatus::Connected;
        self.runtime_state = PlayerRuntimeState::Reconnecting;
        self.resume_token_hash = Some(next_resume_token_hash);
        self.input_socket_token_hash = Some(input_socket_token_hash);
        self.input_socket_control_connection_id = Some(connection_id);
        self.supports_state_file_relay = capabilities.supports_state_file_relay;
        self.supports_rom_file_relay = capabilities.supports_rom_file_relay;
        self.supports_scheduled_start = capabilities.supports_scheduled_start;
        self.supports_clock_sync = capabilities.supports_clock_sync;
        self.supports_fast_input_relay = capabilities.supports_fast_input_relay;
        self.last_seen_at = Some(now);
        self.latest_local_frame = None;
        self.latest_local_frame_reported_at = None;
        self.latest_network_report = None;
        self.latest_network_reported_at = None;
        self.reconnect_deadline = None;
        self.reconnect_room_epoch = None;
        self.runner_handoff_deadline = None;
    }

    /// Records that the reconnect window closed before the player returned.
    pub fn mark_recovery_expired(&mut self)
        ensures
            *final(self) == (PlayerSlot {
                status: PlayerStatus::RecoveryExpired,
                runtime_state: PlayerRuntimeState::RecoveryExpired,
                ..*old(self)
            }),
    {
        self.status = PlayerStatus::RecoveryExpired;
        self.runtime_state = PlayerRuntimeState::RecoveryExpired;
    }

    /// Records a heartbeat at `now`.
    pub fn record_heartbeat(
        &mut self,
        now: u64,
        local_frame: Option<u64>,
        network: Option<ClientNetworkQualityReport>,
        runtime_state: ClientRuntimeState,
    )
        ensures
            *final(self) == heartbeat_slot(*old(self), now, local_frame, network, runtime_state),
    {
        self.last_seen_at = Some(now);
        if let Some(local_frame) = local_frame {
            self.latest_local_frame = Some(local_frame);
            self.latest_local_frame_reported_at = Some(now);
        }
        if let Some(network) = network {
            self.latest_network_report = Some(network);
            self.latest_network_reported_at = Some(now);
        }
        self.runtime_state = PlayerRuntimeState::from_client(runtime_state);
    }

    /// Marks the slot stale when its heartbeat age at `now` calls for it;
    /// returns whether it changed.
    pub fn mark_stale(&mut self, now: u64, stale: u64, disconnect: u64) -> (changed: bool)
        ensures
            *final(self) == staled_slot(*old(self), now, stale, disconnect),
            changed == turns_stale(*old(self), now, stale, disconnect),
    {
        if self.connection_id.is_none() {
            return false;
        }
        let last_seen = match self.last_seen_at {
            Some(t) => t,
            None => return false,
        };
        let heartbeat_age = now.saturating_sub(last_seen);
        if heartbeat_age >= stale && heartbeat_age < disconnect && self.runtime_state != PlayerRuntimeState::Stale {
            self.runtime_state = PlayerRuntimeState::Stale;
            return true;
        }
        false
    }

    /// Drops the sockets of a timed-out player and opens its reconnect window.
    pub fn time_out(&mut self, now: u64, grace: u64, room_epoch: u64)
        requires
            now + grace <= u64::MAX,
        ensures
            *final(self) == timed_out_slot(*old(self), now, grace, room_epoch),
    {
        self.connection_id = None;
        self.input_connection_id = None;
        self.input_socket_token_hash = None;
        self.input_socket_control_connection_id = None;
        self.last_seen_at = Some(now);
        self.status = PlayerStatus::Reconnecting;
        self.runtime_state = PlayerRuntimeState::Reconnecting;
        self.reconnect_deadline = Some(now + grace);
        self.reconnect_room_epoch = Some(room_epoch);
        self.runner_handoff_deadline = None;
    }

    /// Disconnects an occupied slot because the room ended at `now`.
    pub fn end_for_exit(&mut self, now: u64)
        ensures
            *final(self) == exited_slot(*old(self), now),
    {
        if !self.is_empty() {
            self.connection_id = None;
            self.input_connection_id = None;
            self.input_socket_token_hash = None;
            self.input_socket_control_connection_id = None;
            self.last_seen_at = Some(now);
            self.latest_local_frame = None;
            self.latest_local_frame_reported_at = None;
            self.latest_network_report = None;
            self.latest_network_reported_at = None;
            self.reconnect_deadline = None;
            self.reconnect_room_epoch = None;
            self.runner_handoff_deadline = None;
            self.status = PlayerStatus::Disconnected;
            self.runtime_state = PlayerRuntimeState::Disconnected;
        }
    }
}

impl NetplayRoom {
    /// Position of the first empty slot.
    pub fn empty_slot_position(&self) -> (r: Option<usize>)
        ensures
            r matches Some(k) ==> k < self.players@.len() && empty_position(self.players@) == Some(k as int),
            r is None ==> empty_position(self.players@) is None,
    {
        let mut i: usize = 0;
        while i < self.players.len()
            invariant
                i <= self.players@.len(),
                forall|j: int| 0 <= j < i ==> self.players@[j].status != PlayerStatus::Empty,
            decreases self.players@.len() - i,
        {
            if self.players[i].is_empty() {
                proof {
                    let k = choose|k: int| 0 <= k < self.players@.len() && self.players@[k].status == PlayerStatus::Empty
                        && forall|j: int| 0 <= j < k ==> self.players@[j].status != PlayerStatus::Empty;
                    assert(0 <= i < self.players@.len() && self.players@[i as int].status == PlayerStatus::Empty
                        && forall|j: int| 0 <= j < i ==> self.players@[j].status != PlayerStatus::Empty);
                    assert(k == i) by {
                        if k < i {
                        } else if k > i {
                        }
                    }
                }
                return Some(i);
            }
            i = i + 1;
        }
        None
    }

    /// Position of the host slot.
    pub(crate) fn host_slot_position(&self) -> (r: Option<usize>)
        requires
            self.wf(),
        ensures
            r == Some(0usize),
    {
        let mut i: usize = 0;
        while i < self.players.len()
            invariant
                self.wf(),
                i <= self.players@.len(),
                i == 0,
            decreases self.players@.len() - i,
        {
            if self.players[i].role == PlayerRole::Host {
                return Some(i);
            }
            i = i + 1;
        }
        None
    }

    /// Attaches the verified host subject's control connection to the
    /// reserved host slot and stores fresh resume capabilities. A previous
    /// host connection loses its link endpoint; in a link room the new
    /// connection is bound to it.
    pub fn attach_host_with_resume(
        &mut self,
        subject_key: &String,
        connection_id: ConnectionId,
        resume_token_hash: ResumeTokenHash,
        input_socket_token_hash: ResumeTokenHash,
        now: u64,
        capabilities: ClientTransportCapabilities,
    ) -> (r: Result<PlayerIndex, RoomError>)
        requires
            old(self).wf(),
        ensures
            final(self).wf(),
            same_identity(old(self), final(self)),
            (final(self)@, r) == attach_host_outcome(old(self)@, subject_key@, connection_id, resume_token_hash,
                input_socket_token_hash, now, capabilities),
    {
        if self.status == RoomStatus::Closed {
            return Err(RoomError::RoomClosed);
        }
        let slot_position = match self.host_slot_position() {
            Some(p) => p,
            None => return Err(RoomError::UnknownConnection),
        };
        let player_index = self.players[slot_position].player_index;
        let previous_connection = self.players[slot_position].connection_id;
        let subject_matches = match &self.players[slot_position].subject_key {
            Some(key) => key.eq(subject_key),
            None => false,
        };
        if !subject_matches {
            return Err(RoomError::HostSubjectMismatch);
        }
        if let Some(previous_connection) = previous_connection {
            if previous_connection.0 != connection_id.0 {
                if let Err(error) = self.invalidate_link_cable_connection_if_present(previous_connection) {
                    return Err(error);
                }
            }
        }
        self.players[slot_position].attach_host_connection(
            connection_id,
            resume_token_hash,
            input_socket_token_hash,
            now,
            capabilities,
        );
        self.sync.ready_players.remove(&player_index.0);
        if self.is_link_cable() {
            if let Err(error) = self.bind_link_cable_connection(player_index, connection_id) {
                return Err(error);
            }
        }
        Ok(player_index)
    }

    /// Attaches the host's control connection with no resume capability and
    /// no optional transport features.
    pub fn attach_host(&mut self, subject_key: &String, connection_id: ConnectionId, now: u64) -> (r: Result<PlayerIndex, RoomError>)
        requires
            old(self).wf(),
        ensures
            final(self).wf(),
            same_identity(old(self), final(self)),
            exists|resume: String, input: String|
                #![trigger attach_host_outcome(old(self)@, subject_key@, connection_id, resume, input, now, no_capabilities())]
                resume@.len() == 0 && input@.len() == 0
                && (final(self)@, r) == attach_host_outcome(old(self)@, subject_key@, connection_id, resume, input, now, no_capabilities()),
    {
        let resume_token_hash = String::new();
        let input_socket_token_hash = String::new();
        let capabilities = ClientTransportCapabilities {
            supports_state_file_relay: false,
            supports_rom_file_relay: false,
            supports_scheduled_start: false,
            supports_clock_sync: false,
            supports_fast_input_relay: false,
        };
        let ghost resume = resume_token_hash;
        let ghost input = input_socket_token_hash;
        let r = self.attach_host_with_resume(subject_key, connection_id, resume_token_hash, input_socket_token_hash,
            now, capabilities);
        assert(capabilities == no_capabilities());
        assert((self@, r) == attach_host_outcome(old(self)@, subject_key@, connection_id, resume, input, now, no_capabilities()));
        r
    }

    /// Ends the room because one player intentionally left: the room and its
    /// link provider close and every occupied slot is disconnected.
    pub fn player_exited(&mut self, connection_id: ConnectionId, now: u64) -> (r: Result<PlayerIndex, RoomError>)
        requires
            old(self).wf(),
        ensures
            final(self).wf(),
            same_identity(old(self), final(self)),
            match crate::room::connection_player(old(self)@.players, connection_id) {
                None => final(self)@ == old(self)@ && r == Err::<PlayerIndex, RoomError>(RoomError::UnknownConnection),
                Some(p) => final(self)@ == exited_room(old(self)@, now) && r == Ok::<PlayerIndex, RoomError>(p),
            },
    {
        let player_index = match self.player_index_for_connection(connection_id) {
            Some(p) => p,
            None => return Err(RoomError::UnknownConnection),
        };
        if self.is_link_cable() {
            let _ = self.close_link_cable_data_plane();
        }
        self.status = RoomStatus::Closed;
        self.reset_sync_state();
        let ghost before = self@;
        let ghost identity = *self;
        let n = self.players.len();
        let mut i: usize = 0;
        while i < n
            invariant
                self.wf(),
                same_identity(&identity, self),
                n == self.players@.len(),
                n == before.players.len(),
                i <= n,
                self@ == (RoomModel { players: self.players@, ..before }),
                forall|j: int| 0 <= j < i ==> self.players@[j] == exited_slot(before.players[j], now),
                forall|j: int| i <= j < n ==> self.players@[j] == before.players[j],
            decreases n - i,
        {
            self.players[i].end_for_exit(now);
            i = i + 1;
        }
        assert(self.players@ =~= Seq::new(before.players.len(), |j: int| exited_slot(before.players[j], now)));
        Ok(player_index)
    }

    /// Marks the connection disconnected and starts recovery when
    /// appropriate; returns whether the room closed.
    pub fn disconnect_with_recovery(&mut self, connection_id: ConnectionId, now: u64, reconnect_grace: u64)
        -> (r: Result<bool, RoomError>)
        requires
            old(self).wf(),
            now + reconnect_grace <= u64::MAX,
        ensures
            final(self).wf(),
            same_identity(old(self), final(self)),
            (final(self)@, r) == disconnect_outcome(old(self)@, connection_id, now, reconnect_grace),
    {
        match self.preserve_runner_handoff_disconnect(connection_id, now) {
            Err(error) => return Err(error),
            Ok(true) => {
                if let Err(error) = self.invalidate_link_cable_connection_if_present(connection_id) {
                    return Err(error);
                }
                return Ok(false);
            },
            Ok(false) => {},
        }
        if let Err(error) = self.invalidate_link_cable_connection_if_present(connection_id) {
            return Err(error);
        }
        let position = match self.connection_slot_position(connection_id) {
            Some(p) => p,
            None => return Err(RoomError::UnknownConnection),
        };
        let player_index = self.players[position].player_index;
        let is_host = self.players[position].role == PlayerRole::Host;
        let already_recovering = self.status == RoomStatus::Recovering;
        let recoverable = self.status == RoomStatus::StartScheduled || self.status == RoomStatus::Playing
            || self.status == RoomStatus::Paused || self.status == RoomStatus::RepairingState
            || self.status == RoomStatus::Recovering;
        let reconnect_room_epoch = match self.players[position].reconnect_room_epoch {
            Some(epoch) => epoch,
            None => if already_recovering { self.room_epoch.saturating_sub(1) } else { self.room_epoch },
        };
        self.players[position].detach(now);
        self.sync.forget_player(player_index.0);
        if recoverable {
            self.mark_slot_reconnecting(player_index, now, reconnect_grace, reconnect_room_epoch);
            if !already_recovering {
                self.enter_recovery_state(reconnect_room_epoch);
                if self.status == RoomStatus::Closed {
                    return Ok(true);
                }
            }
            return Ok(false);
        }
        self.clear_disconnected_slot(player_index, is_host);
        if is_host {
            return Ok(true);
        }
        self.status = RoomStatus::WaitingForGuest;
        Ok(false)
    }

    /// Marks the connection disconnected with no reconnect window; returns
    /// whether the room closed.
    pub fn disconnect(&mut self, connection_id: ConnectionId, now: u64) -> (r: Result<bool, RoomError>)
        requires
            old(self).wf(),
        ensures
            final(self).wf(),
            same_identity(old(self), final(self)),
            (final(self)@, r) == disconnect_outcome(old(self)@, connection_id, now, 0),
    {
        self.disconnect_with_recovery(connection_id, now, 0)
    }

    /// Why the reclaim of slot `player_index` must be refused, if it must.
    pub(crate) fn reclaim_refusal_for(&self, player_index: PlayerIndex, resume_token_hash: &str, room_epoch: u64, now: u64)
        -> (r: Option<RoomError>)
        requires
            self.wf(),
        ensures
            r == reclaim_refusal(self@, player_index, resume_token_hash@, room_epoch, now),
    {
        if self.status == RoomStatus::Closed {
            return Some(RoomError::RoomClosed);
        }
        let slot_position = match self.player_slot_position(player_index) {
            Some(p) => p,
            None => return Some(RoomError::UnknownConnection),
        };
        let slot = &self.players[slot_position];
        let token_matches = match &slot.resume_token_hash {
            Some(hash) => str_eq(hash.as_str(), resume_token_hash),
            None => false,
        };
        if !token_matches {
            return Some(RoomError::ResumeTokenInvalid);
        }
        let runner_handoff = slot.runner_handoff_deadline.is_some();
        if !runner_handoff && (slot.connection_id.is_some() || slot.reconnect_deadline.is_none()) {
            return Some(RoomError::ResumeTokenInvalid);
        }
        let accepted_epoch = match slot.reconnect_room_epoch {
            Some(epoch) => epoch,
            None => self.room_epoch,
        };
        if room_epoch != accepted_epoch && room_epoch != self.room_epoch {
            return Some(RoomError::StaleRoomEpoch);
        }
        let reconnect_expired = match slot.reconnect_deadline {
            Some(deadline) => now >= deadline,
            None => false,
        };
        let runner_handoff_expired = match slot.runner_handoff_deadline {
            Some(deadline) => now >= deadline,
            None => false,
        };
        if reconnect_expired || runner_handoff_expired {
            return Some(RoomError::RecoveryExpired);
        }
        None
    }

    /// Hands an admitted slot to its reconnecting client.
    pub(crate) fn commit_reclaim(
        &mut self,
        player_index: PlayerIndex,
        next_resume_token_hash: ResumeTokenHash,
        input_socket_token_hash: ResumeTokenHash,
        connection_id: ConnectionId,
        now: u64,
        capabilities: ClientTransportCapabilities,
    ) -> (r: Result<(), RoomError>)
        requires
            old(self).wf(),
            (player_index.0 as int) < old(self).players@.len(),
        ensures
            final(self).wf(),
            same_identity(old(self), final(self)),
            (final(self)@, r) == reclaim_commit(old(self)@, player_index, next_resume_token_hash,
                input_socket_token_hash, connection_id, now, capabilities),
    {
        let slot_position = player_index.0 as usize;
        let runner_handoff = self.players[slot_position].runner_handoff_deadline.is_some();
        let previous_connection_id = self.players[slot_position].connection_id;
        let link_endpoint_prebound = if self.is_link_cable() && runner_handoff {
            match previous_connection_id {
                Some(previous_connection_id) => {
                    if let Err(error) = self.replace_link_cable_connection(player_index, previous_connection_id,
                        connection_id) {
                        return Err(error);
                    }
                    true
                },
                None => false,
            }
        } else {
            false
        };
        self.players[slot_position].reclaim(
            connection_id,
            next_resume_token_hash,
            input_socket_token_hash,
            now,
            capabilities,
        );
        if !runner_handoff {
            self.restore_checking_compatibility_after_recovery();
        }
        if self.is_link_cable() && !link_endpoint_prebound {
            if let Err(error) = self.bind_link_cable_connection(player_index, connection_id) {
                return Err(error);
            }
        }
        Ok(())
    }

    /// Reclaims a disconnected player slot with a matching resume token hash.
    pub fn reconnect_player(&mut self, request: PlayerReconnectRequest<'_>) -> (r: Result<(), RoomError>)
        requires
            old(self).wf(),
        ensures
            final(self).wf(),
            same_identity(old(self), final(self)),
            (final(self)@, r) == reconnect_outcome(old(self)@, request.player_index, request.resume_token_hash@,
                request.next_resume_token_hash, request.input_socket_token_hash, request.room_epoch,
                request.connection_id, request.now, request.capabilities),
    {
        match self.reclaim_refusal_for(request.player_index, request.resume_token_hash, request.room_epoch, request.now) {
            Some(RoomError::RecoveryExpired) => {
                self.players[request.player_index.0 as usize].mark_recovery_expired();
                Err(RoomError::RecoveryExpired)
            },
            Some(error) => Err(error),
            None => self.commit_reclaim(
                request.player_index,
                request.next_resume_token_hash,
                request.input_socket_token_hash,
                request.connection_id,
                request.now,
                request.capabilities,
            ),
        }
    }

    /// Records a heartbeat from a connected player.
    pub fn record_heartbeat(
        &mut self,
        connection_id: ConnectionId,
        now: u64,
        local_frame: Option<u64>,
        network: Option<ClientNetworkQualityReport>,
        runtime_state: ClientRuntimeState,
    ) -> (r: Result<(), RoomError>)
        requires
            old(self).wf(),
        ensures
            final(self).wf(),
            same_identity(old(self), final(self)),
            (final(self)@, r) == heartbeat_outcome(old(self)@, connection_id, now, local_frame, network, runtime_state),
    {
        let player_index = match self.player_index_for_connection(connection_id) {
            Some(p) => p,
            None => return Err(RoomError::UnknownConnection),
        };
        if let Some(position) = self.player_slot_position(player_index) {
            self.players[position].record_heartbeat(now, local_frame, network, runtime_state);
        }
        Ok(())
    }

    /// Marks heartbeat-stale sockets before they reach recovery timeout;
    /// returns whether any slot changed.
    pub fn mark_stale_connections(&mut self, now: u64, heartbeat_stale: u64, heartbeat_disconnect: u64) -> (changed: bool)
        requires
            old(self).wf(),
        ensures
            final(self).wf(),
            same_identity(old(self), final(self)),
            (final(self)@, changed) == stale_outcome(old(self)@, now, heartbeat_stale, heartbeat_disconnect),
    {
        if !(self.status == RoomStatus::StartScheduled || self.status == RoomStatus::Playing
            || self.status == RoomStatus::Paused || self.status == RoomStatus::RepairingState) {
            return false;
        }
        let ghost before = self@;
        let ghost identity = *self;
        let n = self.players.len();
        let mut changed = false;
        let mut i: usize = 0;
        while i < n
            invariant
                self.wf(),
                same_identity(&identity, self),
                n == self.players@.len(),
                n == before.players.len(),
                i <= n,
                self@ == (RoomModel { players: self.players@, ..before }),
                forall|j: int| 0 <= j < i ==> self.players@[j] == staled_slot(before.players[j], now, heartbeat_stale, heartbeat_disconnect),
                forall|j: int| i <= j < n ==> self.players@[j] == before.players[j],
                changed == exists|j: int| 0 <= j < i && turns_stale(#[trigger] before.players[j], now, heartbeat_stale, heartbeat_disconnect),
            decreases n - i,
        {
            if self.players[i].mark_stale(now, heartbeat_stale, heartbeat_disconnect) {
                changed = true;
            }
            i = i + 1;
        }
        assert(self.players@ =~= Seq::new(before.players.len(),
            |j: int| staled_slot(before.players[j], now, heartbeat_stale, heartbeat_disconnect)));
        changed
    }

    /// Starts recovery for sockets whose heartbeat exceeded the disconnect
    /// window; returns whether any socket timed out.
    pub fn recover_stale_connections(&mut self, now: u64, heartbeat_disconnect: u64, reconnect_grace: u64) -> (recovered: bool)
        requires
            old(self).wf(),
            now + reconnect_grace <= u64::MAX,
        ensures
            final(self).wf(),
            same_identity(old(self), final(self)),
            (final(self)@, recovered) == recover_outcome(old(self)@, now, heartbeat_disconnect, reconnect_grace),
    {
        if !(self.status == RoomStatus::StartScheduled || self.status == RoomStatus::Playing
            || self.status == RoomStatus::Paused || self.status == RoomStatus::RepairingState) {
            return false;
        }
        let ghost start = self@;
        let mut stale_players: Vec<(PlayerIndex, ConnectionId)> = Vec::new();
        let mut i: usize = 0;
        while i < self.players.len()
            invariant
                self.wf(),
                self@ == start,
                i <= self.players@.len(),
                stale_players@ == timed_out_connections(self.players@.take(i as int), now, heartbeat_disconnect),
            decreases self.players@.len() - i,
        {
            proof {
                assert(self.players@.take(i + 1).drop_last() == self.players@.take(i as int));
            }
            if let Some(connection_id) = self.players[i].connection_id {
                if let Some(last_seen) = self.players[i].last_seen_at {
                    if now.saturating_sub(last_seen) >= heartbeat_disconnect {
                        stale_players.push((self.players[i].player_index, connection_id));
                    }
                }
            }
            i = i + 1;
        }
        proof {
            assert(self.players@.take(self.players@.len() as int) == self.players@);
        }
        if stale_players.len() == 0 {
            return false;
        }
        let ghost list = stale_players@;
        let ghost identity = *self;
        let mut k: usize = 0;
        while k < stale_players.len()
            invariant
                self.wf(),
                same_identity(&identity, self),
                same_identity(old(self), self),
                start == old(self)@,
                now + reconnect_grace <= u64::MAX,
                stale_players@ == list,
                list == timed_out_connections(start.players, now, heartbeat_disconnect),
                list.len() > 0,
                is_live_status(start.status),
                k <= list.len(),
                recover_walk(start, list.take(k as int), now, reconnect_grace) == (self@, false),
            decreases list.len() - k,
        {
            proof {
                assert(list.take(k + 1).drop_last() == list.take(k as int));
            }
            let (player_index, connection_id) = stale_players[k];
            if self.invalidate_link_cable_connection_if_present(connection_id).is_err() {
                if self.is_link_cable() {
                    let _ = self.close_link_cable_data_plane();
                }
                self.status = RoomStatus::Closed;
                proof {
                    lemma_recover_walk_stops(start, list, (k + 1) as int, now, reconnect_grace);
                    assert(list.take(list.len() as int) == list);
                }
                return true;
            }
            self.sync.forget_player(player_index.0);
            let room_epoch = self.room_epoch;
            if let Some(position) = self.player_slot_position(player_index) {
                self.players[position].time_out(now, reconnect_grace, room_epoch);
            }
            k = k + 1;
        }
        proof {
            assert(list.take(list.len() as int) == list);
        }
        let room_epoch = self.room_epoch;
        self.enter_recovery_state(room_epoch);
        true
    }

    /// Returns whether a recovering room has exceeded a player recovery deadline.
    pub fn is_recovery_expired(&self, now: u64) -> (expired: bool)
        ensures
            expired == recovery_expired(self@, now),
    {
        if self.status != RoomStatus::Recovering {
            return false;
        }
        let mut i: usize = 0;
        while i < self.players.len()
            invariant
                i <= self.players@.len(),
                self.status == RoomStatus::Recovering,
                forall|j: int| 0 <= j < i ==> !recovery_deadline_passed(#[trigger] self.players@[j], now),
            decreases self.players@.len() - i,
        {
            if let Some(deadline) = self.players[i].reconnect_deadline {
                if now >= deadline {
                    assert(recovery_deadline_passed(self@.players[i as int], now));
                    return true;
                }
            }
            i = i + 1;
        }
        false
    }

    /// Returns whether all occupied slots have been disconnected long enough.
    pub fn is_idle_disconnected(&self, now: u64, idle_timeout: u64) -> (idle: bool)
        ensures
            idle == idle_disconnected(self.players@, now, idle_timeout),
    {
        let mut any_occupied = false;
        let mut all_idle = true;
        let mut none_connected = true;
        let mut i: usize = 0;
        while i < self.players.len()
            invariant
                i <= self.players@.len(),
                any_occupied == exists|j: int| 0 <= j < i && (#[trigger] self.players@[j]).status != PlayerStatus::Empty,
                all_idle == forall|j: int| 0 <= j < i && (#[trigger] self.players@[j]).status != PlayerStatus::Empty
                    && self.players@[j].last_seen_at is Some ==> elapsed(now, self.players@[j].last_seen_at->0) >= idle_timeout,
                none_connected == forall|j: int| 0 <= j < i ==> (#[trigger] self.players@[j]).connection_id is None,
            decreases self.players@.len() - i,
        {
            let slot = &self.players[i];
            if !slot.is_empty() {
                any_occupied = true;
                if let Some(last_seen) = slot.last_seen_at {
                    if now.saturating_sub(last_seen) < idle_timeout {
                        all_idle = false;
                    }
                }
            }
            if slot.connection_id.is_some() {
                none_connected = false;
            }
            i = i + 1;
        }
        any_occupied && all_idle && none_connected
    }

    /// Adds a guest to the first empty slot and stores the resume-token hash
    /// for future reconnects. The room starts a new compatibility cycle; in
    /// a link room the guest's connection is bound to its endpoint, and a
    /// failed binding closes the room.
    pub fn join_guest_with_resume(
        &mut self,
        subject_key: String,
        connection_id: ConnectionId,
        resume_token_hash: ResumeTokenHash,
        input_socket_token_hash: ResumeTokenHash,
        now: u64,
        capabilities: ClientTransportCapabilities,
    ) -> (r: Result<PlayerIndex, RoomError>)
        requires
            old(self).wf(),
        ensures
            final(self).wf(),
            same_identity(old(self), final(self)),
            (final(self)@, r) == join_outcome(old(self)@, subject_key, connection_id, resume_token_hash,
                input_socket_token_hash, now, capabilities),
    {
        if self.status == RoomStatus::Closed {
            return Err(RoomError::RoomClosed);
        }
        let position = match self.empty_slot_position() {
            Some(p) => p,
            None => return Err(RoomError::RoomFull),
        };
        self.players[position].occupy_guest(
            subject_key,
            connection_id,
            resume_token_hash,
            input_socket_token_hash,
            now,
            capabilities,
        );
        let player_index = self.players[position].player_index;
        if let Err(error) = self.reset_sync_for_checking_compatibility() {
            self.clear_disconnected_slot(player_index, false);
            return Err(error);
        }
        if self.is_link_cable() {
            if let Err(error) = self.bind_link_cable_connection(player_index, connection_id) {
                let _ = self.close_link_cable_data_plane();
                self.status = RoomStatus::Closed;
                self.clear_disconnected_slot(player_index, false);
                return Err(error);
            }
        }
        Ok(player_index)
    }

    /// Adds a guest with no resume capability and no optional transport
    /// features.
    pub fn join_guest(&mut self, subject_key: String, connection_id: ConnectionId, now: u64) -> (r: Result<PlayerIndex, RoomError>)
        requires
            old(self).wf(),
        ensures
            final(self).wf(),
            same_identity(old(self), final(self)),
            exists|resume: String, input: String|
                #![trigger join_outcome(old(self)@, subject_key, connection_id, resume, input, now, no_capabilities())]
                resume@.len() == 0 && input@.len() == 0
                && (final(self)@, r) == join_outcome(old(self)@, subject_key, connection_id, resume, input, now, no_capabilities()),
    {
        let resume_token_hash = String::new();
        let input_socket_token_hash = String::new();
        let capabilities = ClientTransportCapabilities {
            supports_state_file_relay: false,
            supports_rom_file_relay: false,
            supports_scheduled_start: false,
            supports_clock_sync: false,
            supports_fast_input_relay: false,
        };
        let ghost resume = resume_token_hash;
        let ghost input = input_socket_token_hash;
        let r = self.join_guest_with_resume(subject_key, connection_id, resume_token_hash, input_socket_token_hash,
            now, capabilities);
        assert(capabilities == no_capabilities());
        assert((self@, r) == join_outcome(old(self)@, subject_key, connection_id, resume, input, now, no_capabilities()));
        r
    }
}

/// Once a link failure closed the room, the rest of the walk changes nothing.
proof fn lemma_recover_walk_stops(m: RoomModel, timed_out: Seq<(PlayerIndex, ConnectionId)>, k: int, now: u64, grace: u64)
    requires
        0 <= k <= timed_out.len(),
        recover_walk(m, timed_out.take(k), now, grace).1,
    ensures
        recover_walk(m, timed_out, now, grace) == recover_walk(m, timed_out.take(k), now, grace),
    decreases timed_out.len() - k,
{
    if k < timed_out.len() {
        assert(timed_out.take(k + 1).drop_last() == timed_out.take(k));
        lemma_recover_walk_stops(m, timed_out, k + 1, now, grace);
    } else {
        assert(timed_out.take(k) == timed_out);
    }
}

/// A heartbeat keeps what it carries: the slot is seen at the heartbeat's
/// time, a carried network sample becomes the slot's latest one, stamped
/// with that time, and a carried local frame likewise; what the heartbeat
/// does not carry stays as it was, and the slot's identity and connections
/// are untouched.
pub proof fn law_heartbeat_keeps_its_samples(
    s: PlayerSlot,
    now: u64,
    local_frame: Option<u64>,
    network: Option<ClientNetworkQualityReport>,
    runtime_state: ClientRuntimeState,
)
    ensures
        ({
            let t = heartbeat_slot(s, now, local_frame, network, runtime_state);
            &&& t.last_seen_at == Some(now)
            &&& match network {
                Some(n) => t.latest_network_report == Some(n) && t.latest_network_reported_at == Some(now),
                None => t.latest_network_report == s.latest_network_report
                    && t.latest_network_reported_at == s.latest_network_reported_at,
            }
            &&& match local_frame {
                Some(f) => t.latest_local_frame == Some(f) && t.latest_local_frame_reported_at == Some(now),
                None => t.latest_local_frame == s.latest_local_frame
                    && t.latest_local_frame_reported_at == s.latest_local_frame_reported_at,
            }
            &&& t.player_index == s.player_index
            &&& t.role == s.role
            &&& t.status == s.status
            &&& t.connection_id == s.connection_id
            &&& t.input_connection_id == s.input_connection_id
            &&& t.subject_key == s.subject_key
        }),
{
}

/// A heartbeat from a player's control connection stores its samples in
/// that player's slot: afterwards the slot holds the carried network sample
/// as its latest one, stamped with the heartbeat's time.
pub proof fn law_room_heartbeat_stores_the_network_sample(
    m: RoomModel,
    connection_id: ConnectionId,
    now: u64,
    local_frame: Option<u64>,
    network: ClientNetworkQualityReport,
    runtime_state: ClientRuntimeState,
)
    requires
        room_model_wf(m),
    ensures
        ({
            let (after, r) = heartbeat_outcome(m, connection_id, now, local_frame, Some(network), runtime_state);
            match connection_player(m.players, connection_id) {
                None => r == Err::<(), RoomError>(RoomError::UnknownConnection) && after == m,
                Some(p) => {
                    &&& r == Ok::<(), RoomError>(())
                    &&& after.players[p.0 as int].latest_network_report == Some(network)
                    &&& after.players[p.0 as int].latest_network_reported_at == Some(now)
                    &&& after.players[p.0 as int].last_seen_at == Some(now)
                },
            }
        }),
{
    if let Some(p) = connection_player(m.players, connection_id) {
        let i = connection_position(m.players, connection_id)->0;
        assert(m.players[i].player_index == PlayerIndex(i as u8));
    }
}

} // verus!
