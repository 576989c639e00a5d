//! Short-lived desktop-to-runner room handoff lifecycle.
//!
//! This module owns arming, preserving, and expiring the one-time window used
//! after an authenticated initial control join. It never parses bearer tokens
//! or performs transport authentication. Handoff deadlines remain private and
//! use the registry's monotonic clock.

use vstd::prelude::*;
use crate::errors::RoomError;
use crate::ids::{ConnectionId, PlayerIndex};
use crate::player_slot::{PlayerRole, PlayerRuntimeState, PlayerSlot, PlayerStatus};
use crate::room::{clear_slot, connection_position, reset_sync, same_identity, NetplayRoom, RoomModel};
use crate::room_connection_diagnostics::RoomStatus;

verus! {

/// Statuses in which a delivered join can no longer be handed to a runner.
pub open spec fn blocks_handoff(status: RoomStatus) -> bool {
    ||| status == RoomStatus::Closed
    ||| status == RoomStatus::StartScheduled
    ||| status == RoomStatus::Playing
    ||| status == RoomStatus::Paused
    ||| status == RoomStatus::Recovering
}

/// Outcome of arming a runner handoff for `connection_id` until `now + grace`.
pub open spec fn arm_outcome(m: RoomModel, connection_id: ConnectionId, now: u64, grace: u64) -> (RoomModel, Result<(), RoomError>) {
    if blocks_handoff(m.status) {
        (m, Err(RoomError::RoomNotReady))
    } else {
        match connection_position(m.players, connection_id) {
            None => (m, Err(RoomError::UnknownConnection)),
            Some(p) => (RoomModel {
                players: m.players.update(p, PlayerSlot {
                    runner_handoff_deadline: Some((now + grace) as u64),
                    reconnect_room_epoch: Some(m.room_epoch),
                    ..m.players[p]
                }),
                ..m
            }, Ok(())),
        }
    }
}

/// Outcome of cancelling the runner handoff of `connection_id`.
pub open spec fn cancel_outcome(m: RoomModel, connection_id: ConnectionId) -> (RoomModel, Result<(), RoomError>) {
    match connection_position(m.players, connection_id) {
        None => (m, Err(RoomError::UnknownConnection)),
        Some(p) => (RoomModel {
            players: m.players.update(p, PlayerSlot {
                runner_handoff_deadline: None,
                reconnect_room_epoch: None,
                ..m.players[p]
            }),
            ..m
        }, Ok(())),
    }
}

/// Slot `s` kept for its runner after the desktop socket closed at `now`.
pub open spec fn handed_off_slot(s: PlayerSlot, now: u64, room_epoch: u64) -> PlayerSlot {
    PlayerSlot {
        connection_id: None,
        input_connection_id: None,
        input_socket_token_hash: None,
        input_socket_control_connection_id: None,
        last_seen_at: Some(now),
        latest_local_frame: None,
        latest_local_frame_reported_at: None,
        latest_network_report: None,
        latest_network_reported_at: None,
        status: PlayerStatus::Reconnecting,
        runtime_state: PlayerRuntimeState::Reconnecting,
        reconnect_deadline: None,
        reconnect_room_epoch: Some(room_epoch),
        ..s
    }
}

/// Outcome of the desktop control connection `connection_id` closing at
/// `now`: `Ok(true)` when an armed, unexpired handoff keeps the slot for the
/// runner; an expired marker is dropped and `Ok(false)` returned.
pub open spec fn preserve_outcome(m: RoomModel, connection_id: ConnectionId, now: u64) -> (RoomModel, Result<bool, RoomError>) {
    match connection_position(m.players, connection_id) {
        None => (m, Err(RoomError::UnknownConnection)),
        Some(p) => match m.players[p].runner_handoff_deadline {
            None => (m, Ok(false)),
            Some(deadline) => if now >= deadline {
                (RoomModel { players: m.players.update(p, PlayerSlot { runner_handoff_deadline: None, ..m.players[p] }), ..m }, Ok(false))
            } else {
                (reset_sync(RoomModel { players: m.players.update(p, handed_off_slot(m.players[p], now, m.room_epoch)), ..m }, 0), Ok(true))
            },
        },
    }
}

/// Slots whose handoff deadline passed at `now`: index, role, and whether
/// the slot has no control connection, in slot order.
pub open spec fn expired_handoffs(players: Seq<PlayerSlot>, now: u64) -> Seq<(PlayerIndex, PlayerRole, bool)>
    decreases players.len(),
{
    if players.len() == 0 {
        Seq::empty()
    } else {
        let prior = expired_handoffs(players.drop_last(), now);
        let s = players.last();
        if s.runner_handoff_deadline matches Some(deadline) && now >= deadline {
            prior.push((s.player_index, s.role, s.connection_id is None))
        } else {
            prior
        }
    }
}

/// Expiring the handoffs in `expired`, in order: a connected slot only drops
/// its marker, a disconnected one is cleared, and a cleared host stops the
/// walk. Also reports whether a host closed the room and whether a guest
/// slot was cleared.
pub open spec fn expire_walk(m: RoomModel, expired: Seq<(PlayerIndex, PlayerRole, bool)>) -> (RoomModel, bool, bool)
    decreases expired.len(),
{
    if expired.len() == 0 {
        (m, false, false)
    } else {
        let (m1, host_closed, guest_cleared) = expire_walk(m, expired.drop_last());
        if host_closed {
            (m1, true, guest_cleared)
        } else {
            let (player_index, role, disconnected) = expired.last();
            let p = player_index.0 as int;
            if !disconnected {
                let players = if p < m1.players.len() {
                    m1.players.update(p, PlayerSlot { runner_handoff_deadline: None, ..m1.players[p] })
                } else {
                    m1.players
                };
                (RoomModel { players, ..m1 }, false, guest_cleared)
            } else if role == PlayerRole::Host {
                (clear_slot(m1, p, true), true, guest_cleared)
            } else {
                (clear_slot(m1, p, false), false, true)
            }
        }
    }
}

/// Outcome of expiring handoff slots at `now`: `Some(true)` when a host
/// handoff closed the room, `Some(false)` when guest slots were cleared and
/// the room waits for a guest again, `None` when membership did not change.
pub open spec fn expire_outcome(m: RoomModel, now: u64) -> (RoomModel, Option<bool>) {
    let (m1, host_closed, guest_cleared) = expire_walk(m, expired_handoffs(m.players, now));
    if host_closed {
        (m1, Some(true))
    } else if guest_cleared {
        (RoomModel { status: RoomStatus::WaitingForGuest, ..m1 }, Some(false))
    } else {
        (m1, None)
    }
}

impl PlayerSlot {
    /// Keeps the slot for its runner after the desktop socket closed.
    pub fn hand_off(&mut self, now: u64, room_epoch: u64)
        ensures
            *final(self) == handed_off_slot(*old(self), now, room_epoch),
    {
        self.connection_id = None;
        self.input_connection_id = None;
        self.input_socket_token_hash = None;
        self.input_socket_control_connection_id = None;
        self.last_seen_at = Some(now);
        self.latest_local_frame = None;
        self.latest_local_frame_reported_at = None;
        self.latest_network_report = None;
        self.latest_network_reported_at = None;
        self.status = PlayerStatus::Reconnecting;
        self.runtime_state = PlayerRuntimeState::Reconnecting;
        self.reconnect_deadline = None;
        self.reconnect_room_epoch = Some(room_epoch);
    }
}

impl NetplayRoom {
    /// Arms a delivered initial join for transfer to a runner process.
    ///
    /// The caller arms before sending the join result so a runner claim
    /// cannot race ahead of this marker, then cancels the handoff if delivery
    /// fails.
    pub fn arm_runner_handoff(&mut self, connection_id: ConnectionId, now: u64, grace: u64) -> (r: Result<(), RoomError>)
        requires
            old(self).wf(),
            now + grace <= u64::MAX,
        ensures
            final(self).wf(),
            same_identity(old(self), final(self)),
            (final(self)@, r) == arm_outcome(old(self)@, connection_id, now, grace),
    {
        if self.status == RoomStatus::Closed || self.status == RoomStatus::StartScheduled || self.status == RoomStatus::Playing
            || self.status == RoomStatus::Paused || self.status == RoomStatus::Recovering {
            return Err(RoomError::RoomNotReady);
        }
        let position = match self.connection_slot_position(connection_id) {
            Some(p) => p,
            None => return Err(RoomError::UnknownConnection),
        };
        let room_epoch = self.room_epoch;
        self.players[position].runner_handoff_deadline = Some(now + grace);
        self.players[position].reconnect_room_epoch = Some(room_epoch);
        Ok(())
    }

    /// Cancels a handoff whose capability could not be delivered.
    pub fn cancel_runner_handoff(&mut self, connection_id: ConnectionId) -> (r: Result<(), RoomError>)
        requires
            old(self).wf(),
        ensures
            final(self).wf(),
            same_identity(old(self), final(self)),
            (final(self)@, r) == cancel_outcome(old(self)@, connection_id),
    {
        let position = match self.connection_slot_position(connection_id) {
            Some(p) => p,
            None => return Err(RoomError::UnknownConnection),
        };
        self.players[position].runner_handoff_deadline = None;
        self.players[position].reconnect_room_epoch = None;
        Ok(())
    }

    /// Preserves an armed slot when its desktop control socket closes.
    ///
    /// Returns `true` only while the handoff deadline is still active. Expired
    /// markers are cleared so the caller can apply ordinary disconnect rules.
    pub(crate) fn preserve_runner_handoff_disconnect(&mut self, connection_id: ConnectionId, now: u64) -> (r: Result<bool, RoomError>)
        requires
            old(self).wf(),
        ensures
            final(self).wf(),
            same_identity(old(self), final(self)),
            (final(self)@, r) == preserve_outcome(old(self)@, connection_id, now),
    {
        let position = match self.connection_slot_position(connection_id) {
            Some(p) => p,
            None => return Err(RoomError::UnknownConnection),
        };
        let deadline = match self.players[position].runner_handoff_deadline {
            Some(d) => d,
            None => return Ok(false),
        };
        if now >= deadline {
            self.players[position].runner_handoff_deadline = None;
            return Ok(false);
        }
        let player_index = self.players[position].player_index;
        let room_epoch = self.room_epoch;
        self.players[position].hand_off(now, room_epoch);
        self.sync.forget_player(player_index.0);
        self.reset_sync_state();
        Ok(true)
    }

    /// Expires disconnected handoff slots at their absolute deadline.
    ///
    /// Returns `Some(true)` when a host handoff closed the room, `Some(false)`
    /// when one or more guest slots were cleared, and `None` when no disconnected
    /// handoff changed room membership. Connected expired markers are discarded
    /// without disrupting their still-active control sockets.
    pub fn expire_runner_handoffs(&mut self, now: u64) -> (r: Option<bool>)
        requires
            old(self).wf(),
        ensures
            final(self).wf(),
            same_identity(old(self), final(self)),
            (final(self)@, r) == expire_outcome(old(self)@, now),
    {
        let ghost start = self@;
        let mut expired: Vec<(PlayerIndex, PlayerRole, bool)> = Vec::new();
        let mut i: usize = 0;
        while i < self.players.len()
            invariant
                self.wf(),
                self@ == start,
                i <= self.players@.len(),
                expired@ == expired_handoffs(self.players@.take(i as int), now),
                forall|k: int| 0 <= k < expired@.len() ==> (#[trigger] expired@[k]).0.0 < i
                    && (expired@[k].1 == PlayerRole::Host <==> expired@[k].0.0 == 0),
            decreases self.players@.len() - i,
        {
            proof {
                assert(self.players@.take(i + 1).drop_last() == self.players@.take(i as int));
            }
            let expired_now = match self.players[i].runner_handoff_deadline {
                Some(deadline) => now >= deadline,
                None => false,
            };
            if expired_now {
                expired.push((self.players[i].player_index, self.players[i].role, self.players[i].connection_id.is_none()));
            }
            i = i + 1;
        }
        proof {
            assert(self.players@.take(self.players@.len() as int) == self.players@);
        }
        let ghost list = expired@;
        let ghost identity = *self;
        let mut guest_cleared = false;
        let mut k: usize = 0;
        while k < expired.len()
            invariant
                self.wf(),
                same_identity(&identity, self),
                same_identity(old(self), self),
                start == old(self)@,
                expired@ == list,
                list == expired_handoffs(start.players, now),
                k <= list.len(),
                forall|j: int| 0 <= j < list.len() ==> (#[trigger] list[j]).0.0 < self.players@.len()
                    && (list[j].1 == PlayerRole::Host <==> list[j].0.0 == 0),
                expire_walk(start, list.take(k as int)) == (self@, false, guest_cleared),
            decreases list.len() - k,
        {
            proof {
                assert(list.take(k + 1).drop_last() == list.take(k as int));
            }
            let (player_index, role, disconnected) = expired[k];
            if !disconnected {
                if let Some(position) = self.player_slot_position(player_index) {
                    self.players[position].runner_handoff_deadline = None;
                }
                k = k + 1;
                continue;
            }
            let is_host = role == PlayerRole::Host;
            self.clear_disconnected_slot(player_index, is_host);
            if is_host {
                proof {
                    assert(list.take(list.len() as int) == list);
                    lemma_expire_walk_stops(start, list, (k + 1) as int);
                }
                return Some(true);
            }
            guest_cleared = true;
            k = k + 1;
        }
        proof {
            assert(list.take(list.len() as int) == list);
        }
        if guest_cleared {
            self.status = RoomStatus::WaitingForGuest;
            Some(false)
        } else {
            None
        }
    }
}

/// Once a host closed the room, the rest of the walk changes nothing.
proof fn lemma_expire_walk_stops(m: RoomModel, expired: Seq<(PlayerIndex, PlayerRole, bool)>, k: int)
    requires
        0 <= k <= expired.len(),
        expire_walk(m, expired.take(k)).1,
    ensures
        expire_walk(m, expired) == expire_walk(m, expired.take(k)),
    decreases expired.len() - k,
{
    if k < expired.len() {
        assert(expired.take(k + 1).drop_last() == expired.take(k));
        lemma_expire_walk_stops(m, expired, k + 1);
    } else {
        assert(expired.take(k) == expired);
    }
}

} // verus!
