//! Binary input-socket attachment and recovery operations for active rooms.
//!
//! These operations are separate from the control socket lifecycle so the room
//! model can evolve dual-channel relay behavior without growing the generic
//! connection module.

use vstd::prelude::*;
use crate::errors::RoomError;
use crate::ids::{ConnectionId, PlayerIndex};
use crate::player_slot::PlayerSlot;
use crate::room::{enter_recovery, same_identity, NetplayRoom, RoomModel};
use crate::room_connection_diagnostics::RoomStatus;
use crate::text::str_eq;

verus! {

/// Index of the first slot whose input socket is `input_connection_id`.
pub open spec fn input_connection_position(players: Seq<PlayerSlot>, input_connection_id: ConnectionId) -> Option<int> {
    if exists|i: int| 0 <= i < players.len() && players[i].input_connection_id == Some(input_connection_id) {
        Some(choose|i: int| 0 <= i < players.len() && players[i].input_connection_id == Some(input_connection_id)
            && forall|j: int| 0 <= j < i ==> players[j].input_connection_id != Some(input_connection_id))
    } else {
        None
    }
}

/// Some slot holding input socket `c` is the first one that holds it.
pub proof fn lemma_first_input_slot_exists(a: Seq<PlayerSlot>, c: ConnectionId, k: int)
    requires
        0 <= k < a.len(),
        a[k].input_connection_id == Some(c),
    ensures
        exists|i: int| 0 <= i < a.len() && a[i].input_connection_id == Some(c)
            && forall|j: int| 0 <= j < i ==> a[j].input_connection_id != Some(c),
    decreases k,
{
    if exists|j: int| 0 <= j < k && a[j].input_connection_id == Some(c) {
        let j = choose|j: int| 0 <= j < k && a[j].input_connection_id == Some(c);
        lemma_first_input_slot_exists(a, c, j);
    } else {
        assert(forall|j: int| 0 <= j < k ==> a[j].input_connection_id != Some(c));
    }
}

/// Slots with the same input sockets resolve an input socket to the same
/// position.
pub proof fn lemma_input_position_depends_on_sockets(a: Seq<PlayerSlot>, b: Seq<PlayerSlot>, c: ConnectionId)
    requires
        a.len() == b.len(),
        forall|j: int| 0 <= j < a.len() ==> (#[trigger] a[j]).input_connection_id == b[j].input_connection_id,
    ensures
        input_connection_position(a, c) == input_connection_position(b, c),
{
    if exists|i: int| 0 <= i < a.len() && a[i].input_connection_id == Some(c) {
        let w = choose|i: int| 0 <= i < a.len() && a[i].input_connection_id == Some(c);
        assert(b[w].input_connection_id == Some(c));
        lemma_first_input_slot_exists(a, c, w);
        lemma_first_input_slot_exists(b, c, w);
        let i = input_connection_position(a, c)->0;
        let k = input_connection_position(b, c)->0;
        if k < i {
            assert(a[k].input_connection_id == b[k].input_connection_id);
        } else if i < k {
            assert(a[i].input_connection_id == b[i].input_connection_id);
        }
    } else {
        assert forall|i: int| 0 <= i < b.len() implies b[i].input_connection_id != Some(c) by {
            assert(a[i].input_connection_id == b[i].input_connection_id);
        }
    }
}

/// Outcome of attaching the input socket `input_connection_id` to slot
/// `player_index` with the input-socket token hash `token` at `now`: the
/// room must be open, the client must know both current epochs, the token
/// must match and the slot must have a control connection.
pub open spec fn attach_input_outcome(
    m: RoomModel,
    player_index: PlayerIndex,
    room_epoch: u64,
    session_epoch: u64,
    token: Seq<char>,
    input_connection_id: ConnectionId,
    now: u64,
) -> (RoomModel, Result<(), RoomError>) {
    let p = player_index.0 as int;
    if m.status == RoomStatus::Closed {
        (m, Err(RoomError::RoomClosed))
    } else if m.room_epoch != room_epoch {
        (m, Err(RoomError::StaleRoomEpoch))
    } else if m.session_epoch != session_epoch {
        (m, Err(RoomError::StaleSessionEpoch))
    } else if p >= m.players.len() {
        (m, Err(RoomError::UnknownConnection))
    } else if !(m.players[p].input_socket_token_hash matches Some(h) && h@ == token) {
        (m, Err(RoomError::ResumeTokenInvalid))
    } else if m.players[p].connection_id is None {
        (m, Err(RoomError::UnknownConnection))
    } else {
        (RoomModel {
            players: m.players.update(p, PlayerSlot {
                input_connection_id: Some(input_connection_id),
                last_seen_at: Some(now),
                ..m.players[p]
            }),
            ..m
        }, Ok(()))
    }
}

/// Statuses in which losing an input socket forces recovery.
pub open spec fn input_loss_recovers(status: RoomStatus) -> bool {
    ||| status == RoomStatus::Playing
    ||| status == RoomStatus::Paused
    ||| status == RoomStatus::Recovering
}

/// Outcome of the input socket `input_connection_id` closing at `now`; the
/// flag reports whether the room entered recovery.
pub open spec fn disconnect_input_outcome(m: RoomModel, input_connection_id: ConnectionId, now: u64)
    -> (RoomModel, Result<bool, RoomError>)
{
    match input_connection_position(m.players, input_connection_id) {
        None => (m, Err(RoomError::UnknownConnection)),
        Some(p) => {
            let slot = m.players[p];
            let player = slot.player_index.0;
            let epoch = match slot.reconnect_room_epoch { Some(e) => e, None => m.room_epoch };
            let m1 = RoomModel {
                players: m.players.update(p, PlayerSlot { input_connection_id: None, last_seen_at: Some(now), ..slot }),
                last_frames: m.last_frames.remove(player),
                next_frames: m.next_frames.remove(player),
                ..m
            };
            if input_loss_recovers(m.status) {
                (enter_recovery(m1, epoch), Ok(true))
            } else {
                (m1, Ok(false))
            }
        },
    }
}

impl NetplayRoom {
    /// Position of the first slot whose input socket is `input_connection_id`.
    pub(crate) fn input_connection_slot_position(&self, input_connection_id: ConnectionId) -> (r: Option<usize>)
        ensures
            r matches Some(k) ==> k < self.players@.len()
                && input_connection_position(self.players@, input_connection_id) == Some(k as int),
            r is None ==> input_connection_position(self.players@, input_connection_id) is None,
    {
        let mut i: usize = 0;
        while i < self.players.len()
            invariant
                i <= self.players@.len(),
                forall|j: int| 0 <= j < i ==> self.players@[j].input_connection_id != Some(input_connection_id),
            decreases self.players@.len() - i,
        {
            if self.players[i].input_connection_id == Some(input_connection_id) {
                proof {
                    let k = choose|k: int| 0 <= k < self.players@.len() && self.players@[k].input_connection_id == Some(input_connection_id)
                        && forall|j: int| 0 <= j < k ==> self.players@[j].input_connection_id != Some(input_connection_id);
                    assert(0 <= i < self.players@.len() && self.players@[i as int].input_connection_id == Some(input_connection_id)
                        && forall|j: int| 0 <= j < i ==> self.players@[j].input_connection_id != Some(input_connection_id));
                    assert(k == i) by {
                        if k < i {
                        } else if k > i {
                        }
                    }
                }
                return Some(i);
            }
            i = i + 1;
        }
        None
    }

    /// Player index of the slot whose input socket is `input_connection_id`.
    pub fn player_index_for_input_connection(&self, input_connection_id: ConnectionId) -> (r: Option<PlayerIndex>)
        ensures
            r == (match input_connection_position(self.players@, input_connection_id) {
                Some(i) => Some(self.players@[i].player_index),
                None => None,
            }),
    {
        match self.input_connection_slot_position(input_connection_id) {
            Some(i) => Some(self.players[i].player_index),
            None => None,
        }
    }

    /// Attaches the binary input socket to an occupied player slot.
    pub fn attach_input_socket(
        &mut self,
        player_index: PlayerIndex,
        room_epoch: u64,
        session_epoch: u64,
        input_socket_token_hash: &str,
        input_connection_id: ConnectionId,
        now: u64,
    ) -> (r: Result<(), RoomError>)
        requires
            old(self).wf(),
        ensures
            final(self).wf(),
            same_identity(old(self), final(self)),
            (final(self)@, r) == attach_input_outcome(old(self)@, player_index, room_epoch, session_epoch,
                input_socket_token_hash@, input_connection_id, now),
    {
        if self.status == RoomStatus::Closed {
            return Err(RoomError::RoomClosed);
        }
        if self.room_epoch != room_epoch {
            return Err(RoomError::StaleRoomEpoch);
        }
        if self.session_epoch != session_epoch {
            return Err(RoomError::StaleSessionEpoch);
        }
        let position = match self.player_slot_position(player_index) {
            Some(p) => p,
            None => return Err(RoomError::UnknownConnection),
        };
        let token_matches = match &self.players[position].input_socket_token_hash {
            Some(hash) => str_eq(hash.as_str(), input_socket_token_hash),
            None => false,
        };
        if !token_matches {
            return Err(RoomError::ResumeTokenInvalid);
        }
        if self.players[position].connection_id.is_none() {
            return Err(RoomError::UnknownConnection);
        }
        self.players[position].input_connection_id = Some(input_connection_id);
        self.players[position].last_seen_at = Some(now);
        Ok(())
    }

    /// Detaches a binary input socket and starts recovery when gameplay
    /// depended on it; returns whether the room entered recovery.
    pub fn disconnect_input_socket(&mut self, input_connection_id: ConnectionId, now: u64) -> (r: Result<bool, RoomError>)
        requires
            old(self).wf(),
        ensures
            final(self).wf(),
            same_identity(old(self), final(self)),
            (final(self)@, r) == disconnect_input_outcome(old(self)@, input_connection_id, now),
    {
        let position = match self.input_connection_slot_position(input_connection_id) {
            Some(p) => p,
            None => return Err(RoomError::UnknownConnection),
        };
        let player_index = self.players[position].player_index;
        let recoverable = self.status == RoomStatus::Playing || self.status == RoomStatus::Paused
            || self.status == RoomStatus::Recovering;
        let reconnect_room_epoch = match self.players[position].reconnect_room_epoch {
            Some(epoch) => epoch,
            None => self.room_epoch,
        };
        self.players[position].input_connection_id = None;
        self.players[position].last_seen_at = Some(now);
        self.sync.last_input_frames.remove(&player_index.0);
        self.sync.next_input_frames.remove(&player_index.0);
        if recoverable {
            self.enter_recovery_state(reconnect_room_epoch);
            return Ok(true);
        }
        Ok(false)
    }
}

} // verus!
