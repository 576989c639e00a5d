//! The lifecycle gate into play: ready marks and the start of gameplay.

use vstd::prelude::*;
use crate::adaptive_input_delay_policy::{decision_for, target_delay_spec};
use crate::errors::RoomError;
use crate::ids::ConnectionId;
use crate::player_slot::{ClientNetworkQualityReport, PlayerSlot, PlayerStatus};
use crate::room::{
    all_input_sockets_attached, all_players_ready, connection_position, same_identity, sampled_slot, with_status,
    NetplayRoom, RoomModel, MVP_ROOM_CAPACITY,
};
use crate::room_connection_diagnostics::RoomStatus;
use crate::room_host_frame_ops::entered_playing;

verus! {

/// Every connected player's client can follow a scheduled start.
pub open spec fn connected_support_scheduled_start(players: Seq<PlayerSlot>) -> bool {
    forall|i: int| 0 <= i < players.len() && (#[trigger] players[i]).connection_id is Some
        ==> players[i].supports_scheduled_start
}

/// Frame the startup delay decision measures local frames against: the
/// latest released frame, or the room frame before any release.
pub open spec fn delay_baseline(m: RoomModel) -> u64 {
    match m.released_frame {
        Some(f) => f,
        None => m.room_frame,
    }
}

/// The room once the startup input delay is applied at `now`.
pub open spec fn with_initial_delay(m: RoomModel, now: u64) -> RoomModel {
    match decision_for(target_delay_spec(m.players, delay_baseline(m), now), m.input_delay_frames) {
        Some(d) => RoomModel { input_delay_frames: d.input_delay_frames, ..m },
        None => m,
    }
}

/// Outcome of the control connection `connection_id` reporting ready with
/// the network sample `network` at `now`. A syncing or ready room takes
/// ready marks (a controller room only once the host's snapshot is complete
/// and every player's input socket is attached); the player's slot turns
/// ready. While a player is still not ready, or while every connected
/// client follows a scheduled start, the room waits as ready; otherwise the
/// startup delay is applied and the room and its connected players play.
/// The flag reports whether gameplay started.
pub open spec fn ready_outcome(m: RoomModel, connection_id: ConnectionId, network: Option<ClientNetworkQualityReport>, now: u64)
    -> (RoomModel, Result<bool, RoomError>)
{
    if !(m.status == RoomStatus::SyncingState || m.status == RoomStatus::Ready) {
        (m, Err(RoomError::RoomNotReady))
    } else if m.link is None && !m.host_snapshot_completed {
        (m, Err(RoomError::RoomNotReady))
    } else if m.link is None && !all_input_sockets_attached(m.players, MVP_ROOM_CAPACITY) {
        (m, Err(RoomError::RoomNotReady))
    } else {
        match connection_position(m.players, connection_id) {
            None => (m, Err(RoomError::UnknownConnection)),
            Some(p) => {
                let slot = m.players[p];
                let m1 = RoomModel {
                    players: m.players.update(p, with_status(sampled_slot(slot, None, network, now), PlayerStatus::Ready)),
                    ready: m.ready.insert(slot.player_index.0),
                    ..m
                };
                if !all_players_ready(m1.players, MVP_ROOM_CAPACITY, m1.ready)
                    || connected_support_scheduled_start(m1.players) {
                    (RoomModel { status: RoomStatus::Ready, ..m1 }, Ok(false))
                } else {
                    (entered_playing(with_initial_delay(m1, now)), Ok(true))
                }
            },
        }
    }
}

impl NetplayRoom {
    /// Marks a connected player ready and starts gameplay when every player
    /// is ready.
    pub fn mark_ready(&mut self, connection_id: ConnectionId, network: Option<ClientNetworkQualityReport>, now: u64)
        -> (r: Result<bool, RoomError>)
        requires
            old(self).wf(),
        ensures
            final(self).wf(),
            same_identity(old(self), final(self)),
            (final(self)@, r) == ready_outcome(old(self)@, connection_id, network, now),
    {
        if self.status != RoomStatus::SyncingState && self.status != RoomStatus::Ready {
            return Err(RoomError::RoomNotReady);
        }
        let controller = self.gameplay.is_controller_netplay();
        if controller && !self.sync.host_snapshot_completed {
            return Err(RoomError::RoomNotReady);
        }
        if controller && !self.connected_players_have_input_sockets() {
            return Err(RoomError::RoomNotReady);
        }
        let position = match self.connection_slot_position(connection_id) {
            Some(p) => p,
            None => return Err(RoomError::UnknownConnection),
        };
        let player_index = self.players[position].player_index;
        let ghost before = self@;
        self.record_network_report(connection_id, None, network, now);
        self.sync.ready_players.insert(player_index.0);
        self.set_player_status(player_index, PlayerStatus::Ready);
        proof {
            assert(player_index.0 as int == position as int);
            assert(self.players@ =~= before.players.update(position as int,
                with_status(sampled_slot(before.players[position as int], None, network, now), PlayerStatus::Ready)));
        }
        if !self.connected_players_are_ready() {
            self.status = RoomStatus::Ready;
            return Ok(false);
        }
        if self.connected_players_support_scheduled_start() {
            self.status = RoomStatus::Ready;
            return Ok(false);
        }
        self.apply_initial_adaptive_input_delay(now);
        self.enter_v5_playing();
        Ok(true)
    }

    /// Whether every connected player's client can follow a scheduled start.
    pub fn connected_players_support_scheduled_start(&self) -> (b: bool)
        ensures
            b == connected_support_scheduled_start(self.players@),
    {
        let mut i: usize = 0;
        while i < self.players.len()
            invariant
                i <= self.players@.len(),
                forall|j: int| 0 <= j < i && (#[trigger] self.players@[j]).connection_id is Some
                    ==> self.players@[j].supports_scheduled_start,
            decreases self.players@.len() - i,
        {
            if self.players[i].connection_id.is_some() && !self.players[i].supports_scheduled_start {
                return false;
            }
            i = i + 1;
        }
        true
    }

    /// Applies the policy's startup delay before gameplay starts.
    fn apply_initial_adaptive_input_delay(&mut self, now: u64)
        requires
            old(self).wf(),
        ensures
            final(self).wf(),
            same_identity(old(self), final(self)),
            final(self)@ == with_initial_delay(old(self)@, now),
    {
        let decision = self.input_delay_policy.initial_decision(
            self.input_delay_frames,
            self.players.as_slice(),
            self.sync.room_frame,
            self.sync.released_frame,
            now,
        );
        if let Some(decision) = decision {
            self.input_delay_frames = decision.input_delay_frames;
            self.input_delay_policy.mark_changed(now);
        }
    }
}

} // verus!
