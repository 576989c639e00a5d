//! Controller-netplay input admission.
//!
//! This module keeps frame input handling out of the general room lifecycle
//! model.

use vstd::prelude::*;
use crate::errors::RoomError;
use crate::ids::{ConnectionId, PlayerIndex};
use crate::input_frame_acceptance::{InputFrameAcceptance, InputFrameLimits};
use crate::input_frame_relay_buffer::InputFrame;
use crate::room::{saturating_inc, same_identity, NetplayRoom, RoomModel};
use crate::room_connection_diagnostics::RoomStatus;
use crate::room_input_connection_ops::input_connection_position;

verus! {

broadcast use vstd::std_specs::hash::group_hash_axioms;

/// Next frame expected from `player`: its input cursor, or the start of the
/// sync phase before its first accepted frame.
pub open spec fn next_expected_frame(m: RoomModel, player: u8) -> u64 {
    if m.next_frames.contains_key(player) {
        m.next_frames[player]
    } else {
        m.sync_start_frame
    }
}

/// Outcome of the input socket `connection_id` submitting frame `frame` for
/// `player`: only a controller room in play takes input, only from the
/// socket that owns the slot, never too far past the room frame; a frame
/// behind the player's cursor is dropped, any other is recorded and
/// relayed, and moves the cursor past it.
pub open spec fn accept_input_outcome(
    m: RoomModel,
    connection_id: ConnectionId,
    player: PlayerIndex,
    frame: u64,
    max_future_frame_distance: u64,
) -> (RoomModel, Result<InputFrameAcceptance, RoomError>) {
    if m.link is Some {
        (m, Err(RoomError::NotPlaying))
    } else {
        match input_connection_position(m.players, connection_id) {
            None => (m, Err(RoomError::UnknownConnection)),
            Some(i) => if m.players[i].player_index != player {
                (m, Err(RoomError::SlotSpoofing(player)))
            } else if !(m.status == RoomStatus::Playing || m.status == RoomStatus::Paused) {
                (m, Err(RoomError::NotPlaying))
            } else if frame > m.room_frame + max_future_frame_distance {
                (m, Err(RoomError::FutureFrameTooLarge))
            } else if frame < next_expected_frame(m, player.0) {
                (m, Ok(InputFrameAcceptance::Ignore))
            } else {
                (RoomModel {
                    last_frames: m.last_frames.insert(player.0, frame),
                    next_frames: m.next_frames.insert(player.0, saturating_inc(frame)),
                    ..m
                }, Ok(InputFrameAcceptance::Relay))
            },
        }
    }
}

impl NetplayRoom {
    /// Validates and records an input frame from one input socket.
    ///
    /// A room holds no coordinated-pause tracker, so every frame of a
    /// playing or paused room lies inside the relay window.
    pub fn accept_input_frame(
        &mut self,
        connection_id: ConnectionId,
        input: &InputFrame,
        limits: InputFrameLimits,
    ) -> (r: Result<InputFrameAcceptance, RoomError>)
        requires
            old(self).wf(),
        ensures
            final(self).wf(),
            same_identity(old(self), final(self)),
            (final(self)@, r) == accept_input_outcome(old(self)@, connection_id, input.player_index, input.frame,
                limits.max_future_frame_distance),
    {
        if !self.gameplay.is_controller_netplay() {
            return Err(RoomError::NotPlaying);
        }
        let owned_index = match self.player_index_for_input_connection(connection_id) {
            Some(p) => p,
            None => return Err(RoomError::UnknownConnection),
        };
        if owned_index != input.player_index {
            return Err(RoomError::SlotSpoofing(input.player_index));
        }
        if !(self.status == RoomStatus::Playing || self.status == RoomStatus::Paused) {
            return Err(RoomError::NotPlaying);
        }
        let room_frame = self.sync.room_frame;
        if input.frame > room_frame && input.frame - room_frame > limits.max_future_frame_distance {
            return Err(RoomError::FutureFrameTooLarge);
        }
        let next_frame = self.next_input_frame_for_player(input.player_index);
        if input.frame < next_frame {
            return Ok(InputFrameAcceptance::Ignore);
        }
        self.sync.last_input_frames.insert(input.player_index.0, input.frame);
        self.sync.next_input_frames.insert(input.player_index.0, input.frame.saturating_add(1));
        Ok(InputFrameAcceptance::Relay)
    }

    /// Next frame expected from `player_index`.
    fn next_input_frame_for_player(&self, player_index: PlayerIndex) -> (f: u64)
        ensures
            f == next_expected_frame(self@, player_index.0),
    {
        match self.sync.next_input_frames.get(&player_index.0) {
            Some(f) => *f,
            None => self.sync.sync_start_frame,
        }
    }
}

} // verus!
