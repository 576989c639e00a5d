//! Relay-owned controller frame clock operations.
//!
//! The room model stores the cursors, while this module owns the rule for
//! releasing exactly one canonical server frame.

use vstd::prelude::*;
use crate::room::{same_identity, NetplayRoom, RoomModel};
use crate::room_connection_diagnostics::RoomStatus;

verus! {

broadcast use vstd::std_specs::hash::group_hash_axioms;

/// One canonical frame released by the relay clock.
#[derive(Clone, Copy, Debug, PartialEq, Eq, Structural)]
pub struct ServerFrame {
    /// Room generation of the release.
    pub room_epoch: u64,
    /// Session generation of the release.
    pub session_epoch: u64,
    /// The released frame.
    pub frame: u64,
    /// The room's canonical frame after the release.
    pub canonical_frame: u64,
}

/// Whether the host, in the first slot, has sent input for `frame`.
pub open spec fn host_has_input_for(m: RoomModel, frame: u64) -> bool {
    let host = m.players[0].player_index.0;
    m.last_frames.contains_key(host) && m.last_frames[host] >= frame
}

/// `a` or `b`, whichever is larger.
pub open spec fn max_frame(a: u64, b: u64) -> u64 {
    if a >= b { a } else { b }
}

/// Outcome of one tick of the relay clock: a playing room releases its next
/// frame once the host has sent input for it.
pub open spec fn release_outcome(m: RoomModel) -> (RoomModel, Option<ServerFrame>) {
    let frame = m.next_release_frame;
    if m.status != RoomStatus::Playing || !host_has_input_for(m, frame) {
        (m, None)
    } else {
        let canonical = max_frame(m.room_frame, frame);
        (RoomModel {
            next_release_frame: if frame == u64::MAX { frame } else { (frame + 1) as u64 },
            released_frame: Some(frame),
            room_frame: canonical,
            ..m
        }, Some(ServerFrame {
            room_epoch: m.room_epoch,
            session_epoch: m.session_epoch,
            frame,
            canonical_frame: canonical,
        }))
    }
}

impl NetplayRoom {
    /// Releases the next relay-owned server frame if the canonical cursor
    /// allows it.
    pub fn release_next_server_frame(&mut self) -> (r: Option<ServerFrame>)
        requires
            old(self).wf(),
        ensures
            final(self).wf(),
            same_identity(old(self), final(self)),
            (final(self)@, r) == release_outcome(old(self)@),
    {
        if self.status != RoomStatus::Playing {
            return None;
        }
        let frame = self.sync.next_release_frame;
        if !self.host_has_input_for_frame(frame) {
            return None;
        }
        self.sync.next_release_frame = frame.saturating_add(1);
        self.sync.released_frame = Some(frame);
        if frame > self.sync.room_frame {
            self.sync.room_frame = frame;
        }
        Some(ServerFrame {
            room_epoch: self.room_epoch,
            session_epoch: self.session_epoch,
            frame,
            canonical_frame: self.sync.room_frame,
        })
    }

    /// Whether the host has sent input for `frame`; the host holds the first
    /// slot.
    fn host_has_input_for_frame(&self, frame: u64) -> (b: bool)
        requires
            self.wf(),
        ensures
            b == host_has_input_for(self@, frame),
    {
        let host = self.players[0].player_index.0;
        match self.sync.last_input_frames.get(&host) {
            Some(input_frame) => *input_frame >= frame,
            None => false,
        }
    }
}

} // verus!
