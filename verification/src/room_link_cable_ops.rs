//! Link-cable operations for active rooms.
//!
//! This module keeps link compatibility and private data-plane ownership out of
//! the general room state machine.

use vstd::prelude::*;
use crate::errors::RoomError;
use crate::ids::{ConnectionId, PlayerIndex};
use crate::link_cable_data_plane::{
    poll_spec, release_spec, ReceiverPoll,
    abort_spec, claim_spec, invalidate_spec, relay_admission_error, relay_violation, relayed,
    snapshot_of, LinkCableDataPlaneError, LinkCableDataPlaneSnapshot, LinkCableWireCodecError, ReceiverClaim,
    Wakeup,
};
use crate::link_cable_room_state::{all_reported, reports_agree, LinkCableCompatibility};
use crate::link_cable_session::{merge_wakeups, room_error_for, room_result, LinkCableSession};
use crate::link_wire::{LinkCablePacket, LinkCableWireFrame, LinkCableWireLimits};
use crate::player_slot::{PlayerRuntimeState, PlayerSlot, PlayerStatus};
use crate::room::{
    connected_indices, connection_player, same_identity, with_status, GameplaySession, LinkModel, NetplayRoom,
    RoomModel,
};
use crate::room_connection_diagnostics::RoomStatus;

verus! {

/// Players with slot `p` set to `status`.
pub open spec fn status_set_at(players: Seq<PlayerSlot>, p: int, status: PlayerStatus) -> Seq<PlayerSlot> {
    if 0 <= p < players.len() { players.update(p, with_status(players[p], status)) } else { players }
}

/// An occupied slot once the players' reports disagree.
pub open spec fn compatibility_failed_slot(s: PlayerSlot) -> PlayerSlot {
    if s.status != PlayerStatus::Empty {
        PlayerSlot { status: PlayerStatus::CompatibilityFailed, runtime_state: PlayerRuntimeState::Connected, ..s }
    } else {
        s
    }
}

/// A connected slot once every report agrees.
pub open spec fn syncing_slot(s: PlayerSlot) -> PlayerSlot {
    if s.connection_id is Some {
        PlayerSlot { status: PlayerStatus::SyncingState, runtime_state: PlayerRuntimeState::Syncing, ..s }
    } else {
        s
    }
}

/// Outcome of the player on `connection_id` reporting link compatibility.
///
/// A report that does not match the room's protocol version and link
/// descriptor fails that player. Once every connected player of a full room
/// has reported, disagreeing reports fail every occupied slot, and agreeing
/// ones move the room to state syncing.
pub open spec fn link_compatibility_outcome(
    m: RoomModel,
    connection_id: ConnectionId,
    compatibility: LinkCableCompatibility,
    protocol_version: u16,
    max_players: u8,
) -> (RoomModel, Result<(), RoomError>) {
    if m.status == RoomStatus::Closed {
        (m, Err(RoomError::RoomClosed))
    } else if m.status == RoomStatus::Playing {
        (m, Err(RoomError::RoomNotReady))
    } else {
        match connection_player(m.players, connection_id) {
            None => (m, Err(RoomError::UnknownConnection)),
            Some(player_index) => match m.link {
                None => (m, Err(RoomError::CompatibilityMismatch)),
                Some(l) => {
                    let p = player_index.0 as int;
                    if !(compatibility.protocol_version == protocol_version && compatibility.spec_matches_descriptor(&l.link)) {
                        (RoomModel {
                            link: Some(LinkModel { compat: l.compat.remove(player_index.0), ..l }),
                            ready: m.ready.remove(player_index.0),
                            status: RoomStatus::CheckingCompatibility,
                            players: status_set_at(m.players, p, PlayerStatus::CompatibilityFailed),
                            ..m
                        }, Err(RoomError::CompatibilityMismatch))
                    } else {
                        let compat = l.compat.insert(player_index.0, compatibility);
                        let m1 = RoomModel {
                            link: Some(LinkModel { compat, ..l }),
                            ready: m.ready.remove(player_index.0),
                            players: status_set_at(m.players, p, PlayerStatus::CheckingCompatibility),
                            ..m
                        };
                        if !all_reported(compat, connected_indices(m1.players), max_players) {
                            (m1, Ok(()))
                        } else if !reports_agree(compat) {
                            (RoomModel {
                                status: RoomStatus::CheckingCompatibility,
                                players: Seq::new(m1.players.len(), |i: int| compatibility_failed_slot(m1.players[i])),
                                ..m1
                            }, Err(RoomError::CompatibilityMismatch))
                        } else {
                            (RoomModel {
                                status: RoomStatus::SyncingState,
                                players: Seq::new(m1.players.len(), |i: int| syncing_slot(m1.players[i])),
                                ..m1
                            }, Ok(()))
                        }
                    }
                },
            },
        }
    }
}

/// The player a link packet from `connection_id` is authenticated as, or
/// why the room refuses link traffic from it.
pub open spec fn link_route(m: RoomModel, connection_id: ConnectionId) -> Result<PlayerIndex, RoomError> {
    if m.status == RoomStatus::Closed {
        Err(RoomError::RoomClosed)
    } else if m.link is None || m.status != RoomStatus::Playing {
        Err(RoomError::NotPlaying)
    } else {
        match connection_player(m.players, connection_id) {
            None => Err(RoomError::UnknownConnection),
            Some(p) => Ok(p),
        }
    }
}

/// Outcome of claiming the link receiver of the room connection
/// `connection_id`; a controller room has none. A receiver whose endpoint
/// belongs to another player is refused and its binding invalidated.
pub open spec fn claim_outcome(m: RoomModel, connection_id: ConnectionId) -> (RoomModel, Result<Option<ReceiverClaim>, RoomError>) {
    match m.link {
        None => (m, Ok(None)),
        Some(l) => if m.status == RoomStatus::Closed {
            (m, Err(RoomError::RoomClosed))
        } else {
            match connection_player(m.players, connection_id) {
                None => (m, Err(RoomError::UnknownConnection)),
                Some(owned) => {
                    let (v, out, w) = claim_spec(l.plane, connection_id);
                    let l1 = LinkModel { plane: v, wakeup: merge_wakeups(l.wakeup, w), ..l };
                    match out {
                        Err(e) => (RoomModel { link: Some(l1), ..m }, Err(room_error_for(e))),
                        Ok(claim) => if claim.snapshot.local_slot != owned {
                            let (v2, _out2, w2) = invalidate_spec(l1.plane, connection_id);
                            (RoomModel { link: Some(LinkModel { plane: v2, wakeup: merge_wakeups(l1.wakeup, w2), ..l1 }), ..m },
                                Err(RoomError::SlotSpoofing(claim.snapshot.local_slot)))
                        } else {
                            (RoomModel { link: Some(l1), ..m }, Ok(Some(claim)))
                        },
                    }
                },
            }
        },
    }
}

/// Maps a private link-provider failure onto the stable room-domain vocabulary.
pub fn map_link_cable_data_plane_error(error: LinkCableDataPlaneError) -> (e: RoomError)
    ensures
        e == room_error_for(error),
{
    LinkCableSession::map_data_plane_error(error)
}

impl PlayerSlot {
    /// Fails an occupied slot's compatibility.
    pub fn fail_compatibility(&mut self)
        ensures
            *final(self) == compatibility_failed_slot(*old(self)),
    {
        if !self.is_empty() {
            self.status = PlayerStatus::CompatibilityFailed;
            self.runtime_state = PlayerRuntimeState::Connected;
        }
    }

    /// Moves a connected slot to state syncing.
    pub fn start_syncing(&mut self)
        ensures
            *final(self) == syncing_slot(*old(self)),
    {
        if self.connection_id.is_some() {
            self.status = PlayerStatus::SyncingState;
            self.runtime_state = PlayerRuntimeState::Syncing;
        }
    }
}

impl NetplayRoom {
    /// Stores link-cable compatibility details for a connected player.
    pub fn set_link_cable_compatibility_for_connection(
        &mut self,
        connection_id: ConnectionId,
        compatibility: LinkCableCompatibility,
    ) -> (r: Result<(), RoomError>)
        requires
            old(self).wf(),
        ensures
            final(self).wf(),
            same_identity(old(self), final(self)),
            (final(self)@, r) == link_compatibility_outcome(old(self)@, connection_id, compatibility,
                old(self).protocol_version, old(self).max_players),
    {
        if self.status == RoomStatus::Closed {
            return Err(RoomError::RoomClosed);
        }
        if self.status == RoomStatus::Playing {
            return Err(RoomError::RoomNotReady);
        }
        let player_index = match self.player_index_for_connection(connection_id) {
            Some(p) => p,
            None => return Err(RoomError::UnknownConnection),
        };
        let protocol_version = self.protocol_version;
        let stored = match &mut self.gameplay {
            GameplaySession::LinkCable(session) => session.set_compatibility(player_index, protocol_version, compatibility),
            GameplaySession::ControllerNetplay => return Err(RoomError::CompatibilityMismatch),
        };
        if let Err(error) = stored {
            self.sync.ready_players.remove(&player_index.0);
            self.status = RoomStatus::CheckingCompatibility;
            self.set_player_status(player_index, PlayerStatus::CompatibilityFailed);
            return Err(error);
        }
        self.sync.ready_players.remove(&player_index.0);
        self.set_player_status(player_index, PlayerStatus::CheckingCompatibility);
        let connected_players = self.connected_player_indices();
        let (have_all, agree) = match &self.gameplay {
            GameplaySession::LinkCable(session) => (
                session.connected_players_have_compatibility(connected_players.as_slice(), self.max_players),
                session.connected_players_are_compatible(connected_players.as_slice(), self.max_players),
            ),
            GameplaySession::ControllerNetplay => (false, false),
        };
        if !have_all {
            return Ok(());
        }
        let ghost before = self@;
        let ghost identity = *self;
        let n = self.players.len();
        let mut i: usize = 0;
        if !agree {
            self.status = RoomStatus::CheckingCompatibility;
            while i < n
                invariant
                    self.wf(),
                    same_identity(&identity, self),
                    n == self.players@.len(),
                    n == before.players.len(),
                    i <= n,
                    self@ == (RoomModel { players: self.players@, status: RoomStatus::CheckingCompatibility, ..before }),
                    forall|j: int| 0 <= j < i ==> self.players@[j] == compatibility_failed_slot(before.players[j]),
                    forall|j: int| i <= j < n ==> self.players@[j] == before.players[j],
                decreases n - i,
            {
                self.players[i].fail_compatibility();
                i = i + 1;
            }
            assert(self.players@ =~= Seq::new(before.players.len(), |j: int| compatibility_failed_slot(before.players[j])));
            return Err(RoomError::CompatibilityMismatch);
        }
        self.status = RoomStatus::SyncingState;
        while i < n
            invariant
                self.wf(),
                same_identity(&identity, self),
                n == self.players@.len(),
                n == before.players.len(),
                i <= n,
                self@ == (RoomModel { players: self.players@, status: RoomStatus::SyncingState, ..before }),
                forall|j: int| 0 <= j < i ==> self.players@[j] == syncing_slot(before.players[j]),
                forall|j: int| i <= j < n ==> self.players@[j] == before.players[j],
            decreases n - i,
        {
            self.players[i].start_syncing();
            i = i + 1;
        }
        assert(self.players@ =~= Seq::new(before.players.len(), |j: int| syncing_slot(before.players[j])));
        Ok(())
    }

    /// Authenticates link traffic from `connection_id`: the room must be a
    /// playing link room and the connection must hold a slot.
    pub fn link_cable_route_for_connection(&self, connection_id: ConnectionId) -> (r: Result<PlayerIndex, RoomError>)
        ensures
            r == link_route(self@, connection_id),
    {
        if self.status == RoomStatus::Closed {
            return Err(RoomError::RoomClosed);
        }
        if !self.is_link_cable() || self.status != RoomStatus::Playing {
            return Err(RoomError::NotPlaying);
        }
        match self.player_index_for_connection(connection_id) {
            Some(p) => Ok(p),
            None => Err(RoomError::UnknownConnection),
        }
    }

    /// Validates and relays a link-cable packet through the bounded data
    /// plane. `limits` bounds the payload's size and `decoded` is the SBLK
    /// decoder's reading of the packet's payload under the room's link
    /// protocol.
    /// Nothing here decodes the payload: the caller owes the decoder's own
    /// reading of these bytes, and the contract speaks of `decoded` as
    /// given.
    pub fn accept_link_cable_packet(
        &mut self,
        connection_id: ConnectionId,
        packet: LinkCablePacket,
        limits: LinkCableWireLimits,
        decoded: Result<LinkCableWireFrame, LinkCableWireCodecError>,
    ) -> (r: Result<(), RoomError>)
        requires
            old(self).wf(),
        ensures
            final(self).wf(),
            same_identity(old(self), final(self)),
            match link_route(old(self)@, connection_id) {
                Err(e) => r == Err::<(), RoomError>(e) && final(self)@ == old(self)@,
                Ok(slot) => {
                    let l = old(self)@.link->0;
                    let k = final(self)@.link->0;
                    &&& final(self)@ == (RoomModel { link: Some(k), ..old(self)@ })
                    &&& k.link == l.link
                    &&& k.compat == l.compat
                    &&& match relay_admission_error(l.plane, connection_id, slot, old(self).room_epoch, old(self).session_epoch) {
                        Some(e) => r == Err::<(), RoomError>(room_error_for(e)) && k == l,
                        None => match relay_violation(l.plane, slot, packet, limits, decoded) {
                            Some((e, reason)) => {
                                let (aborted, lifecycle) = abort_spec(l.plane, Some(reason));
                                &&& k.plane == aborted
                                &&& k.wakeup == merge_wakeups(l.wakeup, Wakeup::Both)
                                &&& r == Err::<(), RoomError>(room_error_for(match lifecycle { Err(le) => le, Ok(()) => e }))
                            },
                            None => {
                                &&& r is Ok
                                &&& k.wakeup == merge_wakeups(l.wakeup, Wakeup::Slot((1 - slot.0) as u8))
                                &&& decoded matches Ok(frame) && relayed(l.plane, k.plane, slot.0 as int, packet, frame)
                            },
                        },
                    }
                },
            },
    {
        let owned_index = match self.link_cable_route_for_connection(connection_id) {
            Ok(p) => p,
            Err(error) => return Err(error),
        };
        let room_epoch = self.room_epoch;
        let session_epoch = self.session_epoch;
        match &mut self.gameplay {
            GameplaySession::LinkCable(session) => {
                match session.relay(connection_id, owned_index, room_epoch, session_epoch, packet, limits, decoded) {
                    Ok(()) => Ok(()),
                    Err(error) => Err(map_link_cable_data_plane_error(error)),
                }
            },
            GameplaySession::ControllerNetplay => Err(RoomError::NotPlaying),
        }
    }

    /// Claims the one targeted receiver for a bound current connection.
    pub fn claim_link_cable_receiver(&mut self, connection_id: ConnectionId) -> (r: Result<Option<ReceiverClaim>, RoomError>)
        requires
            old(self).wf(),
        ensures
            final(self).wf(),
            same_identity(old(self), final(self)),
            (final(self)@, r) == claim_outcome(old(self)@, connection_id),
    {
        if !self.is_link_cable() {
            return Ok(None);
        }
        if self.status == RoomStatus::Closed {
            return Err(RoomError::RoomClosed);
        }
        let owned_index = match self.player_index_for_connection(connection_id) {
            Some(p) => p,
            None => return Err(RoomError::UnknownConnection),
        };
        match &mut self.gameplay {
            GameplaySession::LinkCable(session) => {
                let claim = match session.claim_receiver(connection_id) {
                    Ok(claim) => claim,
                    Err(error) => return Err(error),
                };
                if claim.snapshot.local_slot.0 != owned_index.0 {
                    let _ = session.invalidate_connection(connection_id);
                    return Err(RoomError::SlotSpoofing(claim.snapshot.local_slot));
                }
                Ok(Some(claim))
            },
            GameplaySession::ControllerNetplay => Ok(None),
        }
    }

    /// Returns link-only lifecycle context for a current control connection.
    ///
    /// The snapshot contains no packet bytes, connection identifiers, invite
    /// codes, license subjects, or bearer tokens.
    pub fn link_cable_diagnostic_snapshot_for_connection(&self, connection_id: ConnectionId)
        -> (r: Result<Option<LinkCableDataPlaneSnapshot>, RoomError>)
        requires
            self.wf(),
        ensures
            match self@.link {
                None => r == Ok::<Option<LinkCableDataPlaneSnapshot>, RoomError>(None),
                Some(l) => match connection_player(self@.players, connection_id) {
                    None => r == Err::<Option<LinkCableDataPlaneSnapshot>, RoomError>(RoomError::UnknownConnection),
                    Some(p) => r == (if p.0 < 2 {
                        Ok::<Option<LinkCableDataPlaneSnapshot>, RoomError>(Some(snapshot_of(l.plane, p)))
                    } else {
                        Err(room_error_for(LinkCableDataPlaneError::InvalidPlayerIndex))
                    }),
                },
            },
    {
        match &self.gameplay {
            GameplaySession::ControllerNetplay => Ok(None),
            GameplaySession::LinkCable(session) => {
                let player_index = match self.player_index_for_connection(connection_id) {
                    Some(p) => p,
                    None => return Err(RoomError::UnknownConnection),
                };
                match session.diagnostic_snapshot(player_index) {
                    Ok(snapshot) => Ok(Some(snapshot)),
                    Err(error) => Err(error),
                }
            },
        }
    }

    /// One poll of a claimed link receiver: a newer lifecycle revision first,
    /// then a buffered packet for its endpoint, otherwise wait. A controller
    /// room has no receiver to poll.
    pub fn poll_link_cable_receiver(
        &mut self,
        local_slot: PlayerIndex,
        connection_id: ConnectionId,
        attachment_generation: u64,
        observed_lifecycle_revision: u64,
    ) -> (poll: ReceiverPoll)
        requires
            old(self).wf(),
        ensures
            final(self).wf(),
            same_identity(old(self), final(self)),
            match old(self)@.link {
                None => poll == ReceiverPoll::Failed(LinkCableDataPlaneError::Closed) && final(self)@ == old(self)@,
                Some(l) => {
                    let (v, p) = poll_spec(l.plane, local_slot, connection_id, attachment_generation, observed_lifecycle_revision);
                    &&& poll == p
                    &&& final(self)@ == (RoomModel { link: Some(LinkModel { plane: v, ..l }), ..old(self)@ })
                },
            },
    {
        match &mut self.gameplay {
            GameplaySession::LinkCable(session) => session.data_plane.poll_receiver(local_slot, connection_id,
                attachment_generation, observed_lifecycle_revision),
            GameplaySession::ControllerNetplay => ReceiverPoll::Failed(LinkCableDataPlaneError::Closed),
        }
    }

    /// Releases a dropped link receiver so its endpoint can be claimed again.
    pub fn release_link_cable_receiver(&mut self, local_slot: PlayerIndex, connection_id: ConnectionId, attachment_generation: u64)
        requires
            old(self).wf(),
        ensures
            final(self).wf(),
            same_identity(old(self), final(self)),
            match old(self)@.link {
                None => final(self)@ == old(self)@,
                Some(l) => {
                    let (v, w) = release_spec(l.plane, local_slot, connection_id, attachment_generation);
                    final(self)@ == (RoomModel {
                        link: Some(LinkModel { plane: v, wakeup: merge_wakeups(l.wakeup, w), ..l }),
                        ..old(self)@
                    })
                },
            },
    {
        match &mut self.gameplay {
            GameplaySession::LinkCable(session) => {
                let wake = session.data_plane.release_receiver(local_slot, connection_id, attachment_generation);
                session.record_wakeup(wake);
            },
            GameplaySession::ControllerNetplay => {},
        }
    }

    /// Hands the link receivers to wake to the lock owner and forgets them.
    pub fn take_link_wakeup(&mut self) -> (w: Wakeup)
        requires
            old(self).wf(),
        ensures
            final(self).wf(),
            same_identity(old(self), final(self)),
            match old(self)@.link {
                None => w == Wakeup::Neither && final(self)@ == old(self)@,
                Some(l) => w == l.wakeup && final(self)@ == (RoomModel {
                    link: Some(LinkModel { wakeup: Wakeup::Neither, ..l }),
                    ..old(self)@
                }),
            },
    {
        match &mut self.gameplay {
            GameplaySession::LinkCable(session) => session.take_wakeup(),
            GameplaySession::ControllerNetplay => Wakeup::Neither,
        }
    }
}

} // verus!
