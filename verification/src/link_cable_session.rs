//! Link-cable gameplay provider rules: which wire protocol a validated room
//! descriptor selects, and how private data-plane failures map onto the
//! room-domain error vocabulary with a static diagnostic class.

use vstd::prelude::*;
use crate::errors::RoomError;
use crate::ids::{ConnectionId, PlayerIndex};
use crate::link_cable_data_plane::{
    abort_spec, relay_admission_error, relay_violation, relayed,     bind_spec, claim_spec, close_spec, invalidate_spec, plane_wf, replace_spec, snapshot_of,
    synchronize_spec, DataPlaneView, LinkCableDataPlaneError, LinkCableDataPlaneSnapshot,
    LinkCableDataPlaneState, LinkCableWireCodecError, ReceiverClaim, Wakeup, MAX_SIGNED_U64,
};
use crate::link_cable_room_state::{
    all_reported, reports_agree, LinkCableCompatibility, LinkCableDescriptor, LinkCableRoomState,
};
use crate::room_scope::RoomScope;
use crate::text::str_eq;
use crate::link_cable_transaction::LinkCableTransactionError;
use crate::link_wire::{LinkCablePacket, LinkCableWireFrame, LinkCableWireLimits, LinkCableWireProtocol};

verus! {

/// Wire protocol a (system family, link protocol) descriptor pair selects.
pub open spec fn protocol_for_descriptor(system_family: Seq<char>, link_protocol: Seq<char>) -> Option<LinkCableWireProtocol> {
    if system_family == "gb"@ && link_protocol == "gb-serial-v1"@ {
        Some(LinkCableWireProtocol::GbSerialV1)
    } else if system_family == "gba"@ && link_protocol == "gba-sio-multi-v1"@ {
        Some(LinkCableWireProtocol::GbaSioMultiV1)
    } else if system_family == "gba"@ && link_protocol == "gba-sio-multi-v2"@ {
        Some(LinkCableWireProtocol::GbaSioMultiV2)
    } else {
        None
    }
}

/// Selects the wire protocol of a validated link-cable descriptor; `None`
/// for a pair the relay does not support.
pub fn link_protocol_for(system_family: &str, link_protocol: &str) -> (p: Option<LinkCableWireProtocol>)
    ensures
        p == protocol_for_descriptor(system_family@, link_protocol@),
{
    proof {
        reveal_strlit("gb");
        reveal_strlit("gba");
        reveal_strlit("gb-serial-v1");
        reveal_strlit("gba-sio-multi-v1");
        reveal_strlit("gba-sio-multi-v2");
    }
    if str_eq(system_family, "gb") && str_eq(link_protocol, "gb-serial-v1") {
        Some(LinkCableWireProtocol::GbSerialV1)
    } else if str_eq(system_family, "gba") && str_eq(link_protocol, "gba-sio-multi-v1") {
        Some(LinkCableWireProtocol::GbaSioMultiV1)
    } else if str_eq(system_family, "gba") && str_eq(link_protocol, "gba-sio-multi-v2") {
        Some(LinkCableWireProtocol::GbaSioMultiV2)
    } else {
        None
    }
}

/// Static diagnostic class of a codec failure.
pub open spec fn codec_class(e: LinkCableWireCodecError) -> &'static str {
    match e {
        LinkCableWireCodecError::UnsupportedMagic => "wireUnsupportedMagic",
        LinkCableWireCodecError::UnsupportedVersion => "wireUnsupportedVersion",
        LinkCableWireCodecError::InvalidLength => "wireInvalidLength",
        LinkCableWireCodecError::FieldOutOfRange => "wireFieldOutOfRange",
    }
}

/// Static diagnostic class of a transaction failure.
pub open spec fn transaction_class(e: LinkCableTransactionError) -> &'static str {
    match e {
        LinkCableTransactionError::ProtocolMismatch => "transactionProtocolMismatch",
        LinkCableTransactionError::GbaMultiModeNotReady => "transactionGbaMultiModeNotReady",
        LinkCableTransactionError::GbaModeChangedDuringTransfer => "transactionGbaModeChangedDuringTransfer",
        LinkCableTransactionError::GbaModeAcknowledgementMismatch => "transactionGbaModeAcknowledgementMismatch",
        LinkCableTransactionError::TransferAlreadyPending => "transactionTransferAlreadyPending",
        LinkCableTransactionError::NoPendingTransfer => "transactionNoPendingTransfer",
        LinkCableTransactionError::UnexpectedTransactionPhase => "transactionUnexpectedTransactionPhase",
        LinkCableTransactionError::TransferIdMismatch => "transactionTransferIdMismatch",
        LinkCableTransactionError::TransferIdExhausted => "transactionTransferIdExhausted",
        LinkCableTransactionError::CommitPayloadMismatch => "transactionCommitPayloadMismatch",
    }
}

/// Static diagnostic class of a data-plane failure: its variant name in
/// lower camel case, prefixed for codec and transaction failures.
pub open spec fn diagnostic_class_of(e: LinkCableDataPlaneError) -> &'static str {
    match e {
        LinkCableDataPlaneError::InvalidCapacity => "invalidCapacity",
        LinkCableDataPlaneError::EpochOutOfRange => "epochOutOfRange",
        LinkCableDataPlaneError::InvalidPlayerIndex => "invalidPlayerIndex",
        LinkCableDataPlaneError::ConnectionAlreadyBound => "connectionAlreadyBound",
        LinkCableDataPlaneError::EndpointAlreadyBound => "endpointAlreadyBound",
        LinkCableDataPlaneError::ReceiverAlreadyClaimed => "receiverAlreadyClaimed",
        LinkCableDataPlaneError::ConnectionNotAttached => "connectionNotAttached",
        LinkCableDataPlaneError::AttachmentReplaced => "attachmentReplaced",
        LinkCableDataPlaneError::Closed => "closed",
        LinkCableDataPlaneError::NotActive => "notActive",
        LinkCableDataPlaneError::AuthenticatedSlotMismatch => "authenticatedSlotMismatch",
        LinkCableDataPlaneError::RoomEpochMismatch => "roomEpochMismatch",
        LinkCableDataPlaneError::SessionEpochMismatch => "sessionEpochMismatch",
        LinkCableDataPlaneError::EnvelopeSlotMismatch(_) => "envelopeSlotMismatch",
        LinkCableDataPlaneError::EnvelopeSequenceMismatch => "envelopeSequenceMismatch",
        LinkCableDataPlaneError::EnvelopeTimeMismatch => "envelopeTimeMismatch",
        LinkCableDataPlaneError::WireIdentityMismatch => "wireIdentityMismatch",
        LinkCableDataPlaneError::SenderSequenceMismatch => "senderSequenceMismatch",
        LinkCableDataPlaneError::InvalidPacketSize => "invalidPacketSize",
        LinkCableDataPlaneError::WireCodec(c) => codec_class(c),
        LinkCableDataPlaneError::Transaction(t) => transaction_class(t),
        LinkCableDataPlaneError::TargetUnavailable => "targetUnavailable",
        LinkCableDataPlaneError::QueueOverflow => "queueOverflow",
        LinkCableDataPlaneError::CableEpochExhausted => "cableEpochExhausted",
        LinkCableDataPlaneError::AttachmentGenerationExhausted => "attachmentGenerationExhausted",
        LinkCableDataPlaneError::LifecycleRevisionExhausted => "lifecycleRevisionExhausted",
        LinkCableDataPlaneError::StatePoisoned => "statePoisoned",
    }
}

impl LinkCableDataPlaneError {
    /// Returns the static diagnostic class of a data-plane failure.
    pub fn diagnostic_class(&self) -> (c: &'static str)
        ensures
            c == diagnostic_class_of(*self),
    {
        match *self {
            LinkCableDataPlaneError::InvalidCapacity => "invalidCapacity",
            LinkCableDataPlaneError::EpochOutOfRange => "epochOutOfRange",
            LinkCableDataPlaneError::InvalidPlayerIndex => "invalidPlayerIndex",
            LinkCableDataPlaneError::ConnectionAlreadyBound => "connectionAlreadyBound",
            LinkCableDataPlaneError::EndpointAlreadyBound => "endpointAlreadyBound",
            LinkCableDataPlaneError::ReceiverAlreadyClaimed => "receiverAlreadyClaimed",
            LinkCableDataPlaneError::ConnectionNotAttached => "connectionNotAttached",
            LinkCableDataPlaneError::AttachmentReplaced => "attachmentReplaced",
            LinkCableDataPlaneError::Closed => "closed",
            LinkCableDataPlaneError::NotActive => "notActive",
            LinkCableDataPlaneError::AuthenticatedSlotMismatch => "authenticatedSlotMismatch",
            LinkCableDataPlaneError::RoomEpochMismatch => "roomEpochMismatch",
            LinkCableDataPlaneError::SessionEpochMismatch => "sessionEpochMismatch",
            LinkCableDataPlaneError::EnvelopeSlotMismatch(_) => "envelopeSlotMismatch",
            LinkCableDataPlaneError::EnvelopeSequenceMismatch => "envelopeSequenceMismatch",
            LinkCableDataPlaneError::EnvelopeTimeMismatch => "envelopeTimeMismatch",
            LinkCableDataPlaneError::WireIdentityMismatch => "wireIdentityMismatch",
            LinkCableDataPlaneError::SenderSequenceMismatch => "senderSequenceMismatch",
            LinkCableDataPlaneError::InvalidPacketSize => "invalidPacketSize",
            LinkCableDataPlaneError::WireCodec(c) => match c {
                LinkCableWireCodecError::UnsupportedMagic => "wireUnsupportedMagic",
                LinkCableWireCodecError::UnsupportedVersion => "wireUnsupportedVersion",
                LinkCableWireCodecError::InvalidLength => "wireInvalidLength",
                LinkCableWireCodecError::FieldOutOfRange => "wireFieldOutOfRange",
            },
            LinkCableDataPlaneError::Transaction(t) => match t {
                LinkCableTransactionError::ProtocolMismatch => "transactionProtocolMismatch",
                LinkCableTransactionError::GbaMultiModeNotReady => "transactionGbaMultiModeNotReady",
                LinkCableTransactionError::GbaModeChangedDuringTransfer => "transactionGbaModeChangedDuringTransfer",
                LinkCableTransactionError::GbaModeAcknowledgementMismatch => "transactionGbaModeAcknowledgementMismatch",
                LinkCableTransactionError::TransferAlreadyPending => "transactionTransferAlreadyPending",
                LinkCableTransactionError::NoPendingTransfer => "transactionNoPendingTransfer",
                LinkCableTransactionError::UnexpectedTransactionPhase => "transactionUnexpectedTransactionPhase",
                LinkCableTransactionError::TransferIdMismatch => "transactionTransferIdMismatch",
                LinkCableTransactionError::TransferIdExhausted => "transactionTransferIdExhausted",
                LinkCableTransactionError::CommitPayloadMismatch => "transactionCommitPayloadMismatch",
            },
            LinkCableDataPlaneError::TargetUnavailable => "targetUnavailable",
            LinkCableDataPlaneError::QueueOverflow => "queueOverflow",
            LinkCableDataPlaneError::CableEpochExhausted => "cableEpochExhausted",
            LinkCableDataPlaneError::AttachmentGenerationExhausted => "attachmentGenerationExhausted",
            LinkCableDataPlaneError::LifecycleRevisionExhausted => "lifecycleRevisionExhausted",
            LinkCableDataPlaneError::StatePoisoned => "statePoisoned",
        }
    }
}

/// Room-domain error a data-plane failure maps onto.
pub open spec fn room_error_for(error: LinkCableDataPlaneError) -> RoomError {
    match error {
        LinkCableDataPlaneError::Closed => RoomError::RoomClosed,
        LinkCableDataPlaneError::ConnectionNotAttached | LinkCableDataPlaneError::AttachmentReplaced => RoomError::UnknownConnection,
        LinkCableDataPlaneError::RoomEpochMismatch => RoomError::StaleRoomEpoch,
        LinkCableDataPlaneError::SessionEpochMismatch => RoomError::StaleSessionEpoch,
        LinkCableDataPlaneError::NotActive | LinkCableDataPlaneError::TargetUnavailable => RoomError::NotPlaying,
        LinkCableDataPlaneError::EndpointAlreadyBound
        | LinkCableDataPlaneError::ReceiverAlreadyClaimed
        | LinkCableDataPlaneError::ConnectionAlreadyBound => RoomError::RoomNotReady,
        LinkCableDataPlaneError::EnvelopeSlotMismatch(player_index) => RoomError::SlotSpoofing(player_index),
        _ => RoomError::LinkPacketInvalid { diagnostic_class: diagnostic_class_of(error) },
    }
}


/// Bound of each endpoint's link event queue.
pub const LINK_CABLE_EVENT_QUEUE_CAPACITY: usize = 64;

/// A data-plane outcome in the room-domain vocabulary.
pub open spec fn room_result<T>(out: Result<T, LinkCableDataPlaneError>) -> Result<T, RoomError> {
    match out {
        Ok(v) => Ok(v),
        Err(e) => Err(room_error_for(e)),
    }
}

/// Receivers to wake after two critical sections, in order.
pub open spec fn merge_wakeups(first: Wakeup, second: Wakeup) -> Wakeup {
    match (first, second) {
        (Wakeup::Neither, w) => w,
        (w, Wakeup::Neither) => w,
        (Wakeup::Slot(a), Wakeup::Slot(b)) => if a == b { Wakeup::Slot(a) } else { Wakeup::Both },
        _ => Wakeup::Both,
    }
}

fn merge(first: Wakeup, second: Wakeup) -> (w: Wakeup)
    ensures
        w == merge_wakeups(first, second),
{
    match (first, second) {
        (Wakeup::Neither, w) => w,
        (w, Wakeup::Neither) => w,
        (Wakeup::Slot(a), Wakeup::Slot(b)) => if a == b { Wakeup::Slot(a) } else { Wakeup::Both },
        _ => Wakeup::Both,
    }
}

/// Runtime state owned only by link-cable rooms: the room's link
/// descriptor, the players' compatibility reports, the private data plane,
/// and the receivers its latest operations must still wake.
pub struct LinkCableSession {
    /// Link part of the room's session descriptor.
    pub link: LinkCableDescriptor,
    /// Compatibility reports of this join cycle.
    pub state: LinkCableRoomState,
    /// The room-private bounded data plane.
    pub data_plane: LinkCableDataPlaneState,
    /// Receivers to wake once the caller releases its lock.
    pub pending_wakeup: Wakeup,
}

impl LinkCableSession {
    /// Maps private-provider failures onto the stable room-domain vocabulary.
    pub fn map_data_plane_error(error: LinkCableDataPlaneError) -> (e: RoomError)
        ensures
            e == room_error_for(error),
    {
        let diagnostic_class = error.diagnostic_class();
        match error {
            LinkCableDataPlaneError::Closed => RoomError::RoomClosed,
            LinkCableDataPlaneError::ConnectionNotAttached | LinkCableDataPlaneError::AttachmentReplaced => RoomError::UnknownConnection,
            LinkCableDataPlaneError::RoomEpochMismatch => RoomError::StaleRoomEpoch,
            LinkCableDataPlaneError::SessionEpochMismatch => RoomError::StaleSessionEpoch,
            LinkCableDataPlaneError::NotActive | LinkCableDataPlaneError::TargetUnavailable => RoomError::NotPlaying,
            LinkCableDataPlaneError::EndpointAlreadyBound
            | LinkCableDataPlaneError::ReceiverAlreadyClaimed
            | LinkCableDataPlaneError::ConnectionAlreadyBound => RoomError::RoomNotReady,
            LinkCableDataPlaneError::EnvelopeSlotMismatch(player_index) => RoomError::SlotSpoofing(player_index),
            _ => RoomError::LinkPacketInvalid { diagnostic_class },
        }
    }

    /// Invariant: the data plane keeps its own invariant.
    pub open spec fn wf(&self) -> bool {
        plane_wf(self.data_plane@)
    }

    /// Builds the one room-private provider selected by a validated descriptor.
    pub fn new(room_scope: RoomScope, link: LinkCableDescriptor, room_epoch: u64, session_epoch: u64) -> (s: Self)
        requires
            protocol_for_descriptor(link.system_family@, link.link_protocol@) is Some,
            room_epoch <= MAX_SIGNED_U64,
            session_epoch <= MAX_SIGNED_U64,
        ensures
            s.wf(),
            s.link == link,
            s.state@ == Map::<u8, LinkCableCompatibility>::empty(),
            s.data_plane@.room_scope == room_scope@,
            s.data_plane@.protocol == protocol_for_descriptor(link.system_family@, link.link_protocol@)->0,
            s.data_plane@.room_epoch == room_epoch,
            s.data_plane@.session_epoch == session_epoch,
            s.data_plane@.endpoints == seq![None::<crate::link_cable_data_plane::LinkCableEndpoint>, None],
            s.data_plane@.status == crate::link_cable_data_plane::LinkCableDataPlaneStatus::Waiting,
            s.data_plane@.queue_capacity == LINK_CABLE_EVENT_QUEUE_CAPACITY,
            s.pending_wakeup == Wakeup::Neither,
    {
        let protocol = link_protocol_for(link.system_family.as_str(), link.link_protocol.as_str()).unwrap();
        let data_plane = LinkCableDataPlaneState::new(room_scope, protocol, room_epoch, session_epoch, LINK_CABLE_EVENT_QUEUE_CAPACITY).unwrap();
        LinkCableSession { link, state: LinkCableRoomState::new(), data_plane, pending_wakeup: Wakeup::Neither }
    }

    /// Clears compatibility before a new join cycle.
    pub fn reset(&mut self)
        ensures
            final(self).state@ == Map::<u8, LinkCableCompatibility>::empty(),
            final(self).link == old(self).link,
            final(self).data_plane == old(self).data_plane,
            final(self).pending_wakeup == old(self).pending_wakeup,
    {
        self.state.reset();
    }

    /// Hands the receivers to wake to the lock owner and forgets them.
    pub fn take_wakeup(&mut self) -> (w: Wakeup)
        ensures
            w == old(self).pending_wakeup,
            final(self).pending_wakeup == Wakeup::Neither,
            final(self).link == old(self).link,
            final(self).state == old(self).state,
            final(self).data_plane == old(self).data_plane,
    {
        let w = self.pending_wakeup;
        self.pending_wakeup = Wakeup::Neither;
        w
    }

    /// Remembers receivers that a direct data-plane step must wake.
    pub fn record_wakeup(&mut self, wake: Wakeup)
        ensures
            final(self).pending_wakeup == merge_wakeups(old(self).pending_wakeup, wake),
            final(self).link == old(self).link,
            final(self).state == old(self).state,
            final(self).data_plane == old(self).data_plane,
    {
        self.pending_wakeup = merge(self.pending_wakeup, wake);
    }

    /// Binds one exact authenticated control connection to its lobby slot.
    pub fn bind_connection(&mut self, player_index: PlayerIndex, connection_id: ConnectionId)
        -> (r: Result<LinkCableDataPlaneSnapshot, RoomError>)
        requires
            old(self).wf(),
        ensures
            final(self).wf(),
            final(self).link == old(self).link,
            final(self).state == old(self).state,
            ({
                let (v, out, wake) = bind_spec(old(self).data_plane@, player_index, connection_id);
                &&& final(self).data_plane@ == v
                &&& final(self).pending_wakeup == merge_wakeups(old(self).pending_wakeup, wake)
                &&& r == room_result(out)
            }),
    {
        let (out, wake) = self.data_plane.bind_connection(player_index, connection_id);
        self.pending_wakeup = merge(self.pending_wakeup, wake);
        match out {
            Ok(s) => Ok(s),
            Err(e) => Err(LinkCableSession::map_data_plane_error(e)),
        }
    }

    /// Atomically replaces a provisional connection during runner handoff.
    pub fn replace_connection(&mut self, player_index: PlayerIndex, previous_connection_id: ConnectionId, connection_id: ConnectionId)
        -> (r: Result<LinkCableDataPlaneSnapshot, RoomError>)
        requires
            old(self).wf(),
        ensures
            final(self).wf(),
            final(self).link == old(self).link,
            final(self).state == old(self).state,
            ({
                let (v, out, wake) = replace_spec(old(self).data_plane@, player_index, previous_connection_id, connection_id);
                &&& final(self).data_plane@ == v
                &&& final(self).pending_wakeup == merge_wakeups(old(self).pending_wakeup, wake)
                &&& r == room_result(out)
            }),
    {
        let (out, wake) = self.data_plane.replace_connection(player_index, previous_connection_id, connection_id);
        self.pending_wakeup = merge(self.pending_wakeup, wake);
        match out {
            Ok(s) => Ok(s),
            Err(e) => Err(LinkCableSession::map_data_plane_error(e)),
        }
    }

    /// Claims the one targeted receiver for an already-bound connection.
    pub fn claim_receiver(&mut self, connection_id: ConnectionId) -> (r: Result<ReceiverClaim, RoomError>)
        requires
            old(self).wf(),
        ensures
            final(self).wf(),
            final(self).link == old(self).link,
            final(self).state == old(self).state,
            ({
                let (v, out, wake) = claim_spec(old(self).data_plane@, connection_id);
                &&& final(self).data_plane@ == v
                &&& final(self).pending_wakeup == merge_wakeups(old(self).pending_wakeup, wake)
                &&& r == room_result(out)
            }),
    {
        let (out, wake) = self.data_plane.claim_receiver(connection_id);
        self.pending_wakeup = merge(self.pending_wakeup, wake);
        match out {
            Ok(c) => Ok(c),
            Err(e) => Err(LinkCableSession::map_data_plane_error(e)),
        }
    }

    /// Returns server-private lifecycle context for sanitized diagnostics.
    pub fn diagnostic_snapshot(&self, local_slot: PlayerIndex) -> (r: Result<LinkCableDataPlaneSnapshot, RoomError>)
        ensures
            r == (if local_slot.0 < 2 {
                Ok::<LinkCableDataPlaneSnapshot, RoomError>(snapshot_of(self.data_plane@, local_slot))
            } else {
                Err(room_error_for(LinkCableDataPlaneError::InvalidPlayerIndex))
            }),
    {
        match self.data_plane.snapshot(local_slot) {
            Ok(s) => Ok(s),
            Err(e) => Err(LinkCableSession::map_data_plane_error(e)),
        }
    }

    /// Invalidates one exact connection without replacing either endpoint.
    pub fn invalidate_connection(&mut self, connection_id: ConnectionId)
        -> (r: Result<LinkCableDataPlaneSnapshot, RoomError>)
        requires
            old(self).wf(),
        ensures
            final(self).wf(),
            final(self).link == old(self).link,
            final(self).state == old(self).state,
            ({
                let (v, out, wake) = invalidate_spec(old(self).data_plane@, connection_id);
                &&& final(self).data_plane@ == v
                &&& final(self).pending_wakeup == merge_wakeups(old(self).pending_wakeup, wake)
                &&& r == room_result(out)
            }),
    {
        let (out, wake) = self.data_plane.invalidate_connection(connection_id);
        self.pending_wakeup = merge(self.pending_wakeup, wake);
        match out {
            Ok(s) => Ok(s),
            Err(e) => Err(LinkCableSession::map_data_plane_error(e)),
        }
    }

    /// Synchronizes authoritative room/provider epochs without rotating scope.
    pub fn synchronize_epochs(&mut self, room_epoch: u64, session_epoch: u64) -> (r: Result<(), RoomError>)
        requires
            old(self).wf(),
        ensures
            final(self).wf(),
            final(self).link == old(self).link,
            final(self).state == old(self).state,
            ({
                let (v, out, wake) = synchronize_spec(old(self).data_plane@, room_epoch, session_epoch);
                &&& final(self).data_plane@ == v
                &&& final(self).pending_wakeup == merge_wakeups(old(self).pending_wakeup, wake)
                &&& r == room_result(out)
            }),
    {
        let (out, wake) = self.data_plane.synchronize_epochs(room_epoch, session_epoch);
        self.pending_wakeup = merge(self.pending_wakeup, wake);
        match out {
            Ok(()) => Ok(()),
            Err(e) => Err(LinkCableSession::map_data_plane_error(e)),
        }
    }

    /// Permanently closes this room's private data plane.
    pub fn close(&mut self) -> (r: Result<(), RoomError>)
        requires
            old(self).wf(),
        ensures
            final(self).wf(),
            final(self).link == old(self).link,
            final(self).state == old(self).state,
            ({
                let (v, out, wake) = close_spec(old(self).data_plane@);
                &&& final(self).data_plane@ == v
                &&& final(self).pending_wakeup == merge_wakeups(old(self).pending_wakeup, wake)
                &&& r == room_result(out)
            }),
    {
        let (out, wake) = self.data_plane.close();
        self.pending_wakeup = merge(self.pending_wakeup, wake);
        match out {
            Ok(()) => Ok(()),
            Err(e) => Err(LinkCableSession::map_data_plane_error(e)),
        }
    }

    /// Validates and relays one packet through the bounded data plane.
    /// `limits` bounds the payload's size and `decoded` is the SBLK
    /// decoder's reading of the packet's payload under the plane's protocol.
    /// Nothing here decodes the payload: the caller owes the decoder's own
    /// reading of these bytes, and the contract speaks of `decoded` as
    /// given. The raw data-plane outcome is returned.
    pub fn relay(
        &mut self,
        connection_id: ConnectionId,
        authenticated_slot: PlayerIndex,
        observed_room_epoch: u64,
        observed_session_epoch: u64,
        packet: LinkCablePacket,
        limits: LinkCableWireLimits,
        decoded: Result<LinkCableWireFrame, LinkCableWireCodecError>,
    ) -> (r: Result<(), LinkCableDataPlaneError>)
        requires
            old(self).wf(),
        ensures
            final(self).wf(),
            final(self).link == old(self).link,
            final(self).state == old(self).state,
            final(self).data_plane@.room_scope == old(self).data_plane@.room_scope,
            match relay_admission_error(old(self).data_plane@, connection_id, authenticated_slot, observed_room_epoch, observed_session_epoch) {
                Some(e) => {
                    &&& r == Err::<(), LinkCableDataPlaneError>(e)
                    &&& final(self).data_plane@ == old(self).data_plane@
                    &&& final(self).pending_wakeup == old(self).pending_wakeup
                },
                None => match relay_violation(old(self).data_plane@, authenticated_slot, packet, limits, decoded) {
                    Some((e, reason)) => {
                        let (aborted, lifecycle) = abort_spec(old(self).data_plane@, Some(reason));
                        &&& final(self).data_plane@ == aborted
                        &&& final(self).pending_wakeup == merge_wakeups(old(self).pending_wakeup, Wakeup::Both)
                        &&& r == (match lifecycle { Err(le) => Err::<(), LinkCableDataPlaneError>(le), Ok(()) => Err(e) })
                    },
                    None => {
                        &&& r is Ok
                        &&& final(self).pending_wakeup == merge_wakeups(old(self).pending_wakeup,
                            Wakeup::Slot((1 - authenticated_slot.0) as u8))
                        &&& decoded matches Ok(frame) && relayed(old(self).data_plane@, final(self).data_plane@,
                            authenticated_slot.0 as int, packet, frame)
                    },
                },
            },
    {
        let (out, wake) = self.data_plane.relay(connection_id, authenticated_slot, observed_room_epoch,
            observed_session_epoch, packet, limits, decoded);
        self.pending_wakeup = merge(self.pending_wakeup, wake);
        out
    }

    /// Stores one player's provisional link compatibility.
    pub fn set_compatibility(&mut self, player_index: PlayerIndex, protocol_version: u16, compatibility: LinkCableCompatibility)
        -> (r: Result<(), RoomError>)
        ensures
            final(self).link == old(self).link,
            final(self).data_plane == old(self).data_plane,
            final(self).pending_wakeup == old(self).pending_wakeup,
            compatibility.protocol_version == protocol_version && compatibility.spec_matches_descriptor(&old(self).link) ==> {
                &&& r is Ok
                &&& final(self).state@ == old(self).state@.insert(player_index.0, compatibility)
            },
            !(compatibility.protocol_version == protocol_version && compatibility.spec_matches_descriptor(&old(self).link)) ==> {
                &&& r == Err::<(), RoomError>(RoomError::CompatibilityMismatch)
                &&& final(self).state@ == old(self).state@.remove(player_index.0)
            },
    {
        self.state.set_compatibility(player_index, protocol_version, &self.link, compatibility)
    }

    /// Returns whether every connected player supplied link compatibility.
    pub fn connected_players_have_compatibility(&self, connected_players: &[PlayerIndex], max_players: u8) -> (r: bool)
        ensures
            r == all_reported(self.state@, connected_players@, max_players),
    {
        self.state.connected_players_have_compatibility(connected_players, max_players)
    }

    /// Returns whether all connected link compatibility values agree.
    pub fn connected_players_are_compatible(&self, connected_players: &[PlayerIndex], max_players: u8) -> (r: bool)
        ensures
            r == (all_reported(self.state@, connected_players@, max_players) && reports_agree(self.state@)),
    {
        self.state.connected_players_are_compatible(connected_players, max_players)
    }
}

} // verus!
