//! Private, bounded data plane for one link-cable room.
//!
//! This is the state that sits behind the room's per-cable lock: endpoint
//! bindings, one bounded queue per target endpoint, exact sender sequences,
//! the transaction validator, and a lifecycle revision that orders lifecycle
//! changes before buffered packets. Every operation here is one critical
//! section; it reports which endpoint receivers must be woken afterwards.

use vstd::prelude::*;
use std::collections::VecDeque;
use crate::ids::{ConnectionId, PlayerIndex};
use crate::link_cable_transaction::{
    fresh_transaction_state, frame_slots_valid, lemma_valid_slots_are_admissible, transaction_accepted, transaction_rejection,
    transaction_state_wf, LinkCableTransactionError, LinkCableTransactionState,
};
use crate::link_wire::{
    event_emulated_time, frame_emulated_time, frame_header, LinkCableAbortReason,
    LinkCablePacket, LinkCableWireFrame, LinkCableWireLimits, LinkCableWireProtocol, payload_size_allowed,
};
use crate::room_scope::RoomScope;

verus! {

/// Number of endpoints of a cable.
pub const LINK_PLAYER_COUNT: usize = 2;
/// Greatest value of the signed-63-bit wire domain.
pub const MAX_SIGNED_U64: u64 = 0x7fff_ffff_ffff_ffff;

/// Lifecycle state visible only through an authenticated link-private route.
#[derive(Clone, Copy, Debug, PartialEq, Eq, Structural)]
pub enum LinkCableDataPlaneStatus {
    /// Fewer than two endpoint receivers are attached.
    Waiting,
    /// Both endpoints are attached under the current live cable generation.
    Active,
    /// The prior cable generation was invalidated and must be reattached.
    Aborted,
    /// The provider was permanently closed.
    Closed,
}

/// Why the SBLK decoder refused a payload.
#[derive(Clone, Copy, Debug, PartialEq, Eq, Structural)]
pub enum LinkCableWireCodecError {
    /// The payload does not start with the SBLK magic.
    UnsupportedMagic,
    /// The payload's format version is not supported.
    UnsupportedVersion,
    /// The payload's length does not match its event.
    InvalidLength,
    /// A field lies outside its wire domain (slots, sequences, event tags).
    FieldOutOfRange,
}

/// Private lifecycle projection for one endpoint.
#[derive(Clone, Copy, PartialEq, Eq, Structural)]
pub struct LinkCableDataPlaneSnapshot {
    /// Stable server-issued scope for the authoritative room.
    pub room_scope: u64,
    /// Current authoritative room generation.
    pub room_epoch: u64,
    /// Current authoritative gameplay-provider generation.
    pub session_epoch: u64,
    /// Current or most recently allocated cable generation.
    pub cable_epoch: u64,
    /// Maximum required events retained for either target endpoint.
    pub queue_capacity: usize,
    /// Frozen event namespace selected by the room descriptor.
    pub protocol: LinkCableWireProtocol,
    /// Current provider lifecycle state.
    pub status: LinkCableDataPlaneStatus,
    /// Cause of the most recent cable abort.
    pub abort_reason: Option<LinkCableAbortReason>,
    /// Monotonic lifecycle revision used to order state before packets.
    pub lifecycle_revision: u64,
    /// Authenticated endpoint receiving this private projection.
    pub local_slot: PlayerIndex,
}

/// One item delivered to exactly one attached endpoint.
#[derive(Clone, PartialEq, Eq)]
pub enum LinkCableDataPlaneEvent {
    /// A fully validated packet emitted by the other endpoint.
    Packet(LinkCablePacket),
    /// A newer lifecycle state. Lifecycle always wins over buffered packets.
    Lifecycle(LinkCableDataPlaneSnapshot),
}

/// Link-only admission, lifecycle, or relay failure.
#[derive(Clone, Copy, Debug, PartialEq, Eq, Structural)]
pub enum LinkCableDataPlaneError {
    /// A queue with no storage cannot preserve required link events.
    InvalidCapacity,
    /// An authoritative epoch exceeded the signed-63-bit range.
    EpochOutOfRange,
    /// A player index was not one of the two link endpoints.
    InvalidPlayerIndex,
    /// A connection was already bound to the other endpoint.
    ConnectionAlreadyBound,
    /// The requested endpoint still belongs to another connection.
    EndpointAlreadyBound,
    /// The endpoint's one receiver was already claimed.
    ReceiverAlreadyClaimed,
    /// No endpoint is currently bound to the supplied connection.
    ConnectionNotAttached,
    /// The receiver's attachment was invalidated or replaced.
    AttachmentReplaced,
    /// The provider cannot accept new work after close.
    Closed,
    /// Link traffic arrived before a live two-endpoint cable existed.
    NotActive,
    /// The authenticated route supplied a slot other than the bound slot.
    AuthenticatedSlotMismatch,
    /// The route's observed room generation was not authoritative.
    RoomEpochMismatch,
    /// The route's observed provider generation was not authoritative.
    SessionEpochMismatch,
    /// The envelope attempted to name another player slot.
    EnvelopeSlotMismatch(PlayerIndex),
    /// The envelope's sequence disagreed with the SBLK header.
    EnvelopeSequenceMismatch,
    /// The envelope's diagnostic time disagreed with a timestamped event.
    EnvelopeTimeMismatch,
    /// A decoded SBLK routing field did not match the live attachment.
    WireIdentityMismatch,
    /// Sender sequence was not the exact next value starting at zero.
    SenderSequenceMismatch,
    /// The complete SBLK frame fell outside the frozen size bounds.
    InvalidPacketSize,
    /// The SBLK decoder rejected the frame.
    WireCodec(LinkCableWireCodecError),
    /// The decoded event violated the live cable's transaction state machine.
    Transaction(LinkCableTransactionError),
    /// A required event had no live peer destination.
    TargetUnavailable,
    /// A required event could not enter its bounded target queue.
    QueueOverflow,
    /// The signed-63-bit cable generation domain was exhausted.
    CableEpochExhausted,
    /// A process-lifetime attachment identity could no longer be advanced.
    AttachmentGenerationExhausted,
    /// A lifecycle revision could no longer advance without reuse.
    LifecycleRevisionExhausted,
    /// The lock around this state was poisoned by a panic.
    StatePoisoned,
}

/// Which endpoint receivers must be woken after an operation.
#[derive(Clone, Copy, Debug, PartialEq, Eq, Structural)]
pub enum Wakeup {
    /// No receiver observes a change.
    Neither,
    /// Both receivers (a lifecycle change or a failed lifecycle step).
    Both,
    /// Only the receiver of this slot (a packet was queued for it).
    Slot(u8),
}

/// One endpoint binding.
#[derive(Clone, Copy, Debug, PartialEq, Eq, Structural)]
pub struct LinkCableEndpoint {
    /// Authenticated connection bound to the endpoint.
    pub connection_id: ConnectionId,
    /// Process-lifetime identity of this binding.
    pub attachment_generation: u64,
    /// Whether the endpoint's one receiver was claimed.
    pub receiver_claimed: bool,
}

/// Mathematical view of the data plane.
pub struct DataPlaneView {
    /// Room scope value (never changes).
    pub room_scope: u64,
    /// Frozen protocol.
    pub protocol: LinkCableWireProtocol,
    /// Room generation.
    pub room_epoch: u64,
    /// Provider generation.
    pub session_epoch: u64,
    /// Cable generation.
    pub cable_epoch: u64,
    /// Endpoint bindings of slot 0 and slot 1.
    pub endpoints: Seq<Option<LinkCableEndpoint>>,
    /// Packets waiting for slot 0 and for slot 1.
    pub queues: Seq<Seq<LinkCablePacket>>,
    /// Next sender sequence expected from slot 0 and from slot 1.
    pub next_sender_sequences: Seq<u64>,
    /// Transaction validator of the live cable.
    pub transaction_state: LinkCableTransactionState,
    /// Bound of each queue.
    pub queue_capacity: usize,
    /// Lifecycle status.
    pub status: LinkCableDataPlaneStatus,
    /// Cause of the latest abort.
    pub abort_reason: Option<LinkCableAbortReason>,
    /// Lifecycle revision.
    pub lifecycle_revision: u64,
    /// Next attachment generation to hand out.
    pub next_attachment_generation: u64,
}

/// State behind one room's data-plane lock.
/// Every method requires and keeps `plane_wf` of the view; the fields are
/// open so that the owner of the lock can inspect them.
pub struct LinkCableDataPlaneState {
    pub room_scope: RoomScope,
    pub protocol: LinkCableWireProtocol,
    pub room_epoch: u64,
    pub session_epoch: u64,
    pub cable_epoch: u64,
    pub endpoints: [Option<LinkCableEndpoint>; 2],
    pub queue_zero: VecDeque<LinkCablePacket>,
    pub queue_one: VecDeque<LinkCablePacket>,
    pub next_sender_sequences: [u64; 2],
    pub transaction_state: LinkCableTransactionState,
    pub queue_capacity: usize,
    pub status: LinkCableDataPlaneStatus,
    pub abort_reason: Option<LinkCableAbortReason>,
    pub lifecycle_revision: u64,
    pub next_attachment_generation: u64,
}

impl View for LinkCableDataPlaneState {
    type V = DataPlaneView;

    closed spec fn view(&self) -> DataPlaneView {
        DataPlaneView {
            room_scope: self.room_scope@,
            protocol: self.protocol,
            room_epoch: self.room_epoch,
            session_epoch: self.session_epoch,
            cable_epoch: self.cable_epoch,
            endpoints: self.endpoints@,
            queues: seq![self.queue_zero@, self.queue_one@],
            next_sender_sequences: self.next_sender_sequences@,
            transaction_state: self.transaction_state,
            queue_capacity: self.queue_capacity,
            status: self.status,
            abort_reason: self.abort_reason,
            lifecycle_revision: self.lifecycle_revision,
            next_attachment_generation: self.next_attachment_generation,
        }
    }
}

/// Endpoint `slot` is bound and its receiver is claimed.
pub open spec fn endpoint_claimed(v: DataPlaneView, slot: int) -> bool {
    v.endpoints[slot] matches Some(e) && e.receiver_claimed
}

/// Invariant of the data plane.
pub open spec fn plane_wf(v: DataPlaneView) -> bool {
    &&& plane_core_wf(v)
    &&& v.transaction_state.protocol == v.protocol
    &&& v.status == LinkCableDataPlaneStatus::Active ==> endpoint_claimed(v, 0) && endpoint_claimed(v, 1)
    &&& (v.endpoints[0] is Some && v.endpoints[1] is Some
        ==> v.endpoints[0]->0.connection_id != v.endpoints[1]->0.connection_id)
    &&& forall|i: int| 0 <= i < 2 ==> (#[trigger] v.endpoints[i] matches Some(e)
        ==> e.attachment_generation < v.next_attachment_generation)
}

/// The part of the invariant about sizes, bounds and the validator.
pub open spec fn plane_core_wf(v: DataPlaneView) -> bool {
    &&& v.endpoints.len() == 2
    &&& v.queues.len() == 2
    &&& v.next_sender_sequences.len() == 2
    &&& v.queue_capacity > 0
    &&& v.queues[0].len() <= v.queue_capacity
    &&& v.queues[1].len() <= v.queue_capacity
    &&& v.next_sender_sequences[0] <= MAX_SIGNED_U64 + 1
    &&& v.next_sender_sequences[1] <= MAX_SIGNED_U64 + 1
    &&& v.room_epoch <= MAX_SIGNED_U64
    &&& v.session_epoch <= MAX_SIGNED_U64
    &&& v.cable_epoch <= MAX_SIGNED_U64
    &&& transaction_state_wf(v.transaction_state)
}

/// The slot that `connection_id` is bound to, if any.
pub open spec fn connection_slot_of(v: DataPlaneView, connection_id: ConnectionId) -> Option<int> {
    if v.endpoints[0] matches Some(e) && e.connection_id == connection_id {
        Some(0)
    } else if v.endpoints[1] matches Some(e) && e.connection_id == connection_id {
        Some(1)
    } else {
        None
    }
}

/// Queues emptied, sender sequences restarted and the validator reset.
pub open spec fn cleared(v: DataPlaneView) -> DataPlaneView {
    DataPlaneView {
        queues: seq![Seq::empty(), Seq::empty()],
        next_sender_sequences: seq![0u64, 0u64],
        transaction_state: fresh_transaction_state(v.protocol),
        ..v
    }
}

/// Advances the lifecycle revision; when it cannot advance the plane closes
/// for good instead.
pub open spec fn advance_lifecycle_spec(v: DataPlaneView) -> (DataPlaneView, Result<(), LinkCableDataPlaneError>) {
    if v.lifecycle_revision == u64::MAX {
        (DataPlaneView {
            status: LinkCableDataPlaneStatus::Closed,
            abort_reason: Some(LinkCableAbortReason::CoreClosed),
            ..cleared(v)
        }, Err(LinkCableDataPlaneError::LifecycleRevisionExhausted))
    } else {
        (DataPlaneView { lifecycle_revision: (v.lifecycle_revision + 1) as u64, ..v }, Ok(()))
    }
}

/// Aborts the live cable: clears packet state, records the reason, and
/// advances the lifecycle.
pub open spec fn abort_spec(v: DataPlaneView, reason: Option<LinkCableAbortReason>) -> (DataPlaneView, Result<(), LinkCableDataPlaneError>) {
    advance_lifecycle_spec(DataPlaneView {
        status: LinkCableDataPlaneStatus::Aborted,
        abort_reason: reason,
        ..cleared(v)
    })
}

/// Starts a new cable generation with cleared packet state.
pub open spec fn activate_spec(v: DataPlaneView) -> (DataPlaneView, Result<(), LinkCableDataPlaneError>) {
    advance_lifecycle_spec(DataPlaneView {
        cable_epoch: (v.cable_epoch + 1) as u64,
        status: LinkCableDataPlaneStatus::Active,
        abort_reason: None,
        ..cleared(v)
    })
}

/// Projection of the plane for one endpoint.
pub open spec fn snapshot_of(v: DataPlaneView, local_slot: PlayerIndex) -> LinkCableDataPlaneSnapshot {
    LinkCableDataPlaneSnapshot {
        room_scope: v.room_scope,
        room_epoch: v.room_epoch,
        session_epoch: v.session_epoch,
        cable_epoch: v.cable_epoch,
        queue_capacity: v.queue_capacity,
        protocol: v.protocol,
        status: v.status,
        abort_reason: v.abort_reason,
        lifecycle_revision: v.lifecycle_revision,
        local_slot,
    }
}

/// A frame whose slot fields name one of the two endpoints and whose sender
/// sequence lies inside the signed-63-bit wire domain.
pub open spec fn frame_in_wire_domain(frame: LinkCableWireFrame) -> bool {
    frame_slots_valid(frame) && frame_header(frame).sender_sequence <= MAX_SIGNED_U64
}

/// The failure a relay reports before touching the plane, if any.
pub open spec fn relay_admission_error(v: DataPlaneView, connection_id: ConnectionId, authenticated_slot: PlayerIndex, observed_room_epoch: u64, observed_session_epoch: u64) -> Option<LinkCableDataPlaneError> {
    let slot = authenticated_slot.0 as int;
    if slot >= 2 {
        Some(LinkCableDataPlaneError::InvalidPlayerIndex)
    } else if v.status == LinkCableDataPlaneStatus::Closed {
        Some(LinkCableDataPlaneError::Closed)
    } else if v.status != LinkCableDataPlaneStatus::Active {
        Some(LinkCableDataPlaneError::NotActive)
    } else if !(v.endpoints[slot] matches Some(e) && e.connection_id == connection_id && e.receiver_claimed) {
        Some(LinkCableDataPlaneError::AuthenticatedSlotMismatch)
    } else if observed_room_epoch != v.room_epoch {
        Some(LinkCableDataPlaneError::RoomEpochMismatch)
    } else if observed_session_epoch != v.session_epoch {
        Some(LinkCableDataPlaneError::SessionEpochMismatch)
    } else {
        None
    }
}

/// The failure (and the abort reason it aborts the cable with) of an
/// admitted relay, if the packet is refused.
pub open spec fn relay_violation(v: DataPlaneView, authenticated_slot: PlayerIndex, packet: LinkCablePacket, limits: LinkCableWireLimits, decoded: Result<LinkCableWireFrame, LinkCableWireCodecError>) -> Option<(LinkCableDataPlaneError, LinkCableAbortReason)> {
    let slot = authenticated_slot.0 as int;
    let target = 1 - slot;
    if packet.player_index != authenticated_slot {
        Some((LinkCableDataPlaneError::EnvelopeSlotMismatch(packet.player_index), LinkCableAbortReason::ProtocolViolation))
    } else if !payload_size_allowed(limits, packet.payload@.len() as int) {
        Some((LinkCableDataPlaneError::InvalidPacketSize, LinkCableAbortReason::ProtocolViolation))
    } else {
        match decoded {
            Err(e) => Some((LinkCableDataPlaneError::WireCodec(e), LinkCableAbortReason::ProtocolViolation)),
            Ok(frame) => {
                let header = frame_header(frame);
                if !frame_in_wire_domain(frame) {
                    Some((LinkCableDataPlaneError::WireCodec(LinkCableWireCodecError::FieldOutOfRange), LinkCableAbortReason::ProtocolViolation))
                } else if header.room_epoch != v.room_epoch || header.session_epoch != v.session_epoch
                    || header.cable_epoch != v.cable_epoch || header.sender_slot as int != slot {
                    Some((LinkCableDataPlaneError::WireIdentityMismatch, LinkCableAbortReason::ProtocolViolation))
                } else if header.sender_sequence != packet.sequence {
                    Some((LinkCableDataPlaneError::EnvelopeSequenceMismatch, LinkCableAbortReason::ProtocolViolation))
                } else if frame_emulated_time(frame) matches Some(t) && t != packet.emulated_time {
                    Some((LinkCableDataPlaneError::EnvelopeTimeMismatch, LinkCableAbortReason::ProtocolViolation))
                } else if header.sender_sequence != v.next_sender_sequences[slot] {
                    Some((LinkCableDataPlaneError::SenderSequenceMismatch, LinkCableAbortReason::ProtocolViolation))
                } else if !(v.endpoints[target] matches Some(e) && e.receiver_claimed) {
                    Some((LinkCableDataPlaneError::TargetUnavailable, LinkCableAbortReason::PeerDisconnected))
                } else if v.queues[target].len() >= v.queue_capacity {
                    Some((LinkCableDataPlaneError::QueueOverflow, LinkCableAbortReason::QueueOverflow))
                } else {
                    match transaction_rejection(v.transaction_state, frame) {
                        Some(e) => Some((LinkCableDataPlaneError::Transaction(e), LinkCableAbortReason::ProtocolViolation)),
                        None => None,
                    }
                }
            },
        }
    }
}

/// `w` is the plane after `v` forwards `packet` (decoded as `frame`) from
/// `slot` to the opposite endpoint.
pub open spec fn relayed(v: DataPlaneView, w: DataPlaneView, slot: int, packet: LinkCablePacket, frame: LinkCableWireFrame) -> bool {
    let target = 1 - slot;
    &&& w.queues[target] == v.queues[target].push(packet)
    &&& w.queues[slot] == v.queues[slot]
    &&& w.queues.len() == 2
    &&& w.next_sender_sequences == v.next_sender_sequences.update(slot, (v.next_sender_sequences[slot] + 1) as u64)
    &&& transaction_accepted(v.transaction_state, w.transaction_state, frame)
    &&& w.room_scope == v.room_scope
    &&& w.protocol == v.protocol
    &&& w.room_epoch == v.room_epoch
    &&& w.session_epoch == v.session_epoch
    &&& w.cable_epoch == v.cable_epoch
    &&& w.endpoints == v.endpoints
    &&& w.queue_capacity == v.queue_capacity
    &&& w.status == v.status
    &&& w.abort_reason == v.abort_reason
    &&& w.lifecycle_revision == v.lifecycle_revision
    &&& w.next_attachment_generation == v.next_attachment_generation
}

impl LinkCableDataPlaneState {
    /// Allocates one independent bounded data plane.
    pub fn new(
        room_scope: RoomScope,
        protocol: LinkCableWireProtocol,
        room_epoch: u64,
        session_epoch: u64,
        queue_capacity: usize,
    ) -> (r: Result<Self, LinkCableDataPlaneError>)
        ensures
            room_epoch > MAX_SIGNED_U64 || session_epoch > MAX_SIGNED_U64
                ==> r == Err::<Self, LinkCableDataPlaneError>(LinkCableDataPlaneError::EpochOutOfRange),
            room_epoch <= MAX_SIGNED_U64 && session_epoch <= MAX_SIGNED_U64 && queue_capacity == 0
                ==> r == Err::<Self, LinkCableDataPlaneError>(LinkCableDataPlaneError::InvalidCapacity),
            room_epoch <= MAX_SIGNED_U64 && session_epoch <= MAX_SIGNED_U64 && queue_capacity > 0 ==> (r matches Ok(s) && {
                let v = s@;
                &&& plane_wf(v)
                &&& v.room_scope == room_scope@
                &&& v.protocol == protocol
                &&& v.room_epoch == room_epoch
                &&& v.session_epoch == session_epoch
                &&& v.cable_epoch == 0
                &&& v.endpoints == seq![None::<LinkCableEndpoint>, None::<LinkCableEndpoint>]
                &&& v.queues == seq![Seq::<LinkCablePacket>::empty(), Seq::<LinkCablePacket>::empty()]
                &&& v.next_sender_sequences == seq![0u64, 0u64]
                &&& v.transaction_state == fresh_transaction_state(protocol)
                &&& v.queue_capacity == queue_capacity
                &&& v.status == LinkCableDataPlaneStatus::Waiting
                &&& v.abort_reason is None
                &&& v.lifecycle_revision == 0
                &&& v.next_attachment_generation == 1
            }),
    {
        if room_epoch > MAX_SIGNED_U64 || session_epoch > MAX_SIGNED_U64 {
            return Err(LinkCableDataPlaneError::EpochOutOfRange);
        }
        if queue_capacity == 0 {
            return Err(LinkCableDataPlaneError::InvalidCapacity);
        }
        let s = LinkCableDataPlaneState {
            room_scope,
            protocol,
            room_epoch,
            session_epoch,
            cable_epoch: 0,
            endpoints: [None, None],
            queue_zero: VecDeque::new(),
            queue_one: VecDeque::new(),
            next_sender_sequences: [0, 0],
            transaction_state: LinkCableTransactionState::new(protocol),
            queue_capacity,
            status: LinkCableDataPlaneStatus::Waiting,
            abort_reason: None,
            lifecycle_revision: 0,
            next_attachment_generation: 1,
        };
        assert(s@.queues == seq![Seq::<LinkCablePacket>::empty(), Seq::<LinkCablePacket>::empty()]);
        Ok(s)
    }

    fn clear_packet_state(&mut self)
        requires
            plane_core_wf(old(self)@),
        ensures
            final(self)@ == cleared(old(self)@),
            plane_core_wf(final(self)@),
    {
        self.queue_zero.clear();
        self.queue_one.clear();
        self.next_sender_sequences = [0, 0];
        self.transaction_state.reset(self.protocol);
        assert(self@.queues == seq![Seq::<LinkCablePacket>::empty(), Seq::<LinkCablePacket>::empty()]);
        assert(self@.next_sender_sequences == seq![0u64, 0u64]);
    }

    fn advance_lifecycle(&mut self) -> (r: Result<(), LinkCableDataPlaneError>)
        requires
            plane_core_wf(old(self)@),
        ensures
            (final(self)@, r) == advance_lifecycle_spec(old(self)@),
            plane_core_wf(final(self)@),
    {
        if self.lifecycle_revision == u64::MAX {
            self.clear_packet_state();
            self.status = LinkCableDataPlaneStatus::Closed;
            self.abort_reason = Some(LinkCableAbortReason::CoreClosed);
            return Err(LinkCableDataPlaneError::LifecycleRevisionExhausted);
        }
        self.lifecycle_revision = self.lifecycle_revision + 1;
        Ok(())
    }

    fn abort_cable(&mut self, reason: Option<LinkCableAbortReason>) -> (r: Result<(), LinkCableDataPlaneError>)
        requires
            plane_core_wf(old(self)@),
        ensures
            (final(self)@, r) == abort_spec(old(self)@, reason),
            plane_core_wf(final(self)@),
    {
        self.clear_packet_state();
        self.status = LinkCableDataPlaneStatus::Aborted;
        self.abort_reason = reason;
        self.advance_lifecycle()
    }

    /// Projection of the plane for `local_slot`.
    pub fn snapshot_for(&self, local_slot: PlayerIndex) -> (s: LinkCableDataPlaneSnapshot)
        ensures
            s == snapshot_of(self@, local_slot),
    {
        LinkCableDataPlaneSnapshot {
            room_scope: self.room_scope.get(),
            room_epoch: self.room_epoch,
            session_epoch: self.session_epoch,
            cable_epoch: self.cable_epoch,
            queue_capacity: self.queue_capacity,
            protocol: self.protocol,
            status: self.status,
            abort_reason: self.abort_reason,
            lifecycle_revision: self.lifecycle_revision,
            local_slot,
        }
    }

    fn queue_len(&self, slot: usize) -> (n: usize)
        requires
            slot < 2,
        ensures
            n == self@.queues[slot as int].len(),
    {
        if slot == 0 { self.queue_zero.len() } else { self.queue_one.len() }
    }

    /// Validates and forwards one required SBLK event to the opposite slot.
    ///
    /// `limits` bounds the payload's size and `decoded` is the SBLK
    /// decoder's reading of `packet.payload` under the plane's protocol.
    /// Nothing here decodes the payload: the caller owes the decoder's own
    /// reading of these bytes, and the contract speaks of `decoded` as
    /// given. Refusals before admission leave the plane untouched;
    /// every later refusal aborts the cable, clearing both queues.
    pub fn relay(
        &mut self,
        connection_id: ConnectionId,
        authenticated_slot: PlayerIndex,
        observed_room_epoch: u64,
        observed_session_epoch: u64,
        packet: LinkCablePacket,
        limits: LinkCableWireLimits,
        decoded: Result<LinkCableWireFrame, LinkCableWireCodecError>,
    ) -> (out: (Result<(), LinkCableDataPlaneError>, Wakeup))
        requires
            plane_wf(old(self)@),
        ensures
            plane_wf(final(self)@),
            final(self)@.room_scope == old(self)@.room_scope,
            match relay_admission_error(old(self)@, connection_id, authenticated_slot, observed_room_epoch, observed_session_epoch) {
                Some(e) => out == (Err::<(), LinkCableDataPlaneError>(e), Wakeup::Neither) && final(self)@ == old(self)@,
                None => match relay_violation(old(self)@, authenticated_slot, packet, limits, decoded) {
                    Some((e, reason)) => {
                        let (aborted, lifecycle) = abort_spec(old(self)@, Some(reason));
                        &&& final(self)@ == aborted
                        &&& out.1 == Wakeup::Both
                        &&& out.0 == (match lifecycle { Err(le) => Err::<(), LinkCableDataPlaneError>(le), Ok(()) => Err(e) })
                    },
                    None => {
                        &&& out == (Ok::<(), LinkCableDataPlaneError>(()), Wakeup::Slot((1 - authenticated_slot.0) as u8))
                        &&& decoded matches Ok(frame) && relayed(old(self)@, final(self)@, authenticated_slot.0 as int, packet, frame)
                    },
                },
            },
    {
        if authenticated_slot.0 >= 2 {
            return (Err(LinkCableDataPlaneError::InvalidPlayerIndex), Wakeup::Neither);
        }
        let sender_slot = authenticated_slot.0 as usize;
        if self.status == LinkCableDataPlaneStatus::Closed {
            return (Err(LinkCableDataPlaneError::Closed), Wakeup::Neither);
        }
        if self.status != LinkCableDataPlaneStatus::Active {
            return (Err(LinkCableDataPlaneError::NotActive), Wakeup::Neither);
        }
        match self.endpoints[sender_slot] {
            Some(endpoint) => {
                if endpoint.connection_id.0 != connection_id.0 || !endpoint.receiver_claimed {
                    return (Err(LinkCableDataPlaneError::AuthenticatedSlotMismatch), Wakeup::Neither);
                }
            },
            None => return (Err(LinkCableDataPlaneError::AuthenticatedSlotMismatch), Wakeup::Neither),
        }
        if observed_room_epoch != self.room_epoch {
            return (Err(LinkCableDataPlaneError::RoomEpochMismatch), Wakeup::Neither);
        }
        if observed_session_epoch != self.session_epoch {
            return (Err(LinkCableDataPlaneError::SessionEpochMismatch), Wakeup::Neither);
        }
        if packet.player_index.0 != authenticated_slot.0 {
            return self.abort_relay(LinkCableAbortReason::ProtocolViolation, LinkCableDataPlaneError::EnvelopeSlotMismatch(packet.player_index));
        }
        let payload_len = packet.payload.len();
        if payload_len < limits.header_bytes || payload_len > limits.max_frame_bytes {
            return self.abort_relay(LinkCableAbortReason::ProtocolViolation, LinkCableDataPlaneError::InvalidPacketSize);
        }
        let frame = match decoded {
            Ok(frame) => frame,
            Err(error) => return self.abort_relay(LinkCableAbortReason::ProtocolViolation, LinkCableDataPlaneError::WireCodec(error)),
        };
        let header = frame.header();
        if !frame_within_wire_domain(&frame) {
            return self.abort_relay(
                LinkCableAbortReason::ProtocolViolation,
                LinkCableDataPlaneError::WireCodec(LinkCableWireCodecError::FieldOutOfRange),
            );
        }
        if header.room_epoch != self.room_epoch || header.session_epoch != self.session_epoch
            || header.cable_epoch != self.cable_epoch || header.sender_slot as usize != sender_slot {
            return self.abort_relay(LinkCableAbortReason::ProtocolViolation, LinkCableDataPlaneError::WireIdentityMismatch);
        }
        if header.sender_sequence != packet.sequence {
            return self.abort_relay(LinkCableAbortReason::ProtocolViolation, LinkCableDataPlaneError::EnvelopeSequenceMismatch);
        }
        match event_emulated_time(&frame) {
            Some(time) => {
                if time != packet.emulated_time {
                    return self.abort_relay(LinkCableAbortReason::ProtocolViolation, LinkCableDataPlaneError::EnvelopeTimeMismatch);
                }
            },
            None => {},
        }
        if header.sender_sequence != self.next_sender_sequences[sender_slot] {
            return self.abort_relay(LinkCableAbortReason::ProtocolViolation, LinkCableDataPlaneError::SenderSequenceMismatch);
        }
        let target_slot = 1 - sender_slot;
        let target_claimed = match self.endpoints[target_slot] {
            Some(target) => target.receiver_claimed,
            None => false,
        };
        if !target_claimed {
            return self.abort_relay(LinkCableAbortReason::PeerDisconnected, LinkCableDataPlaneError::TargetUnavailable);
        }
        if self.queue_len(target_slot) >= self.queue_capacity {
            return self.abort_relay(LinkCableAbortReason::QueueOverflow, LinkCableDataPlaneError::QueueOverflow);
        }
        proof {
            lemma_valid_slots_are_admissible(self.transaction_state, frame);
        }
        match self.transaction_state.validate_and_apply(&frame) {
            Err(error) => {
                return self.abort_relay(LinkCableAbortReason::ProtocolViolation, LinkCableDataPlaneError::Transaction(error));
            },
            Ok(()) => {},
        }
        if target_slot == 0 {
            self.queue_zero.push_back(packet);
        } else {
            self.queue_one.push_back(packet);
        }
        self.next_sender_sequences[sender_slot] = header.sender_sequence + 1;
        (Ok(()), Wakeup::Slot(target_slot as u8))
    }

    fn abort_relay(&mut self, reason: LinkCableAbortReason, error: LinkCableDataPlaneError) -> (out: (Result<(), LinkCableDataPlaneError>, Wakeup))
        requires
            plane_core_wf(old(self)@),
        ensures
            plane_core_wf(final(self)@),
            ({
                let (aborted, lifecycle) = abort_spec(old(self)@, Some(reason));
                &&& final(self)@ == aborted
                &&& out.1 == Wakeup::Both
                &&& out.0 == (match lifecycle { Err(le) => Err::<(), LinkCableDataPlaneError>(le), Ok(()) => Err(error) })
            }),
    {
        match self.abort_cable(Some(reason)) {
            Err(lifecycle_error) => (Err(lifecycle_error), Wakeup::Both),
            Ok(()) => (Err(error), Wakeup::Both),
        }
    }
}

fn frame_within_wire_domain(frame: &LinkCableWireFrame) -> (b: bool)
    ensures
        b == frame_in_wire_domain(*frame),
{
    let header = frame.header();
    if header.sender_slot >= 2 || header.sender_sequence > MAX_SIGNED_U64 {
        return false;
    }
    match frame {
        LinkCableWireFrame::GbSerial(f) => match f.event {
            crate::link_wire::GbSerialEvent::Start { clock_owner_slot, .. } => clock_owner_slot < 2,
            crate::link_wire::GbSerialEvent::Reply { clock_owner_slot, .. } => clock_owner_slot < 2,
            crate::link_wire::GbSerialEvent::Commit { clock_owner_slot, .. } => clock_owner_slot < 2,
            crate::link_wire::GbSerialEvent::Abort { clock_owner_slot, .. } => clock_owner_slot < 2,
        },
        _ => true,
    }
}


/// Slot number of a player index on a two-endpoint cable.
pub open spec fn slot_of(player_index: PlayerIndex) -> Option<int> {
    if player_index.0 < 2 { Some(player_index.0 as int) } else { None }
}

/// Outcome of binding `connection_id` to `player_index`'s endpoint.
pub open spec fn bind_spec(v: DataPlaneView, player_index: PlayerIndex, connection_id: ConnectionId)
    -> (DataPlaneView, Result<LinkCableDataPlaneSnapshot, LinkCableDataPlaneError>, Wakeup)
{
    match slot_of(player_index) {
        None => (v, Err(LinkCableDataPlaneError::InvalidPlayerIndex), Wakeup::Neither),
        Some(slot) => if v.status == LinkCableDataPlaneStatus::Closed {
            (v, Err(LinkCableDataPlaneError::Closed), Wakeup::Neither)
        } else {
            match connection_slot_of(v, connection_id) {
                Some(bound) => if bound == slot {
                    (v, Ok(snapshot_of(v, player_index)), Wakeup::Neither)
                } else {
                    (v, Err(LinkCableDataPlaneError::ConnectionAlreadyBound), Wakeup::Neither)
                },
                None => if v.endpoints[slot] is Some {
                    (v, Err(LinkCableDataPlaneError::EndpointAlreadyBound), Wakeup::Neither)
                } else if v.next_attachment_generation == u64::MAX {
                    (v, Err(LinkCableDataPlaneError::AttachmentGenerationExhausted), Wakeup::Neither)
                } else {
                    let bound_view = DataPlaneView {
                        endpoints: v.endpoints.update(slot, Some(LinkCableEndpoint {
                            connection_id,
                            attachment_generation: v.next_attachment_generation,
                            receiver_claimed: false,
                        })),
                        next_attachment_generation: (v.next_attachment_generation + 1) as u64,
                        status: LinkCableDataPlaneStatus::Waiting,
                        abort_reason: None,
                        ..v
                    };
                    let (w, r) = advance_lifecycle_spec(bound_view);
                    (w, match r { Ok(()) => Ok(snapshot_of(w, player_index)), Err(e) => Err(e) }, Wakeup::Both)
                },
            }
        },
    }
}

/// Outcome of atomically replacing `previous_connection_id` by
/// `connection_id` on `player_index`'s endpoint.
pub open spec fn replace_spec(v: DataPlaneView, player_index: PlayerIndex, previous_connection_id: ConnectionId, connection_id: ConnectionId)
    -> (DataPlaneView, Result<LinkCableDataPlaneSnapshot, LinkCableDataPlaneError>, Wakeup)
{
    match slot_of(player_index) {
        None => (v, Err(LinkCableDataPlaneError::InvalidPlayerIndex), Wakeup::Neither),
        Some(slot) => if v.status == LinkCableDataPlaneStatus::Closed {
            (v, Err(LinkCableDataPlaneError::Closed), Wakeup::Neither)
        } else if previous_connection_id == connection_id {
            match v.endpoints[slot] {
                None => (v, Err(LinkCableDataPlaneError::ConnectionNotAttached), Wakeup::Neither),
                Some(e) => if e.connection_id != connection_id {
                    (v, Err(LinkCableDataPlaneError::EndpointAlreadyBound), Wakeup::Neither)
                } else {
                    (v, Ok(snapshot_of(v, player_index)), Wakeup::Neither)
                },
            }
        } else {
            match connection_slot_of(v, connection_id) {
                Some(bound) => if bound == slot {
                    (v, Ok(snapshot_of(v, player_index)), Wakeup::Neither)
                } else {
                    (v, Err(LinkCableDataPlaneError::ConnectionAlreadyBound), Wakeup::Neither)
                },
                None => if v.endpoints[slot] matches Some(e) && e.connection_id != previous_connection_id {
                    (v, Err(LinkCableDataPlaneError::EndpointAlreadyBound), Wakeup::Neither)
                } else if v.endpoints[slot] is None && connection_slot_of(v, previous_connection_id) is Some {
                    (v, Err(LinkCableDataPlaneError::ConnectionAlreadyBound), Wakeup::Neither)
                } else if v.next_attachment_generation == u64::MAX {
                    (v, Err(LinkCableDataPlaneError::AttachmentGenerationExhausted), Wakeup::Neither)
                } else if v.lifecycle_revision == u64::MAX {
                    (v, Err(LinkCableDataPlaneError::LifecycleRevisionExhausted), Wakeup::Neither)
                } else {
                    let w = DataPlaneView {
                        endpoints: v.endpoints.update(slot, Some(LinkCableEndpoint {
                            connection_id,
                            attachment_generation: v.next_attachment_generation,
                            receiver_claimed: false,
                        })),
                        next_attachment_generation: (v.next_attachment_generation + 1) as u64,
                        status: LinkCableDataPlaneStatus::Waiting,
                        abort_reason: None,
                        lifecycle_revision: (v.lifecycle_revision + 1) as u64,
                        ..cleared(v)
                    };
                    (w, Ok(snapshot_of(w, player_index)), Wakeup::Both)
                },
            }
        },
    }
}

/// The single consumer of one endpoint's queue, as handed out by a claim.
#[derive(Clone, Copy, PartialEq, Eq)]
pub struct ReceiverClaim {
    /// Endpoint the receiver serves.
    pub local_slot: PlayerIndex,
    /// Identity of the binding the receiver belongs to.
    pub attachment_generation: u64,
    /// Lifecycle revision already reported by `snapshot`.
    pub observed_lifecycle_revision: u64,
    /// Initial private state.
    pub snapshot: LinkCableDataPlaneSnapshot,
}

/// Outcome of claiming the receiver of the endpoint bound to `connection_id`.
pub open spec fn claim_spec(v: DataPlaneView, connection_id: ConnectionId)
    -> (DataPlaneView, Result<ReceiverClaim, LinkCableDataPlaneError>, Wakeup)
{
    if v.status == LinkCableDataPlaneStatus::Closed {
        (v, Err(LinkCableDataPlaneError::Closed), Wakeup::Neither)
    } else {
        match connection_slot_of(v, connection_id) {
            None => (v, Err(LinkCableDataPlaneError::ConnectionNotAttached), Wakeup::Neither),
            Some(slot) => {
                let e = v.endpoints[slot]->0;
                let activates = endpoint_claimed(v, 1 - slot);
                if e.receiver_claimed {
                    (v, Err(LinkCableDataPlaneError::ReceiverAlreadyClaimed), Wakeup::Neither)
                } else if activates && v.cable_epoch >= MAX_SIGNED_U64 {
                    (v, Err(LinkCableDataPlaneError::CableEpochExhausted), Wakeup::Neither)
                } else {
                    let claimed = DataPlaneView {
                        endpoints: v.endpoints.update(slot, Some(LinkCableEndpoint { receiver_claimed: true, ..e })),
                        ..v
                    };
                    let (w, r) = if activates {
                        activate_spec(claimed)
                    } else {
                        advance_lifecycle_spec(DataPlaneView {
                            status: LinkCableDataPlaneStatus::Waiting,
                            abort_reason: None,
                            ..claimed
                        })
                    };
                    let local_slot = PlayerIndex(slot as u8);
                    (w, match r {
                        Err(le) => Err(le),
                        Ok(()) => Ok(ReceiverClaim {
                            local_slot,
                            attachment_generation: e.attachment_generation,
                            observed_lifecycle_revision: w.lifecycle_revision,
                            snapshot: snapshot_of(w, local_slot),
                        }),
                    }, Wakeup::Both)
                }
            },
        }
    }
}

/// Outcome of invalidating the binding of `connection_id`.
pub open spec fn invalidate_spec(v: DataPlaneView, connection_id: ConnectionId)
    -> (DataPlaneView, Result<LinkCableDataPlaneSnapshot, LinkCableDataPlaneError>, Wakeup)
{
    if v.status == LinkCableDataPlaneStatus::Closed {
        (v, Err(LinkCableDataPlaneError::Closed), Wakeup::Neither)
    } else {
        match connection_slot_of(v, connection_id) {
            None => (v, Err(LinkCableDataPlaneError::ConnectionNotAttached), Wakeup::Neither),
            Some(slot) => {
                let (w, r) = abort_spec(DataPlaneView { endpoints: v.endpoints.update(slot, None), ..v },
                    Some(LinkCableAbortReason::PeerDisconnected));
                (w, match r { Err(le) => Err(le), Ok(()) => Ok(snapshot_of(w, PlayerIndex(slot as u8))) }, Wakeup::Both)
            },
        }
    }
}

/// Outcome of adopting new authoritative room and provider epochs.
pub open spec fn synchronize_spec(v: DataPlaneView, room_epoch: u64, session_epoch: u64)
    -> (DataPlaneView, Result<(), LinkCableDataPlaneError>, Wakeup)
{
    if room_epoch > MAX_SIGNED_U64 || session_epoch > MAX_SIGNED_U64 {
        (v, Err(LinkCableDataPlaneError::EpochOutOfRange), Wakeup::Neither)
    } else if v.status == LinkCableDataPlaneStatus::Closed {
        (v, Err(LinkCableDataPlaneError::Closed), Wakeup::Neither)
    } else if v.room_epoch == room_epoch && v.session_epoch == session_epoch {
        (v, Ok(()), Wakeup::Neither)
    } else {
        let (w, r) = abort_spec(DataPlaneView { room_epoch, session_epoch, ..v }, None);
        (w, r, Wakeup::Both)
    }
}

/// Outcome of replacing the provider contract.
pub open spec fn reset_provider_spec(v: DataPlaneView, protocol: LinkCableWireProtocol, room_epoch: u64, session_epoch: u64)
    -> (DataPlaneView, Result<(), LinkCableDataPlaneError>, Wakeup)
{
    if room_epoch > MAX_SIGNED_U64 || session_epoch > MAX_SIGNED_U64 {
        (v, Err(LinkCableDataPlaneError::EpochOutOfRange), Wakeup::Neither)
    } else if v.status == LinkCableDataPlaneStatus::Closed {
        (v, Err(LinkCableDataPlaneError::Closed), Wakeup::Neither)
    } else {
        let (w, r) = abort_spec(DataPlaneView {
            protocol,
            room_epoch,
            session_epoch,
            endpoints: seq![None, None],
            ..v
        }, Some(LinkCableAbortReason::CoreClosed));
        (w, r, Wakeup::Both)
    }
}

/// Outcome of permanently closing the plane.
pub open spec fn close_spec(v: DataPlaneView) -> (DataPlaneView, Result<(), LinkCableDataPlaneError>, Wakeup) {
    if v.status == LinkCableDataPlaneStatus::Closed {
        (v, Ok(()), Wakeup::Neither)
    } else {
        let (w, r) = advance_lifecycle_spec(DataPlaneView {
            status: LinkCableDataPlaneStatus::Closed,
            abort_reason: Some(LinkCableAbortReason::CoreClosed),
            ..cleared(v)
        });
        (w, r, Wakeup::Both)
    }
}

/// What one receiver poll yields.
#[derive(Clone, PartialEq, Eq)]
pub enum ReceiverPoll {
    /// An event for the receiver, and the lifecycle revision it has now seen.
    Event { event: LinkCableDataPlaneEvent, observed_lifecycle_revision: u64 },
    /// Nothing to deliver yet: wait for a wakeup and poll again.
    Wait,
    /// The receiver can no longer receive.
    Failed(LinkCableDataPlaneError),
}

/// Outcome of one poll by the receiver of binding (`local_slot`,
/// `connection_id`, `attachment_generation`) that has seen `observed`.
pub open spec fn poll_spec(v: DataPlaneView, local_slot: PlayerIndex, connection_id: ConnectionId, attachment_generation: u64, observed: u64)
    -> (DataPlaneView, ReceiverPoll)
{
    match slot_of(local_slot) {
        None => (v, ReceiverPoll::Failed(LinkCableDataPlaneError::InvalidPlayerIndex)),
        Some(slot) => if !(v.endpoints[slot] matches Some(e) && e.connection_id == connection_id
            && e.attachment_generation == attachment_generation && e.receiver_claimed) {
            (v, ReceiverPoll::Failed(LinkCableDataPlaneError::AttachmentReplaced))
        } else if v.lifecycle_revision != observed {
            (v, ReceiverPoll::Event {
                event: LinkCableDataPlaneEvent::Lifecycle(snapshot_of(v, local_slot)),
                observed_lifecycle_revision: v.lifecycle_revision,
            })
        } else if v.status == LinkCableDataPlaneStatus::Closed {
            (v, ReceiverPoll::Failed(LinkCableDataPlaneError::Closed))
        } else if v.queues[slot].len() > 0 {
            (DataPlaneView { queues: v.queues.update(slot, v.queues[slot].drop_first()), ..v },
                ReceiverPoll::Event {
                    event: LinkCableDataPlaneEvent::Packet(v.queues[slot][0]),
                    observed_lifecycle_revision: observed,
                })
        } else {
            (v, ReceiverPoll::Wait)
        },
    }
}

/// Outcome of dropping the receiver of binding (`local_slot`,
/// `connection_id`, `attachment_generation`).
pub open spec fn release_spec(v: DataPlaneView, local_slot: PlayerIndex, connection_id: ConnectionId, attachment_generation: u64)
    -> (DataPlaneView, Wakeup)
{
    match slot_of(local_slot) {
        None => (v, Wakeup::Neither),
        Some(slot) => if v.status == LinkCableDataPlaneStatus::Closed {
            (v, Wakeup::Neither)
        } else if !(v.endpoints[slot] matches Some(e) && e.connection_id == connection_id
            && e.attachment_generation == attachment_generation) {
            (v, Wakeup::Neither)
        } else {
            (abort_spec(DataPlaneView { endpoints: v.endpoints.update(slot, None), ..v },
                Some(LinkCableAbortReason::PeerDisconnected)).0, Wakeup::Both)
        },
    }
}

impl LinkCableDataPlaneState {
    fn connection_slot(&self, connection_id: ConnectionId) -> (slot: Option<usize>)
        requires
            plane_wf(self@),
        ensures
            slot == (match connection_slot_of(self@, connection_id) { Some(i) => Some(i as usize), None => None }),
    {
        match self.endpoints[0] {
            Some(e) => if e.connection_id.0 == connection_id.0 { return Some(0); },
            None => {},
        }
        match self.endpoints[1] {
            Some(e) => if e.connection_id.0 == connection_id.0 { return Some(1); },
            None => {},
        }
        None
    }

    /// Binds an authenticated room connection without implicitly replacing
    /// an existing endpoint; its receiver is claimed separately.
    pub fn bind_connection(&mut self, player_index: PlayerIndex, connection_id: ConnectionId)
        -> (out: (Result<LinkCableDataPlaneSnapshot, LinkCableDataPlaneError>, Wakeup))
        requires
            plane_wf(old(self)@),
        ensures
            plane_wf(final(self)@),
            (final(self)@, out.0, out.1) == bind_spec(old(self)@, player_index, connection_id),
    {
        if player_index.0 >= 2 {
            return (Err(LinkCableDataPlaneError::InvalidPlayerIndex), Wakeup::Neither);
        }
        let slot = player_index.0 as usize;
        if self.status == LinkCableDataPlaneStatus::Closed {
            return (Err(LinkCableDataPlaneError::Closed), Wakeup::Neither);
        }
        match self.connection_slot(connection_id) {
            Some(bound) => {
                if bound == slot {
                    return (Ok(self.snapshot_for(player_index)), Wakeup::Neither);
                }
                return (Err(LinkCableDataPlaneError::ConnectionAlreadyBound), Wakeup::Neither);
            },
            None => {},
        }
        if self.endpoints[slot].is_some() {
            return (Err(LinkCableDataPlaneError::EndpointAlreadyBound), Wakeup::Neither);
        }
        let attachment_generation = self.next_attachment_generation;
        if attachment_generation == u64::MAX {
            return (Err(LinkCableDataPlaneError::AttachmentGenerationExhausted), Wakeup::Neither);
        }
        self.next_attachment_generation = attachment_generation + 1;
        self.endpoints[slot] = Some(LinkCableEndpoint { connection_id, attachment_generation, receiver_claimed: false });
        self.status = LinkCableDataPlaneStatus::Waiting;
        self.abort_reason = None;
        match self.advance_lifecycle() {
            Err(error) => (Err(error), Wakeup::Both),
            Ok(()) => (Ok(self.snapshot_for(player_index)), Wakeup::Both),
        }
    }

    /// Atomically replaces one room-authorized connection binding: the old
    /// receiver is invalidated, every in-flight packet is cleared, and the
    /// new connection is bound but unclaimed.
    pub fn replace_connection(&mut self, player_index: PlayerIndex, previous_connection_id: ConnectionId, connection_id: ConnectionId)
        -> (out: (Result<LinkCableDataPlaneSnapshot, LinkCableDataPlaneError>, Wakeup))
        requires
            plane_wf(old(self)@),
        ensures
            plane_wf(final(self)@),
            (final(self)@, out.0, out.1) == replace_spec(old(self)@, player_index, previous_connection_id, connection_id),
    {
        if player_index.0 >= 2 {
            return (Err(LinkCableDataPlaneError::InvalidPlayerIndex), Wakeup::Neither);
        }
        let slot = player_index.0 as usize;
        if self.status == LinkCableDataPlaneStatus::Closed {
            return (Err(LinkCableDataPlaneError::Closed), Wakeup::Neither);
        }
        if previous_connection_id.0 == connection_id.0 {
            return match self.endpoints[slot] {
                None => (Err(LinkCableDataPlaneError::ConnectionNotAttached), Wakeup::Neither),
                Some(e) => if e.connection_id.0 != connection_id.0 {
                    (Err(LinkCableDataPlaneError::EndpointAlreadyBound), Wakeup::Neither)
                } else {
                    (Ok(self.snapshot_for(player_index)), Wakeup::Neither)
                },
            };
        }
        match self.connection_slot(connection_id) {
            Some(bound) => {
                if bound == slot {
                    return (Ok(self.snapshot_for(player_index)), Wakeup::Neither);
                }
                return (Err(LinkCableDataPlaneError::ConnectionAlreadyBound), Wakeup::Neither);
            },
            None => {},
        }
        match self.endpoints[slot] {
            Some(e) => {
                if e.connection_id.0 != previous_connection_id.0 {
                    return (Err(LinkCableDataPlaneError::EndpointAlreadyBound), Wakeup::Neither);
                }
            },
            None => {
                if self.connection_slot(previous_connection_id).is_some() {
                    return (Err(LinkCableDataPlaneError::ConnectionAlreadyBound), Wakeup::Neither);
                }
            },
        }
        let attachment_generation = self.next_attachment_generation;
        if attachment_generation == u64::MAX {
            return (Err(LinkCableDataPlaneError::AttachmentGenerationExhausted), Wakeup::Neither);
        }
        if self.lifecycle_revision == u64::MAX {
            return (Err(LinkCableDataPlaneError::LifecycleRevisionExhausted), Wakeup::Neither);
        }
        let next_revision = self.lifecycle_revision + 1;
        self.next_attachment_generation = attachment_generation + 1;
        self.endpoints[slot] = Some(LinkCableEndpoint { connection_id, attachment_generation, receiver_claimed: false });
        self.clear_packet_state();
        self.status = LinkCableDataPlaneStatus::Waiting;
        self.abort_reason = None;
        self.lifecycle_revision = next_revision;
        (Ok(self.snapshot_for(player_index)), Wakeup::Both)
    }

    /// Claims the one queue consumer for an already-bound connection; the
    /// second claim of a cable activates a new cable generation.
    pub fn claim_receiver(&mut self, connection_id: ConnectionId)
        -> (out: (Result<ReceiverClaim, LinkCableDataPlaneError>, Wakeup))
        requires
            plane_wf(old(self)@),
        ensures
            plane_wf(final(self)@),
            (final(self)@, out.0, out.1) == claim_spec(old(self)@, connection_id),
    {
        if self.status == LinkCableDataPlaneStatus::Closed {
            return (Err(LinkCableDataPlaneError::Closed), Wakeup::Neither);
        }
        let slot = match self.connection_slot(connection_id) {
            None => return (Err(LinkCableDataPlaneError::ConnectionNotAttached), Wakeup::Neither),
            Some(slot) => slot,
        };
        let endpoint = match self.endpoints[slot] {
            Some(e) => e,
            None => return (Err(LinkCableDataPlaneError::ConnectionNotAttached), Wakeup::Neither),
        };
        if endpoint.receiver_claimed {
            return (Err(LinkCableDataPlaneError::ReceiverAlreadyClaimed), Wakeup::Neither);
        }
        let other_slot = 1 - slot;
        let activates = match self.endpoints[other_slot] {
            Some(other) => other.receiver_claimed,
            None => false,
        };
        if activates && self.cable_epoch >= MAX_SIGNED_U64 {
            return (Err(LinkCableDataPlaneError::CableEpochExhausted), Wakeup::Neither);
        }
        self.endpoints[slot] = Some(LinkCableEndpoint { receiver_claimed: true, ..endpoint });
        let lifecycle = if activates {
            self.cable_epoch = self.cable_epoch + 1;
            self.clear_packet_state();
            self.status = LinkCableDataPlaneStatus::Active;
            self.abort_reason = None;
            self.advance_lifecycle()
        } else {
            self.status = LinkCableDataPlaneStatus::Waiting;
            self.abort_reason = None;
            self.advance_lifecycle()
        };
        match lifecycle {
            Err(error) => (Err(error), Wakeup::Both),
            Ok(()) => {
                let local_slot = PlayerIndex(slot as u8);
                let snapshot = self.snapshot_for(local_slot);
                (Ok(ReceiverClaim {
                    local_slot,
                    attachment_generation: endpoint.attachment_generation,
                    observed_lifecycle_revision: self.lifecycle_revision,
                    snapshot,
                }), Wakeup::Both)
            },
        }
    }

    /// Invalidates one exact connection binding and aborts all queued work.
    pub fn invalidate_connection(&mut self, connection_id: ConnectionId)
        -> (out: (Result<LinkCableDataPlaneSnapshot, LinkCableDataPlaneError>, Wakeup))
        requires
            plane_wf(old(self)@),
        ensures
            plane_wf(final(self)@),
            (final(self)@, out.0, out.1) == invalidate_spec(old(self)@, connection_id),
    {
        if self.status == LinkCableDataPlaneStatus::Closed {
            return (Err(LinkCableDataPlaneError::Closed), Wakeup::Neither);
        }
        let slot = match self.connection_slot(connection_id) {
            None => return (Err(LinkCableDataPlaneError::ConnectionNotAttached), Wakeup::Neither),
            Some(slot) => slot,
        };
        self.endpoints[slot] = None;
        match self.abort_cable(Some(LinkCableAbortReason::PeerDisconnected)) {
            Err(error) => (Err(error), Wakeup::Both),
            Ok(()) => (Ok(self.snapshot_for(PlayerIndex(slot as u8))), Wakeup::Both),
        }
    }

    /// Adopts new authoritative room/provider epochs without rotating the
    /// room scope; a change aborts the live cable.
    pub fn synchronize_epochs(&mut self, room_epoch: u64, session_epoch: u64)
        -> (out: (Result<(), LinkCableDataPlaneError>, Wakeup))
        requires
            plane_wf(old(self)@),
        ensures
            plane_wf(final(self)@),
            (final(self)@, out.0, out.1) == synchronize_spec(old(self)@, room_epoch, session_epoch),
    {
        if room_epoch > MAX_SIGNED_U64 || session_epoch > MAX_SIGNED_U64 {
            return (Err(LinkCableDataPlaneError::EpochOutOfRange), Wakeup::Neither);
        }
        if self.status == LinkCableDataPlaneStatus::Closed {
            return (Err(LinkCableDataPlaneError::Closed), Wakeup::Neither);
        }
        if self.room_epoch == room_epoch && self.session_epoch == session_epoch {
            return (Ok(()), Wakeup::Neither);
        }
        self.room_epoch = room_epoch;
        self.session_epoch = session_epoch;
        (self.abort_cable(None), Wakeup::Both)
    }

    /// Replaces the provider contract while keeping the room scope and the
    /// cable-generation floor; both endpoints must reattach.
    pub fn reset_provider(&mut self, protocol: LinkCableWireProtocol, room_epoch: u64, session_epoch: u64)
        -> (out: (Result<(), LinkCableDataPlaneError>, Wakeup))
        requires
            plane_wf(old(self)@),
        ensures
            plane_wf(final(self)@),
            (final(self)@, out.0, out.1) == reset_provider_spec(old(self)@, protocol, room_epoch, session_epoch),
    {
        if room_epoch > MAX_SIGNED_U64 || session_epoch > MAX_SIGNED_U64 {
            return (Err(LinkCableDataPlaneError::EpochOutOfRange), Wakeup::Neither);
        }
        if self.status == LinkCableDataPlaneStatus::Closed {
            return (Err(LinkCableDataPlaneError::Closed), Wakeup::Neither);
        }
        self.protocol = protocol;
        self.room_epoch = room_epoch;
        self.session_epoch = session_epoch;
        self.endpoints = [None, None];
        assert(self@.endpoints == seq![None::<LinkCableEndpoint>, None::<LinkCableEndpoint>]);
        (self.abort_cable(Some(LinkCableAbortReason::CoreClosed)), Wakeup::Both)
    }

    /// Permanently closes the plane.
    pub fn close(&mut self) -> (out: (Result<(), LinkCableDataPlaneError>, Wakeup))
        requires
            plane_wf(old(self)@),
        ensures
            plane_wf(final(self)@),
            (final(self)@, out.0, out.1) == close_spec(old(self)@),
    {
        if self.status == LinkCableDataPlaneStatus::Closed {
            return (Ok(()), Wakeup::Neither);
        }
        self.clear_packet_state();
        self.status = LinkCableDataPlaneStatus::Closed;
        self.abort_reason = Some(LinkCableAbortReason::CoreClosed);
        (self.advance_lifecycle(), Wakeup::Both)
    }

    /// Returns the current private state projected for one endpoint.
    pub fn snapshot(&self, local_slot: PlayerIndex) -> (r: Result<LinkCableDataPlaneSnapshot, LinkCableDataPlaneError>)
        ensures
            r == (if local_slot.0 < 2 {
                Ok::<LinkCableDataPlaneSnapshot, LinkCableDataPlaneError>(snapshot_of(self@, local_slot))
            } else {
                Err(LinkCableDataPlaneError::InvalidPlayerIndex)
            }),
    {
        if local_slot.0 >= 2 {
            return Err(LinkCableDataPlaneError::InvalidPlayerIndex);
        }
        Ok(self.snapshot_for(local_slot))
    }

    /// One receiver poll: a newer lifecycle revision first, then a buffered
    /// packet for this endpoint, otherwise wait.
    pub fn poll_receiver(&mut self, local_slot: PlayerIndex, connection_id: ConnectionId, attachment_generation: u64, observed_lifecycle_revision: u64)
        -> (poll: ReceiverPoll)
        requires
            plane_wf(old(self)@),
        ensures
            plane_wf(final(self)@),
            (final(self)@, poll) == poll_spec(old(self)@, local_slot, connection_id, attachment_generation, observed_lifecycle_revision),
    {
        if local_slot.0 >= 2 {
            return ReceiverPoll::Failed(LinkCableDataPlaneError::InvalidPlayerIndex);
        }
        let slot = local_slot.0 as usize;
        match self.endpoints[slot] {
            None => return ReceiverPoll::Failed(LinkCableDataPlaneError::AttachmentReplaced),
            Some(e) => {
                if e.connection_id.0 != connection_id.0 || e.attachment_generation != attachment_generation || !e.receiver_claimed {
                    return ReceiverPoll::Failed(LinkCableDataPlaneError::AttachmentReplaced);
                }
            },
        }
        if self.lifecycle_revision != observed_lifecycle_revision {
            return ReceiverPoll::Event {
                event: LinkCableDataPlaneEvent::Lifecycle(self.snapshot_for(local_slot)),
                observed_lifecycle_revision: self.lifecycle_revision,
            };
        }
        if self.status == LinkCableDataPlaneStatus::Closed {
            return ReceiverPoll::Failed(LinkCableDataPlaneError::Closed);
        }
        let ghost before = self@;
        let popped = if slot == 0 { self.queue_zero.pop_front() } else { self.queue_one.pop_front() };
        proof {
            if popped is Some {
                assert(self@.queues =~= before.queues.update(slot as int, before.queues[slot as int].drop_first()));
            }
        }
        match popped {
            Some(packet) => ReceiverPoll::Event {
                event: LinkCableDataPlaneEvent::Packet(packet),
                observed_lifecycle_revision,
            },
            None => ReceiverPoll::Wait,
        }
    }

    /// Detaches the endpoint whose receiver was dropped, if that receiver
    /// still owns it, aborting the live cable.
    pub fn release_receiver(&mut self, local_slot: PlayerIndex, connection_id: ConnectionId, attachment_generation: u64)
        -> (wake: Wakeup)
        requires
            plane_wf(old(self)@),
        ensures
            plane_wf(final(self)@),
            (final(self)@, wake) == release_spec(old(self)@, local_slot, connection_id, attachment_generation),
    {
        if local_slot.0 >= 2 {
            return Wakeup::Neither;
        }
        let slot = local_slot.0 as usize;
        if self.status == LinkCableDataPlaneStatus::Closed {
            return Wakeup::Neither;
        }
        match self.endpoints[slot] {
            None => return Wakeup::Neither,
            Some(e) => {
                if e.connection_id.0 != connection_id.0 || e.attachment_generation != attachment_generation {
                    return Wakeup::Neither;
                }
            },
        }
        self.endpoints[slot] = None;
        let _ = self.abort_cable(Some(LinkCableAbortReason::PeerDisconnected));
        Wakeup::Both
    }
}


/// `w` keeps `v`'s room scope and never moves a generation counter back:
/// lifecycle revision, cable epoch and attachment generation only grow.
pub open spec fn counters_advance(v: DataPlaneView, w: DataPlaneView) -> bool {
    &&& w.room_scope == v.room_scope
    &&& w.lifecycle_revision >= v.lifecycle_revision
    &&& w.cable_epoch >= v.cable_epoch
    &&& w.next_attachment_generation >= v.next_attachment_generation
}

/// No operation of the plane rotates the room scope or moves a generation
/// counter back, whatever its arguments; in particular epoch
/// synchronization and provider resets keep the scope and the cable floor.
pub proof fn law_scope_is_stable_and_counters_never_regress(
    v: DataPlaneView,
    player_index: PlayerIndex,
    connection_id: ConnectionId,
    previous_connection_id: ConnectionId,
    attachment_generation: u64,
    observed: u64,
    room_epoch: u64,
    session_epoch: u64,
    protocol: LinkCableWireProtocol,
)
    requires
        plane_wf(v),
    ensures
        counters_advance(v, bind_spec(v, player_index, connection_id).0),
        counters_advance(v, replace_spec(v, player_index, previous_connection_id, connection_id).0),
        counters_advance(v, claim_spec(v, connection_id).0),
        counters_advance(v, invalidate_spec(v, connection_id).0),
        counters_advance(v, synchronize_spec(v, room_epoch, session_epoch).0),
        counters_advance(v, reset_provider_spec(v, protocol, room_epoch, session_epoch).0),
        counters_advance(v, close_spec(v).0),
        counters_advance(v, poll_spec(v, player_index, connection_id, attachment_generation, observed).0),
        counters_advance(v, release_spec(v, player_index, connection_id, attachment_generation).0),
{
}

/// Every relay refusal after admission aborts the cable atomically: both
/// queues are emptied, both sender sequences restart at zero, the validator
/// is fresh, and the plane is aborted (or closed when no lifecycle revision
/// remains); both receivers are woken.
pub proof fn law_refused_relay_clears_both_queues(v: DataPlaneView, reason: Option<LinkCableAbortReason>)
    requires
        plane_core_wf(v),
    ensures
        ({
            let w = abort_spec(v, reason).0;
            &&& w.queues == seq![Seq::<LinkCablePacket>::empty(), Seq::<LinkCablePacket>::empty()]
            &&& w.next_sender_sequences == seq![0u64, 0u64]
            &&& w.transaction_state == fresh_transaction_state(v.protocol)
            &&& w.status == LinkCableDataPlaneStatus::Aborted || w.status == LinkCableDataPlaneStatus::Closed
            &&& w.endpoints == v.endpoints
        }),
{
}

/// Lifecycle precedes delivery: a receiver that has not seen the latest
/// lifecycle revision is handed that lifecycle, never a packet.
pub proof fn law_lifecycle_is_delivered_before_packets(v: DataPlaneView, local_slot: PlayerIndex, connection_id: ConnectionId, attachment_generation: u64, observed: u64)
    requires
        observed != v.lifecycle_revision,
    ensures
        !(poll_spec(v, local_slot, connection_id, attachment_generation, observed).1 matches ReceiverPoll::Event { event: LinkCableDataPlaneEvent::Packet(_), .. }),
{
}

/// A new binding gets a generation that no current binding holds and that
/// is never handed out again.
pub proof fn law_binding_generations_are_never_reused(v: DataPlaneView, player_index: PlayerIndex, connection_id: ConnectionId)
    requires
        plane_wf(v),
        bind_spec(v, player_index, connection_id).1 is Ok,
        connection_slot_of(v, connection_id) is None,
    ensures
        ({
            let w = bind_spec(v, player_index, connection_id).0;
            let g = w.endpoints[player_index.0 as int]->0.attachment_generation;
            &&& forall|i: int| 0 <= i < 2 && #[trigger] v.endpoints[i] is Some ==> v.endpoints[i]->0.attachment_generation != g
            &&& w.next_attachment_generation > g
        }),
{
}

/// A relay forwards only a frame of the cable's current identity: the
/// envelope names the authenticated sender, the payload size lies inside
/// the frame bounds, and the decoded header carries the sender's slot, the
/// plane's room, session and cable epochs, and exactly the sender's next
/// sequence, which the envelope repeats; the transaction validator accepts
/// the frame, and the peer's queue has room for it.
pub proof fn law_forwarded_frame_carries_the_cable_identity(
    v: DataPlaneView,
    authenticated_slot: PlayerIndex,
    packet: LinkCablePacket,
    limits: LinkCableWireLimits,
    decoded: Result<LinkCableWireFrame, LinkCableWireCodecError>,
)
    requires
        relay_violation(v, authenticated_slot, packet, limits, decoded) is None,
    ensures
        packet.player_index == authenticated_slot,
        payload_size_allowed(limits, packet.payload@.len() as int),
        decoded matches Ok(frame) && {
            let header = frame_header(frame);
            &&& header.sender_slot as int == authenticated_slot.0 as int
            &&& header.room_epoch == v.room_epoch
            &&& header.session_epoch == v.session_epoch
            &&& header.cable_epoch == v.cable_epoch
            &&& header.sender_sequence == packet.sequence
            &&& header.sender_sequence == v.next_sender_sequences[authenticated_slot.0 as int]
            &&& transaction_rejection(v.transaction_state, frame) is None
            &&& v.queues[1 - authenticated_slot.0 as int].len() < v.queue_capacity
        },
{
}

/// A frame of another cable generation is never forwarded: once the
/// envelope, size and codec checks pass, a header whose cable epoch differs
/// from the plane's aborts the cable as a wire identity mismatch.
pub proof fn law_frame_of_another_cable_generation_is_refused(
    v: DataPlaneView,
    authenticated_slot: PlayerIndex,
    packet: LinkCablePacket,
    limits: LinkCableWireLimits,
    frame: LinkCableWireFrame,
)
    requires
        packet.player_index == authenticated_slot,
        payload_size_allowed(limits, packet.payload@.len() as int),
        frame_in_wire_domain(frame),
        frame_header(frame).cable_epoch != v.cable_epoch,
    ensures
        relay_violation(v, authenticated_slot, packet, limits, Ok(frame))
            == Some((LinkCableDataPlaneError::WireIdentityMismatch, LinkCableAbortReason::ProtocolViolation)),
{
}

} // verus!
