//! Decoded SBLK link-cable frames.
//!
//! These are the already-decoded wire records that the transaction validator
//! and the private data plane reason about: one fixed header naming the room,
//! session and cable generations plus the sender's slot and sequence, and one
//! protocol-specific event.

use vstd::prelude::*;
use crate::ids::PlayerIndex;

verus! {

/// Event namespace frozen by a link-cable room's descriptor.
#[derive(Clone, Copy, Debug, PartialEq, Eq, Structural)]
pub enum LinkCableWireProtocol {
    /// Game Boy serial link, one byte per transfer.
    GbSerialV1,
    /// Game Boy Advance SIO multiplayer, first revision.
    GbaSioMultiV1,
    /// Game Boy Advance SIO multiplayer with mode and finish acknowledgements.
    GbaSioMultiV2,
}

/// Cause of a cable abort.
#[derive(Clone, Copy, Debug, PartialEq, Eq, Structural)]
pub enum LinkCableAbortReason {
    /// An endpoint gave up waiting for its peer.
    Timeout,
    /// An emulator core closed the cable.
    CoreClosed,
    /// The peer endpoint disconnected.
    PeerDisconnected,
    /// A frame violated the wire or transaction rules.
    ProtocolViolation,
    /// A bounded target queue overflowed.
    QueueOverflow,
}

/// Header carried by every SBLK frame.
#[derive(Clone, Copy, Debug, PartialEq, Eq, Structural)]
pub struct LinkCableWireHeader {
    /// Room generation the sender observed.
    pub room_epoch: u64,
    /// Gameplay-provider generation the sender observed.
    pub session_epoch: u64,
    /// Cable generation the sender observed.
    pub cable_epoch: u64,
    /// Exact per-sender sequence starting at zero.
    pub sender_sequence: u64,
    /// Link endpoint that emitted the frame (0 or 1).
    pub sender_slot: u8,
}

/// Events of the Game Boy Advance SIO multiplayer protocol.
#[derive(Clone, Copy, Debug, PartialEq, Eq)]
pub enum GbaSioMultiEvent {
    /// The endpoint published its serial mode registers.
    ModeSet { mode: u8, siocnt: u16, rcnt: u16, emulated_time: u64 },
    /// Acknowledges the opposite slot's mode publication with that sequence.
    ModeAck { acknowledged_mode_sender_sequence: u64, emulated_time: u64 },
    /// The parent starts a transfer with its word.
    TransferStart { transfer_id: u32, siocnt: u16, parent_word: u16, emulated_time: u64 },
    /// The child answers the pending transfer with its word.
    TransferReply { transfer_id: u32, child_word: u16, emulated_time: u64 },
    /// The parent commits the words seen by all four multiplayer slots.
    TransferCommit { transfer_id: u32, words: [u16; 4] },
    /// An endpoint acknowledges that the committed transfer finished natively.
    FinishAck { transfer_id: u32, emulated_time: u64 },
    /// Either endpoint aborts the pending transfer.
    TransferAbort { transfer_id: u32, reason: LinkCableAbortReason },
}

/// One decoded GBA SIO multiplayer frame.
#[derive(Clone, Copy, Debug, PartialEq, Eq)]
pub struct GbaSioMultiFrame {
    /// Routing header.
    pub header: LinkCableWireHeader,
    /// Protocol event.
    pub event: GbaSioMultiEvent,
}

/// Events of the Game Boy serial protocol.
#[derive(Clone, Copy, Debug, PartialEq, Eq)]
pub enum GbSerialEvent {
    /// The clock owner starts a transfer with its byte.
    Start { transfer_id: u32, clock_owner_slot: u8, sc_control: u8, owner_byte: u8, emulated_time: u64 },
    /// The responder answers with its byte.
    Reply { transfer_id: u32, clock_owner_slot: u8, responder_byte: u8, emulated_time: u64 },
    /// The bytes held by slot 0 and slot 1 after the exchange.
    Commit { transfer_id: u32, clock_owner_slot: u8, slot_bytes: [u8; 2] },
    /// Either endpoint aborts the pending transfer.
    Abort { transfer_id: u32, clock_owner_slot: u8, reason: LinkCableAbortReason },
}

/// One decoded Game Boy serial frame.
#[derive(Clone, Copy, Debug, PartialEq, Eq)]
pub struct GbSerialFrame {
    /// Routing header.
    pub header: LinkCableWireHeader,
    /// Protocol event.
    pub event: GbSerialEvent,
}

/// A decoded frame of any supported protocol.
#[derive(Clone, Copy, Debug, PartialEq, Eq)]
pub enum LinkCableWireFrame {
    /// A first-revision GBA frame.
    GbaSioMulti(GbaSioMultiFrame),
    /// A second-revision GBA frame.
    GbaSioMultiV2(GbaSioMultiFrame),
    /// A Game Boy serial frame.
    GbSerial(GbSerialFrame),
}

/// Protocol namespace a frame belongs to.
pub open spec fn frame_protocol(frame: LinkCableWireFrame) -> LinkCableWireProtocol {
    match frame {
        LinkCableWireFrame::GbaSioMulti(_) => LinkCableWireProtocol::GbaSioMultiV1,
        LinkCableWireFrame::GbaSioMultiV2(_) => LinkCableWireProtocol::GbaSioMultiV2,
        LinkCableWireFrame::GbSerial(_) => LinkCableWireProtocol::GbSerialV1,
    }
}

/// Header of a frame.
pub open spec fn frame_header(frame: LinkCableWireFrame) -> LinkCableWireHeader {
    match frame {
        LinkCableWireFrame::GbaSioMulti(f) => f.header,
        LinkCableWireFrame::GbaSioMultiV2(f) => f.header,
        LinkCableWireFrame::GbSerial(f) => f.header,
    }
}

/// Emulated time carried by the frame's event, for the events that carry one.
pub open spec fn frame_emulated_time(frame: LinkCableWireFrame) -> Option<u64> {
    match frame {
        LinkCableWireFrame::GbaSioMulti(f) => gba_event_time(f.event),
        LinkCableWireFrame::GbaSioMultiV2(f) => gba_event_time(f.event),
        LinkCableWireFrame::GbSerial(f) => match f.event {
            GbSerialEvent::Start { emulated_time, .. } => Some(emulated_time),
            GbSerialEvent::Reply { emulated_time, .. } => Some(emulated_time),
            _ => None,
        },
    }
}

/// Emulated time carried by a GBA event, for the events that carry one.
pub open spec fn gba_event_time(event: GbaSioMultiEvent) -> Option<u64> {
    match event {
        GbaSioMultiEvent::ModeSet { emulated_time, .. } => Some(emulated_time),
        GbaSioMultiEvent::ModeAck { emulated_time, .. } => Some(emulated_time),
        GbaSioMultiEvent::TransferStart { emulated_time, .. } => Some(emulated_time),
        GbaSioMultiEvent::TransferReply { emulated_time, .. } => Some(emulated_time),
        GbaSioMultiEvent::FinishAck { emulated_time, .. } => Some(emulated_time),
        _ => None,
    }
}

impl LinkCableWireFrame {
    /// Returns the protocol namespace of this frame.
    pub fn protocol(&self) -> (p: LinkCableWireProtocol)
        ensures
            p == frame_protocol(*self),
    {
        match self {
            LinkCableWireFrame::GbaSioMulti(_) => LinkCableWireProtocol::GbaSioMultiV1,
            LinkCableWireFrame::GbaSioMultiV2(_) => LinkCableWireProtocol::GbaSioMultiV2,
            LinkCableWireFrame::GbSerial(_) => LinkCableWireProtocol::GbSerialV1,
        }
    }

    /// Returns the routing header of this frame.
    pub fn header(&self) -> (h: LinkCableWireHeader)
        ensures
            h == frame_header(*self),
    {
        match self {
            LinkCableWireFrame::GbaSioMulti(f) => f.header,
            LinkCableWireFrame::GbaSioMultiV2(f) => f.header,
            LinkCableWireFrame::GbSerial(f) => f.header,
        }
    }
}

/// Returns the emulated time carried by a frame's event, when it has one.
pub fn event_emulated_time(frame: &LinkCableWireFrame) -> (t: Option<u64>)
    ensures
        t == frame_emulated_time(*frame),
{
    match frame {
        LinkCableWireFrame::GbaSioMulti(f) => gba_time(&f.event),
        LinkCableWireFrame::GbaSioMultiV2(f) => gba_time(&f.event),
        LinkCableWireFrame::GbSerial(f) => match f.event {
            GbSerialEvent::Start { emulated_time, .. } => Some(emulated_time),
            GbSerialEvent::Reply { emulated_time, .. } => Some(emulated_time),
            _ => None,
        },
    }
}

fn gba_time(event: &GbaSioMultiEvent) -> (t: Option<u64>)
    ensures
        t == gba_event_time(*event),
{
    match event {
        GbaSioMultiEvent::ModeSet { emulated_time, .. } => Some(*emulated_time),
        GbaSioMultiEvent::ModeAck { emulated_time, .. } => Some(*emulated_time),
        GbaSioMultiEvent::TransferStart { emulated_time, .. } => Some(*emulated_time),
        GbaSioMultiEvent::TransferReply { emulated_time, .. } => Some(*emulated_time),
        GbaSioMultiEvent::FinishAck { emulated_time, .. } => Some(*emulated_time),
        _ => None,
    }
}

/// One link-cable packet as submitted by an endpoint: the envelope fields
/// plus the SBLK bytes.
#[derive(Clone, Debug, PartialEq, Eq)]
pub struct LinkCablePacket {
    /// Slot the envelope claims to come from.
    pub player_index: PlayerIndex,
    /// Envelope sequence, which must equal the SBLK header sequence.
    pub sequence: u64,
    /// Envelope diagnostic time, which must equal a timestamped event's time.
    pub emulated_time: u64,
    /// Encoded SBLK frame.
    pub payload: Vec<u8>,
}

/// Size bounds of an encoded SBLK frame: at least its header, at most the
/// largest frame the wire format allows.
#[derive(Clone, Copy, Debug, PartialEq, Eq, Structural)]
pub struct LinkCableWireLimits {
    /// Bytes of the fixed frame header.
    pub header_bytes: usize,
    /// Bytes of the largest encoded frame.
    pub max_frame_bytes: usize,
}

/// Whether a payload of `len` bytes lies inside the frame size bounds.
pub open spec fn payload_size_allowed(limits: LinkCableWireLimits, len: int) -> bool {
    limits.header_bytes <= len <= limits.max_frame_bytes
}

} // verus!
