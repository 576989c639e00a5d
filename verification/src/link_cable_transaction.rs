//! Stateful validation for one live virtual-cable generation.
//!
//! A decoded SBLK frame is well formed on its own; this module additionally
//! decides whether the frame is possible in the selected protocol's
//! transaction sequence before the private data plane forwards it to the
//! peer. Every rejected event leaves the validator exactly as it was.

use vstd::prelude::*;
use crate::link_wire::{
    frame_protocol, GbSerialEvent, GbaSioMultiEvent, GbaSioMultiFrame, LinkCableWireFrame,
    LinkCableWireProtocol,
};

verus! {

/// SIO mode value of GBA multiplayer ("MULTI") mode.
pub const GBA_MULTI_MODE: u8 = 2;

/// A stateful SBLK transaction rule was violated.
#[derive(Clone, Copy, Debug, PartialEq, Eq, Structural)]
pub enum LinkCableTransactionError {
    /// The decoded frame did not use the room's frozen protocol namespace.
    ProtocolMismatch,
    /// Both GBA endpoints had not published MULTI mode for this cable epoch.
    GbaMultiModeNotReady,
    /// GBA left MULTI mode while a transfer boundary was stalled.
    GbaModeChangedDuringTransfer,
    /// A mode acknowledgement referenced an unknown or future opposite-slot mode.
    GbaModeAcknowledgementMismatch,
    /// Another transfer was already pending.
    TransferAlreadyPending,
    /// The event required a pending transaction, but none existed.
    NoPendingTransfer,
    /// The event was not valid in the pending transaction phase.
    UnexpectedTransactionPhase,
    /// The transfer key did not match the pending or exact-next key.
    TransferIdMismatch,
    /// The sender exhausted its transfer-id namespace for this cable epoch.
    TransferIdExhausted,
    /// A commit did not reproduce the words or bytes accepted at start/reply.
    CommitPayloadMismatch,
}

/// Human-readable description of a violated link transaction rule.
pub open spec fn transaction_error_text(e: LinkCableTransactionError) -> Seq<char> {
    match e {
        LinkCableTransactionError::ProtocolMismatch => "link cable transaction frame used the wrong protocol"@,
        LinkCableTransactionError::GbaMultiModeNotReady => "both GBA endpoints must publish MULTI mode before a transfer"@,
        LinkCableTransactionError::GbaModeChangedDuringTransfer => "GBA left MULTI mode while a link transfer was pending"@,
        LinkCableTransactionError::GbaModeAcknowledgementMismatch => "GBA mode acknowledgement exceeded the latest opposite-slot mode publication"@,
        LinkCableTransactionError::TransferAlreadyPending => "a link cable transfer is already pending"@,
        LinkCableTransactionError::NoPendingTransfer => "link cable event has no pending transfer"@,
        LinkCableTransactionError::UnexpectedTransactionPhase => "link cable event arrived in the wrong transaction phase"@,
        LinkCableTransactionError::TransferIdMismatch => "link cable transfer identifier is stale, reused, or out of order"@,
        LinkCableTransactionError::TransferIdExhausted => "link cable transfer identifier space is exhausted"@,
        LinkCableTransactionError::CommitPayloadMismatch => "link cable commit payload does not match the pending transfer"@,
    }
}

impl LinkCableTransactionError {
    /// Human-readable description of the violated rule.
    pub fn message(&self) -> (m: &'static str)
        ensures
            m@ == transaction_error_text(*self),
    {
        match self {
            LinkCableTransactionError::ProtocolMismatch => "link cable transaction frame used the wrong protocol",
            LinkCableTransactionError::GbaMultiModeNotReady => "both GBA endpoints must publish MULTI mode before a transfer",
            LinkCableTransactionError::GbaModeChangedDuringTransfer => "GBA left MULTI mode while a link transfer was pending",
            LinkCableTransactionError::GbaModeAcknowledgementMismatch => "GBA mode acknowledgement exceeded the latest opposite-slot mode publication",
            LinkCableTransactionError::TransferAlreadyPending => "a link cable transfer is already pending",
            LinkCableTransactionError::NoPendingTransfer => "link cable event has no pending transfer",
            LinkCableTransactionError::UnexpectedTransactionPhase => "link cable event arrived in the wrong transaction phase",
            LinkCableTransactionError::TransferIdMismatch => "link cable transfer identifier is stale, reused, or out of order",
            LinkCableTransactionError::TransferIdExhausted => "link cable transfer identifier space is exhausted",
            LinkCableTransactionError::CommitPayloadMismatch => "link cable commit payload does not match the pending transfer",
        }
    }
}

/// Exact-next transfer id whose `None` state means `u32::MAX` was consumed.
#[derive(Clone, Copy, Debug, PartialEq, Eq, Structural)]
pub struct TransferIdSequence {
    /// The only id the sequence accepts next, if any remains.
    pub next: Option<u32>,
}

/// Why `seq` refuses `transfer_id`, if it does.
pub open spec fn sequence_rejection(seq: TransferIdSequence, transfer_id: u32) -> Option<LinkCableTransactionError> {
    match seq.next {
        None => Some(LinkCableTransactionError::TransferIdExhausted),
        Some(expected) => if transfer_id != expected {
            Some(LinkCableTransactionError::TransferIdMismatch)
        } else {
            None
        },
    }
}

/// The sequence after accepting `transfer_id`: its successor, or exhausted.
pub open spec fn sequence_after(transfer_id: u32) -> TransferIdSequence {
    TransferIdSequence { next: if transfer_id == u32::MAX { None } else { Some((transfer_id + 1) as u32) } }
}

/// Lowest id a sequence can still accept; `u32::MAX + 1` once exhausted.
pub open spec fn sequence_floor(seq: TransferIdSequence) -> int {
    match seq.next {
        Some(n) => n as int,
        None => u32::MAX as int + 1,
    }
}

impl TransferIdSequence {
    /// A fresh sequence that expects id 1.
    pub fn default() -> (s: Self)
        ensures
            s.next == Some(1u32),
    {
        TransferIdSequence { next: Some(1) }
    }

    /// Consumes `transfer_id` when it is the exact next id.
    pub fn accept(&mut self, transfer_id: u32) -> (r: Result<(), LinkCableTransactionError>)
        ensures
            r == (match sequence_rejection(*old(self), transfer_id) {
                Some(e) => Err(e),
                None => Ok(()),
            }),
            r is Err ==> *final(self) == *old(self),
            r is Ok ==> *final(self) == sequence_after(transfer_id),
    {
        let expected = match self.next {
            None => return Err(LinkCableTransactionError::TransferIdExhausted),
            Some(expected) => expected,
        };
        if transfer_id != expected {
            return Err(LinkCableTransactionError::TransferIdMismatch);
        }
        self.next = transfer_id.checked_add(1);
        Ok(())
    }
}

/// Revision of the GBA multiplayer protocol.
#[derive(Clone, Copy, Debug, PartialEq, Eq, Structural)]
pub enum GbaTransactionVersion {
    /// First revision.
    V1,
    /// Revision with mode-apply and finish acknowledgements.
    V2,
}

/// The GBA transfer that is currently in flight.
#[derive(Clone, Copy, Debug, PartialEq, Eq, Structural)]
pub enum GbaPendingTransfer {
    /// The parent started the transfer.
    Started { transfer_id: u32, parent_word: u16 },
    /// The child replied.
    Replied { transfer_id: u32, parent_word: u16, child_word: u16 },
    /// The commit was relayed; the native finish is not yet acknowledged.
    AwaitingFinishAck { transfer_id: u32 },
}

/// Transaction state of a GBA multiplayer cable generation.
#[derive(Clone, Copy, Debug)]
pub struct GbaTransactionState {
    /// Protocol revision.
    pub version: GbaTransactionVersion,
    /// Latest mode each slot published.
    pub modes: [Option<u8>; 2],
    /// Sender sequence of each slot's latest mode publication (revision 2).
    pub latest_mode_sequences: [Option<u64>; 2],
    /// Mode publications not yet acknowledged by the opposite slot (revision 2).
    pub pending_mode_acknowledgements: [Option<u64>; 2],
    /// Exact-next transfer id.
    pub next_transfer_id: TransferIdSequence,
    /// The transfer in flight, if any.
    pub pending: Option<GbaPendingTransfer>,
}

/// Both slots published MULTI mode.
pub open spec fn both_multi(modes: [Option<u8>; 2]) -> bool {
    modes[0] == Some(GBA_MULTI_MODE) && modes[1] == Some(GBA_MULTI_MODE)
}

/// Some mode publication still awaits its acknowledgement.
pub open spec fn any_ack_pending(acks: [Option<u64>; 2]) -> bool {
    acks[0] is Some || acks[1] is Some
}

/// Transfer id of the GBA transfer in flight.
pub open spec fn gba_pending_id(p: Option<GbaPendingTransfer>) -> Option<u32> {
    match p {
        Some(GbaPendingTransfer::Started { transfer_id, .. }) => Some(transfer_id),
        Some(GbaPendingTransfer::Replied { transfer_id, .. }) => Some(transfer_id),
        Some(GbaPendingTransfer::AwaitingFinishAck { transfer_id }) => Some(transfer_id),
        None => None,
    }
}

/// A revision-2 slot-1 mode exit that crosses an unreplied start cancels it.
pub open spec fn gba_mode_cancels_start(s: GbaTransactionState, slot: int, mode: u8) -> bool {
    &&& s.version == GbaTransactionVersion::V2
    &&& slot == 1
    &&& mode != GBA_MULTI_MODE
    &&& s.pending matches Some(GbaPendingTransfer::Started { .. })
}

/// A revision-2 start that crosses a mode change or an unacknowledged mode
/// publication is consumed but leaves the cable idle.
pub open spec fn gba_start_is_cancelled_proposal(s: GbaTransactionState) -> bool {
    s.version == GbaTransactionVersion::V2 && (!both_multi(s.modes) || any_ack_pending(s.pending_mode_acknowledgements))
}

/// Why a GBA event from `slot` is refused in state `s`, if it is.
pub open spec fn gba_rejection(s: GbaTransactionState, slot: int, event: GbaSioMultiEvent) -> Option<LinkCableTransactionError> {
    match event {
        GbaSioMultiEvent::ModeSet { mode, .. } =>
            if !gba_mode_cancels_start(s, slot, mode) && s.pending is Some && mode != GBA_MULTI_MODE {
                Some(LinkCableTransactionError::GbaModeChangedDuringTransfer)
            } else {
                None
            },
        GbaSioMultiEvent::ModeAck { acknowledged_mode_sender_sequence, .. } =>
            if s.version != GbaTransactionVersion::V2 {
                Some(LinkCableTransactionError::UnexpectedTransactionPhase)
            } else {
                match s.latest_mode_sequences[1 - slot] {
                    None => Some(LinkCableTransactionError::GbaModeAcknowledgementMismatch),
                    Some(latest) => if acknowledged_mode_sender_sequence > latest {
                        Some(LinkCableTransactionError::GbaModeAcknowledgementMismatch)
                    } else {
                        None
                    },
                }
            },
        GbaSioMultiEvent::TransferStart { transfer_id, .. } =>
            if s.pending is Some {
                Some(LinkCableTransactionError::TransferAlreadyPending)
            } else if s.version == GbaTransactionVersion::V1 && !both_multi(s.modes) {
                Some(LinkCableTransactionError::GbaMultiModeNotReady)
            } else {
                sequence_rejection(s.next_transfer_id, transfer_id)
            },
        GbaSioMultiEvent::TransferReply { transfer_id, .. } => match s.pending {
            Some(GbaPendingTransfer::Started { transfer_id: pending_id, .. }) =>
                if transfer_id != pending_id { Some(LinkCableTransactionError::TransferIdMismatch) } else { None },
            Some(_) => Some(LinkCableTransactionError::UnexpectedTransactionPhase),
            None => Some(LinkCableTransactionError::NoPendingTransfer),
        },
        GbaSioMultiEvent::TransferCommit { transfer_id, words } => match s.pending {
            Some(GbaPendingTransfer::Replied { transfer_id: pending_id, parent_word, child_word }) =>
                if transfer_id != pending_id {
                    Some(LinkCableTransactionError::TransferIdMismatch)
                } else if words[0] != parent_word || words[1] != child_word {
                    Some(LinkCableTransactionError::CommitPayloadMismatch)
                } else {
                    None
                },
            Some(_) => Some(LinkCableTransactionError::UnexpectedTransactionPhase),
            None => Some(LinkCableTransactionError::NoPendingTransfer),
        },
        GbaSioMultiEvent::FinishAck { transfer_id, .. } =>
            if s.version != GbaTransactionVersion::V2 {
                Some(LinkCableTransactionError::UnexpectedTransactionPhase)
            } else {
                match s.pending {
                    Some(GbaPendingTransfer::AwaitingFinishAck { transfer_id: pending_id }) =>
                        if transfer_id != pending_id { Some(LinkCableTransactionError::TransferIdMismatch) } else { None },
                    Some(_) => Some(LinkCableTransactionError::UnexpectedTransactionPhase),
                    None => Some(LinkCableTransactionError::NoPendingTransfer),
                }
            },
        GbaSioMultiEvent::TransferAbort { transfer_id, .. } => match gba_pending_id(s.pending) {
            None => Some(LinkCableTransactionError::NoPendingTransfer),
            Some(pending_id) => if transfer_id != pending_id { Some(LinkCableTransactionError::TransferIdMismatch) } else { None },
        },
    }
}

/// Whether state `s` can judge a GBA event from `slot`: a mode publication
/// that would be recorded, and a revision-2 mode acknowledgement, must come
/// from one of the two slots; every other event is judged from any slot.
pub open spec fn gba_slot_admissible(s: GbaTransactionState, slot: int, event: GbaSioMultiEvent) -> bool {
    match event {
        GbaSioMultiEvent::ModeSet { mode, .. } =>
            slot < 2 || (s.pending is Some && mode != GBA_MULTI_MODE),
        GbaSioMultiEvent::ModeAck { .. } => s.version != GbaTransactionVersion::V2 || slot < 2,
        _ => true,
    }
}

/// `t` equals `s` in every field but the pending transfer.
pub open spec fn gba_same_but_pending(s: GbaTransactionState, t: GbaTransactionState) -> bool {
    &&& t.version == s.version
    &&& t.modes == s.modes
    &&& t.latest_mode_sequences == s.latest_mode_sequences
    &&& t.pending_mode_acknowledgements == s.pending_mode_acknowledgements
    &&& t.next_transfer_id == s.next_transfer_id
}

/// `t` is the state after `s` accepts `event` (sent by `slot` with sender
/// sequence `sequence`).
pub open spec fn gba_accepted(s: GbaTransactionState, t: GbaTransactionState, slot: int, sequence: u64, event: GbaSioMultiEvent) -> bool {
    match event {
        GbaSioMultiEvent::ModeSet { mode, .. } => {
            &&& t.version == s.version
            &&& t.next_transfer_id == s.next_transfer_id
            &&& t.pending == (if gba_mode_cancels_start(s, slot, mode) { None } else { s.pending })
            &&& t.modes@ == s.modes@.update(slot, Some(mode))
            &&& if s.version == GbaTransactionVersion::V2 {
                &&& t.latest_mode_sequences@ == s.latest_mode_sequences@.update(slot, Some(sequence))
                &&& t.pending_mode_acknowledgements@ == s.pending_mode_acknowledgements@.update(slot, Some(sequence))
            } else {
                &&& t.latest_mode_sequences == s.latest_mode_sequences
                &&& t.pending_mode_acknowledgements == s.pending_mode_acknowledgements
            }
        },
        GbaSioMultiEvent::ModeAck { acknowledged_mode_sender_sequence, .. } => {
            &&& t.version == s.version
            &&& t.modes == s.modes
            &&& t.latest_mode_sequences == s.latest_mode_sequences
            &&& t.next_transfer_id == s.next_transfer_id
            &&& t.pending == s.pending
            &&& if s.latest_mode_sequences[1 - slot] == Some(acknowledged_mode_sender_sequence) {
                t.pending_mode_acknowledgements@ == s.pending_mode_acknowledgements@.update(1 - slot, None)
            } else {
                t.pending_mode_acknowledgements == s.pending_mode_acknowledgements
            }
        },
        GbaSioMultiEvent::TransferStart { transfer_id, parent_word, .. } => {
            &&& t.version == s.version
            &&& t.modes == s.modes
            &&& t.latest_mode_sequences == s.latest_mode_sequences
            &&& t.pending_mode_acknowledgements == s.pending_mode_acknowledgements
            &&& t.next_transfer_id == sequence_after(transfer_id)
            &&& t.pending == (if gba_start_is_cancelled_proposal(s) {
                None
            } else {
                Some(GbaPendingTransfer::Started { transfer_id, parent_word })
            })
        },
        GbaSioMultiEvent::TransferReply { child_word, .. } => {
            &&& gba_same_but_pending(s, t)
            &&& match s.pending {
                Some(GbaPendingTransfer::Started { transfer_id, parent_word }) =>
                    t.pending == Some(GbaPendingTransfer::Replied { transfer_id, parent_word, child_word }),
                _ => false,
            }
        },
        GbaSioMultiEvent::TransferCommit { transfer_id, .. } => {
            &&& gba_same_but_pending(s, t)
            &&& t.pending == (if s.version == GbaTransactionVersion::V2 {
                Some(GbaPendingTransfer::AwaitingFinishAck { transfer_id })
            } else {
                None
            })
        },
        GbaSioMultiEvent::FinishAck { .. } => gba_same_but_pending(s, t) && t.pending is None,
        GbaSioMultiEvent::TransferAbort { .. } => gba_same_but_pending(s, t) && t.pending is None,
    }
}

impl GbaTransactionState {
    /// An idle state: no modes, no pending work, transfer id 1 next.
    pub fn new(version: GbaTransactionVersion) -> (s: Self)
        ensures
            s == fresh_gba(version),
    {
        GbaTransactionState {
            version,
            modes: [None, None],
            latest_mode_sequences: [None, None],
            pending_mode_acknowledgements: [None, None],
            next_transfer_id: TransferIdSequence::default(),
            pending: None,
        }
    }

    /// Transfer id of the transfer in flight.
    pub fn pending_transfer_id(&self) -> (id: Option<u32>)
        ensures
            id == gba_pending_id(self.pending),
    {
        match self.pending {
            Some(GbaPendingTransfer::Started { transfer_id, .. }) => Some(transfer_id),
            Some(GbaPendingTransfer::Replied { transfer_id, .. }) => Some(transfer_id),
            Some(GbaPendingTransfer::AwaitingFinishAck { transfer_id }) => Some(transfer_id),
            None => None,
        }
    }

    fn both_slots_multi(&self) -> (b: bool)
        ensures
            b == both_multi(self.modes),
    {
        self.modes[0] == Some(GBA_MULTI_MODE) && self.modes[1] == Some(GBA_MULTI_MODE)
    }

    /// Validates one event of `frame` and, when it is accepted, advances.
    pub fn validate_and_apply(&mut self, frame: &GbaSioMultiFrame) -> (r: Result<(), LinkCableTransactionError>)
        requires
            gba_slot_admissible(*old(self), frame.header.sender_slot as int, frame.event),
        ensures
            r == (match gba_rejection(*old(self), frame.header.sender_slot as int, frame.event) {
                Some(e) => Err(e),
                None => Ok(()),
            }),
            r is Err ==> *final(self) == *old(self),
            r is Ok ==> gba_accepted(*old(self), *final(self), frame.header.sender_slot as int, frame.header.sender_sequence, frame.event),
    {
        let sender_slot = frame.header.sender_slot as usize;
        let sequence = frame.header.sender_sequence;
        match frame.event {
            GbaSioMultiEvent::ModeSet { mode, .. } => {
                let cancels_crossed_start = self.version == GbaTransactionVersion::V2
                    && sender_slot == 1
                    && mode != GBA_MULTI_MODE
                    && matches!(self.pending, Some(GbaPendingTransfer::Started { .. }));
                if cancels_crossed_start {
                    self.pending = None;
                } else if self.pending.is_some() && mode != GBA_MULTI_MODE {
                    return Err(LinkCableTransactionError::GbaModeChangedDuringTransfer);
                }
                self.modes[sender_slot] = Some(mode);
                if self.version == GbaTransactionVersion::V2 {
                    self.latest_mode_sequences[sender_slot] = Some(sequence);
                    self.pending_mode_acknowledgements[sender_slot] = Some(sequence);
                }
            },
            GbaSioMultiEvent::ModeAck { acknowledged_mode_sender_sequence, .. } => {
                if self.version != GbaTransactionVersion::V2 {
                    return Err(LinkCableTransactionError::UnexpectedTransactionPhase);
                }
                let acknowledged_slot = 1 - sender_slot;
                let latest_sequence = match self.latest_mode_sequences[acknowledged_slot] {
                    None => return Err(LinkCableTransactionError::GbaModeAcknowledgementMismatch),
                    Some(latest) => latest,
                };
                if acknowledged_mode_sender_sequence > latest_sequence {
                    return Err(LinkCableTransactionError::GbaModeAcknowledgementMismatch);
                }
                if acknowledged_mode_sender_sequence == latest_sequence {
                    self.pending_mode_acknowledgements[acknowledged_slot] = None;
                }
            },
            GbaSioMultiEvent::TransferStart { transfer_id, parent_word, .. } => {
                if self.pending.is_some() {
                    return Err(LinkCableTransactionError::TransferAlreadyPending);
                }
                if self.version == GbaTransactionVersion::V2 {
                    match self.next_transfer_id.accept(transfer_id) {
                        Err(e) => return Err(e),
                        Ok(()) => {},
                    }
                    if !self.both_slots_multi()
                        || self.pending_mode_acknowledgements[0].is_some()
                        || self.pending_mode_acknowledgements[1].is_some()
                    {
                        // The start crossed a mode transition or its apply
                        // acknowledgement: it is consumed and forwarded, but
                        // the cable stays idle so both id floors converge.
                        return Ok(());
                    }
                } else if !self.both_slots_multi() {
                    return Err(LinkCableTransactionError::GbaMultiModeNotReady);
                } else {
                    match self.next_transfer_id.accept(transfer_id) {
                        Err(e) => return Err(e),
                        Ok(()) => {},
                    }
                }
                self.pending = Some(GbaPendingTransfer::Started { transfer_id, parent_word });
            },
            GbaSioMultiEvent::TransferReply { transfer_id, child_word, .. } => {
                match self.pending {
                    Some(GbaPendingTransfer::Started { transfer_id: pending_id, parent_word }) => {
                        if transfer_id != pending_id {
                            return Err(LinkCableTransactionError::TransferIdMismatch);
                        }
                        self.pending = Some(GbaPendingTransfer::Replied { transfer_id: pending_id, parent_word, child_word });
                    },
                    Some(_) => return Err(LinkCableTransactionError::UnexpectedTransactionPhase),
                    None => return Err(LinkCableTransactionError::NoPendingTransfer),
                }
            },
            GbaSioMultiEvent::TransferCommit { transfer_id, words } => {
                match self.pending {
                    Some(GbaPendingTransfer::Replied { transfer_id: pending_id, parent_word, child_word }) => {
                        if transfer_id != pending_id {
                            return Err(LinkCableTransactionError::TransferIdMismatch);
                        }
                        if words[0] != parent_word || words[1] != child_word {
                            return Err(LinkCableTransactionError::CommitPayloadMismatch);
                        }
                        self.pending = if self.version == GbaTransactionVersion::V2 {
                            Some(GbaPendingTransfer::AwaitingFinishAck { transfer_id })
                        } else {
                            None
                        };
                    },
                    Some(_) => return Err(LinkCableTransactionError::UnexpectedTransactionPhase),
                    None => return Err(LinkCableTransactionError::NoPendingTransfer),
                }
            },
            GbaSioMultiEvent::FinishAck { transfer_id, .. } => {
                if self.version != GbaTransactionVersion::V2 {
                    return Err(LinkCableTransactionError::UnexpectedTransactionPhase);
                }
                match self.pending {
                    Some(GbaPendingTransfer::AwaitingFinishAck { transfer_id: pending_id }) => {
                        if transfer_id != pending_id {
                            return Err(LinkCableTransactionError::TransferIdMismatch);
                        }
                        self.pending = None;
                    },
                    Some(_) => return Err(LinkCableTransactionError::UnexpectedTransactionPhase),
                    None => return Err(LinkCableTransactionError::NoPendingTransfer),
                }
            },
            GbaSioMultiEvent::TransferAbort { transfer_id, .. } => {
                let pending_id = match self.pending_transfer_id() {
                    None => return Err(LinkCableTransactionError::NoPendingTransfer),
                    Some(id) => id,
                };
                if transfer_id != pending_id {
                    return Err(LinkCableTransactionError::TransferIdMismatch);
                }
                // Either endpoint may abort.
                self.pending = None;
            },
        }
        Ok(())
    }
}


/// The Game Boy serial transfer that is currently in flight.
#[derive(Clone, Copy, Debug, PartialEq, Eq, Structural)]
pub enum GbPendingTransfer {
    /// The clock owner started the transfer.
    Started { transfer_id: u32, clock_owner_slot: u8, owner_byte: u8 },
    /// The responder replied.
    Replied { transfer_id: u32, clock_owner_slot: u8, owner_byte: u8, responder_byte: u8 },
}

/// Transaction state of a Game Boy serial cable generation: one exact-next
/// id sequence per clock owner and at most one transfer in flight.
#[derive(Clone, Copy, Debug)]
pub struct GbTransactionState {
    /// Exact-next transfer id of each clock owner.
    pub next_transfer_ids: [TransferIdSequence; 2],
    /// The transfer in flight, if any.
    pub pending: Option<GbPendingTransfer>,
}

/// (clock owner, transfer id) of the Game Boy transfer in flight.
pub open spec fn gb_pending_key(p: Option<GbPendingTransfer>) -> Option<(u8, u32)> {
    match p {
        Some(GbPendingTransfer::Started { transfer_id, clock_owner_slot, .. }) => Some((clock_owner_slot, transfer_id)),
        Some(GbPendingTransfer::Replied { transfer_id, clock_owner_slot, .. }) => Some((clock_owner_slot, transfer_id)),
        None => None,
    }
}

/// The clock owner of a pending transfer is one of the two slots.
pub open spec fn gb_state_wf(s: GbTransactionState) -> bool {
    match gb_pending_key(s.pending) {
        Some((owner, _)) => owner < 2,
        None => true,
    }
}

/// Whether state `s` can judge a Game Boy event: a start that finds the
/// cable idle must name one of the two slots as its clock owner; every
/// other event is judged whatever slot it names.
pub open spec fn gb_event_admissible(s: GbTransactionState, event: GbSerialEvent) -> bool {
    match event {
        GbSerialEvent::Start { clock_owner_slot, .. } => s.pending is Some || clock_owner_slot < 2,
        _ => true,
    }
}

/// Why a Game Boy event is refused in state `s`, if it is.
pub open spec fn gb_rejection(s: GbTransactionState, event: GbSerialEvent) -> Option<LinkCableTransactionError> {
    match event {
        GbSerialEvent::Start { transfer_id, clock_owner_slot, .. } =>
            if s.pending is Some {
                Some(LinkCableTransactionError::TransferAlreadyPending)
            } else {
                sequence_rejection(s.next_transfer_ids[clock_owner_slot as int], transfer_id)
            },
        GbSerialEvent::Reply { transfer_id, clock_owner_slot, .. } => match s.pending {
            Some(GbPendingTransfer::Started { transfer_id: pending_id, clock_owner_slot: pending_owner, .. }) =>
                if transfer_id != pending_id || clock_owner_slot != pending_owner {
                    Some(LinkCableTransactionError::TransferIdMismatch)
                } else {
                    None
                },
            Some(_) => Some(LinkCableTransactionError::UnexpectedTransactionPhase),
            None => Some(LinkCableTransactionError::NoPendingTransfer),
        },
        GbSerialEvent::Commit { transfer_id, clock_owner_slot, slot_bytes } => match s.pending {
            Some(GbPendingTransfer::Replied { transfer_id: pending_id, clock_owner_slot: pending_owner, owner_byte, responder_byte }) =>
                if transfer_id != pending_id || clock_owner_slot != pending_owner {
                    Some(LinkCableTransactionError::TransferIdMismatch)
                } else if slot_bytes[pending_owner as int] != owner_byte || slot_bytes[1 - pending_owner] != responder_byte {
                    Some(LinkCableTransactionError::CommitPayloadMismatch)
                } else {
                    None
                },
            Some(_) => Some(LinkCableTransactionError::UnexpectedTransactionPhase),
            None => Some(LinkCableTransactionError::NoPendingTransfer),
        },
        GbSerialEvent::Abort { transfer_id, clock_owner_slot, .. } => match gb_pending_key(s.pending) {
            None => Some(LinkCableTransactionError::NoPendingTransfer),
            Some((pending_owner, pending_id)) =>
                if transfer_id != pending_id || clock_owner_slot != pending_owner {
                    Some(LinkCableTransactionError::TransferIdMismatch)
                } else {
                    None
                },
        },
    }
}

/// `t` is the state after `s` accepts `event`.
pub open spec fn gb_accepted(s: GbTransactionState, t: GbTransactionState, event: GbSerialEvent) -> bool {
    match event {
        GbSerialEvent::Start { transfer_id, clock_owner_slot, owner_byte, .. } => {
            &&& t.next_transfer_ids@ == s.next_transfer_ids@.update(clock_owner_slot as int, sequence_after(transfer_id))
            &&& t.pending == Some(GbPendingTransfer::Started { transfer_id, clock_owner_slot, owner_byte })
        },
        GbSerialEvent::Reply { responder_byte, .. } => {
            &&& t.next_transfer_ids == s.next_transfer_ids
            &&& match s.pending {
                Some(GbPendingTransfer::Started { transfer_id, clock_owner_slot, owner_byte }) =>
                    t.pending == Some(GbPendingTransfer::Replied { transfer_id, clock_owner_slot, owner_byte, responder_byte }),
                _ => false,
            }
        },
        GbSerialEvent::Commit { .. } => t.next_transfer_ids == s.next_transfer_ids && t.pending is None,
        GbSerialEvent::Abort { .. } => t.next_transfer_ids == s.next_transfer_ids && t.pending is None,
    }
}

impl GbTransactionState {
    /// An idle state: both owners expect transfer id 1.
    pub fn new() -> (s: Self)
        ensures
            s == fresh_gb(),
    {
        GbTransactionState {
            next_transfer_ids: [TransferIdSequence::default(), TransferIdSequence::default()],
            pending: None,
        }
    }

    /// (clock owner, transfer id) of the transfer in flight.
    pub fn pending_transfer_key(&self) -> (key: Option<(u8, u32)>)
        ensures
            key == gb_pending_key(self.pending),
    {
        match self.pending {
            Some(GbPendingTransfer::Started { transfer_id, clock_owner_slot, .. }) => Some((clock_owner_slot, transfer_id)),
            Some(GbPendingTransfer::Replied { transfer_id, clock_owner_slot, .. }) => Some((clock_owner_slot, transfer_id)),
            None => None,
        }
    }

    /// Validates one event and, when it is accepted, advances.
    pub fn validate_and_apply(&mut self, sender_slot: u8, event: &GbSerialEvent) -> (r: Result<(), LinkCableTransactionError>)
        requires
            gb_state_wf(*old(self)),
            gb_event_admissible(*old(self), *event),
        ensures
            gb_state_wf(*final(self)),
            r == (match gb_rejection(*old(self), *event) {
                Some(e) => Err(e),
                None => Ok(()),
            }),
            r is Err ==> *final(self) == *old(self),
            r is Ok ==> gb_accepted(*old(self), *final(self), *event),
    {
        match *event {
            GbSerialEvent::Start { transfer_id, clock_owner_slot, owner_byte, .. } => {
                if self.pending.is_some() {
                    return Err(LinkCableTransactionError::TransferAlreadyPending);
                }
                let owner = clock_owner_slot as usize;
                let mut sequence = self.next_transfer_ids[owner];
                match sequence.accept(transfer_id) {
                    Err(e) => return Err(e),
                    Ok(()) => {},
                }
                self.next_transfer_ids[owner] = sequence;
                self.pending = Some(GbPendingTransfer::Started { transfer_id, clock_owner_slot, owner_byte });
            },
            GbSerialEvent::Reply { transfer_id, clock_owner_slot, responder_byte, .. } => {
                match self.pending {
                    Some(GbPendingTransfer::Started { transfer_id: pending_id, clock_owner_slot: pending_owner, owner_byte }) => {
                        if transfer_id != pending_id || clock_owner_slot != pending_owner {
                            return Err(LinkCableTransactionError::TransferIdMismatch);
                        }
                        self.pending = Some(GbPendingTransfer::Replied {
                            transfer_id: pending_id,
                            clock_owner_slot: pending_owner,
                            owner_byte,
                            responder_byte,
                        });
                    },
                    Some(_) => return Err(LinkCableTransactionError::UnexpectedTransactionPhase),
                    None => return Err(LinkCableTransactionError::NoPendingTransfer),
                }
            },
            GbSerialEvent::Commit { transfer_id, clock_owner_slot, slot_bytes } => {
                match self.pending {
                    Some(GbPendingTransfer::Replied { transfer_id: pending_id, clock_owner_slot: pending_owner, owner_byte, responder_byte }) => {
                        if transfer_id != pending_id || clock_owner_slot != pending_owner {
                            return Err(LinkCableTransactionError::TransferIdMismatch);
                        }
                        let owner = pending_owner as usize;
                        let responder = 1 - owner;
                        if slot_bytes[owner] != owner_byte || slot_bytes[responder] != responder_byte {
                            return Err(LinkCableTransactionError::CommitPayloadMismatch);
                        }
                        self.pending = None;
                    },
                    Some(_) => return Err(LinkCableTransactionError::UnexpectedTransactionPhase),
                    None => return Err(LinkCableTransactionError::NoPendingTransfer),
                }
            },
            GbSerialEvent::Abort { transfer_id, clock_owner_slot, .. } => {
                let (pending_owner, pending_id) = match self.pending_transfer_key() {
                    None => return Err(LinkCableTransactionError::NoPendingTransfer),
                    Some(key) => key,
                };
                if transfer_id != pending_id || clock_owner_slot != pending_owner {
                    return Err(LinkCableTransactionError::TransferIdMismatch);
                }
                // Either endpoint may abort.
                self.pending = None;
            },
        }
        Ok(())
    }
}

/// Protocol-specific validator state.
#[derive(Clone, Copy, Debug)]
pub enum ProtocolTransactionState {
    /// A GBA multiplayer cable.
    Gba(GbaTransactionState),
    /// A Game Boy serial cable.
    Gb(GbTransactionState),
}

/// Stateful validator selected once by the room's frozen link protocol.
#[derive(Clone, Copy, Debug)]
pub struct LinkCableTransactionState {
    /// Frozen protocol namespace.
    pub protocol: LinkCableWireProtocol,
    /// Protocol-specific state.
    pub state: ProtocolTransactionState,
}

/// The idle validator for `protocol`.
pub open spec fn fresh_transaction_state(protocol: LinkCableWireProtocol) -> LinkCableTransactionState {
    LinkCableTransactionState {
        protocol,
        state: match protocol {
            LinkCableWireProtocol::GbaSioMultiV1 => ProtocolTransactionState::Gba(fresh_gba(GbaTransactionVersion::V1)),
            LinkCableWireProtocol::GbaSioMultiV2 => ProtocolTransactionState::Gba(fresh_gba(GbaTransactionVersion::V2)),
            LinkCableWireProtocol::GbSerialV1 => ProtocolTransactionState::Gb(fresh_gb()),
        },
    }
}

/// The idle GBA state of a revision.
pub open spec fn fresh_gba(version: GbaTransactionVersion) -> GbaTransactionState {
    GbaTransactionState {
        version,
        modes: [None, None],
        latest_mode_sequences: [None, None],
        pending_mode_acknowledgements: [None, None],
        next_transfer_id: TransferIdSequence { next: Some(1) },
        pending: None,
    }
}

/// The idle Game Boy state.
pub open spec fn fresh_gb() -> GbTransactionState {
    GbTransactionState {
        next_transfer_ids: [TransferIdSequence { next: Some(1) }, TransferIdSequence { next: Some(1) }],
        pending: None,
    }
}

/// The validator's protocol-specific state agrees with its frozen protocol.
pub open spec fn transaction_state_wf(t: LinkCableTransactionState) -> bool {
    match t.state {
        ProtocolTransactionState::Gba(g) => match t.protocol {
            LinkCableWireProtocol::GbaSioMultiV1 => g.version == GbaTransactionVersion::V1,
            LinkCableWireProtocol::GbaSioMultiV2 => g.version == GbaTransactionVersion::V2,
            LinkCableWireProtocol::GbSerialV1 => false,
        },
        ProtocolTransactionState::Gb(g) => t.protocol == LinkCableWireProtocol::GbSerialV1 && gb_state_wf(g),
    }
}

/// Every slot number a frame names is 0 or 1.
pub open spec fn frame_slots_valid(frame: LinkCableWireFrame) -> bool {
    match frame {
        LinkCableWireFrame::GbaSioMulti(f) => f.header.sender_slot < 2,
        LinkCableWireFrame::GbaSioMultiV2(f) => f.header.sender_slot < 2,
        LinkCableWireFrame::GbSerial(f) => f.header.sender_slot < 2 && match f.event {
            GbSerialEvent::Start { clock_owner_slot, .. } => clock_owner_slot < 2,
            GbSerialEvent::Reply { clock_owner_slot, .. } => clock_owner_slot < 2,
            GbSerialEvent::Commit { clock_owner_slot, .. } => clock_owner_slot < 2,
            GbSerialEvent::Abort { clock_owner_slot, .. } => clock_owner_slot < 2,
        },
    }
}

/// Whether the validator `t` can judge `frame`: a frame of another protocol
/// always can; a frame of its own protocol as its state's validator says.
pub open spec fn transaction_admissible(t: LinkCableTransactionState, frame: LinkCableWireFrame) -> bool {
    if frame_protocol(frame) != t.protocol {
        true
    } else {
        match (t.state, frame) {
            (ProtocolTransactionState::Gba(g), LinkCableWireFrame::GbaSioMulti(f)) =>
                gba_slot_admissible(g, f.header.sender_slot as int, f.event),
            (ProtocolTransactionState::Gba(g), LinkCableWireFrame::GbaSioMultiV2(f)) =>
                gba_slot_admissible(g, f.header.sender_slot as int, f.event),
            (ProtocolTransactionState::Gb(g), LinkCableWireFrame::GbSerial(f)) =>
                gb_event_admissible(g, f.event),
            _ => true,
        }
    }
}

/// Every frame whose slot fields name the two endpoints can be judged.
pub proof fn lemma_valid_slots_are_admissible(t: LinkCableTransactionState, frame: LinkCableWireFrame)
    requires
        frame_slots_valid(frame),
    ensures
        transaction_admissible(t, frame),
{
}

/// Why the validator `t` refuses `frame`, if it does.
pub open spec fn transaction_rejection(t: LinkCableTransactionState, frame: LinkCableWireFrame) -> Option<LinkCableTransactionError> {
    if frame_protocol(frame) != t.protocol {
        Some(LinkCableTransactionError::ProtocolMismatch)
    } else {
        match (t.state, frame) {
            (ProtocolTransactionState::Gba(g), LinkCableWireFrame::GbaSioMulti(f)) =>
                gba_rejection(g, f.header.sender_slot as int, f.event),
            (ProtocolTransactionState::Gba(g), LinkCableWireFrame::GbaSioMultiV2(f)) =>
                gba_rejection(g, f.header.sender_slot as int, f.event),
            (ProtocolTransactionState::Gb(g), LinkCableWireFrame::GbSerial(f)) =>
                gb_rejection(g, f.event),
            _ => Some(LinkCableTransactionError::ProtocolMismatch),
        }
    }
}

/// `u` is the validator after `t` accepts `frame`.
pub open spec fn transaction_accepted(t: LinkCableTransactionState, u: LinkCableTransactionState, frame: LinkCableWireFrame) -> bool {
    &&& u.protocol == t.protocol
    &&& match (t.state, u.state, frame) {
        (ProtocolTransactionState::Gba(g), ProtocolTransactionState::Gba(h), LinkCableWireFrame::GbaSioMulti(f)) =>
            gba_accepted(g, h, f.header.sender_slot as int, f.header.sender_sequence, f.event),
        (ProtocolTransactionState::Gba(g), ProtocolTransactionState::Gba(h), LinkCableWireFrame::GbaSioMultiV2(f)) =>
            gba_accepted(g, h, f.header.sender_slot as int, f.header.sender_sequence, f.event),
        (ProtocolTransactionState::Gb(g), ProtocolTransactionState::Gb(h), LinkCableWireFrame::GbSerial(f)) =>
            gb_accepted(g, h, f.event),
        _ => false,
    }
}

impl LinkCableTransactionState {
    /// Creates an empty transaction state for one new cable generation.
    pub fn new(protocol: LinkCableWireProtocol) -> (s: Self)
        ensures
            s == fresh_transaction_state(protocol),
            transaction_state_wf(s),
    {
        let state = match protocol {
            LinkCableWireProtocol::GbaSioMultiV1 => ProtocolTransactionState::Gba(GbaTransactionState::new(GbaTransactionVersion::V1)),
            LinkCableWireProtocol::GbaSioMultiV2 => ProtocolTransactionState::Gba(GbaTransactionState::new(GbaTransactionVersion::V2)),
            LinkCableWireProtocol::GbSerialV1 => ProtocolTransactionState::Gb(GbTransactionState::new()),
        };
        let s = LinkCableTransactionState { protocol, state };
        assert(s == fresh_transaction_state(protocol));
        s
    }

    /// Clears all modes, pending transfers, and per-owner transfer-id floors.
    pub fn reset(&mut self, protocol: LinkCableWireProtocol)
        ensures
            *final(self) == fresh_transaction_state(protocol),
            transaction_state_wf(*final(self)),
    {
        *self = Self::new(protocol);
    }

    /// Validates and atomically advances one decoded event.
    pub fn validate_and_apply(&mut self, frame: &LinkCableWireFrame) -> (r: Result<(), LinkCableTransactionError>)
        requires
            transaction_state_wf(*old(self)),
            transaction_admissible(*old(self), *frame),
        ensures
            transaction_state_wf(*final(self)),
            r == (match transaction_rejection(*old(self), *frame) {
                Some(e) => Err(e),
                None => Ok(()),
            }),
            r is Err ==> *final(self) == *old(self),
            r is Ok ==> transaction_accepted(*old(self), *final(self), *frame),
    {
        if frame.protocol() != self.protocol {
            return Err(LinkCableTransactionError::ProtocolMismatch);
        }
        match (&mut self.state, frame) {
            (ProtocolTransactionState::Gba(state), LinkCableWireFrame::GbaSioMulti(f)) => state.validate_and_apply(f),
            (ProtocolTransactionState::Gba(state), LinkCableWireFrame::GbaSioMultiV2(f)) => state.validate_and_apply(f),
            (ProtocolTransactionState::Gb(state), LinkCableWireFrame::GbSerial(f)) =>
                state.validate_and_apply(f.header.sender_slot, &f.event),
            _ => Err(LinkCableTransactionError::ProtocolMismatch),
        }
    }
}


/// Lowest transfer id that clock owner `owner` can still start with
/// (GBA cables share one sequence for both slots).
pub open spec fn owner_floor(t: LinkCableTransactionState, owner: int) -> int {
    match t.state {
        ProtocolTransactionState::Gba(g) => sequence_floor(g.next_transfer_id),
        ProtocolTransactionState::Gb(g) => sequence_floor(g.next_transfer_ids[owner]),
    }
}

/// (owner, transfer id) of a transfer-start frame.
pub open spec fn frame_start_key(frame: LinkCableWireFrame) -> Option<(int, u32)> {
    match frame {
        LinkCableWireFrame::GbaSioMulti(f) => match f.event {
            GbaSioMultiEvent::TransferStart { transfer_id, .. } => Some((f.header.sender_slot as int, transfer_id)),
            _ => None,
        },
        LinkCableWireFrame::GbaSioMultiV2(f) => match f.event {
            GbaSioMultiEvent::TransferStart { transfer_id, .. } => Some((f.header.sender_slot as int, transfer_id)),
            _ => None,
        },
        LinkCableWireFrame::GbSerial(f) => match f.event {
            GbSerialEvent::Start { transfer_id, clock_owner_slot, .. } => Some((clock_owner_slot as int, transfer_id)),
            _ => None,
        },
    }
}

/// Transfer ids only move forward: no accepted frame lowers any owner's
/// floor, and an accepted start uses exactly the owner's floor and raises it
/// past the id it consumed.
pub proof fn law_transfer_id_floors_only_advance(t: LinkCableTransactionState, u: LinkCableTransactionState, frame: LinkCableWireFrame, owner: int)
    requires
        transaction_state_wf(t),
        transaction_admissible(t, frame),
        0 <= owner < 2,
        transaction_rejection(t, frame) is None,
        transaction_accepted(t, u, frame),
    ensures
        owner_floor(u, owner) >= owner_floor(t, owner),
        frame_start_key(frame) matches Some((o, id)) ==> {
            &&& owner_floor(t, o) == id
            &&& owner_floor(u, o) == id + 1
        },
{
}

/// A start whose id lies below the owner's floor is always refused, so a
/// consumed transfer id is never accepted again in the same cable generation.
pub proof fn law_consumed_transfer_id_is_refused(t: LinkCableTransactionState, frame: LinkCableWireFrame)
    requires
        transaction_state_wf(t),
        transaction_admissible(t, frame),
        frame_start_key(frame) matches Some((o, id)) && id < owner_floor(t, o),
    ensures
        transaction_rejection(t, frame) is Some,
{
}

/// A frame of another protocol namespace is refused as a protocol mismatch.
pub proof fn law_foreign_protocol_is_refused(t: LinkCableTransactionState, frame: LinkCableWireFrame)
    requires
        frame_protocol(frame) != t.protocol,
    ensures
        transaction_rejection(t, frame) == Some(LinkCableTransactionError::ProtocolMismatch),
{
}

/// An exhausted id sequence refuses every id and stays exhausted.
pub proof fn law_exhausted_sequence_stays_exhausted(seq: TransferIdSequence, transfer_id: u32)
    requires
        seq.next is None,
    ensures
        sequence_rejection(seq, transfer_id) == Some(LinkCableTransactionError::TransferIdExhausted),
{
}

/// A GBA commit is accepted only for the replied transfer it names, and
/// only when it reproduces both words: the word the parent started with and
/// the word the child replied with.
pub proof fn law_gba_commit_reproduces_both_words(s: GbaTransactionState, slot: int, transfer_id: u32, words: [u16; 4])
    ensures
        gba_rejection(s, slot, GbaSioMultiEvent::TransferCommit { transfer_id, words }) is None ==> (
            s.pending matches Some(GbaPendingTransfer::Replied { transfer_id: id, parent_word, child_word })
                && id == transfer_id && words[0] == parent_word && words[1] == child_word),
{
}

/// After a start with the parent word `parent_word` and a reply with the
/// child word `child_word` are both accepted, a commit of that transfer is
/// accepted exactly when its first two words are those two words.
pub proof fn law_gba_started_and_replied_transfer_commits_its_words(
    s0: GbaTransactionState,
    s1: GbaTransactionState,
    s2: GbaTransactionState,
    start_slot: int,
    start_sequence: u64,
    reply_slot: int,
    reply_sequence: u64,
    commit_slot: int,
    transfer_id: u32,
    siocnt: u16,
    parent_word: u16,
    start_time: u64,
    reply_id: u32,
    child_word: u16,
    reply_time: u64,
    words: [u16; 4],
)
    requires
        gba_rejection(s0, start_slot,
            GbaSioMultiEvent::TransferStart { transfer_id, siocnt, parent_word, emulated_time: start_time }) is None,
        gba_accepted(s0, s1, start_slot, start_sequence,
            GbaSioMultiEvent::TransferStart { transfer_id, siocnt, parent_word, emulated_time: start_time }),
        gba_rejection(s1, reply_slot,
            GbaSioMultiEvent::TransferReply { transfer_id: reply_id, child_word, emulated_time: reply_time }) is None,
        gba_accepted(s1, s2, reply_slot, reply_sequence,
            GbaSioMultiEvent::TransferReply { transfer_id: reply_id, child_word, emulated_time: reply_time }),
    ensures
        gba_rejection(s2, commit_slot, GbaSioMultiEvent::TransferCommit { transfer_id, words }) is None
            <==> (words[0] == parent_word && words[1] == child_word),
        !(words[0] == parent_word && words[1] == child_word) ==>
            gba_rejection(s2, commit_slot, GbaSioMultiEvent::TransferCommit { transfer_id, words })
                == Some(LinkCableTransactionError::CommitPayloadMismatch),
{
}

/// A Game Boy commit is accepted only for the replied transfer it names,
/// and only when the owner's byte and the responder's byte land in their
/// own slots.
pub proof fn law_gb_commit_reproduces_both_bytes(s: GbTransactionState, transfer_id: u32, clock_owner_slot: u8, slot_bytes: [u8; 2])
    requires
        gb_state_wf(s),
    ensures
        gb_rejection(s, GbSerialEvent::Commit { transfer_id, clock_owner_slot, slot_bytes }) is None ==> (
            s.pending matches Some(GbPendingTransfer::Replied { transfer_id: id, clock_owner_slot: owner, owner_byte, responder_byte })
                && id == transfer_id && owner == clock_owner_slot
                && slot_bytes[owner as int] == owner_byte && slot_bytes[1 - owner] == responder_byte),
{
}

/// A Game Boy reply is accepted only for the started transfer it names,
/// with that transfer's clock owner, and it then holds both bytes.
pub proof fn law_gb_reply_answers_the_started_transfer(
    s: GbTransactionState,
    t: GbTransactionState,
    transfer_id: u32,
    clock_owner_slot: u8,
    responder_byte: u8,
    emulated_time: u64,
)
    requires
        gb_rejection(s, GbSerialEvent::Reply { transfer_id, clock_owner_slot, responder_byte, emulated_time }) is None,
        gb_accepted(s, t, GbSerialEvent::Reply { transfer_id, clock_owner_slot, responder_byte, emulated_time }),
    ensures
        s.pending matches Some(GbPendingTransfer::Started { transfer_id: id, clock_owner_slot: owner, owner_byte })
            && id == transfer_id && owner == clock_owner_slot
            && t.pending == Some(GbPendingTransfer::Replied { transfer_id, clock_owner_slot, owner_byte, responder_byte }),
        t.next_transfer_ids == s.next_transfer_ids,
{
}

} // verus!
