//! Room-specific errors.
//!
//! These errors describe domain failures before they are mapped to HTTP or
//! WebSocket protocol responses.

use vstd::prelude::*;
use crate::ids::PlayerIndex;

verus! {

/// Failure while mutating or querying room state.
#[derive(Clone, Copy, Debug, PartialEq, Eq)]
pub enum RoomError {
    /// Invite code did not match an active room.
    NotFound,
    /// The room has no empty player slots.
    RoomFull,
    /// The room has been closed.
    RoomClosed,
    /// The provided invite code was malformed.
    InvalidInviteCode,
    /// The connection is not attached to a player slot in this room.
    UnknownConnection,
    /// A client attempted to send input for a slot it does not own.
    SlotSpoofing(PlayerIndex),
    /// A socket attempted to attach as host without owning the host subject.
    HostSubjectMismatch,
    /// Input frame was older than the most recently accepted frame.
    OutOfOrderFrame,
    /// Input frame was too far ahead of the room frame.
    FutureFrameTooLarge,
    /// Input arrived while the room was not in a playable state.
    NotPlaying,
    /// The room has not reached the required sync/ready phase.
    RoomNotReady,
    /// A guest attempted a host-only operation.
    HostOnly,
    /// Snapshot payload failed relay validation.
    SnapshotInvalid,
    /// Large snapshot file relay is unavailable for this room or server.
    SnapshotFileRelayUnavailable,
    /// Link-cable packet failed relay validation; the class is a static,
    /// sanitized diagnostic with no client-controlled text.
    LinkPacketInvalid { diagnostic_class: &'static str },
    /// Link-cable packet sequence did not increase.
    OutOfOrderLinkPacket,
    /// Generic client payload failed validation.
    InvalidPayload,
    /// Connected players do not have matching compatibility fingerprints.
    CompatibilityMismatch,
    /// Client tried to use a room epoch that is no longer current.
    StaleRoomEpoch,
    /// Client tried to use a session epoch that is no longer current.
    StaleSessionEpoch,
    /// Reconnect token was missing, expired, or did not match the player slot.
    ResumeTokenInvalid,
    /// Reconnect grace elapsed before the player reclaimed the slot.
    RecoveryExpired,
    /// Voice was not configured or a token refresh could not be completed.
    VoiceUnavailable,
}

/// Human-readable description of a room failure.
pub open spec fn room_error_text(e: RoomError) -> Seq<char> {
    match e {
        RoomError::NotFound => "room was not found"@,
        RoomError::RoomFull => "room is full"@,
        RoomError::RoomClosed => "room is closed"@,
        RoomError::InvalidInviteCode => "invite code is invalid"@,
        RoomError::UnknownConnection => "connection is not assigned to a player slot"@,
        RoomError::SlotSpoofing(_) => "connection cannot send input for another player"@,
        RoomError::HostSubjectMismatch => "connection cannot attach as this room host"@,
        RoomError::OutOfOrderFrame => "input frame is out of order"@,
        RoomError::FutureFrameTooLarge => "input frame is too far ahead"@,
        RoomError::NotPlaying => "room is not playing"@,
        RoomError::RoomNotReady => "room is not ready for this operation"@,
        RoomError::HostOnly => "only the host can perform this operation"@,
        RoomError::SnapshotInvalid => "snapshot payload is invalid"@,
        RoomError::SnapshotFileRelayUnavailable => "snapshot file relay is unavailable"@,
        RoomError::LinkPacketInvalid { .. } => "link-cable packet is invalid"@,
        RoomError::OutOfOrderLinkPacket => "link-cable packet is out of order"@,
        RoomError::InvalidPayload => "client payload is invalid"@,
        RoomError::CompatibilityMismatch => "netplay compatibility mismatch"@,
        RoomError::StaleRoomEpoch => "room epoch is stale"@,
        RoomError::StaleSessionEpoch => "session epoch is stale"@,
        RoomError::ResumeTokenInvalid => "resume token is invalid"@,
        RoomError::RecoveryExpired => "recovery window expired"@,
        RoomError::VoiceUnavailable => "voice chat is unavailable"@,
    }
}

impl RoomError {
    /// Human-readable description of the failure.
    pub fn message(&self) -> (m: &'static str)
        ensures
            m@ == room_error_text(*self),
    {
        match self {
            RoomError::NotFound => "room was not found",
            RoomError::RoomFull => "room is full",
            RoomError::RoomClosed => "room is closed",
            RoomError::InvalidInviteCode => "invite code is invalid",
            RoomError::UnknownConnection => "connection is not assigned to a player slot",
            RoomError::SlotSpoofing(_) => "connection cannot send input for another player",
            RoomError::HostSubjectMismatch => "connection cannot attach as this room host",
            RoomError::OutOfOrderFrame => "input frame is out of order",
            RoomError::FutureFrameTooLarge => "input frame is too far ahead",
            RoomError::NotPlaying => "room is not playing",
            RoomError::RoomNotReady => "room is not ready for this operation",
            RoomError::HostOnly => "only the host can perform this operation",
            RoomError::SnapshotInvalid => "snapshot payload is invalid",
            RoomError::SnapshotFileRelayUnavailable => "snapshot file relay is unavailable",
            RoomError::LinkPacketInvalid { .. } => "link-cable packet is invalid",
            RoomError::OutOfOrderLinkPacket => "link-cable packet is out of order",
            RoomError::InvalidPayload => "client payload is invalid",
            RoomError::CompatibilityMismatch => "netplay compatibility mismatch",
            RoomError::StaleRoomEpoch => "room epoch is stale",
            RoomError::StaleSessionEpoch => "session epoch is stale",
            RoomError::ResumeTokenInvalid => "resume token is invalid",
            RoomError::RecoveryExpired => "recovery window expired",
            RoomError::VoiceUnavailable => "voice chat is unavailable",
        }
    }
}

} // verus!
