//! Player slot state for active rooms.
//!
//! Slots are capacity-based instead of host/guest fields so the protocol can
//! grow past two players without changing shape. Instants are milliseconds
//! on the registry's monotonic clock.

use vstd::prelude::*;
use crate::ids::{ConnectionId, PlayerIndex};
use crate::resume_token::ResumeTokenHash;

verus! {

/// Role assigned by the server when a player joins.
#[derive(Clone, Copy, Debug, PartialEq, Eq, Structural)]
pub enum PlayerRole {
    /// Room creator and player 1.
    Host,
    /// Joined player.
    Guest,
}

/// User-facing player status.
#[derive(Clone, Copy, Debug, PartialEq, Eq, Structural)]
pub enum PlayerStatus {
    /// No player occupies this slot.
    Empty,
    /// Player is connected to the room.
    Connected,
    /// Player is comparing compatibility fingerprints.
    CheckingCompatibility,
    /// Player failed compatibility checks.
    CompatibilityFailed,
    /// Player is receiving or sending sync state.
    SyncingState,
    /// Player is ready to start.
    Ready,
    /// Player is in active gameplay.
    Playing,
    /// Player is paused by coordinated netplay pause.
    Paused,
    /// Player may reconnect to reclaim this slot.
    Reconnecting,
    /// Player failed to reconnect before the recovery window expired.
    RecoveryExpired,
    /// Player disconnected.
    Disconnected,
}

/// Runtime state reported or inferred for one player slot.
#[derive(Clone, Copy, Debug, PartialEq, Eq, Structural)]
pub enum PlayerRuntimeState {
    /// No player occupies this slot.
    Empty,
    /// Socket is connected but gameplay is not active.
    Connected,
    /// Compatibility check is in progress.
    CheckingCompatibility,
    /// Snapshot or link setup is in progress.
    Syncing,
    /// Client is ready to start.
    Ready,
    /// Client finished deterministic start preparation.
    DeterministicReady,
    /// Gameplay is active.
    Playing,
    /// A coordinated pause has been scheduled.
    Pausing,
    /// Client is paused at a coordinated frame.
    Paused,
    /// Socket dropped and the slot is waiting for reconnect.
    Reconnecting,
    /// Heartbeat is stale but the socket is not in recovery yet.
    Stale,
    /// Socket is disconnected without a recoverable session.
    Disconnected,
    /// Reconnect grace expired.
    RecoveryExpired,
}

/// Runtime state a client reports in its heartbeat.
#[derive(Clone, Copy, Debug, PartialEq, Eq, Structural)]
pub enum ClientRuntimeState {
    /// Connected, not in gameplay.
    Connected,
    /// Comparing compatibility.
    CheckingCompatibility,
    /// Synchronizing state.
    Syncing,
    /// Ready to start.
    Ready,
    /// Deterministic start preparation finished.
    DeterministicReady,
    /// In gameplay.
    Playing,
    /// Pause scheduled.
    Pausing,
    /// Paused.
    Paused,
    /// Reconnecting.
    Reconnecting,
    /// Disconnected.
    Disconnected,
}

/// The slot runtime state that a client-reported runtime state stands for.
pub open spec fn runtime_state_of(state: ClientRuntimeState) -> PlayerRuntimeState {
    match state {
        ClientRuntimeState::Connected => PlayerRuntimeState::Connected,
        ClientRuntimeState::CheckingCompatibility => PlayerRuntimeState::CheckingCompatibility,
        ClientRuntimeState::Syncing => PlayerRuntimeState::Syncing,
        ClientRuntimeState::Ready => PlayerRuntimeState::Ready,
        ClientRuntimeState::DeterministicReady => PlayerRuntimeState::DeterministicReady,
        ClientRuntimeState::Playing => PlayerRuntimeState::Playing,
        ClientRuntimeState::Pausing => PlayerRuntimeState::Pausing,
        ClientRuntimeState::Paused => PlayerRuntimeState::Paused,
        ClientRuntimeState::Reconnecting => PlayerRuntimeState::Reconnecting,
        ClientRuntimeState::Disconnected => PlayerRuntimeState::Disconnected,
    }
}

impl PlayerRuntimeState {
    /// Maps a client-reported runtime state onto the slot runtime state.
    pub fn from_client(state: ClientRuntimeState) -> (r: Self)
        ensures
            r == runtime_state_of(state),
    {
        match state {
            ClientRuntimeState::Connected => PlayerRuntimeState::Connected,
            ClientRuntimeState::CheckingCompatibility => PlayerRuntimeState::CheckingCompatibility,
            ClientRuntimeState::Syncing => PlayerRuntimeState::Syncing,
            ClientRuntimeState::Ready => PlayerRuntimeState::Ready,
            ClientRuntimeState::DeterministicReady => PlayerRuntimeState::DeterministicReady,
            ClientRuntimeState::Playing => PlayerRuntimeState::Playing,
            ClientRuntimeState::Pausing => PlayerRuntimeState::Pausing,
            ClientRuntimeState::Paused => PlayerRuntimeState::Paused,
            ClientRuntimeState::Reconnecting => PlayerRuntimeState::Reconnecting,
            ClientRuntimeState::Disconnected => PlayerRuntimeState::Disconnected,
        }
    }
}

/// Client-observed network and runtime health sample.
#[derive(Clone, Copy, Debug, PartialEq, Eq, Structural)]
pub struct ClientNetworkQualityReport {
    /// Round-trip time to the relay in milliseconds.
    pub round_trip_ms: Option<u32>,
    /// Round-trip jitter in milliseconds.
    pub jitter_ms: Option<u32>,
    /// Frames whose remote input arrived after they were needed.
    pub late_input_frames: Option<u32>,
    /// Frames the client is running ahead on predicted input.
    pub prediction_frames: Option<u32>,
    /// Local emulator stalls since the previous sample.
    pub stall_count: Option<u32>,
}

impl Default for ClientNetworkQualityReport {
    fn default() -> (r: Self)
        ensures
            r.round_trip_ms is None,
            r.jitter_ms is None,
            r.late_input_frames is None,
            r.prediction_frames is None,
            r.stall_count is None,
    {
        ClientNetworkQualityReport {
            round_trip_ms: None,
            jitter_ms: None,
            late_input_frames: None,
            prediction_frames: None,
            stall_count: None,
        }
    }
}

/// Optional features supported by one connected client.
#[derive(Clone, Copy, Debug, Default, PartialEq, Eq, Structural)]
pub struct ClientTransportCapabilities {
    /// Client can use large save-state file relay.
    pub supports_state_file_relay: bool,
    /// Client can use temporary ROM file relay.
    pub supports_rom_file_relay: bool,
    /// Client can wait for a server-scheduled deterministic start.
    pub supports_scheduled_start: bool,
    /// Client can answer startup clock-sample requests.
    pub supports_clock_sync: bool,
    /// Client can send and receive fast input records.
    pub supports_fast_input_relay: bool,
}

/// Slot assigned to one player.
#[derive(Clone, Debug, PartialEq, Eq)]
pub struct PlayerSlot {
    /// Zero-based player index used by protocol messages.
    pub player_index: PlayerIndex,
    /// Role assigned by the server.
    pub role: PlayerRole,
    /// Verified client identity occupying the slot.
    pub subject_key: Option<String>,
    /// Active socket connection occupying the slot.
    pub connection_id: Option<ConnectionId>,
    /// Active binary input socket for this slot.
    pub input_connection_id: Option<ConnectionId>,
    /// Control connection that the input-socket token was issued to.
    pub input_socket_control_connection_id: Option<ConnectionId>,
    /// Optional name shown in the room UI.
    pub display_name: Option<String>,
    /// Current lifecycle status.
    pub status: PlayerStatus,
    /// Current emulator/runtime status.
    pub runtime_state: PlayerRuntimeState,
    /// Hash of the per-player token used to reclaim this slot.
    pub resume_token_hash: Option<ResumeTokenHash>,
    /// Hash of the token used to attach the binary input socket.
    pub input_socket_token_hash: Option<ResumeTokenHash>,
    /// Last heartbeat time seen by the relay.
    pub last_seen_at: Option<u64>,
    /// Latest local runtime frame reported by this client.
    pub latest_local_frame: Option<u64>,
    /// Time the latest local runtime frame was reported.
    pub latest_local_frame_reported_at: Option<u64>,
    /// Latest client-observed network/runtime health sample.
    pub latest_network_report: Option<ClientNetworkQualityReport>,
    /// Time the latest network/runtime health sample was reported.
    pub latest_network_reported_at: Option<u64>,
    /// Whether this client can use file relay for large sync states.
    pub supports_state_file_relay: bool,
    /// Whether this client can use temporary ROM file relay.
    pub supports_rom_file_relay: bool,
    /// Whether this client waits for server-scheduled starts.
    pub supports_scheduled_start: bool,
    /// Whether this client answers clock-sample requests.
    pub supports_clock_sync: bool,
    /// Whether this client uses fast input records.
    pub supports_fast_input_relay: bool,
    /// Deadline for reclaiming this slot after transport loss.
    pub reconnect_deadline: Option<u64>,
    /// Room epoch this client knew before recovery changed room state.
    pub reconnect_room_epoch: Option<u64>,
    /// Deadline of a delivered runner-handoff capability.
    pub runner_handoff_deadline: Option<u64>,
}

/// Liveness and capability fields of a slot that nobody occupies or whose
/// occupant just (re)joined: no samples, no deadlines.
pub open spec fn slot_samples_cleared(s: PlayerSlot) -> bool {
    &&& s.input_connection_id is None
    &&& s.latest_local_frame is None
    &&& s.latest_local_frame_reported_at is None
    &&& s.latest_network_report is None
    &&& s.latest_network_reported_at is None
    &&& s.reconnect_deadline is None
    &&& s.reconnect_room_epoch is None
    &&& s.runner_handoff_deadline is None
}

/// Slot `s` once a guest with the given identity, tokens and capabilities
/// occupies it at `now`.
pub open spec fn guest_slot(
    s: PlayerSlot,
    subject_key: String,
    connection_id: ConnectionId,
    resume_token_hash: ResumeTokenHash,
    input_socket_token_hash: ResumeTokenHash,
    now: u64,
    capabilities: ClientTransportCapabilities,
) -> PlayerSlot {
    PlayerSlot {
        role: PlayerRole::Guest,
        subject_key: Some(subject_key),
        connection_id: Some(connection_id),
        input_connection_id: None,
        status: PlayerStatus::Connected,
        runtime_state: PlayerRuntimeState::Connected,
        resume_token_hash: Some(resume_token_hash),
        input_socket_token_hash: Some(input_socket_token_hash),
        last_seen_at: Some(now),
        latest_local_frame: None,
        latest_local_frame_reported_at: None,
        latest_network_report: None,
        latest_network_reported_at: None,
        supports_state_file_relay: capabilities.supports_state_file_relay,
        supports_rom_file_relay: capabilities.supports_rom_file_relay,
        supports_scheduled_start: capabilities.supports_scheduled_start,
        supports_clock_sync: capabilities.supports_clock_sync,
        supports_fast_input_relay: capabilities.supports_fast_input_relay,
        reconnect_deadline: None,
        reconnect_room_epoch: None,
        runner_handoff_deadline: None,
        ..s
    }
}

impl PlayerSlot {
    /// Creates an empty slot for `player_index`.
    pub fn empty(player_index: PlayerIndex) -> (s: Self)
        ensures
            s.player_index == player_index,
            s.role == PlayerRole::Guest,
            s.subject_key is None,
            s.connection_id is None,
            s.input_socket_control_connection_id is None,
            s.display_name is None,
            s.status == PlayerStatus::Empty,
            s.runtime_state == PlayerRuntimeState::Empty,
            s.resume_token_hash is None,
            s.input_socket_token_hash is None,
            s.last_seen_at is None,
            slot_samples_cleared(s),
            !s.supports_state_file_relay,
            !s.supports_rom_file_relay,
            !s.supports_scheduled_start,
            !s.supports_clock_sync,
            !s.supports_fast_input_relay,
    {
        PlayerSlot {
            player_index,
            role: PlayerRole::Guest,
            subject_key: None,
            connection_id: None,
            input_connection_id: None,
            input_socket_control_connection_id: None,
            display_name: None,
            status: PlayerStatus::Empty,
            runtime_state: PlayerRuntimeState::Empty,
            resume_token_hash: None,
            input_socket_token_hash: None,
            last_seen_at: None,
            latest_local_frame: None,
            latest_local_frame_reported_at: None,
            latest_network_report: None,
            latest_network_reported_at: None,
            supports_state_file_relay: false,
            supports_rom_file_relay: false,
            supports_scheduled_start: false,
            supports_clock_sync: false,
            supports_fast_input_relay: false,
            reconnect_deadline: None,
            reconnect_room_epoch: None,
            runner_handoff_deadline: None,
        }
    }

    /// Creates the host slot (player 1) for a verified subject.
    pub fn host(
        subject_key: String,
        connection_id: ConnectionId,
        resume_token_hash: ResumeTokenHash,
        input_socket_token_hash: ResumeTokenHash,
        now: u64,
    ) -> (s: Self)
        ensures
            s.player_index == PlayerIndex(0),
            s.role == PlayerRole::Host,
            s.subject_key matches Some(k) && k@ == subject_key@,
            s.connection_id == Some(connection_id),
            s.input_socket_control_connection_id is None,
            s.display_name is None,
            s.status == PlayerStatus::Connected,
            s.runtime_state == PlayerRuntimeState::Connected,
            s.resume_token_hash matches Some(h) && h@ == resume_token_hash@,
            s.input_socket_token_hash matches Some(h) && h@ == input_socket_token_hash@,
            s.last_seen_at == Some(now),
            slot_samples_cleared(s),
            !s.supports_state_file_relay,
            !s.supports_rom_file_relay,
            !s.supports_scheduled_start,
            !s.supports_clock_sync,
            !s.supports_fast_input_relay,
    {
        PlayerSlot {
            player_index: PlayerIndex(0),
            role: PlayerRole::Host,
            subject_key: Some(subject_key),
            connection_id: Some(connection_id),
            input_connection_id: None,
            input_socket_control_connection_id: None,
            display_name: None,
            status: PlayerStatus::Connected,
            runtime_state: PlayerRuntimeState::Connected,
            resume_token_hash: Some(resume_token_hash),
            input_socket_token_hash: Some(input_socket_token_hash),
            last_seen_at: Some(now),
            latest_local_frame: None,
            latest_local_frame_reported_at: None,
            latest_network_report: None,
            latest_network_reported_at: None,
            supports_state_file_relay: false,
            supports_rom_file_relay: false,
            supports_scheduled_start: false,
            supports_clock_sync: false,
            supports_fast_input_relay: false,
            reconnect_deadline: None,
            reconnect_room_epoch: None,
            runner_handoff_deadline: None,
        }
    }

    /// Marks an empty slot as occupied by a guest.
    pub fn occupy_guest(
        &mut self,
        subject_key: String,
        connection_id: ConnectionId,
        resume_token_hash: ResumeTokenHash,
        input_socket_token_hash: ResumeTokenHash,
        now: u64,
        capabilities: ClientTransportCapabilities,
    )
        ensures
            *final(self) == guest_slot(*old(self), subject_key, connection_id, resume_token_hash,
                input_socket_token_hash, now, capabilities),
    {
        self.role = PlayerRole::Guest;
        self.subject_key = Some(subject_key);
        self.connection_id = Some(connection_id);
        self.input_connection_id = None;
        self.status = PlayerStatus::Connected;
        self.runtime_state = PlayerRuntimeState::Connected;
        self.resume_token_hash = Some(resume_token_hash);
        self.input_socket_token_hash = Some(input_socket_token_hash);
        self.last_seen_at = Some(now);
        self.latest_local_frame = None;
        self.latest_local_frame_reported_at = None;
        self.latest_network_report = None;
        self.latest_network_reported_at = None;
        self.supports_state_file_relay = capabilities.supports_state_file_relay;
        self.supports_rom_file_relay = capabilities.supports_rom_file_relay;
        self.supports_scheduled_start = capabilities.supports_scheduled_start;
        self.supports_clock_sync = capabilities.supports_clock_sync;
        self.supports_fast_input_relay = capabilities.supports_fast_input_relay;
        self.reconnect_deadline = None;
        self.reconnect_room_epoch = None;
        self.runner_handoff_deadline = None;
    }

    /// Returns whether the slot is available.
    pub fn is_empty(&self) -> (b: bool)
        ensures
            b == (self.status == PlayerStatus::Empty),
    {
        self.status == PlayerStatus::Empty
    }
}

} // verus!
