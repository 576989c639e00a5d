//! Domain model for one active netplay room.
//!
//! This module owns slot assignment, room status transitions and the room's
//! gameplay provider. It does not store rooms globally or perform network IO.
//! Instants are milliseconds on the registry's monotonic clock.

use vstd::prelude::*;
use std::collections::{HashMap, HashSet};
use crate::errors::RoomError;
use crate::ids::{ConnectionId, PlayerIndex, RoomId};
use crate::invite_code::InviteCode;
use crate::link_cable_data_plane::{
    plane_wf, bind_spec, close_spec, MAX_SIGNED_U64, invalidate_spec, replace_spec, DataPlaneView, LinkCableDataPlaneSnapshot,
    Wakeup,
};
use crate::link_cable_room_state::{LinkCableCompatibility, LinkCableDescriptor};
use crate::link_cable_session::{merge_wakeups, protocol_for_descriptor, room_result, LinkCableSession};
use crate::player_slot::{ClientNetworkQualityReport, PlayerRole, PlayerRuntimeState, PlayerSlot, PlayerStatus};
use crate::resume_token::ResumeTokenHash;
use crate::room_connection_diagnostics::RoomStatus;
use crate::room_scope::RoomScope;
use crate::adaptive_input_delay_policy::AdaptiveInputDelayPolicy;

verus! {

broadcast use vstd::std_specs::hash::group_hash_axioms;

/// Player capacity of every room.
pub const MVP_ROOM_CAPACITY: u8 = 2;

/// Protocol version a room speaks when none was negotiated.
pub const LEGACY_NETPLAY_PROTOCOL_VERSION: u16 = 4;

/// The one gameplay provider owned by a room.
pub enum GameplaySession {
    /// Deterministic controller-input netplay.
    ControllerNetplay,
    /// Real handheld link-cable transport.
    LinkCable(LinkCableSession),
}

impl GameplaySession {
    /// Selects exactly one provider: the link cable for a room with a link
    /// descriptor, controller netplay otherwise.
    pub fn new(link: Option<LinkCableDescriptor>, room_scope: RoomScope, room_epoch: u64, session_epoch: u64) -> (g: Self)
        requires
            link matches Some(l) ==> protocol_for_descriptor(l.system_family@, l.link_protocol@) is Some,
            room_epoch <= MAX_SIGNED_U64,
            session_epoch <= MAX_SIGNED_U64,
        ensures
            link is None <==> g is ControllerNetplay,
            g matches GameplaySession::LinkCable(s) ==> {
                &&& s.wf()
                &&& Some(s.link) == link
                &&& s.state@ == Map::<u8, LinkCableCompatibility>::empty()
                &&& s.data_plane@.room_scope == room_scope@
                &&& s.data_plane@.room_epoch == room_epoch
                &&& s.data_plane@.session_epoch == session_epoch
                &&& s.pending_wakeup == Wakeup::Neither
            },
    {
        match link {
            Some(l) => GameplaySession::LinkCable(LinkCableSession::new(room_scope, l, room_epoch, session_epoch)),
            None => GameplaySession::ControllerNetplay,
        }
    }

    /// Returns whether this room owns the controller-netplay provider.
    pub fn is_controller_netplay(&self) -> (b: bool)
        ensures
            b == (self is ControllerNetplay),
    {
        match self {
            GameplaySession::ControllerNetplay => true,
            GameplaySession::LinkCable(_) => false,
        }
    }

    /// Returns whether this room owns the link-cable provider.
    pub fn is_link_cable(&self) -> (b: bool)
        ensures
            b == (self is LinkCable),
    {
        match self {
            GameplaySession::LinkCable(_) => true,
            GameplaySession::ControllerNetplay => false,
        }
    }

    /// Returns the link provider when this is a link-cable room.
    pub fn link_cable(&self) -> (s: Option<&LinkCableSession>)
        ensures
            match self {
                GameplaySession::LinkCable(session) => s == Some(session),
                GameplaySession::ControllerNetplay => s is None,
            },
    {
        match self {
            GameplaySession::LinkCable(session) => Some(session),
            GameplaySession::ControllerNetplay => None,
        }
    }

    /// Clears provider state before a new compatibility cycle.
    pub fn reset(&mut self)
        ensures
            match (*old(self), *final(self)) {
                (GameplaySession::LinkCable(a), GameplaySession::LinkCable(b)) => {
                    &&& b.state@ == Map::<u8, LinkCableCompatibility>::empty()
                    &&& b.link == a.link
                    &&& b.data_plane == a.data_plane
                    &&& b.pending_wakeup == a.pending_wakeup
                },
                (GameplaySession::ControllerNetplay, GameplaySession::ControllerNetplay) => true,
                _ => false,
            },
    {
        match self {
            GameplaySession::LinkCable(session) => session.reset(),
            GameplaySession::ControllerNetplay => {},
        }
    }
}

/// Per-cycle synchronization state that every new join cycle starts afresh.
pub struct RoomSyncState {
    /// Zero-based indexes of the players that reported ready.
    pub ready_players: HashSet<u8>,
    /// Last accepted input frame of each player.
    pub last_input_frames: HashMap<u8, u64>,
    /// Next expected input frame of each player.
    pub next_input_frames: HashMap<u8, u64>,
    /// Whether the host finished sending its start snapshot.
    pub host_snapshot_completed: bool,
    /// Canonical frame the current sync phase starts from.
    pub sync_start_frame: u64,
    /// Current room frame.
    pub room_frame: u64,
    /// Latest frame released to players.
    pub released_frame: Option<u64>,
    /// Next frame to release.
    pub next_release_frame: u64,
    /// The coordinated start of this cycle, once one is scheduled.
    pub scheduled_start: Option<ScheduledSessionStart>,
    /// A first host frame open held until the scheduled start time.
    pub pending_host_frame_open: Option<u64>,
}

/// A coordinated session start: the first frame and the server time at
/// which it may be released.
#[derive(Clone, Copy, Debug, PartialEq, Eq, Structural)]
pub struct ScheduledSessionStart {
    /// First frame of the session.
    pub start_frame: u64,
    /// Server time, in milliseconds, at which the first frame opens.
    pub server_time_ms: u64,
}

/// The sync state of a fresh cycle starting at `start_frame`.
pub open spec fn sync_is_reset_to(s: RoomSyncState, start_frame: u64) -> bool {
    &&& s.ready_players@ == Set::<u8>::empty()
    &&& s.last_input_frames@ == Map::<u8, u64>::empty()
    &&& s.next_input_frames@ == Map::<u8, u64>::empty()
    &&& !s.host_snapshot_completed
    &&& s.sync_start_frame == start_frame
    &&& s.room_frame == start_frame
    &&& s.released_frame is None
    &&& s.next_release_frame == start_frame
    &&& s.scheduled_start is None
    &&& s.pending_host_frame_open is None
}

/// Sync state with one player's per-player entries dropped.
pub open spec fn sync_without_player(s: RoomSyncState, t: RoomSyncState, player: u8) -> bool {
    &&& t.ready_players@ == s.ready_players@.remove(player)
    &&& t.last_input_frames@ == s.last_input_frames@.remove(player)
    &&& t.next_input_frames@ == s.next_input_frames@.remove(player)
    &&& t.host_snapshot_completed == s.host_snapshot_completed
    &&& t.sync_start_frame == s.sync_start_frame
    &&& t.room_frame == s.room_frame
    &&& t.released_frame == s.released_frame
    &&& t.next_release_frame == s.next_release_frame
    &&& t.scheduled_start == s.scheduled_start
    &&& t.pending_host_frame_open == s.pending_host_frame_open
}

impl RoomSyncState {
    /// A fresh cycle starting at `start_frame`.
    pub fn new(start_frame: u64) -> (s: Self)
        ensures
            sync_is_reset_to(s, start_frame),
    {
        RoomSyncState {
            ready_players: HashSet::new(),
            last_input_frames: HashMap::new(),
            next_input_frames: HashMap::new(),
            host_snapshot_completed: false,
            sync_start_frame: start_frame,
            room_frame: start_frame,
            released_frame: None,
            next_release_frame: start_frame,
            scheduled_start: None,
            pending_host_frame_open: None,
        }
    }

    /// Drops one player's ready mark and input cursors.
    pub fn forget_player(&mut self, player: u8)
        ensures
            sync_without_player(*old(self), *final(self), player),
    {
        self.ready_players.remove(&player);
        self.last_input_frames.remove(&player);
        self.next_input_frames.remove(&player);
    }
}

/// Active netplay room.
pub struct NetplayRoom {
    /// Stable room id.
    pub room_id: RoomId,
    /// Invite code used for lookups.
    pub invite_code: InviteCode,
    /// Exact wire protocol selected when the room was created.
    pub protocol_version: u16,
    /// When the room was created, in milliseconds.
    pub created_at: u64,
    /// Player capacity.
    pub max_players: u8,
    /// One slot per player, in player order.
    pub players: Vec<PlayerSlot>,
    /// Room lifecycle status.
    pub status: RoomStatus,
    /// Room generation, raised whenever membership restarts a cycle.
    pub room_epoch: u64,
    /// Session generation, raised with every new sync cycle.
    pub session_epoch: u64,
    /// Per-cycle synchronization state.
    pub sync: RoomSyncState,
    /// Controller input delay of the session, in frames.
    pub input_delay_frames: u8,
    /// Policy that picks the startup input delay.
    pub input_delay_policy: AdaptiveInputDelayPolicy,
    /// The room's gameplay provider.
    pub gameplay: GameplaySession,
}

/// Runtime state a player status implies.
pub open spec fn runtime_for_status(status: PlayerStatus) -> PlayerRuntimeState {
    match status {
        PlayerStatus::Empty => PlayerRuntimeState::Empty,
        PlayerStatus::Connected => PlayerRuntimeState::Connected,
        PlayerStatus::CheckingCompatibility => PlayerRuntimeState::CheckingCompatibility,
        PlayerStatus::CompatibilityFailed => PlayerRuntimeState::Connected,
        PlayerStatus::SyncingState => PlayerRuntimeState::Syncing,
        PlayerStatus::Ready => PlayerRuntimeState::Ready,
        PlayerStatus::Playing => PlayerRuntimeState::Playing,
        PlayerStatus::Paused => PlayerRuntimeState::Paused,
        PlayerStatus::Reconnecting => PlayerRuntimeState::Reconnecting,
        PlayerStatus::RecoveryExpired => PlayerRuntimeState::RecoveryExpired,
        PlayerStatus::Disconnected => PlayerRuntimeState::Disconnected,
    }
}

/// Index of the first slot whose control connection is `connection_id`.
pub open spec fn connection_position(players: Seq<PlayerSlot>, connection_id: ConnectionId) -> Option<int> {
    if exists|i: int| 0 <= i < players.len() && players[i].connection_id == Some(connection_id) {
        Some(choose|i: int| 0 <= i < players.len() && players[i].connection_id == Some(connection_id)
            && forall|j: int| 0 <= j < i ==> players[j].connection_id != Some(connection_id))
    } else {
        None
    }
}

/// Player index of the first slot whose control connection is `connection_id`.
pub open spec fn connection_player(players: Seq<PlayerSlot>, connection_id: ConnectionId) -> Option<PlayerIndex> {
    match connection_position(players, connection_id) {
        Some(i) => Some(players[i].player_index),
        None => None,
    }
}

/// Indexes of the slots with a control connection, in slot order.
pub open spec fn connected_indices(players: Seq<PlayerSlot>) -> Seq<PlayerIndex>
    decreases players.len(),
{
    if players.len() == 0 {
        Seq::empty()
    } else {
        let prior = connected_indices(players.drop_last());
        if players.last().connection_id is Some {
            prior.push(players.last().player_index)
        } else {
            prior
        }
    }
}

/// Slot `s` with its status set and its runtime state derived from it.
pub open spec fn with_status(s: PlayerSlot, status: PlayerStatus) -> PlayerSlot {
    PlayerSlot { status, runtime_state: runtime_for_status(status), ..s }
}

/// Statuses in which a lost connection enters recovery instead of leaving.
pub open spec fn is_recoverable_status(status: RoomStatus) -> bool {
    ||| status == RoomStatus::StartScheduled
    ||| status == RoomStatus::Playing
    ||| status == RoomStatus::Paused
    ||| status == RoomStatus::RepairingState
    ||| status == RoomStatus::Recovering
}

/// Statuses in which heartbeats are policed.
pub open spec fn is_live_status(status: RoomStatus) -> bool {
    ||| status == RoomStatus::StartScheduled
    ||| status == RoomStatus::Playing
    ||| status == RoomStatus::Paused
    ||| status == RoomStatus::RepairingState
}

/// Whether the gameplay provider is the link cable.
pub open spec fn is_link(g: GameplaySession) -> bool {
    g is LinkCable
}


/// Mathematical view of a link-cable provider.
#[verifier::ext_equal]
pub struct LinkModel {
    /// Link part of the session descriptor.
    pub link: LinkCableDescriptor,
    /// Compatibility reports of this join cycle, by zero-based player index.
    pub compat: Map<u8, LinkCableCompatibility>,
    /// The private data plane.
    pub plane: DataPlaneView,
    /// Receivers still to be woken.
    pub wakeup: Wakeup,
}

/// Mathematical view of a room: everything its operations change.
#[verifier::ext_equal]
pub struct RoomModel {
    /// Lifecycle status.
    pub status: RoomStatus,
    /// Room generation.
    pub room_epoch: u64,
    /// Session generation.
    pub session_epoch: u64,
    /// Slots in player order.
    pub players: Seq<PlayerSlot>,
    /// Players that reported ready.
    pub ready: Set<u8>,
    /// Last accepted input frame per player.
    pub last_frames: Map<u8, u64>,
    /// Next expected input frame per player.
    pub next_frames: Map<u8, u64>,
    /// Whether the host finished its start snapshot.
    pub host_snapshot_completed: bool,
    /// Start frame of the sync phase.
    pub sync_start_frame: u64,
    /// Current room frame.
    pub room_frame: u64,
    /// Latest released frame.
    pub released_frame: Option<u64>,
    /// Next frame to release.
    pub next_release_frame: u64,
    /// The scheduled start of this cycle.
    pub scheduled_start: Option<ScheduledSessionStart>,
    /// Controller input delay of the session, in frames.
    pub input_delay_frames: u8,
    /// A first host frame open held until the scheduled start time.
    pub pending_host_frame_open: Option<u64>,
    /// The link-cable provider, for link rooms.
    pub link: Option<LinkModel>,
}

/// View of a gameplay provider.
pub open spec fn link_model(g: GameplaySession) -> Option<LinkModel> {
    match g {
        GameplaySession::LinkCable(s) => Some(LinkModel {
            link: s.link,
            compat: s.state@,
            plane: s.data_plane@,
            wakeup: s.pending_wakeup,
        }),
        GameplaySession::ControllerNetplay => None,
    }
}

impl View for NetplayRoom {
    type V = RoomModel;

    open spec fn view(&self) -> RoomModel {
        RoomModel {
            status: self.status,
            room_epoch: self.room_epoch,
            session_epoch: self.session_epoch,
            players: self.players@,
            ready: self.sync.ready_players@,
            last_frames: self.sync.last_input_frames@,
            next_frames: self.sync.next_input_frames@,
            host_snapshot_completed: self.sync.host_snapshot_completed,
            sync_start_frame: self.sync.sync_start_frame,
            room_frame: self.sync.room_frame,
            released_frame: self.sync.released_frame,
            next_release_frame: self.sync.next_release_frame,
            scheduled_start: self.sync.scheduled_start,
            input_delay_frames: self.input_delay_frames,
            pending_host_frame_open: self.sync.pending_host_frame_open,
            link: link_model(self.gameplay),
        }
    }
}

/// `x + 1`, saturating at the top of `u64`.
pub open spec fn saturating_inc(x: u64) -> u64 {
    if x == u64::MAX { x } else { (x + 1) as u64 }
}

/// `x - 1`, saturating at zero.
pub open spec fn saturating_dec(x: u64) -> u64 {
    if x == 0 { x } else { (x - 1) as u64 }
}

/// A new sync cycle starting at `start_frame`: per-cycle state and link
/// compatibility reports are dropped.
pub open spec fn reset_sync(m: RoomModel, start_frame: u64) -> RoomModel {
    RoomModel {
        ready: Set::empty(),
        last_frames: Map::empty(),
        next_frames: Map::empty(),
        host_snapshot_completed: false,
        sync_start_frame: start_frame,
        room_frame: start_frame,
        released_frame: None,
        next_release_frame: start_frame,
        scheduled_start: None,
        pending_host_frame_open: None,
        link: match m.link {
            Some(l) => Some(LinkModel { compat: Map::empty(), ..l }),
            None => None,
        },
        ..m
    }
}

/// One player's per-player sync entries dropped.
pub open spec fn forget_player(m: RoomModel, player: u8) -> RoomModel {
    RoomModel {
        ready: m.ready.remove(player),
        last_frames: m.last_frames.remove(player),
        next_frames: m.next_frames.remove(player),
        ..m
    }
}

/// Slot `s` of a player whose sockets just went away at `now`.
pub open spec fn detached(s: PlayerSlot, now: u64) -> PlayerSlot {
    PlayerSlot {
        connection_id: None,
        input_connection_id: None,
        input_socket_token_hash: None,
        input_socket_control_connection_id: None,
        last_seen_at: Some(now),
        ..s
    }
}

/// A connected slot's state when a compatibility cycle restarts.
pub open spec fn restored_slot(s: PlayerSlot) -> PlayerSlot {
    if s.status != PlayerStatus::Empty && s.connection_id is Some {
        PlayerSlot {
            status: PlayerStatus::Connected,
            runtime_state: PlayerRuntimeState::Connected,
            reconnect_room_epoch: if s.runner_handoff_deadline is None { None } else { s.reconnect_room_epoch },
            ..s
        }
    } else {
        s
    }
}

/// The room back in compatibility checking; a closed room stays as it is.
pub open spec fn restore_checking(m: RoomModel) -> RoomModel {
    if m.status == RoomStatus::Closed {
        m
    } else {
        let r = reset_sync(m, 0);
        RoomModel {
            status: RoomStatus::CheckingCompatibility,
            players: Seq::new(r.players.len(), |i: int| restored_slot(r.players[i])),
            ..r
        }
    }
}

/// The link provider closed for good, its wakeups remembered.
pub open spec fn link_closed(m: RoomModel) -> RoomModel {
    match m.link {
        Some(l) => {
            let (v, _r, w) = close_spec(l.plane);
            RoomModel { link: Some(LinkModel { plane: v, wakeup: merge_wakeups(l.wakeup, w), ..l }), ..m }
        },
        None => m,
    }
}

/// Slot `s` once its occupant is gone for good: a host keeps its identity,
/// a guest slot becomes empty.
pub open spec fn cleared_slot(s: PlayerSlot, is_host: bool) -> PlayerSlot {
    let t = PlayerSlot {
        reconnect_deadline: None,
        reconnect_room_epoch: None,
        runner_handoff_deadline: None,
        input_connection_id: None,
        input_socket_token_hash: None,
        input_socket_control_connection_id: None,
        latest_local_frame: None,
        latest_local_frame_reported_at: None,
        latest_network_report: None,
        latest_network_reported_at: None,
        runtime_state: PlayerRuntimeState::Disconnected,
        ..s
    };
    if is_host {
        PlayerSlot { status: PlayerStatus::Disconnected, ..t }
    } else {
        PlayerSlot { status: PlayerStatus::Empty, subject_key: None, resume_token_hash: None, ..t }
    }
}

/// Slot `p` cleared; a departed host also closes the room.
pub open spec fn clear_slot(m: RoomModel, p: int, is_host: bool) -> RoomModel {
    let players = if 0 <= p < m.players.len() { m.players.update(p, cleared_slot(m.players[p], is_host)) } else { m.players };
    let r = reset_sync(RoomModel { players, ..m }, 0);
    if is_host {
        RoomModel { status: RoomStatus::Closed, ..link_closed(r) }
    } else {
        r
    }
}

/// A connected slot's state when the room enters recovery.
pub open spec fn recovering_slot(s: PlayerSlot, reconnect_room_epoch: u64) -> PlayerSlot {
    if s.connection_id is Some {
        PlayerSlot {
            status: PlayerStatus::Connected,
            runtime_state: PlayerRuntimeState::Connected,
            reconnect_room_epoch: if s.reconnect_room_epoch is None { Some(reconnect_room_epoch) } else { s.reconnect_room_epoch },
            ..s
        }
    } else {
        s
    }
}

/// The room in recovery: a new sync cycle under new epochs.
pub open spec fn enter_recovery(m: RoomModel, reconnect_room_epoch: u64) -> RoomModel {
    let r = reset_sync(m, 0);
    RoomModel {
        status: RoomStatus::Recovering,
        room_epoch: saturating_inc(r.room_epoch),
        session_epoch: saturating_inc(r.session_epoch),
        players: Seq::new(r.players.len(), |i: int| recovering_slot(r.players[i], reconnect_room_epoch)),
        ..r
    }
}

/// Slot `s` waiting to be reclaimed until `now + grace`.
pub open spec fn reconnecting_slot(s: PlayerSlot, now: u64, grace: u64, reconnect_room_epoch: u64) -> PlayerSlot {
    PlayerSlot {
        status: PlayerStatus::Reconnecting,
        runtime_state: PlayerRuntimeState::Reconnecting,
        reconnect_deadline: Some((now + grace) as u64),
        reconnect_room_epoch: Some(reconnect_room_epoch),
        runner_handoff_deadline: None,
        ..s
    }
}

/// Outcome of invalidating a connection's link endpoint, where a connection
/// that holds no endpoint is no failure; a controller room is untouched.
pub open spec fn link_invalidated(m: RoomModel, connection_id: ConnectionId) -> (RoomModel, Result<(), RoomError>) {
    match m.link {
        None => (m, Ok(())),
        Some(l) => {
            let (v, out, w) = invalidate_spec(l.plane, connection_id);
            let n = RoomModel { link: Some(LinkModel { plane: v, wakeup: merge_wakeups(l.wakeup, w), ..l }), ..m };
            match room_result(out) {
                Ok(_) => (n, Ok(())),
                Err(RoomError::UnknownConnection) => (n, Ok(())),
                Err(e) => (n, Err(e)),
            }
        },
    }
}

/// Outcome of binding the room connection `connection_id` of player
/// `player_index` to its link endpoint.
pub open spec fn link_bound(m: RoomModel, player_index: PlayerIndex, connection_id: ConnectionId)
    -> (RoomModel, Result<LinkCableDataPlaneSnapshot, RoomError>)
{
    match connection_player(m.players, connection_id) {
        None => (m, Err(RoomError::UnknownConnection)),
        Some(owned) => if owned != player_index {
            (m, Err(RoomError::SlotSpoofing(player_index)))
        } else {
            match m.link {
                None => (m, Err(RoomError::CompatibilityMismatch)),
                Some(l) => {
                    let (v, out, w) = bind_spec(l.plane, player_index, connection_id);
                    (RoomModel { link: Some(LinkModel { plane: v, wakeup: merge_wakeups(l.wakeup, w), ..l }), ..m }, room_result(out))
                },
            }
        },
    }
}

/// Outcome of moving player `player_index`'s link endpoint from the room
/// connection `previous_connection_id` to `connection_id`.
pub open spec fn link_replaced(m: RoomModel, player_index: PlayerIndex, previous_connection_id: ConnectionId, connection_id: ConnectionId)
    -> (RoomModel, Result<LinkCableDataPlaneSnapshot, RoomError>)
{
    match connection_player(m.players, previous_connection_id) {
        None => (m, Err(RoomError::UnknownConnection)),
        Some(owned) => if owned != player_index {
            (m, Err(RoomError::SlotSpoofing(player_index)))
        } else {
            match m.link {
                None => (m, Err(RoomError::CompatibilityMismatch)),
                Some(l) => {
                    let (v, out, w) = replace_spec(l.plane, player_index, previous_connection_id, connection_id);
                    (RoomModel { link: Some(LinkModel { plane: v, wakeup: merge_wakeups(l.wakeup, w), ..l }), ..m }, room_result(out))
                },
            }
        },
    }
}

/// Invariant of a room's view: one slot per player in player order, the
/// host in the first slot, which never empties, and a consistent data plane.
pub open spec fn room_model_wf(m: RoomModel) -> bool {
    &&& m.players.len() == MVP_ROOM_CAPACITY as int
    &&& forall|i: int| 0 <= i < m.players.len() ==> (#[trigger] m.players[i]).player_index == PlayerIndex(i as u8)
    &&& forall|i: int| 0 <= i < m.players.len() ==> ((#[trigger] m.players[i]).role == PlayerRole::Host <==> i == 0)
    &&& m.players[0].status != PlayerStatus::Empty
    &&& m.link matches Some(l) ==> plane_wf(l.plane)
}

/// Slot `s` with a client's frame and network samples taken at `now`.
pub open spec fn sampled_slot(s: PlayerSlot, local_frame: Option<u64>, network: Option<ClientNetworkQualityReport>, now: u64)
    -> PlayerSlot
{
    let s1 = match local_frame {
        Some(f) => PlayerSlot { latest_local_frame: Some(f), latest_local_frame_reported_at: Some(now), ..s },
        None => s,
    };
    match network {
        Some(n) => PlayerSlot { latest_network_report: Some(n), latest_network_reported_at: Some(now), ..s1 },
        None => s1,
    }
}

/// Whether player `p`'s slot has its binary input socket attached.
pub open spec fn has_input_socket(players: Seq<PlayerSlot>, p: PlayerIndex) -> bool {
    (p.0 as int) < players.len() && players[p.0 as int].input_connection_id is Some
}

/// Whether the room is full and every connected player has its input socket.
pub open spec fn all_input_sockets_attached(players: Seq<PlayerSlot>, max_players: u8) -> bool {
    let connected = connected_indices(players);
    &&& connected.len() == max_players as int
    &&& forall|k: int| 0 <= k < connected.len() ==> has_input_socket(players, #[trigger] connected[k])
}

/// Whether the room is full and every connected player reported ready.
pub open spec fn all_players_ready(players: Seq<PlayerSlot>, max_players: u8, ready: Set<u8>) -> bool {
    let connected = connected_indices(players);
    &&& connected.len() == max_players as int
    &&& forall|k: int| 0 <= k < connected.len() ==> ready.contains((#[trigger] connected[k]).0)
}

/// What no room operation changes.
pub open spec fn same_identity(a: &NetplayRoom, b: &NetplayRoom) -> bool {
    &&& a.room_id == b.room_id
    &&& a.invite_code == b.invite_code
    &&& a.protocol_version == b.protocol_version
    &&& a.max_players == b.max_players
    &&& a.created_at == b.created_at
}


impl PlayerSlot {
    /// Sets the status and the runtime state it implies.
    pub fn set_status(&mut self, status: PlayerStatus)
        ensures
            *final(self) == with_status(*old(self), status),
    {
        self.status = status;
        self.runtime_state = match status {
            PlayerStatus::Empty => PlayerRuntimeState::Empty,
            PlayerStatus::Connected => PlayerRuntimeState::Connected,
            PlayerStatus::CheckingCompatibility => PlayerRuntimeState::CheckingCompatibility,
            PlayerStatus::CompatibilityFailed => PlayerRuntimeState::Connected,
            PlayerStatus::SyncingState => PlayerRuntimeState::Syncing,
            PlayerStatus::Ready => PlayerRuntimeState::Ready,
            PlayerStatus::Playing => PlayerRuntimeState::Playing,
            PlayerStatus::Paused => PlayerRuntimeState::Paused,
            PlayerStatus::Reconnecting => PlayerRuntimeState::Reconnecting,
            PlayerStatus::RecoveryExpired => PlayerRuntimeState::RecoveryExpired,
            PlayerStatus::Disconnected => PlayerRuntimeState::Disconnected,
        };
    }

    /// Drops the sockets of a player whose transport went away at `now`.
    pub fn detach(&mut self, now: u64)
        ensures
            *final(self) == detached(*old(self), now),
    {
        self.connection_id = None;
        self.input_connection_id = None;
        self.input_socket_token_hash = None;
        self.input_socket_control_connection_id = None;
        self.last_seen_at = Some(now);
    }

    /// Back to connected when a compatibility cycle restarts.
    pub fn restore_for_checking(&mut self)
        ensures
            *final(self) == restored_slot(*old(self)),
    {
        if !self.is_empty() && self.connection_id.is_some() {
            self.status = PlayerStatus::Connected;
            self.runtime_state = PlayerRuntimeState::Connected;
            if self.runner_handoff_deadline.is_none() {
                self.reconnect_room_epoch = None;
            }
        }
    }

    /// Clears the slot of an occupant that is gone for good.
    pub fn clear_departed(&mut self, is_host: bool)
        ensures
            *final(self) == cleared_slot(*old(self), is_host),
    {
        self.reconnect_deadline = None;
        self.reconnect_room_epoch = None;
        self.runner_handoff_deadline = None;
        self.input_connection_id = None;
        self.input_socket_token_hash = None;
        self.input_socket_control_connection_id = None;
        self.latest_local_frame = None;
        self.latest_local_frame_reported_at = None;
        self.latest_network_report = None;
        self.latest_network_reported_at = None;
        self.runtime_state = PlayerRuntimeState::Disconnected;
        if is_host {
            self.status = PlayerStatus::Disconnected;
        } else {
            self.subject_key = None;
            self.resume_token_hash = None;
            self.input_socket_token_hash = None;
            self.status = PlayerStatus::Empty;
        }
    }

    /// Back to connected when the room enters recovery.
    pub fn enter_recovering(&mut self, reconnect_room_epoch: u64)
        ensures
            *final(self) == recovering_slot(*old(self), reconnect_room_epoch),
    {
        if self.connection_id.is_some() {
            self.status = PlayerStatus::Connected;
            self.runtime_state = PlayerRuntimeState::Connected;
            if self.reconnect_room_epoch.is_none() {
                self.reconnect_room_epoch = Some(reconnect_room_epoch);
            }
        }
    }

    /// Opens the window in which the player may reclaim the slot.
    pub fn start_reconnect(&mut self, now: u64, reconnect_grace: u64, reconnect_room_epoch: u64)
        requires
            now + reconnect_grace <= u64::MAX,
        ensures
            *final(self) == reconnecting_slot(*old(self), now, reconnect_grace, reconnect_room_epoch),
    {
        self.status = PlayerStatus::Reconnecting;
        self.runtime_state = PlayerRuntimeState::Reconnecting;
        self.reconnect_deadline = Some(now + reconnect_grace);
        self.reconnect_room_epoch = Some(reconnect_room_epoch);
        self.runner_handoff_deadline = None;
    }
}

impl NetplayRoom {
    /// Invariant of a room.
    pub open spec fn wf(&self) -> bool {
        &&& self.max_players == MVP_ROOM_CAPACITY
        &&& room_model_wf(self@)
    }

    /// Creates a room with an exact negotiated protocol and resume
    /// capabilities, and reserves Player 1 for the verified host. A room with
    /// a link descriptor owns the link-cable provider, any other room the
    /// controller-netplay provider.
    pub fn new_with_protocol_and_resume(
        host_subject_key: String,
        host_connection: ConnectionId,
        invite_code: InviteCode,
        link: Option<LinkCableDescriptor>,
        room_scope: RoomScope,
        input_delay_frames: u8,
        protocol_version: u16,
        host_resume_token_hash: ResumeTokenHash,
        host_input_socket_token_hash: ResumeTokenHash,
        now: u64,
    ) -> (room: Self)
        requires
            link matches Some(l) ==> protocol_for_descriptor(l.system_family@, l.link_protocol@) is Some,
        ensures
            room.wf(),
            room.invite_code@ == invite_code@,
            room.protocol_version == protocol_version,
            room.created_at == now,
            room.input_delay_frames == input_delay_frames,
            room.status == RoomStatus::WaitingForGuest,
            room.room_epoch == 1,
            room.session_epoch == 1,
            sync_is_reset_to(room.sync, 0),
            room.players@[0].subject_key matches Some(k) && k@ == host_subject_key@,
            room.players@[0].connection_id == Some(host_connection),
            room.players@[0].status == PlayerStatus::Connected,
            room.players@[0].resume_token_hash matches Some(h) && h@ == host_resume_token_hash@,
            room.players@[0].input_socket_token_hash matches Some(h) && h@ == host_input_socket_token_hash@,
            room.players@[0].last_seen_at == Some(now),
            forall|i: int| 1 <= i < room.players@.len() ==> (#[trigger] room.players@[i]).status == PlayerStatus::Empty
                && room.players@[i].connection_id is None && room.players@[i].subject_key is None,
            link is None <==> room.gameplay is ControllerNetplay,
            room.gameplay matches GameplaySession::LinkCable(s) ==> {
                &&& Some(s.link) == link
                &&& s.state@ == Map::<u8, LinkCableCompatibility>::empty()
                &&& s.data_plane@.room_scope == room_scope@
                &&& s.data_plane@.room_epoch == 1
                &&& s.data_plane@.session_epoch == 1
            },
    {
        let max_players = MVP_ROOM_CAPACITY;
        let mut players: Vec<PlayerSlot> = Vec::new();
        players.push(PlayerSlot::host(
            host_subject_key,
            host_connection,
            host_resume_token_hash,
            host_input_socket_token_hash,
            now,
        ));
        let mut raw_index: u8 = 1;
        while raw_index < max_players
            invariant
                1 <= raw_index <= max_players,
                max_players == MVP_ROOM_CAPACITY,
                players@.len() == raw_index as int,
                players@[0].role == PlayerRole::Host,
                players@[0].player_index == PlayerIndex(0),
                forall|i: int| 1 <= i < players@.len() ==> (#[trigger] players@[i]).player_index == PlayerIndex(i as u8)
                    && players@[i].role == PlayerRole::Guest && players@[i].status == PlayerStatus::Empty
                    && players@[i].connection_id is None && players@[i].subject_key is None,
                players@[0].subject_key matches Some(k) && k@ == host_subject_key@,
                players@[0].connection_id == Some(host_connection),
                players@[0].status == PlayerStatus::Connected,
                players@[0].resume_token_hash matches Some(h) && h@ == host_resume_token_hash@,
                players@[0].input_socket_token_hash matches Some(h) && h@ == host_input_socket_token_hash@,
                players@[0].last_seen_at == Some(now),
            decreases max_players - raw_index,
        {
            let index = PlayerIndex::new(raw_index, max_players).unwrap();
            players.push(PlayerSlot::empty(index));
            raw_index = raw_index + 1;
        }
        let gameplay = GameplaySession::new(link, room_scope, 1, 1);
        NetplayRoom {
            room_id: RoomId::new(),
            invite_code,
            protocol_version,
            created_at: now,
            max_players,
            players,
            status: RoomStatus::WaitingForGuest,
            room_epoch: 1,
            session_epoch: 1,
            sync: RoomSyncState::new(0),
            gameplay,
            input_delay_frames,
            input_delay_policy: AdaptiveInputDelayPolicy::new(now),
        }
    }

    /// Creates a room with an explicit host resume-token hash, speaking the
    /// legacy protocol.
    pub fn new_with_resume(
        host_subject_key: String,
        host_connection: ConnectionId,
        invite_code: InviteCode,
        link: Option<LinkCableDescriptor>,
        room_scope: RoomScope,
        input_delay_frames: u8,
        host_resume_token_hash: ResumeTokenHash,
        host_input_socket_token_hash: ResumeTokenHash,
        now: u64,
    ) -> (room: Self)
        requires
            link matches Some(l) ==> protocol_for_descriptor(l.system_family@, l.link_protocol@) is Some,
        ensures
            room.wf(),
            room.protocol_version == LEGACY_NETPLAY_PROTOCOL_VERSION,
            room.created_at == now,
            room.input_delay_frames == input_delay_frames,
            room.status == RoomStatus::WaitingForGuest,
            room.players@[0].connection_id == Some(host_connection),
            link is None <==> room.gameplay is ControllerNetplay,
    {
        Self::new_with_protocol_and_resume(
            host_subject_key,
            host_connection,
            invite_code,
            link,
            room_scope,
            input_delay_frames,
            LEGACY_NETPLAY_PROTOCOL_VERSION,
            host_resume_token_hash,
            host_input_socket_token_hash,
            now,
        )
    }

    /// Returns the stable room id.
    pub fn room_id(&self) -> (id: RoomId)
        ensures
            id == self.room_id,
    {
        self.room_id
    }

    /// Returns the invite code used for lookups.
    pub fn invite_code(&self) -> (code: &InviteCode)
        ensures
            code == &self.invite_code,
    {
        &self.invite_code
    }

    /// Returns the current room lifecycle status.
    pub fn status(&self) -> (status: RoomStatus)
        ensures
            status == self.status,
    {
        self.status
    }

    /// Returns the exact wire protocol selected when this room was created.
    pub fn protocol_version(&self) -> (v: u16)
        ensures
            v == self.protocol_version,
    {
        self.protocol_version
    }

    /// Returns whether this room uses strict controller input and host
    /// frame opens: a controller room on protocol 5 or later.
    pub fn uses_strict_controller_input(&self) -> (b: bool)
        ensures
            b == (self.protocol_version >= 5 && !is_link(self.gameplay)),
    {
        self.protocol_version >= 5 && self.gameplay.is_controller_netplay()
    }

    /// Returns the configured player capacity.
    pub fn max_players(&self) -> (n: u8)
        ensures
            n == self.max_players,
    {
        self.max_players
    }

    /// Returns whether this room owns the link-cable provider.
    pub fn is_link_cable(&self) -> (b: bool)
        ensures
            b == is_link(self.gameplay),
    {
        match &self.gameplay {
            GameplaySession::LinkCable(_) => true,
            GameplaySession::ControllerNetplay => false,
        }
    }

    /// Position of the first slot whose control connection is `connection_id`.
    pub(crate) fn connection_slot_position(&self, connection_id: ConnectionId) -> (r: Option<usize>)
        ensures
            r matches Some(k) ==> k < self.players@.len() && connection_position(self.players@, connection_id) == Some(k as int),
            r is None ==> connection_position(self.players@, connection_id) is None,
    {
        let mut i: usize = 0;
        while i < self.players.len()
            invariant
                i <= self.players@.len(),
                forall|j: int| 0 <= j < i ==> self.players@[j].connection_id != Some(connection_id),
            decreases self.players@.len() - i,
        {
            if self.players[i].connection_id == Some(connection_id) {
                proof {
                    let k = choose|k: int| 0 <= k < self.players@.len() && self.players@[k].connection_id == Some(connection_id)
                        && forall|j: int| 0 <= j < k ==> self.players@[j].connection_id != Some(connection_id);
                    assert(0 <= i < self.players@.len() && self.players@[i as int].connection_id == Some(connection_id)
                        && forall|j: int| 0 <= j < i ==> self.players@[j].connection_id != Some(connection_id));
                    assert(k == i) by {
                        if k < i {
                        } else if k > i {
                        }
                    }
                }
                return Some(i);
            }
            i = i + 1;
        }
        None
    }

    /// Player index of the slot attached to `connection_id`.
    pub fn player_index_for_connection(&self, connection_id: ConnectionId) -> (r: Option<PlayerIndex>)
        ensures
            r == connection_player(self.players@, connection_id),
    {
        match self.connection_slot_position(connection_id) {
            Some(i) => Some(self.players[i].player_index),
            None => None,
        }
    }

    /// Position of the slot of `player_index`.
    pub(crate) fn player_slot_position(&self, player_index: PlayerIndex) -> (r: Option<usize>)
        requires
            self.wf(),
        ensures
            r == (if (player_index.0 as int) < self.players@.len() { Some(player_index.0 as usize) } else { None::<usize> }),
    {
        let mut i: usize = 0;
        while i < self.players.len()
            invariant
                self.wf(),
                i <= self.players@.len(),
                i <= player_index.0,
            decreases self.players@.len() - i,
        {
            if self.players[i].player_index.0 == player_index.0 {
                return Some(i);
            }
            i = i + 1;
        }
        None
    }

    /// Indexes of the players with a control connection.
    pub fn connected_player_indices(&self) -> (r: Vec<PlayerIndex>)
        ensures
            r@ == connected_indices(self.players@),
    {
        let mut r: Vec<PlayerIndex> = Vec::new();
        let mut i: usize = 0;
        while i < self.players.len()
            invariant
                i <= self.players@.len(),
                r@ == connected_indices(self.players@.take(i as int)),
            decreases self.players@.len() - i,
        {
            proof {
                assert(self.players@.take(i + 1).drop_last() == self.players@.take(i as int));
            }
            if self.players[i].connection_id.is_some() {
                r.push(self.players[i].player_index);
            }
            i = i + 1;
        }
        proof {
            assert(self.players@.take(self.players@.len() as int) == self.players@);
        }
        r
    }

    /// Starts a new sync cycle at `start_frame`.
    pub(crate) fn reset_sync_state_to(&mut self, start_frame: u64)
        requires
            old(self).wf(),
        ensures
            final(self).wf(),
            same_identity(old(self), final(self)),
            final(self)@ == reset_sync(old(self)@, start_frame),
    {
        self.sync = RoomSyncState::new(start_frame);
        self.gameplay.reset();
    }

    /// Starts a new sync cycle at frame zero.
    pub(crate) fn reset_sync_state(&mut self)
        requires
            old(self).wf(),
        ensures
            final(self).wf(),
            same_identity(old(self), final(self)),
            final(self)@ == reset_sync(old(self)@, 0),
    {
        self.reset_sync_state_to(0);
    }

    /// Raises the room generation, saturating.
    pub(crate) fn bump_room_epoch(&mut self)
        requires
            old(self).wf(),
        ensures
            final(self).wf(),
            same_identity(old(self), final(self)),
            final(self)@ == (RoomModel { room_epoch: saturating_inc(old(self).room_epoch), ..old(self)@ }),
    {
        self.room_epoch = self.room_epoch.saturating_add(1);
    }

    /// Raises the session generation, saturating.
    pub(crate) fn bump_session_epoch(&mut self)
        requires
            old(self).wf(),
        ensures
            final(self).wf(),
            same_identity(old(self), final(self)),
            final(self)@ == (RoomModel { session_epoch: saturating_inc(old(self).session_epoch), ..old(self)@ }),
    {
        self.session_epoch = self.session_epoch.saturating_add(1);
    }

    /// Puts an open room back into compatibility checking with a fresh cycle.
    pub(crate) fn restore_checking_compatibility_after_recovery(&mut self)
        requires
            old(self).wf(),
        ensures
            final(self).wf(),
            same_identity(old(self), final(self)),
            final(self)@ == restore_checking(old(self)@),
    {
        if self.status == RoomStatus::Closed {
            return;
        }
        self.reset_sync_state();
        self.status = RoomStatus::CheckingCompatibility;
        let ghost before = self@;
        let ghost identity = *self;
        let n = self.players.len();
        let mut i: usize = 0;
        while i < n
            invariant
                self.wf(),
                same_identity(&identity, self),
                n == self.players@.len(),
                n == before.players.len(),
                i <= n,
                self@ == (RoomModel { players: self.players@, ..before }),
                forall|j: int| 0 <= j < i ==> self.players@[j] == restored_slot(before.players[j]),
                forall|j: int| i <= j < n ==> self.players@[j] == before.players[j],
            decreases n - i,
        {
            self.players[i].restore_for_checking();
            i = i + 1;
        }
        assert(self.players@ =~= Seq::new(before.players.len(), |j: int| restored_slot(before.players[j])));
    }

    /// Permanently closes this room's private link provider.
    pub(crate) fn close_link_cable_data_plane(&mut self) -> (r: Result<(), RoomError>)
        requires
            old(self).wf(),
        ensures
            final(self).wf(),
            same_identity(old(self), final(self)),
            final(self)@ == link_closed(old(self)@),
            r == (match old(self)@.link {
                Some(l) => room_result(close_spec(l.plane).1),
                None => Err(RoomError::CompatibilityMismatch),
            }),
    {
        match &mut self.gameplay {
            GameplaySession::LinkCable(session) => session.close(),
            GameplaySession::ControllerNetplay => Err(RoomError::CompatibilityMismatch),
        }
    }

    /// Invalidates the link endpoint of `connection_id`, if it holds one.
    pub(crate) fn invalidate_link_cable_connection_if_present(&mut self, connection_id: ConnectionId) -> (r: Result<(), RoomError>)
        requires
            old(self).wf(),
        ensures
            final(self).wf(),
            same_identity(old(self), final(self)),
            (final(self)@, r) == link_invalidated(old(self)@, connection_id),
    {
        match &mut self.gameplay {
            GameplaySession::LinkCable(session) => match session.invalidate_connection(connection_id) {
                Ok(_) => Ok(()),
                Err(RoomError::UnknownConnection) => Ok(()),
                Err(error) => Err(error),
            },
            GameplaySession::ControllerNetplay => Ok(()),
        }
    }

    /// Binds a current room connection to one exact link endpoint.
    pub(crate) fn bind_link_cable_connection(&mut self, player_index: PlayerIndex, connection_id: ConnectionId)
        -> (r: Result<LinkCableDataPlaneSnapshot, RoomError>)
        requires
            old(self).wf(),
        ensures
            final(self).wf(),
            same_identity(old(self), final(self)),
            (final(self)@, r) == link_bound(old(self)@, player_index, connection_id),
    {
        let owned_index = match self.player_index_for_connection(connection_id) {
            Some(p) => p,
            None => return Err(RoomError::UnknownConnection),
        };
        if owned_index.0 != player_index.0 {
            return Err(RoomError::SlotSpoofing(player_index));
        }
        match &mut self.gameplay {
            GameplaySession::LinkCable(session) => session.bind_connection(player_index, connection_id),
            GameplaySession::ControllerNetplay => Err(RoomError::CompatibilityMismatch),
        }
    }

    /// Atomically moves a player's link endpoint to a new room connection.
    pub(crate) fn replace_link_cable_connection(
        &mut self,
        player_index: PlayerIndex,
        previous_connection_id: ConnectionId,
        connection_id: ConnectionId,
    ) -> (r: Result<LinkCableDataPlaneSnapshot, RoomError>)
        requires
            old(self).wf(),
        ensures
            final(self).wf(),
            same_identity(old(self), final(self)),
            (final(self)@, r) == link_replaced(old(self)@, player_index, previous_connection_id, connection_id),
    {
        let owned_index = match self.player_index_for_connection(previous_connection_id) {
            Some(p) => p,
            None => return Err(RoomError::UnknownConnection),
        };
        if owned_index.0 != player_index.0 {
            return Err(RoomError::SlotSpoofing(player_index));
        }
        match &mut self.gameplay {
            GameplaySession::LinkCable(session) => session.replace_connection(player_index, previous_connection_id, connection_id),
            GameplaySession::ControllerNetplay => Err(RoomError::CompatibilityMismatch),
        }
    }

    /// Clears the slot of a player that left for good; a departed host also
    /// closes the room and its link provider.
    pub(crate) fn clear_disconnected_slot(&mut self, player_index: PlayerIndex, is_host: bool)
        requires
            old(self).wf(),
            player_index.0 == 0 ==> is_host,
        ensures
            final(self).wf(),
            same_identity(old(self), final(self)),
            final(self)@ == clear_slot(old(self)@, player_index.0 as int, is_host),
    {
        match self.player_slot_position(player_index) {
            Some(i) => self.players[i].clear_departed(is_host),
            None => {},
        }
        self.reset_sync_state();
        if is_host {
            if self.is_link_cable() {
                let _ = self.close_link_cable_data_plane();
            }
            self.status = RoomStatus::Closed;
        }
    }

    /// Enters recovery: a new sync cycle under new epochs, connected players
    /// back to connected, each remembering the epoch it last knew.
    pub(crate) fn enter_recovery_state(&mut self, reconnect_room_epoch: u64)
        requires
            old(self).wf(),
        ensures
            final(self).wf(),
            same_identity(old(self), final(self)),
            final(self)@ == enter_recovery(old(self)@, reconnect_room_epoch),
    {
        self.status = RoomStatus::Recovering;
        self.reset_sync_state();
        self.bump_room_epoch();
        self.bump_session_epoch();
        let ghost before = self@;
        let ghost identity = *self;
        let n = self.players.len();
        let mut i: usize = 0;
        while i < n
            invariant
                self.wf(),
                same_identity(&identity, self),
                n == self.players@.len(),
                n == before.players.len(),
                i <= n,
                self@ == (RoomModel { players: self.players@, ..before }),
                forall|j: int| 0 <= j < i ==> self.players@[j] == recovering_slot(before.players[j], reconnect_room_epoch),
                forall|j: int| i <= j < n ==> self.players@[j] == before.players[j],
            decreases n - i,
        {
            self.players[i].enter_recovering(reconnect_room_epoch);
            i = i + 1;
        }
        assert(self.players@ =~= Seq::new(before.players.len(), |j: int| recovering_slot(before.players[j], reconnect_room_epoch)));
    }

    /// Starts the reconnect window of one player.
    pub(crate) fn mark_slot_reconnecting(&mut self, player_index: PlayerIndex, now: u64, reconnect_grace: u64, reconnect_room_epoch: u64)
        requires
            old(self).wf(),
            now + reconnect_grace <= u64::MAX,
        ensures
            final(self).wf(),
            same_identity(old(self), final(self)),
            final(self)@ == (RoomModel {
                players: if (player_index.0 as int) < old(self).players@.len() {
                    old(self).players@.update(player_index.0 as int,
                        reconnecting_slot(old(self).players@[player_index.0 as int], now, reconnect_grace, reconnect_room_epoch))
                } else {
                    old(self).players@
                },
                ..old(self)@
            }),
    {
        match self.player_slot_position(player_index) {
            Some(i) => self.players[i].start_reconnect(now, reconnect_grace, reconnect_room_epoch),
            None => {},
        }
    }

    /// Opens a new compatibility cycle under new epochs.
    pub(crate) fn reset_sync_for_checking_compatibility(&mut self) -> (r: Result<(), RoomError>)
        requires
            old(self).wf(),
        ensures
            final(self).wf(),
            same_identity(old(self), final(self)),
            old(self).status == RoomStatus::Closed ==> {
                &&& r == Err::<(), RoomError>(RoomError::RoomClosed)
                &&& final(self)@ == (RoomModel { room_epoch: saturating_inc(old(self).room_epoch), ..old(self)@ })
            },
            old(self).status != RoomStatus::Closed ==> {
                &&& r is Ok
                &&& final(self)@ == restore_checking(RoomModel {
                    room_epoch: saturating_inc(old(self).room_epoch),
                    session_epoch: saturating_inc(old(self).session_epoch),
                    ..old(self)@
                })
            },
    {
        self.bump_room_epoch();
        if self.status == RoomStatus::Closed {
            return Err(RoomError::RoomClosed);
        }
        self.bump_session_epoch();
        if self.status == RoomStatus::Closed {
            return Err(RoomError::RoomClosed);
        }
        self.restore_checking_compatibility_after_recovery();
        Ok(())
    }

    /// Stores a client's frame and network samples for later delay decisions.
    pub(crate) fn record_network_report(
        &mut self,
        connection_id: ConnectionId,
        local_frame: Option<u64>,
        network: Option<ClientNetworkQualityReport>,
        now: u64,
    )
        requires
            old(self).wf(),
        ensures
            final(self).wf(),
            same_identity(old(self), final(self)),
            final(self)@ == (match connection_position(old(self).players@, connection_id) {
                Some(p) => RoomModel {
                    players: old(self).players@.update(p, sampled_slot(old(self).players@[p], local_frame, network, now)),
                    ..old(self)@
                },
                None => old(self)@,
            }),
    {
        if let Some(position) = self.connection_slot_position(connection_id) {
            if let Some(local_frame) = local_frame {
                self.players[position].latest_local_frame = Some(local_frame);
                self.players[position].latest_local_frame_reported_at = Some(now);
            }
            if let Some(network) = network {
                self.players[position].latest_network_report = Some(network);
                self.players[position].latest_network_reported_at = Some(now);
            }
        }
    }

    /// Returns whether the room is full and every connected player has its
    /// binary input socket attached.
    pub fn connected_players_have_input_sockets(&self) -> (b: bool)
        requires
            self.wf(),
        ensures
            b == all_input_sockets_attached(self.players@, self.max_players),
    {
        let connected_players = self.connected_player_indices();
        if connected_players.len() != self.max_players as usize {
            return false;
        }
        let mut k: usize = 0;
        while k < connected_players.len()
            invariant
                self.wf(),
                connected_players@ == connected_indices(self.players@),
                connected_players@.len() == self.max_players as int,
                k <= connected_players@.len(),
                forall|j: int| 0 <= j < k ==> has_input_socket(self.players@, #[trigger] connected_players@[j]),
            decreases connected_players@.len() - k,
        {
            let attached = match self.player_slot_position(connected_players[k]) {
                Some(position) => self.players[position].input_connection_id.is_some(),
                None => false,
            };
            if !attached {
                assert(!has_input_socket(self.players@, connected_players@[k as int]));
                return false;
            }
            k = k + 1;
        }
        true
    }

    /// Returns whether the room is full and every connected player reported
    /// ready.
    pub fn connected_players_are_ready(&self) -> (b: bool)
        requires
            self.wf(),
        ensures
            b == all_players_ready(self.players@, self.max_players, self.sync.ready_players@),
    {
        let connected_players = self.connected_player_indices();
        if connected_players.len() != self.max_players as usize {
            return false;
        }
        let mut k: usize = 0;
        while k < connected_players.len()
            invariant
                connected_players@ == connected_indices(self.players@),
                connected_players@.len() == self.max_players as int,
                k <= connected_players@.len(),
                forall|j: int| 0 <= j < k ==> self.sync.ready_players@.contains((#[trigger] connected_players@[j]).0),
            decreases connected_players@.len() - k,
        {
            if !self.sync.ready_players.contains(&connected_players[k].0) {
                return false;
            }
            k = k + 1;
        }
        true
    }

    /// Sets one player's status and the runtime state it implies.
    pub(crate) fn set_player_status(&mut self, player_index: PlayerIndex, status: PlayerStatus)
        requires
            old(self).wf(),
            status != PlayerStatus::Empty,
        ensures
            final(self).wf(),
            final(self).players@ == (if (player_index.0 as int) < old(self).players@.len() {
                old(self).players@.update(player_index.0 as int, with_status(old(self).players@[player_index.0 as int], status))
            } else {
                old(self).players@
            }),
            final(self).status == old(self).status,
            final(self).room_epoch == old(self).room_epoch,
            final(self).session_epoch == old(self).session_epoch,
            final(self).sync == old(self).sync,
            final(self).gameplay == old(self).gameplay,
            final(self).max_players == old(self).max_players,
            final(self).invite_code == old(self).invite_code,
            final(self).room_id == old(self).room_id,
            final(self).protocol_version == old(self).protocol_version,
            final(self).created_at == old(self).created_at,
            final(self).input_delay_frames == old(self).input_delay_frames,
    {
        match self.player_slot_position(player_index) {
            Some(i) => self.players[i].set_status(status),
            None => {},
        }
    }
}

} // verus!
