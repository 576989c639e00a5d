//! Properties of the room lifecycle that span several operations.

use vstd::prelude::*;
use crate::errors::RoomError;
use crate::ids::{ConnectionId, PlayerIndex};
use crate::player_slot::ClientTransportCapabilities;
use crate::resume_token::ResumeTokenHash;
use crate::room::{connection_player, room_model_wf, RoomModel};
use crate::room_connection_diagnostics::RoomStatus;
use crate::room_connection_ops::{
    attach_host_outcome, disconnect_outcome, join_outcome, reclaim_refusal, reconnect_outcome, recover_outcome,
    recover_walk, timed_out_connections,
};
use crate::room_runner_handoff_ops::{arm_outcome, blocks_handoff, expire_outcome, expire_walk, expired_handoffs};
use crate::room::is_recoverable_status;
use crate::player_slot::PlayerStatus;
use crate::link_cable_room_state::LinkCableCompatibility;
use crate::room::connected_indices;
use crate::room_link_cable_ops::link_compatibility_outcome;
use crate::input_frame_acceptance::InputFrameAcceptance;
use crate::room_ready_ops::{connected_support_scheduled_start, ready_outcome};
use crate::player_slot::{ClientNetworkQualityReport, PlayerSlot};
use crate::room::{all_players_ready, MVP_ROOM_CAPACITY};
use crate::room_controller_netplay_ops::{accept_input_outcome, next_expected_frame};
use crate::room_frame_clock_ops::{host_has_input_for, release_outcome};
use crate::room_host_frame_ops::{host_frame_open_outcome, HostFrameOpen, HostFrameOpenModel, playing_slot};
use crate::room_input_connection_ops::lemma_input_position_depends_on_sockets;

verus! {

/// A player whose control connection drops during play keeps its slot: the
/// disconnect does not close the room, the room enters recovery, and the
/// player reclaims the slot with its resume token, under the room epoch it
/// knew before recovery, at any time before the grace period ends. The slot
/// then carries the new connection and the rotated token.
pub proof fn law_dropped_player_reclaims_its_slot_within_grace(
    m: RoomModel,
    connection_id: ConnectionId,
    now: u64,
    grace: u64,
    player_index: PlayerIndex,
    resume_token_hash: Seq<char>,
    next_resume_token_hash: ResumeTokenHash,
    input_socket_token_hash: ResumeTokenHash,
    new_connection_id: ConnectionId,
    later: u64,
    capabilities: ClientTransportCapabilities,
)
    requires
        room_model_wf(m),
        m.link is None,
        m.status == RoomStatus::Playing,
        connection_player(m.players, connection_id) == Some(player_index),
        m.players[player_index.0 as int].resume_token_hash matches Some(h) && h@ == resume_token_hash,
        m.players[player_index.0 as int].runner_handoff_deadline is None,
        m.players[player_index.0 as int].reconnect_room_epoch is None,
        now <= later,
        later < now + grace,
        now + grace <= u64::MAX,
    ensures
        ({
            let (dropped, closed) = disconnect_outcome(m, connection_id, now, grace);
            let (back, reclaimed) = reconnect_outcome(dropped, player_index, resume_token_hash,
                next_resume_token_hash, input_socket_token_hash, m.room_epoch, new_connection_id, later, capabilities);
            &&& closed == Ok::<bool, RoomError>(false)
            &&& dropped.status == RoomStatus::Recovering
            &&& reclaimed == Ok::<(), RoomError>(())
            &&& back.players[player_index.0 as int].connection_id == Some(new_connection_id)
            &&& back.players[player_index.0 as int].resume_token_hash == Some(next_resume_token_hash)
        }),
{
    let p = player_index.0 as int;
    let position = crate::room::connection_position(m.players, connection_id)->0;
    assert(m.players[position].player_index == player_index);
    assert(position == p);
    let (dropped, closed) = disconnect_outcome(m, connection_id, now, grace);
    assert(dropped.players[p].reconnect_room_epoch == Some(m.room_epoch));
    assert(dropped.players[p].reconnect_deadline == Some((now + grace) as u64));
    assert(dropped.players[p].connection_id is None);
    assert(dropped.players[p].resume_token_hash == m.players[p].resume_token_hash);
    assert(dropped.players[p].runner_handoff_deadline is None);
}

/// While a reclaimed connection holds a slot, no resume token reclaims that
/// slot again: a second claim, with the old token or any other, is refused
/// as an invalid resume token.
pub proof fn law_reclaimed_slot_refuses_further_claims(
    m: RoomModel,
    player_index: PlayerIndex,
    resume_token_hash: Seq<char>,
    next_resume_token_hash: ResumeTokenHash,
    input_socket_token_hash: ResumeTokenHash,
    room_epoch: u64,
    connection_id: ConnectionId,
    now: u64,
    capabilities: ClientTransportCapabilities,
    any_token: Seq<char>,
    any_epoch: u64,
    any_time: u64,
)
    requires
        room_model_wf(m),
        m.link is None,
        (player_index.0 as int) < m.players.len(),
        m.players[player_index.0 as int].runner_handoff_deadline is None,
        reconnect_outcome(m, player_index, resume_token_hash, next_resume_token_hash, input_socket_token_hash,
            room_epoch, connection_id, now, capabilities).1 is Ok,
    ensures
        ({
            let back = reconnect_outcome(m, player_index, resume_token_hash, next_resume_token_hash,
                input_socket_token_hash, room_epoch, connection_id, now, capabilities).0;
            reclaim_refusal(back, player_index, any_token, any_epoch, any_time) == Some(RoomError::ResumeTokenInvalid)
        }),
{
}

/// Neither generation of `after` is below that of `before`.
pub open spec fn epochs_not_below(before: RoomModel, after: RoomModel) -> bool {
    &&& after.room_epoch >= before.room_epoch
    &&& after.session_epoch >= before.session_epoch
}

proof fn lemma_recover_walk_keeps_epochs(m: RoomModel, timed_out: Seq<(PlayerIndex, ConnectionId)>, now: u64, grace: u64)
    ensures
        recover_walk(m, timed_out, now, grace).0.room_epoch == m.room_epoch,
        recover_walk(m, timed_out, now, grace).0.session_epoch == m.session_epoch,
    decreases timed_out.len(),
{
    if timed_out.len() > 0 {
        lemma_recover_walk_keeps_epochs(m, timed_out.drop_last(), now, grace);
    }
}

proof fn lemma_expire_walk_keeps_epochs(m: RoomModel, expired: Seq<(PlayerIndex, crate::player_slot::PlayerRole, bool)>)
    ensures
        expire_walk(m, expired).0.room_epoch == m.room_epoch,
        expire_walk(m, expired).0.session_epoch == m.session_epoch,
    decreases expired.len(),
{
    if expired.len() > 0 {
        lemma_expire_walk_keeps_epochs(m, expired.drop_last());
    }
}

proof fn lemma_join_keeps_epochs(m: RoomModel, subject_key: String, connection_id: ConnectionId,
    resume_token_hash: ResumeTokenHash, input_socket_token_hash: ResumeTokenHash, now: u64,
    capabilities: ClientTransportCapabilities)
    ensures
        epochs_not_below(m, join_outcome(m, subject_key, connection_id, resume_token_hash,
            input_socket_token_hash, now, capabilities).0),
{
}

proof fn lemma_attach_host_keeps_epochs(m: RoomModel, subject_key: Seq<char>, connection_id: ConnectionId,
    resume_token_hash: ResumeTokenHash, input_socket_token_hash: ResumeTokenHash, now: u64,
    capabilities: ClientTransportCapabilities)
    ensures
        epochs_not_below(m, attach_host_outcome(m, subject_key, connection_id, resume_token_hash,
            input_socket_token_hash, now, capabilities).0),
{
}

proof fn lemma_disconnect_keeps_epochs(m: RoomModel, connection_id: ConnectionId, now: u64, grace: u64)
    ensures
        epochs_not_below(m, disconnect_outcome(m, connection_id, now, grace).0),
{
}

proof fn lemma_reconnect_keeps_epochs(m: RoomModel, player_index: PlayerIndex, resume_token_hash: Seq<char>,
    next_resume_token_hash: ResumeTokenHash, input_socket_token_hash: ResumeTokenHash, room_epoch: u64,
    connection_id: ConnectionId, now: u64, capabilities: ClientTransportCapabilities)
    ensures
        epochs_not_below(m, reconnect_outcome(m, player_index, resume_token_hash, next_resume_token_hash,
            input_socket_token_hash, room_epoch, connection_id, now, capabilities).0),
{
}

/// The room and session generations never go backwards: joining,
/// attaching the host, disconnecting, reconnecting, policing heartbeats and
/// expiring runner handoffs each leave both generations at least where they
/// were.
pub proof fn law_room_epochs_never_regress(
    m: RoomModel,
    subject_key: String,
    host_subject_key: Seq<char>,
    connection_id: ConnectionId,
    player_index: PlayerIndex,
    resume_token_hash: Seq<char>,
    next_resume_token_hash: ResumeTokenHash,
    input_socket_token_hash: ResumeTokenHash,
    room_epoch: u64,
    now: u64,
    grace: u64,
    disconnect: u64,
    capabilities: ClientTransportCapabilities,
)
    requires
        room_model_wf(m),
    ensures
        epochs_not_below(m, join_outcome(m, subject_key, connection_id, next_resume_token_hash,
            input_socket_token_hash, now, capabilities).0),
        epochs_not_below(m, attach_host_outcome(m, host_subject_key, connection_id, next_resume_token_hash,
            input_socket_token_hash, now, capabilities).0),
        epochs_not_below(m, disconnect_outcome(m, connection_id, now, grace).0),
        epochs_not_below(m, reconnect_outcome(m, player_index, resume_token_hash, next_resume_token_hash,
            input_socket_token_hash, room_epoch, connection_id, now, capabilities).0),
        epochs_not_below(m, recover_outcome(m, now, disconnect, grace).0),
        epochs_not_below(m, expire_outcome(m, now).0),
{
    lemma_join_keeps_epochs(m, subject_key, connection_id, next_resume_token_hash, input_socket_token_hash, now, capabilities);
    lemma_attach_host_keeps_epochs(m, host_subject_key, connection_id, next_resume_token_hash, input_socket_token_hash,
        now, capabilities);
    lemma_disconnect_keeps_epochs(m, connection_id, now, grace);
    lemma_reconnect_keeps_epochs(m, player_index, resume_token_hash, next_resume_token_hash, input_socket_token_hash,
        room_epoch, connection_id, now, capabilities);
    lemma_recover_walk_keeps_epochs(m, timed_out_connections(m.players, now, disconnect), now, grace);
    lemma_expire_walk_keeps_epochs(m, expired_handoffs(m.players, now));
}

/// A closed room admits nobody: joins, host attachments and reconnects are
/// refused as a closed room and change nothing.
pub proof fn law_closed_room_admits_nobody(
    m: RoomModel,
    subject_key: String,
    host_subject_key: Seq<char>,
    connection_id: ConnectionId,
    player_index: PlayerIndex,
    resume_token_hash: Seq<char>,
    next_resume_token_hash: ResumeTokenHash,
    input_socket_token_hash: ResumeTokenHash,
    room_epoch: u64,
    now: u64,
    capabilities: ClientTransportCapabilities,
)
    requires
        m.status == RoomStatus::Closed,
    ensures
        join_outcome(m, subject_key, connection_id, next_resume_token_hash, input_socket_token_hash, now, capabilities)
            == (m, Err::<PlayerIndex, RoomError>(RoomError::RoomClosed)),
        attach_host_outcome(m, host_subject_key, connection_id, next_resume_token_hash, input_socket_token_hash, now,
            capabilities) == (m, Err::<PlayerIndex, RoomError>(RoomError::RoomClosed)),
        reconnect_outcome(m, player_index, resume_token_hash, next_resume_token_hash, input_socket_token_hash,
            room_epoch, connection_id, now, capabilities) == (m, Err::<(), RoomError>(RoomError::RoomClosed)),
{
}

/// A guest who leaves before play frees the slot: the room waits for a
/// guest again, and the next guest to join takes that same slot.
pub proof fn law_departed_guest_slot_is_joinable(
    m: RoomModel,
    connection_id: ConnectionId,
    player_index: PlayerIndex,
    now: u64,
    subject_key: String,
    new_connection_id: ConnectionId,
    resume_token_hash: ResumeTokenHash,
    input_socket_token_hash: ResumeTokenHash,
    later: u64,
    capabilities: ClientTransportCapabilities,
)
    requires
        room_model_wf(m),
        m.link is None,
        m.status != RoomStatus::Closed,
        !is_recoverable_status(m.status),
        connection_player(m.players, connection_id) == Some(player_index),
        player_index.0 != 0,
        m.players[player_index.0 as int].runner_handoff_deadline is None,
    ensures
        ({
            let (left, closed) = disconnect_outcome(m, connection_id, now, 0);
            let (_joined, index) = join_outcome(left, subject_key, new_connection_id, resume_token_hash,
                input_socket_token_hash, later, capabilities);
            &&& closed == Ok::<bool, RoomError>(false)
            &&& left.status == RoomStatus::WaitingForGuest
            &&& left.players[player_index.0 as int].status == PlayerStatus::Empty
            &&& index == Ok::<PlayerIndex, RoomError>(player_index)
        }),
{
    let p = player_index.0 as int;
    let position = crate::room::connection_position(m.players, connection_id)->0;
    assert(m.players[position].player_index == player_index);
    assert(position == p);
    let (left, closed) = disconnect_outcome(m, connection_id, now, 0);
    assert(left.players[p].status == PlayerStatus::Empty);
    assert(left.players[0].status != PlayerStatus::Empty);
    assert(p == 1);
    let e = crate::room_connection_ops::empty_position(left.players)->0;
    assert(left.players[e].status == PlayerStatus::Empty);
    assert(e == p);
}

/// A delivered join armed for a runner survives the desktop socket closing
/// before the handoff deadline: the slot stays reserved, and the runner
/// reclaims it with the resume token before the deadline.
pub proof fn law_armed_handoff_keeps_the_slot_for_the_runner(
    m: RoomModel,
    connection_id: ConnectionId,
    now: u64,
    grace: u64,
    closed_at: u64,
    player_index: PlayerIndex,
    resume_token_hash: Seq<char>,
    next_resume_token_hash: ResumeTokenHash,
    input_socket_token_hash: ResumeTokenHash,
    runner_connection_id: ConnectionId,
    claimed_at: u64,
    reconnect_grace: u64,
    capabilities: ClientTransportCapabilities,
)
    requires
        room_model_wf(m),
        m.link is None,
        !blocks_handoff(m.status),
        connection_player(m.players, connection_id) == Some(player_index),
        m.players[player_index.0 as int].resume_token_hash matches Some(h) && h@ == resume_token_hash,
        now + grace <= u64::MAX,
        closed_at < now + grace,
        claimed_at < now + grace,
        closed_at + reconnect_grace <= u64::MAX,
    ensures
        ({
            let (armed, armed_result) = arm_outcome(m, connection_id, now, grace);
            let (kept, closed) = disconnect_outcome(armed, connection_id, closed_at, reconnect_grace);
            let (claimed, reclaimed) = reconnect_outcome(kept, player_index, resume_token_hash, next_resume_token_hash,
                input_socket_token_hash, m.room_epoch, runner_connection_id, claimed_at, capabilities);
            &&& armed_result == Ok::<(), RoomError>(())
            &&& closed == Ok::<bool, RoomError>(false)
            &&& kept.players[player_index.0 as int].status == PlayerStatus::Reconnecting
            &&& kept.players[player_index.0 as int].connection_id is None
            &&& reclaimed == Ok::<(), RoomError>(())
            &&& claimed.players[player_index.0 as int].connection_id == Some(runner_connection_id)
        }),
{
    let p = player_index.0 as int;
    let position = crate::room::connection_position(m.players, connection_id)->0;
    assert(m.players[position].player_index == player_index);
    assert(position == p);
    let (armed, armed_result) = arm_outcome(m, connection_id, now, grace);
    assert(armed.players[p].connection_id == Some(connection_id));
    let armed_position = crate::room::connection_position(armed.players, connection_id)->0;
    assert(armed.players[armed_position].connection_id == Some(connection_id));
    assert(armed_position == p) by {
        assert(armed.players.len() == m.players.len());
        assert forall|j: int| 0 <= j < p implies armed.players[j].connection_id != Some(connection_id) by {
            assert(armed.players[j] == m.players[j]);
        }
    }
    let (kept, closed) = disconnect_outcome(armed, connection_id, closed_at, reconnect_grace);
    assert(kept.players[p].runner_handoff_deadline == Some((now + grace) as u64));
    assert(kept.players[p].reconnect_room_epoch == Some(m.room_epoch));
    assert(kept.room_epoch == m.room_epoch);
}

proof fn lemma_two_connected_slots(players: Seq<crate::player_slot::PlayerSlot>)
    requires
        players.len() == 2,
        players[0].connection_id is Some,
        players[1].connection_id is Some,
        players[0].player_index == PlayerIndex(0),
        players[1].player_index == PlayerIndex(1),
    ensures
        connected_indices(players) == seq![PlayerIndex(0), PlayerIndex(1)],
{
    let first = players.drop_last();
    let none = first.drop_last();
    assert(none.len() == 0);
    assert(connected_indices(none) == Seq::<PlayerIndex>::empty());
    assert(first.last() == players[0]);
    assert(connected_indices(first) == Seq::<PlayerIndex>::empty().push(PlayerIndex(0)));
    assert(connected_indices(players) == connected_indices(first).push(PlayerIndex(1)));
    assert(connected_indices(players) =~= seq![PlayerIndex(0), PlayerIndex(1)]);
}

/// Both connected players of a link room that report the same
/// compatibility, matching the room's link descriptor and protocol version,
/// at the start of a cycle, move the room to state syncing.
pub proof fn law_agreeing_link_reports_start_syncing(
    m: RoomModel,
    host_connection: ConnectionId,
    guest_connection: ConnectionId,
    compatibility: LinkCableCompatibility,
    protocol_version: u16,
)
    requires
        room_model_wf(m),
        m.link matches Some(l) && l.compat == Map::<u8, LinkCableCompatibility>::empty(),
        m.status != RoomStatus::Closed,
        m.status != RoomStatus::Playing,
        m.players[0].connection_id == Some(host_connection),
        m.players[1].connection_id == Some(guest_connection),
        host_connection != guest_connection,
        compatibility.protocol_version == protocol_version,
        compatibility.spec_matches_descriptor(&m.link->0.link),
    ensures
        ({
            let (m1, r1) = link_compatibility_outcome(m, host_connection, compatibility, protocol_version, 2);
            let (m2, r2) = link_compatibility_outcome(m1, guest_connection, compatibility, protocol_version, 2);
            &&& r1 == Ok::<(), RoomError>(())
            &&& r2 == Ok::<(), RoomError>(())
            &&& m2.status == RoomStatus::SyncingState
        }),
{
    let host_position = crate::room::connection_position(m.players, host_connection)->0;
    assert(m.players[host_position].connection_id == Some(host_connection));
    assert(host_position == 0);
    let (m1, r1) = link_compatibility_outcome(m, host_connection, compatibility, protocol_version, 2);
    assert(m1.players[0].connection_id == Some(host_connection));
    assert(m1.players[1].connection_id == Some(guest_connection));
    assert(m1.players.len() == 2);
    let guest_position = crate::room::connection_position(m1.players, guest_connection)->0;
    assert(m1.players[guest_position].connection_id == Some(guest_connection));
    assert(guest_position == 1);
    assert(m.players.drop_last().drop_last().len() == 0);
    assert(m1.players.drop_last().drop_last().len() == 0);
    lemma_two_connected_slots(m.players);
    let l = m.link->0;
    let compat1 = l.compat.insert(0, compatibility);
    assert(!compat1.contains_key(1));
    let (m2, r2) = link_compatibility_outcome(m1, guest_connection, compatibility, protocol_version, 2);
    let compat2 = compat1.insert(1, compatibility);
    assert(m1.players[0].player_index == PlayerIndex(0));
    assert(m1.players[1].player_index == PlayerIndex(1));
    lemma_two_connected_slots(m1.players);
    let updated = crate::room_link_cable_ops::status_set_at(m1.players, 1, PlayerStatus::CheckingCompatibility);
    assert(updated[0] == m1.players[0]);
    lemma_two_connected_slots(updated);
    assert(crate::link_cable_room_state::all_reported(compat2, connected_indices(updated), 2));
    assert(compat2.dom() =~= set![0u8, 1u8]);
    assert(compat2.dom().len() > 0) by {
        assert(set![0u8, 1u8].contains(0u8));
        assert(set![0u8, 1u8].finite());
    }
    assert(crate::link_cable_room_state::reports_agree(compat2));
    assert(m1.link == Some(crate::room::LinkModel { compat: compat1, ..l }));
}


/// An input frame is relayed at most once: once a frame of a player was
/// relayed, the same frame submitted again by the same socket is dropped.
pub proof fn law_relayed_input_frame_is_dropped_when_repeated(
    m: RoomModel,
    connection_id: ConnectionId,
    player: PlayerIndex,
    frame: u64,
    max_future_frame_distance: u64,
)
    requires
        accept_input_outcome(m, connection_id, player, frame, max_future_frame_distance).1
            == Ok::<InputFrameAcceptance, RoomError>(InputFrameAcceptance::Relay),
        frame < u64::MAX,
    ensures
        ({
            let after = accept_input_outcome(m, connection_id, player, frame, max_future_frame_distance).0;
            accept_input_outcome(after, connection_id, player, frame, max_future_frame_distance).1
                == Ok::<InputFrameAcceptance, RoomError>(InputFrameAcceptance::Ignore)
        }),
{
    let after = accept_input_outcome(m, connection_id, player, frame, max_future_frame_distance).0;
    assert(after.players == m.players);
    assert(next_expected_frame(after, player.0) == frame + 1);
}

/// No player's input cursor ever moves back: whatever a submission's
/// outcome, the next frame expected from every player is at least what it
/// was before.
pub proof fn law_input_cursors_never_move_back(
    m: RoomModel,
    connection_id: ConnectionId,
    player: PlayerIndex,
    frame: u64,
    max_future_frame_distance: u64,
    other: u8,
)
    ensures
        next_expected_frame(accept_input_outcome(m, connection_id, player, frame, max_future_frame_distance).0, other)
            >= next_expected_frame(m, other),
{
}

/// The relay clock releases frames one after another, each only once the
/// host has sent input for it: a release hands out the frame the cursor
/// stood on, and the release after it hands out the next frame.
pub proof fn law_released_frames_follow_each_other(m: RoomModel)
    requires
        release_outcome(m).1 is Some,
        release_outcome(release_outcome(m).0).1 is Some,
        m.next_release_frame < u64::MAX,
    ensures
        ({
            let first = release_outcome(m).1->0;
            let second = release_outcome(release_outcome(m).0).1->0;
            &&& first.frame == m.next_release_frame
            &&& second.frame == first.frame + 1
            &&& host_has_input_for(m, first.frame)
            &&& host_has_input_for(release_outcome(m).0, second.frame)
        }),
{
}

/// Once the host's relayed input reaches the release cursor of a playing
/// controller room, the relay clock releases the frame under the cursor.
pub proof fn law_host_input_lets_the_clock_release(
    m: RoomModel,
    connection_id: ConnectionId,
    frame: u64,
    max_future_frame_distance: u64,
)
    requires
        room_model_wf(m),
        m.status == RoomStatus::Playing,
        m.next_release_frame <= frame,
        accept_input_outcome(m, connection_id, PlayerIndex(0), frame, max_future_frame_distance).1
            == Ok::<InputFrameAcceptance, RoomError>(InputFrameAcceptance::Relay),
    ensures
        ({
            let after = accept_input_outcome(m, connection_id, PlayerIndex(0), frame, max_future_frame_distance).0;
            release_outcome(after).1 matches Some(released) && released.frame == m.next_release_frame
        }),
{
    assert(m.players[0].player_index == PlayerIndex(0));
}

/// A host frame open is idempotent: once a frame has been released, the
/// same open sent again changes nothing and hands back that same release.
pub proof fn law_repeated_host_open_returns_the_same_release(
    m: RoomModel,
    strict: bool,
    connection_id: ConnectionId,
    open: HostFrameOpen,
    now_ms: u64,
    later_ms: u64,
)
    requires
        room_model_wf(m),
        host_frame_open_outcome(m, strict, connection_id, open, now_ms).1 matches Ok(HostFrameOpenModel::Released(_)),
        open.frame < u64::MAX,
    ensures
        ({
            let (after, first) = host_frame_open_outcome(m, strict, connection_id, open, now_ms);
            let (again, second) = host_frame_open_outcome(after, strict, connection_id, open, later_ms);
            &&& again == after
            &&& first matches Ok(HostFrameOpenModel::Released(r)) && second matches Ok(HostFrameOpenModel::Duplicate(d)) && d == r
        }),
{
    let (after, first) = host_frame_open_outcome(m, strict, connection_id, open, now_ms);
    if m.status == RoomStatus::StartScheduled {
        let played = crate::room_host_frame_ops::entered_playing(m);
        assert forall|j: int| 0 <= j < m.players.len() implies
            (#[trigger] played.players[j]).input_connection_id == m.players[j].input_connection_id
            && played.players[j].role == m.players[j].role by {
            assert(played.players[j] == playing_slot(m.players[j]));
        }
        lemma_input_position_depends_on_sockets(played.players, m.players, connection_id);
        assert(after.players == played.players);
    } else {
        assert(after.players == m.players);
    }
}

/// Slots that agree on who is connected list the same connected players.
pub proof fn lemma_connected_indices_depend_on_connections(a: Seq<PlayerSlot>, b: Seq<PlayerSlot>)
    requires
        a.len() == b.len(),
        forall|j: int| 0 <= j < a.len() ==> (#[trigger] a[j]).player_index == b[j].player_index
            && (a[j].connection_id is Some <==> b[j].connection_id is Some),
    ensures
        connected_indices(a) == connected_indices(b),
    decreases a.len(),
{
    if a.len() > 0 {
        lemma_connected_indices_depend_on_connections(a.drop_last(), b.drop_last());
        assert(a.last() == a[a.len() - 1]);
        assert(b.last() == b[b.len() - 1]);
    }
}

/// Gameplay starts only once every connected player of a full room has
/// reported ready: a ready mark that starts play comes from a connected
/// player, and with it every connected player is ready.
pub proof fn law_play_starts_only_when_everyone_is_ready(
    m: RoomModel,
    connection_id: ConnectionId,
    network: Option<ClientNetworkQualityReport>,
    now: u64,
)
    requires
        room_model_wf(m),
        ready_outcome(m, connection_id, network, now).1 == Ok::<bool, RoomError>(true),
    ensures
        ready_outcome(m, connection_id, network, now).0.status == RoomStatus::Playing,
        connection_player(m.players, connection_id) matches Some(p)
            && all_players_ready(m.players, MVP_ROOM_CAPACITY, m.ready.insert(p.0)),
{
    let p = crate::room::connection_position(m.players, connection_id)->0;
    let slot = m.players[p];
    let m1_players = m.players.update(p, crate::room::with_status(
        crate::room::sampled_slot(slot, None, network, now), PlayerStatus::Ready));
    lemma_connected_indices_depend_on_connections(m1_players, m.players);
}

/// The last ready mark starts play: when the reporting player is the only
/// connected player of a full syncing room not yet ready, and not every
/// client follows a scheduled start, gameplay starts.
pub proof fn law_last_ready_mark_starts_play(
    m: RoomModel,
    connection_id: ConnectionId,
    network: Option<ClientNetworkQualityReport>,
    now: u64,
)
    requires
        room_model_wf(m),
        m.status == RoomStatus::SyncingState || m.status == RoomStatus::Ready,
        m.link is Some,
        connection_player(m.players, connection_id) matches Some(p)
            && all_players_ready(m.players, MVP_ROOM_CAPACITY, m.ready.insert(p.0)),
        !connected_support_scheduled_start(m.players),
    ensures
        ready_outcome(m, connection_id, network, now).1 == Ok::<bool, RoomError>(true),
        ready_outcome(m, connection_id, network, now).0.status == RoomStatus::Playing,
{
    let p = crate::room::connection_position(m.players, connection_id)->0;
    let slot = m.players[p];
    let m1_players = m.players.update(p, crate::room::with_status(
        crate::room::sampled_slot(slot, None, network, now), PlayerStatus::Ready));
    lemma_connected_indices_depend_on_connections(m1_players, m.players);
    let w = choose|i: int| 0 <= i < m.players.len() && (#[trigger] m.players[i]).connection_id is Some
        && !m.players[i].supports_scheduled_start;
    assert(m1_players[w].connection_id is Some && !m1_players[w].supports_scheduled_start);
}

} // verus!
