use netplay_rooms::ids::{ConnectionId, PlayerIndex};
use netplay_rooms::link_cable_data_plane::{
    LinkCableDataPlaneError, LinkCableDataPlaneEvent, LinkCableDataPlaneSnapshot,
    LinkCableDataPlaneState, LinkCableDataPlaneStatus, LinkCableWireCodecError, ReceiverClaim,
    ReceiverPoll, Wakeup,
};
use netplay_rooms::link_cable_transaction::LinkCableTransactionError;
use netplay_rooms::link_wire::{
    GbSerialEvent, GbSerialFrame, GbaSioMultiEvent, GbaSioMultiFrame, LinkCableAbortReason,
    LinkCablePacket, LinkCableWireFrame, LinkCableWireHeader, LinkCableWireLimits, LinkCableWireProtocol,
};
use netplay_rooms::room_scope::RoomScope;

const ROOM_EPOCH: u64 = 11;
const SESSION_EPOCH: u64 = 17;
const EMULATED_TIME: u64 = 23;

fn one() -> PlayerIndex {
    PlayerIndex::new(0, 2).expect("slot zero")
}

fn two() -> PlayerIndex {
    PlayerIndex::new(1, 2).expect("slot one")
}

fn data_plane_for(capacity: usize, protocol: LinkCableWireProtocol) -> LinkCableDataPlaneState {
    let (plane, _) = (
        LinkCableDataPlaneState::new(
            RoomScope::new(101).expect("room scope"),
            protocol,
            ROOM_EPOCH,
            SESSION_EPOCH,
            capacity,
        )
        .ok()
        .expect("data plane"),
        (),
    );
    plane
}

struct Receiver {
    claim: ReceiverClaim,
    connection_id: ConnectionId,
    observed: u64,
}

fn attach(plane: &mut LinkCableDataPlaneState, slot: PlayerIndex, connection_id: ConnectionId) -> Receiver {
    let (bound, _) = plane.bind_connection(slot, connection_id);
    assert!(bound.is_ok());
    let (claimed, wake) = plane.claim_receiver(connection_id);
    assert_eq!(wake, Wakeup::Both);
    let claim = claimed.ok().expect("claim receiver");
    Receiver { observed: claim.observed_lifecycle_revision, claim, connection_id }
}

fn poll(plane: &mut LinkCableDataPlaneState, receiver: &mut Receiver) -> ReceiverPoll {
    let result = plane.poll_receiver(
        receiver.claim.local_slot,
        receiver.connection_id,
        receiver.claim.attachment_generation,
        receiver.observed,
    );
    if let ReceiverPoll::Event { observed_lifecycle_revision, .. } = &result {
        receiver.observed = *observed_lifecycle_revision;
    }
    result
}

fn expect_lifecycle(plane: &mut LinkCableDataPlaneState, receiver: &mut Receiver, status: LinkCableDataPlaneStatus) -> LinkCableDataPlaneSnapshot {
    match poll(plane, receiver) {
        ReceiverPoll::Event { event: LinkCableDataPlaneEvent::Lifecycle(snapshot), .. } => {
            assert_eq!(snapshot.status, status);
            snapshot
        }
        _ => panic!("expected lifecycle before packet"),
    }
}

fn expect_packet(plane: &mut LinkCableDataPlaneState, receiver: &mut Receiver, packet: &LinkCablePacket) {
    match poll(plane, receiver) {
        ReceiverPoll::Event { event: LinkCableDataPlaneEvent::Packet(received), .. } => {
            assert!(&received == packet, "unexpected packet");
        }
        _ => panic!("expected a packet"),
    }
}

fn expect_wait(plane: &mut LinkCableDataPlaneState, receiver: &mut Receiver) {
    assert!(poll(plane, receiver) == ReceiverPoll::Wait);
}

fn header(player_index: PlayerIndex, sequence: u64, cable_epoch: u64) -> LinkCableWireHeader {
    LinkCableWireHeader {
        room_epoch: ROOM_EPOCH,
        session_epoch: SESSION_EPOCH,
        cable_epoch,
        sender_sequence: sequence,
        sender_slot: player_index.zero_based(),
    }
}

fn mode_frame(player_index: PlayerIndex, sequence: u64, cable_epoch: u64, emulated_time: u64) -> LinkCableWireFrame {
    LinkCableWireFrame::GbaSioMulti(GbaSioMultiFrame {
        header: header(player_index, sequence, cable_epoch),
        event: GbaSioMultiEvent::ModeSet { mode: 0, siocnt: 0, rcnt: 0, emulated_time },
    })
}

const LIMITS: LinkCableWireLimits = LinkCableWireLimits { header_bytes: 5, max_frame_bytes: 64 };

fn envelope(player_index: PlayerIndex, sequence: u64, emulated_time: u64) -> LinkCablePacket {
    LinkCablePacket { player_index, sequence, emulated_time, payload: vec![0x53, 0x42, 0x4c, 0x4b, sequence as u8] }
}

fn active_pair(capacity: usize, protocol: LinkCableWireProtocol) -> (LinkCableDataPlaneState, ConnectionId, ConnectionId, Receiver, Receiver, u64) {
    let mut plane = data_plane_for(capacity, protocol);
    let zero = ConnectionId::new();
    let first = ConnectionId::new();
    let mut receiver_zero = attach(&mut plane, one(), zero);
    let receiver_one = attach(&mut plane, two(), first);
    expect_lifecycle(&mut plane, &mut receiver_zero, LinkCableDataPlaneStatus::Active);
    let cable = receiver_one.claim.snapshot.cable_epoch;
    (plane, zero, first, receiver_zero, receiver_one, cable)
}

#[test]
fn relays_only_to_the_opposite_endpoint_without_echo() {
    let mut plane = data_plane_for(4, LinkCableWireProtocol::GbaSioMultiV1);
    let connection_zero = ConnectionId::new();
    let connection_one = ConnectionId::new();
    let mut receiver_zero = attach(&mut plane, one(), connection_zero);
    assert_eq!(receiver_zero.claim.snapshot.status, LinkCableDataPlaneStatus::Waiting);
    let mut receiver_one = attach(&mut plane, two(), connection_one);
    let active = receiver_one.claim.snapshot;
    assert_eq!(active.status, LinkCableDataPlaneStatus::Active);

    expect_lifecycle(&mut plane, &mut receiver_zero, LinkCableDataPlaneStatus::Active);
    let packet = envelope(one(), 0, EMULATED_TIME);
    let (result, wake) = plane.relay(
        connection_zero,
        one(),
        ROOM_EPOCH,
        SESSION_EPOCH,
        packet.clone(), LIMITS,
        Ok(mode_frame(one(), 0, active.cable_epoch, EMULATED_TIME)),
    );
    assert_eq!(result, Ok(()));
    assert_eq!(wake, Wakeup::Slot(1));

    expect_packet(&mut plane, &mut receiver_one, &packet);
    expect_wait(&mut plane, &mut receiver_zero);
}

#[test]
fn requires_exact_sender_sequence_starting_at_zero() {
    let (mut plane, connection_zero, _one, _receiver_zero, mut receiver_one, cable) =
        active_pair(4, LinkCableWireProtocol::GbaSioMultiV1);
    let (first, _) = plane.relay(connection_zero, one(), ROOM_EPOCH, SESSION_EPOCH,
        envelope(one(), 0, EMULATED_TIME), LIMITS, Ok(mode_frame(one(), 0, cable, EMULATED_TIME)));
    assert_eq!(first, Ok(()));
    let (skipped, wake) = plane.relay(connection_zero, one(), ROOM_EPOCH, SESSION_EPOCH,
        envelope(one(), 2, EMULATED_TIME), LIMITS, Ok(mode_frame(one(), 2, cable, EMULATED_TIME)));
    assert_eq!(skipped, Err(LinkCableDataPlaneError::SenderSequenceMismatch));
    assert_eq!(wake, Wakeup::Both);

    let lifecycle = expect_lifecycle(&mut plane, &mut receiver_one, LinkCableDataPlaneStatus::Aborted);
    assert_eq!(lifecycle.abort_reason, Some(LinkCableAbortReason::ProtocolViolation));
}

#[test]
fn stale_spoofed_and_malformed_frames_fail_closed() {
    let (mut plane, connection_zero, _one, _receiver_zero, _receiver_one, cable) =
        active_pair(2, LinkCableWireProtocol::GbaSioMultiV1);
    let (stale, wake) = plane.relay(connection_zero, one(), ROOM_EPOCH - 1, SESSION_EPOCH,
        envelope(one(), 0, EMULATED_TIME), LIMITS, Ok(mode_frame(one(), 0, cable, EMULATED_TIME)));
    assert_eq!(stale, Err(LinkCableDataPlaneError::RoomEpochMismatch));
    assert_eq!(wake, Wakeup::Neither);
    let (spoofed, _) = plane.relay(connection_zero, one(), ROOM_EPOCH, SESSION_EPOCH,
        envelope(two(), 0, EMULATED_TIME), LIMITS, Ok(mode_frame(two(), 0, cable, EMULATED_TIME)));
    assert_eq!(spoofed, Err(LinkCableDataPlaneError::EnvelopeSlotMismatch(two())));

    let (mut malformed_plane, malformed_connection, _peer, _sender, _target, _cable) =
        active_pair(2, LinkCableWireProtocol::GbaSioMultiV1);
    let malformed = LinkCablePacket { player_index: one(), sequence: 0, emulated_time: 0, payload: vec![0; 43] };
    let (result, _) = malformed_plane.relay(malformed_connection, one(), ROOM_EPOCH, SESSION_EPOCH,
        malformed, LIMITS, Err(LinkCableWireCodecError::UnsupportedMagic));
    assert_eq!(result, Err(LinkCableDataPlaneError::WireCodec(LinkCableWireCodecError::UnsupportedMagic)));
    assert_eq!(
        malformed_plane.snapshot(one()).ok().expect("snapshot").status,
        LinkCableDataPlaneStatus::Aborted
    );
}

#[test]
fn overflow_clears_queues_atomically_and_lifecycle_precedes_delivery() {
    let (mut plane, connection_zero, _one, _receiver_zero, mut receiver_one, cable) =
        active_pair(1, LinkCableWireProtocol::GbaSioMultiV1);
    let (filled, _) = plane.relay(connection_zero, one(), ROOM_EPOCH, SESSION_EPOCH,
        envelope(one(), 0, EMULATED_TIME), LIMITS, Ok(mode_frame(one(), 0, cable, EMULATED_TIME)));
    assert_eq!(filled, Ok(()));
    let (overflow, _) = plane.relay(connection_zero, one(), ROOM_EPOCH, SESSION_EPOCH,
        envelope(one(), 1, EMULATED_TIME + 1), LIMITS, Ok(mode_frame(one(), 1, cable, EMULATED_TIME + 1)));
    assert_eq!(overflow, Err(LinkCableDataPlaneError::QueueOverflow));

    let lifecycle = expect_lifecycle(&mut plane, &mut receiver_one, LinkCableDataPlaneStatus::Aborted);
    assert_eq!(lifecycle.abort_reason, Some(LinkCableAbortReason::QueueOverflow));
    expect_wait(&mut plane, &mut receiver_one);
}

fn gba_relay(plane: &mut LinkCableDataPlaneState, connection: ConnectionId, slot: PlayerIndex, sequence: u64, cable: u64, event: GbaSioMultiEvent, emulated_time: u64) -> Result<(), LinkCableDataPlaneError> {
    let frame = LinkCableWireFrame::GbaSioMulti(GbaSioMultiFrame { header: header(slot, sequence, cable), event });
    plane.relay(connection, slot, ROOM_EPOCH, SESSION_EPOCH, envelope(slot, sequence, emulated_time), LIMITS, Ok(frame)).0
}

#[test]
fn gba_transaction_violation_aborts_and_clears_both_target_queues() {
    let (mut plane, zero, first, mut receiver_zero, mut receiver_one, cable) =
        active_pair(8, LinkCableWireProtocol::GbaSioMultiV1);
    gba_relay(&mut plane, zero, one(), 0, cable, GbaSioMultiEvent::ModeSet { mode: 2, siocnt: 0x2000, rcnt: 0, emulated_time: 1 }, 1).expect("slot zero mode");
    gba_relay(&mut plane, first, two(), 0, cable, GbaSioMultiEvent::ModeSet { mode: 2, siocnt: 0x2000, rcnt: 0, emulated_time: 2 }, 2).expect("slot one mode");
    gba_relay(&mut plane, zero, one(), 1, cable, GbaSioMultiEvent::TransferStart { transfer_id: 1, siocnt: 0x2000, parent_word: 0x1111, emulated_time: 3 }, 3).expect("GBA start");
    gba_relay(&mut plane, first, two(), 1, cable, GbaSioMultiEvent::TransferReply { transfer_id: 1, child_word: 0x2222, emulated_time: 4 }, 4).expect("GBA reply");

    let result = gba_relay(&mut plane, zero, one(), 2, cable, GbaSioMultiEvent::TransferCommit { transfer_id: 1, words: [0x1111, 0x9999, 0xffff, 0xffff] }, 0);
    assert_eq!(result, Err(LinkCableDataPlaneError::Transaction(LinkCableTransactionError::CommitPayloadMismatch)));
    for receiver in [&mut receiver_zero, &mut receiver_one] {
        let lifecycle = expect_lifecycle(&mut plane, receiver, LinkCableDataPlaneStatus::Aborted);
        assert_eq!(lifecycle.abort_reason, Some(LinkCableAbortReason::ProtocolViolation));
        expect_wait(&mut plane, receiver);
    }
}

#[test]
fn gb_transaction_happy_path_relays_start_reply_and_matching_commit() {
    let (mut plane, zero, first, mut receiver_zero, mut receiver_one, cable) =
        active_pair(4, LinkCableWireProtocol::GbSerialV1);
    let gb = |slot: PlayerIndex, sequence: u64, event: GbSerialEvent| {
        LinkCableWireFrame::GbSerial(GbSerialFrame { header: header(slot, sequence, cable), event })
    };
    let start = envelope(one(), 0, 1);
    let (r, _) = plane.relay(zero, one(), ROOM_EPOCH, SESSION_EPOCH, start.clone(), LIMITS, Ok(gb(one(), 0,
        GbSerialEvent::Start { transfer_id: 1, clock_owner_slot: 0, sc_control: 0x81, owner_byte: 0xa5, emulated_time: 1 })));
    assert_eq!(r, Ok(()));
    expect_packet(&mut plane, &mut receiver_one, &start);

    let reply = envelope(two(), 0, 2);
    let (r, _) = plane.relay(first, two(), ROOM_EPOCH, SESSION_EPOCH, reply.clone(), LIMITS, Ok(gb(two(), 0,
        GbSerialEvent::Reply { transfer_id: 1, clock_owner_slot: 0, responder_byte: 0x3c, emulated_time: 2 })));
    assert_eq!(r, Ok(()));
    expect_packet(&mut plane, &mut receiver_zero, &reply);

    let commit = envelope(one(), 1, 0);
    let (r, _) = plane.relay(zero, one(), ROOM_EPOCH, SESSION_EPOCH, commit.clone(), LIMITS, Ok(gb(one(), 1,
        GbSerialEvent::Commit { transfer_id: 1, clock_owner_slot: 0, slot_bytes: [0xa5, 0x3c] })));
    assert_eq!(r, Ok(()));
    expect_packet(&mut plane, &mut receiver_one, &commit);
    assert_eq!(plane.snapshot(one()).ok().expect("active snapshot").status, LinkCableDataPlaneStatus::Active);
}

#[test]
fn surviving_receiver_continues_after_peer_reconnect_with_newer_epoch() {
    let (mut plane, _zero, first, mut receiver_zero, mut old_receiver_one, first_cable_epoch) =
        active_pair(2, LinkCableWireProtocol::GbaSioMultiV1);
    let (detached, _) = plane.invalidate_connection(first);
    assert!(detached.is_ok());
    expect_lifecycle(&mut plane, &mut receiver_zero, LinkCableDataPlaneStatus::Aborted);
    assert!(poll(&mut plane, &mut old_receiver_one) == ReceiverPoll::Failed(LinkCableDataPlaneError::AttachmentReplaced));

    let replacement = ConnectionId::new();
    let replacement_receiver = attach(&mut plane, two(), replacement);
    let snapshot = replacement_receiver.claim.snapshot;
    assert_eq!(snapshot.status, LinkCableDataPlaneStatus::Active);
    assert!(snapshot.cable_epoch > first_cable_epoch);
    expect_lifecycle(&mut plane, &mut receiver_zero, LinkCableDataPlaneStatus::Active);

    let packet = envelope(two(), 0, EMULATED_TIME);
    let (r, _) = plane.relay(replacement, two(), ROOM_EPOCH, SESSION_EPOCH, packet.clone(), LIMITS,
        Ok(mode_frame(two(), 0, snapshot.cable_epoch, EMULATED_TIME)));
    assert_eq!(r, Ok(()));
    expect_packet(&mut plane, &mut receiver_zero, &packet);
}

#[test]
fn room_scope_stays_stable_across_epoch_and_provider_resets() {
    let (mut plane, _zero, _one, _receiver_zero, _receiver_one, first_cable_epoch) =
        active_pair(2, LinkCableWireProtocol::GbaSioMultiV1);
    let original_scope = plane.snapshot(one()).ok().expect("original snapshot").room_scope;

    let (synced, _) = plane.synchronize_epochs(ROOM_EPOCH + 1, SESSION_EPOCH + 1);
    assert_eq!(synced, Ok(()));
    assert_eq!(plane.snapshot(one()).ok().expect("synchronized").room_scope, original_scope);
    let (reset, _) = plane.reset_provider(LinkCableWireProtocol::GbSerialV1, ROOM_EPOCH + 2, SESSION_EPOCH + 2);
    assert_eq!(reset, Ok(()));
    assert_eq!(plane.snapshot(one()).ok().expect("reset").room_scope, original_scope);

    let first = attach(&mut plane, one(), ConnectionId::new());
    let second = attach(&mut plane, two(), ConnectionId::new());
    assert_eq!(first.claim.snapshot.room_scope, original_scope);
    assert_eq!(second.claim.snapshot.room_scope, original_scope);
    assert!(second.claim.snapshot.cable_epoch > first_cable_epoch);
}

#[test]
fn close_wakes_a_waiting_receiver() {
    let mut plane = data_plane_for(2, LinkCableWireProtocol::GbaSioMultiV1);
    let mut receiver = attach(&mut plane, one(), ConnectionId::new());
    expect_wait(&mut plane, &mut receiver);
    let (closed, wake) = plane.close();
    assert_eq!(closed, Ok(()));
    assert_eq!(wake, Wakeup::Both);
    let snapshot = expect_lifecycle(&mut plane, &mut receiver, LinkCableDataPlaneStatus::Closed);
    assert_eq!(snapshot.abort_reason, Some(LinkCableAbortReason::CoreClosed));
    assert!(poll(&mut plane, &mut receiver) == ReceiverPoll::Failed(LinkCableDataPlaneError::Closed));
}

#[test]
fn attachment_and_lifecycle_generations_never_saturate_into_reuse() {
    let mut attachment_plane = data_plane_for(2, LinkCableWireProtocol::GbaSioMultiV1);
    attachment_plane.next_attachment_generation = u64::MAX;
    let (r, wake) = attachment_plane.bind_connection(one(), ConnectionId::new());
    assert!(r.err() == Some(LinkCableDataPlaneError::AttachmentGenerationExhausted));
    assert_eq!(wake, Wakeup::Neither);

    let mut lifecycle_plane = data_plane_for(2, LinkCableWireProtocol::GbaSioMultiV1);
    lifecycle_plane.lifecycle_revision = u64::MAX;
    let (r, _) = lifecycle_plane.bind_connection(one(), ConnectionId::new());
    assert!(r.err() == Some(LinkCableDataPlaneError::LifecycleRevisionExhausted));
    assert_eq!(
        lifecycle_plane.snapshot(one()).ok().expect("closed snapshot").status,
        LinkCableDataPlaneStatus::Closed
    );
}

#[test]
fn construction_rejects_out_of_range_epochs_and_empty_queues() {
    let scope = RoomScope::new(5).expect("scope");
    assert!(LinkCableDataPlaneState::new(scope, LinkCableWireProtocol::GbSerialV1, 1 << 63, 1, 2).err()
        == Some(LinkCableDataPlaneError::EpochOutOfRange));
    assert!(LinkCableDataPlaneState::new(scope, LinkCableWireProtocol::GbSerialV1, 1, 1, 0).err()
        == Some(LinkCableDataPlaneError::InvalidCapacity));
}

#[test]
fn bindings_are_exclusive_and_replacement_clears_in_flight_packets() {
    let (mut plane, zero, first, _receiver_zero, mut receiver_one, cable) =
        active_pair(4, LinkCableWireProtocol::GbaSioMultiV1);
    let (r, _) = plane.bind_connection(two(), zero);
    assert!(r.err() == Some(LinkCableDataPlaneError::ConnectionAlreadyBound));
    let (r, _) = plane.bind_connection(two(), ConnectionId::new());
    assert!(r.err() == Some(LinkCableDataPlaneError::EndpointAlreadyBound));
    let (r, _) = plane.claim_receiver(first);
    assert!(r.err() == Some(LinkCableDataPlaneError::ReceiverAlreadyClaimed));

    let (r, _) = plane.relay(zero, one(), ROOM_EPOCH, SESSION_EPOCH, envelope(one(), 0, EMULATED_TIME), LIMITS,
        Ok(mode_frame(one(), 0, cable, EMULATED_TIME)));
    assert_eq!(r, Ok(()));
    let runner = ConnectionId::new();
    let (replaced, wake) = plane.replace_connection(two(), first, runner);
    assert_eq!(replaced.ok().expect("replace").status, LinkCableDataPlaneStatus::Waiting);
    assert_eq!(wake, Wakeup::Both);
    assert!(poll(&mut plane, &mut receiver_one) == ReceiverPoll::Failed(LinkCableDataPlaneError::AttachmentReplaced));
    let (r, _) = plane.relay(zero, one(), ROOM_EPOCH, SESSION_EPOCH, envelope(one(), 0, EMULATED_TIME), LIMITS,
        Ok(mode_frame(one(), 0, cable, EMULATED_TIME)));
    assert_eq!(r, Err(LinkCableDataPlaneError::NotActive));
}

#[test]
fn dropping_a_receiver_detaches_its_endpoint() {
    let (mut plane, _zero, first, mut receiver_zero, receiver_one, _cable) =
        active_pair(2, LinkCableWireProtocol::GbaSioMultiV1);
    let wake = plane.release_receiver(two(), first, receiver_one.claim.attachment_generation + 1);
    assert_eq!(wake, Wakeup::Neither);
    let wake = plane.release_receiver(two(), first, receiver_one.claim.attachment_generation);
    assert_eq!(wake, Wakeup::Both);
    let lifecycle = expect_lifecycle(&mut plane, &mut receiver_zero, LinkCableDataPlaneStatus::Aborted);
    assert_eq!(lifecycle.abort_reason, Some(LinkCableAbortReason::PeerDisconnected));
}

#[test]
fn payloads_outside_the_frame_size_bounds_abort_the_cable() {
    let (mut plane, connection_zero, _one, _receiver_zero, _receiver_one, cable) =
        active_pair(2, LinkCableWireProtocol::GbaSioMultiV1);
    let short = LinkCablePacket { player_index: one(), sequence: 0, emulated_time: EMULATED_TIME, payload: vec![0x53; 4] };
    let (result, wake) = plane.relay(connection_zero, one(), ROOM_EPOCH, SESSION_EPOCH, short, LIMITS,
        Ok(mode_frame(one(), 0, cable, EMULATED_TIME)));
    assert_eq!(result, Err(LinkCableDataPlaneError::InvalidPacketSize));
    assert_eq!(wake, Wakeup::Both);
    assert_eq!(plane.snapshot(one()).ok().expect("snapshot").status, LinkCableDataPlaneStatus::Aborted);

    let (mut plane, connection_zero, _one, _receiver_zero, _receiver_one, cable) =
        active_pair(2, LinkCableWireProtocol::GbaSioMultiV1);
    let long = LinkCablePacket { player_index: one(), sequence: 0, emulated_time: EMULATED_TIME, payload: vec![0x53; 65] };
    let (result, _) = plane.relay(connection_zero, one(), ROOM_EPOCH, SESSION_EPOCH, long, LIMITS,
        Ok(mode_frame(one(), 0, cable, EMULATED_TIME)));
    assert_eq!(result, Err(LinkCableDataPlaneError::InvalidPacketSize));
}
