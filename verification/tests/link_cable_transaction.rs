use netplay_rooms::link_cable_transaction::{
    LinkCableTransactionError, LinkCableTransactionState, TransferIdSequence,
};
use netplay_rooms::link_wire::{
    GbSerialEvent, GbSerialFrame, GbaSioMultiEvent, GbaSioMultiFrame, LinkCableAbortReason,
    LinkCableWireFrame, LinkCableWireHeader, LinkCableWireProtocol,
};

const GB_SERIAL_NORMAL_CLOCK_CONTROL: u8 = 0x81;

#[test]
fn gba_happy_path_requires_both_modes_and_matching_commit_words() {
    let mut state = LinkCableTransactionState::new(LinkCableWireProtocol::GbaSioMultiV1);

    accept(&mut state, gba(0, mode_set(2)));
    assert_eq!(
        state.validate_and_apply(&gba(0, start(1, 0x1111))),
        Err(LinkCableTransactionError::GbaMultiModeNotReady)
    );

    let mut state = LinkCableTransactionState::new(LinkCableWireProtocol::GbaSioMultiV1);
    accept(&mut state, gba(0, mode_set(2)));
    accept(&mut state, gba(1, mode_set(2)));
    accept(&mut state, gba(0, start(1, 0x1111)));
    accept(&mut state, gba(1, reply(1, 0x2222)));
    accept(&mut state, gba(0, commit(1, [0x1111, 0x2222, 0xffff, 0xffff])));
    accept(&mut state, gba(0, start(2, 0x3333)));
    accept(
        &mut state,
        gba(
            1,
            GbaSioMultiEvent::TransferAbort {
                transfer_id: 2,
                reason: LinkCableAbortReason::Timeout,
            },
        ),
    );
}

#[test]
fn gba_rejects_phase_id_and_commit_content_violations() {
    let mut state = ready_gba();
    assert_eq!(
        state.validate_and_apply(&gba(1, reply(1, 2))),
        Err(LinkCableTransactionError::NoPendingTransfer)
    );
    accept(&mut state, gba(0, start(1, 0x1111)));
    accept(
        &mut state,
        gba(
            0,
            GbaSioMultiEvent::ModeSet {
                mode: 2,
                siocnt: 0x20f7,
                rcnt: 0x7fff,
                emulated_time: 99,
            },
        ),
    );
    assert_eq!(
        state.validate_and_apply(&gba(0, mode_set(3))),
        Err(LinkCableTransactionError::GbaModeChangedDuringTransfer)
    );
    assert_eq!(
        state.validate_and_apply(&gba(1, reply(2, 0x2222))),
        Err(LinkCableTransactionError::TransferIdMismatch)
    );
    accept(&mut state, gba(1, reply(1, 0x2222)));
    assert_eq!(
        state.validate_and_apply(&gba(0, commit(1, [0x1111, 0x9999, 0xffff, 0xffff]))),
        Err(LinkCableTransactionError::CommitPayloadMismatch)
    );
}

#[test]
fn gba_start_ids_are_exact_next_and_never_reused_after_abort() {
    let mut state = ready_gba();
    assert_eq!(
        state.validate_and_apply(&gba(0, start(2, 0))),
        Err(LinkCableTransactionError::TransferIdMismatch)
    );
    accept(&mut state, gba(0, start(1, 0)));
    accept(
        &mut state,
        gba(
            0,
            GbaSioMultiEvent::TransferAbort {
                transfer_id: 1,
                reason: LinkCableAbortReason::CoreClosed,
            },
        ),
    );
    assert_eq!(
        state.validate_and_apply(&gba(0, start(1, 0))),
        Err(LinkCableTransactionError::TransferIdMismatch)
    );
    accept(&mut state, gba(0, start(2, 0)));
}

#[test]
fn gba_v2_requires_mode_apply_and_native_finish_acknowledgements() {
    let mut state = LinkCableTransactionState::new(LinkCableWireProtocol::GbaSioMultiV2);

    accept(&mut state, gba_v2(0, 0, mode_set(2)));
    accept(&mut state, gba_v2(0, 1, mode_set(2)));
    accept(&mut state, gba_v2(1, 0, mode_ack(0)));
    assert_eq!(
        state.validate_and_apply(&gba_v2(1, 0, mode_ack(99))),
        Err(LinkCableTransactionError::GbaModeAcknowledgementMismatch)
    );
    accept(&mut state, gba_v2(1, 2, mode_set(2)));
    accept(&mut state, gba_v2(0, 2, mode_ack(2)));

    // Slot zero's stale acknowledgement did not release its superseding
    // mode publication, so this exact-next start is a cancelled proposal.
    accept(&mut state, gba_v2(0, 3, start(1, 0x1111)));
    assert_eq!(
        state.validate_and_apply(&gba_v2(1, 3, reply(1, 0x2222))),
        Err(LinkCableTransactionError::NoPendingTransfer)
    );
    accept(&mut state, gba_v2(1, 3, mode_ack(1)));

    accept(&mut state, gba_v2(0, 4, start(2, 0x1111)));
    accept(&mut state, gba_v2(1, 4, reply(2, 0x2222)));
    accept(&mut state, gba_v2(0, 5, commit(2, [0x1111, 0x2222, 0xffff, 0xffff])));
    assert_eq!(
        state.validate_and_apply(&gba_v2(0, 6, start(3, 0x3333))),
        Err(LinkCableTransactionError::TransferAlreadyPending)
    );
    assert_eq!(
        state.validate_and_apply(&gba_v2(1, 5, finish_ack(1))),
        Err(LinkCableTransactionError::TransferIdMismatch)
    );
    accept(&mut state, gba_v2(1, 5, finish_ack(2)));
    accept(&mut state, gba_v2(0, 6, start(3, 0x3333)));
}

#[test]
fn gba_v2_nonfatally_cancels_both_start_mode_crossing_orders_before_reply() {
    let mut start_first = ready_gba_v2();
    accept(&mut start_first, gba_v2(0, 2, start(1, 0x1111)));
    accept(&mut start_first, gba_v2(1, 2, mode_set(0)));
    assert_eq!(
        start_first.validate_and_apply(&gba_v2(1, 3, reply(1, 0x2222))),
        Err(LinkCableTransactionError::NoPendingTransfer)
    );
    accept(&mut start_first, gba_v2(0, 3, mode_ack(2)));
    accept(&mut start_first, gba_v2(0, 4, start(2, 0x3333)));
    assert_eq!(
        start_first.validate_and_apply(&gba_v2(1, 4, reply(2, 0x4444))),
        Err(LinkCableTransactionError::NoPendingTransfer)
    );

    let mut mode_first = ready_gba_v2();
    accept(&mut mode_first, gba_v2(1, 2, mode_set(0)));
    accept(&mut mode_first, gba_v2(1, 3, mode_set(2)));
    accept(&mut mode_first, gba_v2(0, 2, mode_ack(2)));
    accept(&mut mode_first, gba_v2(0, 3, start(1, 0x1111)));
    accept(&mut mode_first, gba_v2(0, 4, mode_ack(3)));
    assert_eq!(
        mode_first.validate_and_apply(&gba_v2(0, 5, start(1, 0x2222))),
        Err(LinkCableTransactionError::TransferIdMismatch)
    );
    accept(&mut mode_first, gba_v2(0, 5, start(2, 0x2222)));
}

#[test]
fn gba_v2_mode_exit_remains_fatal_after_reply_or_commit() {
    let mut after_reply = ready_gba_v2();
    accept(&mut after_reply, gba_v2(0, 2, start(1, 0x1111)));
    accept(&mut after_reply, gba_v2(1, 2, reply(1, 0x2222)));
    assert_eq!(
        after_reply.validate_and_apply(&gba_v2(1, 3, mode_set(0))),
        Err(LinkCableTransactionError::GbaModeChangedDuringTransfer)
    );

    let mut after_commit = ready_gba_v2();
    accept(&mut after_commit, gba_v2(0, 2, start(1, 0x1111)));
    accept(&mut after_commit, gba_v2(1, 2, reply(1, 0x2222)));
    accept(&mut after_commit, gba_v2(0, 3, commit(1, [0x1111, 0x2222, 0xffff, 0xffff])));
    assert_eq!(
        after_commit.validate_and_apply(&gba_v2(1, 3, mode_set(0))),
        Err(LinkCableTransactionError::GbaModeChangedDuringTransfer)
    );
}

#[test]
fn gb_happy_paths_keep_independent_owner_id_sequences() {
    let mut state = LinkCableTransactionState::new(LinkCableWireProtocol::GbSerialV1);

    accept(&mut state, gb(0, gb_start(1, 0, 0xa5)));
    accept(&mut state, gb(1, gb_reply(1, 0, 0x3c)));
    accept(&mut state, gb(0, gb_commit(1, 0, [0xa5, 0x3c])));

    accept(&mut state, gb(1, gb_start(1, 1, 0x5a)));
    accept(&mut state, gb(0, gb_reply(1, 1, 0xc3)));
    accept(&mut state, gb(1, gb_commit(1, 1, [0xc3, 0x5a])));

    accept(&mut state, gb(0, gb_start(2, 0, 0x10)));
    accept(
        &mut state,
        gb(
            1,
            GbSerialEvent::Abort {
                transfer_id: 2,
                clock_owner_slot: 0,
                reason: LinkCableAbortReason::Timeout,
            },
        ),
    );
}

#[test]
fn gb_rejects_collisions_wrong_phases_ids_and_commit_bytes() {
    let mut state = LinkCableTransactionState::new(LinkCableWireProtocol::GbSerialV1);
    assert_eq!(
        state.validate_and_apply(&gb(1, gb_reply(1, 0, 0))),
        Err(LinkCableTransactionError::NoPendingTransfer)
    );
    accept(&mut state, gb(0, gb_start(1, 0, 0xa5)));
    assert_eq!(
        state.validate_and_apply(&gb(1, gb_start(1, 1, 0x5a))),
        Err(LinkCableTransactionError::TransferAlreadyPending)
    );
    assert_eq!(
        state.validate_and_apply(&gb(1, gb_reply(2, 0, 0x3c))),
        Err(LinkCableTransactionError::TransferIdMismatch)
    );
    accept(&mut state, gb(1, gb_reply(1, 0, 0x3c)));
    assert_eq!(
        state.validate_and_apply(&gb(0, gb_commit(1, 0, [0xa5, 0xff]))),
        Err(LinkCableTransactionError::CommitPayloadMismatch)
    );
}

#[test]
fn reset_clears_modes_pending_work_and_transfer_id_floors() {
    let mut state = ready_gba();
    accept(&mut state, gba(0, start(1, 0)));
    state.reset(LinkCableWireProtocol::GbaSioMultiV1);

    assert_eq!(
        state.validate_and_apply(&gba(0, start(1, 0))),
        Err(LinkCableTransactionError::GbaMultiModeNotReady)
    );
    accept(&mut state, gba(0, mode_set(2)));
    accept(&mut state, gba(1, mode_set(2)));
    accept(&mut state, gba(0, start(1, 0)));
}

#[test]
fn transfer_id_sequence_never_wraps_after_u32_max() {
    let mut sequence = TransferIdSequence {
        next: Some(u32::MAX),
    };

    sequence.accept(u32::MAX).expect("final transfer id");
    assert_eq!(
        sequence.accept(1),
        Err(LinkCableTransactionError::TransferIdExhausted)
    );
}

#[test]
fn frames_of_another_protocol_are_refused() {
    let mut state = LinkCableTransactionState::new(LinkCableWireProtocol::GbSerialV1);
    assert_eq!(
        state.validate_and_apply(&gba(0, mode_set(2))),
        Err(LinkCableTransactionError::ProtocolMismatch)
    );
    let mut state = LinkCableTransactionState::new(LinkCableWireProtocol::GbaSioMultiV1);
    assert_eq!(
        state.validate_and_apply(&gba_v2(0, 0, mode_set(2))),
        Err(LinkCableTransactionError::ProtocolMismatch)
    );
}

#[test]
fn v1_refuses_revision_two_acknowledgements() {
    let mut state = ready_gba();
    assert_eq!(
        state.validate_and_apply(&gba(1, mode_ack(0))),
        Err(LinkCableTransactionError::UnexpectedTransactionPhase)
    );
    assert_eq!(
        state.validate_and_apply(&gba(1, finish_ack(1))),
        Err(LinkCableTransactionError::UnexpectedTransactionPhase)
    );
}

#[test]
fn refused_events_leave_the_sequence_untouched() {
    let mut sequence = TransferIdSequence::default();
    assert_eq!(sequence.accept(2), Err(LinkCableTransactionError::TransferIdMismatch));
    assert_eq!(sequence, TransferIdSequence { next: Some(1) });
    sequence.accept(1).expect("exact next id");
    assert_eq!(sequence, TransferIdSequence { next: Some(2) });
}

#[test]
fn gb_events_naming_a_foreign_owner_get_ordinary_errors() {
    let mut state = LinkCableTransactionState::new(LinkCableWireProtocol::GbSerialV1);
    assert_eq!(
        state.validate_and_apply(&gb(5, gb_reply(1, 7, 0))),
        Err(LinkCableTransactionError::NoPendingTransfer)
    );
    accept(&mut state, gb(0, gb_start(1, 0, 0xa5)));
    assert_eq!(
        state.validate_and_apply(&gb(3, gb_start(1, 9, 0x5a))),
        Err(LinkCableTransactionError::TransferAlreadyPending)
    );
    assert_eq!(
        state.validate_and_apply(&gb(1, gb_reply(1, 2, 0x3c))),
        Err(LinkCableTransactionError::TransferIdMismatch)
    );
    assert_eq!(
        state.validate_and_apply(&gb(1, gb_commit(1, 2, [0xa5, 0x3c]))),
        Err(LinkCableTransactionError::UnexpectedTransactionPhase)
    );
    accept(&mut state, gb(4, gb_reply(1, 0, 0x3c)));
    accept(&mut state, gb(4, gb_commit(1, 0, [0xa5, 0x3c])));
}

#[test]
fn gba_transfer_events_are_judged_from_any_slot() {
    let mut state = ready_gba();
    accept(&mut state, gba(3, start(1, 0x1111)));
    accept(&mut state, gba(7, reply(1, 0x2222)));
    assert_eq!(
        state.validate_and_apply(&gba(2, mode_set(3))),
        Err(LinkCableTransactionError::GbaModeChangedDuringTransfer)
    );
    accept(&mut state, gba(5, commit(1, [0x1111, 0x2222, 0xffff, 0xffff])));
    let mut foreign = LinkCableTransactionState::new(LinkCableWireProtocol::GbSerialV1);
    assert_eq!(
        foreign.validate_and_apply(&gba(9, mode_set(2))),
        Err(LinkCableTransactionError::ProtocolMismatch)
    );
}

fn ready_gba() -> LinkCableTransactionState {
    let mut state = LinkCableTransactionState::new(LinkCableWireProtocol::GbaSioMultiV1);
    accept(&mut state, gba(0, mode_set(2)));
    accept(&mut state, gba(1, mode_set(2)));
    state
}

fn ready_gba_v2() -> LinkCableTransactionState {
    let mut state = LinkCableTransactionState::new(LinkCableWireProtocol::GbaSioMultiV2);
    accept(&mut state, gba_v2(0, 0, mode_set(2)));
    accept(&mut state, gba_v2(1, 0, mode_ack(0)));
    accept(&mut state, gba_v2(1, 1, mode_set(2)));
    accept(&mut state, gba_v2(0, 1, mode_ack(1)));
    state
}

fn accept(state: &mut LinkCableTransactionState, frame: LinkCableWireFrame) {
    state
        .validate_and_apply(&frame)
        .expect("valid transaction event");
}

fn header(sender_slot: u8) -> LinkCableWireHeader {
    LinkCableWireHeader {
        room_epoch: 1,
        session_epoch: 1,
        cable_epoch: 1,
        sender_sequence: 0,
        sender_slot,
    }
}

fn gba(sender_slot: u8, event: GbaSioMultiEvent) -> LinkCableWireFrame {
    LinkCableWireFrame::GbaSioMulti(GbaSioMultiFrame {
        header: header(sender_slot),
        event,
    })
}

fn gba_v2(sender_slot: u8, sender_sequence: u64, event: GbaSioMultiEvent) -> LinkCableWireFrame {
    let mut header = header(sender_slot);
    header.sender_sequence = sender_sequence;
    LinkCableWireFrame::GbaSioMultiV2(GbaSioMultiFrame { header, event })
}

fn gb(sender_slot: u8, event: GbSerialEvent) -> LinkCableWireFrame {
    LinkCableWireFrame::GbSerial(GbSerialFrame {
        header: header(sender_slot),
        event,
    })
}

fn mode_set(mode: u8) -> GbaSioMultiEvent {
    GbaSioMultiEvent::ModeSet {
        mode,
        siocnt: 0,
        rcnt: 0,
        emulated_time: 0,
    }
}

fn start(transfer_id: u32, parent_word: u16) -> GbaSioMultiEvent {
    GbaSioMultiEvent::TransferStart {
        transfer_id,
        siocnt: 0x2000,
        parent_word,
        emulated_time: 0,
    }
}

fn reply(transfer_id: u32, child_word: u16) -> GbaSioMultiEvent {
    GbaSioMultiEvent::TransferReply {
        transfer_id,
        child_word,
        emulated_time: 0,
    }
}

fn commit(transfer_id: u32, words: [u16; 4]) -> GbaSioMultiEvent {
    GbaSioMultiEvent::TransferCommit { transfer_id, words }
}

fn mode_ack(acknowledged_mode_sender_sequence: u64) -> GbaSioMultiEvent {
    GbaSioMultiEvent::ModeAck {
        acknowledged_mode_sender_sequence,
        emulated_time: 0,
    }
}

fn finish_ack(transfer_id: u32) -> GbaSioMultiEvent {
    GbaSioMultiEvent::FinishAck {
        transfer_id,
        emulated_time: 0,
    }
}

fn gb_start(transfer_id: u32, owner: u8, owner_byte: u8) -> GbSerialEvent {
    GbSerialEvent::Start {
        transfer_id,
        clock_owner_slot: owner,
        sc_control: GB_SERIAL_NORMAL_CLOCK_CONTROL,
        owner_byte,
        emulated_time: 0,
    }
}

fn gb_reply(transfer_id: u32, owner: u8, responder_byte: u8) -> GbSerialEvent {
    GbSerialEvent::Reply {
        transfer_id,
        clock_owner_slot: owner,
        responder_byte,
        emulated_time: 0,
    }
}

fn gb_commit(transfer_id: u32, owner: u8, slot_bytes: [u8; 2]) -> GbSerialEvent {
    GbSerialEvent::Commit {
        transfer_id,
        clock_owner_slot: owner,
        slot_bytes,
    }
}
