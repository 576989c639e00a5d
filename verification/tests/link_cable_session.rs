use netplay_rooms::errors::RoomError;
use netplay_rooms::ids::PlayerIndex;
use netplay_rooms::link_cable_data_plane::{LinkCableDataPlaneError, LinkCableWireCodecError};
use netplay_rooms::link_cable_session::{link_protocol_for, LinkCableSession};
use netplay_rooms::link_cable_transaction::LinkCableTransactionError;
use netplay_rooms::link_wire::LinkCableWireProtocol;

#[test]
fn mapping_preserves_static_link_rejection_class() {
    assert_eq!(
        LinkCableSession::map_data_plane_error(LinkCableDataPlaneError::Transaction(
            LinkCableTransactionError::TransferAlreadyPending,
        )),
        RoomError::LinkPacketInvalid {
            diagnostic_class: "transactionTransferAlreadyPending",
        }
    );
    assert_eq!(
        LinkCableSession::map_data_plane_error(LinkCableDataPlaneError::WireCodec(
            LinkCableWireCodecError::UnsupportedMagic,
        )),
        RoomError::LinkPacketInvalid {
            diagnostic_class: "wireUnsupportedMagic",
        }
    );
}

#[test]
fn lifecycle_failures_map_to_room_vocabulary() {
    assert_eq!(LinkCableSession::map_data_plane_error(LinkCableDataPlaneError::Closed), RoomError::RoomClosed);
    assert_eq!(
        LinkCableSession::map_data_plane_error(LinkCableDataPlaneError::AttachmentReplaced),
        RoomError::UnknownConnection
    );
    assert_eq!(
        LinkCableSession::map_data_plane_error(LinkCableDataPlaneError::RoomEpochMismatch),
        RoomError::StaleRoomEpoch
    );
    assert_eq!(
        LinkCableSession::map_data_plane_error(LinkCableDataPlaneError::SessionEpochMismatch),
        RoomError::StaleSessionEpoch
    );
    assert_eq!(
        LinkCableSession::map_data_plane_error(LinkCableDataPlaneError::TargetUnavailable),
        RoomError::NotPlaying
    );
    assert_eq!(
        LinkCableSession::map_data_plane_error(LinkCableDataPlaneError::ReceiverAlreadyClaimed),
        RoomError::RoomNotReady
    );
    assert_eq!(
        LinkCableSession::map_data_plane_error(LinkCableDataPlaneError::EnvelopeSlotMismatch(PlayerIndex::two())),
        RoomError::SlotSpoofing(PlayerIndex::two())
    );
    assert_eq!(
        LinkCableSession::map_data_plane_error(LinkCableDataPlaneError::QueueOverflow),
        RoomError::LinkPacketInvalid { diagnostic_class: "queueOverflow" }
    );
    assert_eq!(LinkCableDataPlaneError::StatePoisoned.diagnostic_class(), "statePoisoned");
}

#[test]
fn descriptor_pairs_select_wire_protocols() {
    assert_eq!(link_protocol_for("gb", "gb-serial-v1"), Some(LinkCableWireProtocol::GbSerialV1));
    assert_eq!(
        link_protocol_for("gba", "gba-sio-multi-v1"),
        Some(LinkCableWireProtocol::GbaSioMultiV1)
    );
    assert_eq!(
        link_protocol_for("gba", "gba-sio-multi-v2"),
        Some(LinkCableWireProtocol::GbaSioMultiV2)
    );
    assert_eq!(link_protocol_for("gb", "gba-sio-multi-v1"), None);
    assert_eq!(link_protocol_for("gba", "gb-serial-v1"), None);
    assert_eq!(link_protocol_for("nes", ""), None);
}
