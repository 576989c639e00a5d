use netplay_rooms::clock::millis_as_u64;
use netplay_rooms::errors::RoomError;
use netplay_rooms::ids::PlayerIndex;
use netplay_rooms::link_cable_transaction::LinkCableTransactionError;

#[test]
fn room_errors_describe_themselves() {
    assert_eq!(RoomError::RoomFull.message(), "room is full");
    assert_eq!(
        RoomError::SlotSpoofing(PlayerIndex::one()).message(),
        "connection cannot send input for another player"
    );
    assert_eq!(
        RoomError::LinkPacketInvalid { diagnostic_class: "x" }.message(),
        "link-cable packet is invalid"
    );
}

#[test]
fn transaction_errors_describe_themselves() {
    assert_eq!(
        LinkCableTransactionError::TransferIdExhausted.message(),
        "link cable transfer identifier space is exhausted"
    );
}

#[test]
fn elapsed_milliseconds_saturate() {
    assert_eq!(millis_as_u64(42), 42);
    assert_eq!(millis_as_u64(u128::from(u64::MAX) + 1), u64::MAX);
}
