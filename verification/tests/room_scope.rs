use netplay_rooms::room_scope::{RoomScope, ServerRoomScopeAllocator, MAX_ROOM_SCOPE};

#[test]
fn scope_accepts_exact_positive_signed_63_bit_domain() {
    assert!(RoomScope::new(0).is_none());
    assert_eq!(RoomScope::new(1).expect("minimum live scope").get(), 1);
    assert_eq!(
        RoomScope::new(MAX_ROOM_SCOPE)
            .expect("maximum signed-63-bit scope")
            .get(),
        MAX_ROOM_SCOPE
    );
    assert!(RoomScope::new(MAX_ROOM_SCOPE + 1).is_none());
}

#[test]
fn server_allocator_issues_distinct_valid_scopes() {
    let mut allocator = ServerRoomScopeAllocator::new();
    let first = allocator.allocate();
    let second = allocator.allocate();

    assert!(first != second);
    assert!((1..=MAX_ROOM_SCOPE).contains(&first.get()));
    assert!((1..=MAX_ROOM_SCOPE).contains(&second.get()));
}

#[test]
fn debug_output_never_reveals_the_scope_value() {
    let scope = RoomScope::new(8_765_432_109).expect("scope");
    let debug = scope.debug_label();

    assert!(!debug.contains("8765432109"));
    assert_eq!(debug, "RoomScope(<opaque>)");
}

#[test]
fn allocation_wraps_around_the_domain_from_the_seed() {
    let mut allocator = ServerRoomScopeAllocator::with_seed(MAX_ROOM_SCOPE);
    assert_eq!(allocator.allocate().get(), 1);
    assert_eq!(allocator.allocate().get(), 2);
    let mut zero_seed = ServerRoomScopeAllocator::with_seed(0);
    assert_eq!(zero_seed.allocate().get(), 2);
    assert!(!zero_seed.is_exhausted());
}

#[test]
fn seed_keeps_only_the_low_63_bits() {
    let mut allocator = ServerRoomScopeAllocator::with_seed(0x8000_0000_0000_0005);
    assert_eq!(allocator.allocate().get(), 6);
}
