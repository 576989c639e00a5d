//! Strong identifiers used by room domain code.
//!
//! Room and connection identifiers hold the 128 bits of a random version-4
//! UUID; player indexes are zero-based slot numbers.

use vstd::prelude::*;

verus! {

/// Declares `uuid::Uuid` so that signatures may carry it.
#[verifier::external_type_specification]
#[verifier::external_body]
pub struct ExUuid(uuid::Uuid);

/// True when `bits` carries the version-4 nibble and the RFC 4122 variant.
pub open spec fn is_v4_uuid_bits(bits: u128) -> bool {
    &&& (bits >> 76u128) & 0xfu128 == 4u128
    &&& (bits >> 62u128) & 3u128 == 2u128
}

/// Calls `uuid::Uuid::new_v4` and reads its 128 bits with `as_u128`.
/// The value is random: only the version and variant bits, which `new_v4`
/// always sets, are stated.
#[verifier::external_body]
pub(crate) fn random_v4_uuid_bits() -> (bits: u128)
    ensures
        is_v4_uuid_bits(bits),
{
    uuid::Uuid::new_v4().as_u128()
}

/// The UUID whose 128 bits, read big-endian, are `bits`: what
/// `uuid::Uuid::from_u128` returns.
pub uninterp spec fn uuid_from_u128(bits: u128) -> uuid::Uuid;

/// Calls `uuid::Uuid::from_u128`, which builds the UUID whose 128 bits are
/// `bits`. The contract says only that the result is that function of
/// `bits`: the UUID is opaque here.
#[verifier::external_body]
fn uuid_from_bits(bits: u128) -> (u: uuid::Uuid)
    ensures
        u == uuid_from_u128(bits),
{
    uuid::Uuid::from_u128(bits)
}

/// Internal room identifier.
#[derive(Clone, Copy, Debug, PartialEq, Eq, Structural, Hash)]
pub struct RoomId(pub u128);

impl RoomId {
    /// Generates a new unique room identifier.
    pub fn new() -> (id: Self)
        ensures
            is_v4_uuid_bits(id.0),
    {
        RoomId(random_v4_uuid_bits())
    }

    /// Returns the raw UUID used by storage and wire diagnostics.
    pub fn as_uuid(self) -> (u: uuid::Uuid)
        ensures
            u == uuid_from_u128(self.0),
    {
        uuid_from_bits(self.0)
    }
}

/// Per-socket connection identifier.
#[derive(Clone, Copy, Debug, PartialEq, Eq, Structural, Hash)]
pub struct ConnectionId(pub u128);

impl ConnectionId {
    /// Generates a new unique connection identifier.
    pub fn new() -> (id: Self)
        ensures
            is_v4_uuid_bits(id.0),
    {
        ConnectionId(random_v4_uuid_bits())
    }

    /// Compares two connection identifiers.
    pub fn same(&self, other: &Self) -> (r: bool)
        ensures
            r == (*self == *other),
    {
        self.0 == other.0
    }
}

/// Zero-based netplay player index.
#[derive(Clone, Copy, Debug, PartialEq, Eq, Structural, Hash, PartialOrd, Ord)]
pub struct PlayerIndex(pub u8);

impl PlayerIndex {
    /// Host player for the two-player room.
    pub fn one() -> (p: Self)
        ensures
            p.0 == 0,
    {
        PlayerIndex(0)
    }

    /// Guest player for the two-player room.
    pub fn two() -> (p: Self)
        ensures
            p.0 == 1,
    {
        PlayerIndex(1)
    }

    /// Creates a player index if it fits the room capacity.
    pub fn new(value: u8, max_players: u8) -> (p: Option<Self>)
        ensures
            p == (if value < max_players { Some(PlayerIndex(value)) } else { None::<PlayerIndex> }),
    {
        if value < max_players {
            Some(PlayerIndex(value))
        } else {
            None
        }
    }

    /// Returns the zero-based value used by protocol messages.
    pub fn zero_based(self) -> (v: u8)
        ensures
            v == self.0,
    {
        self.0
    }

    /// Returns the one-based value shown to users.
    pub fn display_number(self) -> (v: u8)
        requires
            self.0 < 255,
        ensures
            v == self.0 + 1,
    {
        self.0 + 1
    }

    /// Compares two player indexes.
    pub fn same(&self, other: &Self) -> (r: bool)
        ensures
            r == (*self == *other),
    {
        self.0 == other.0
    }
}

} // verus!
