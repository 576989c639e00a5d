//! Server-authoritative namespace for one room's private link identity.
//!
//! A room scope is deliberately neither serializable nor displayable: it is
//! allocated once when the authoritative room is constructed and exposed only
//! to link-private server code.

use vstd::prelude::*;
use crate::ids::random_v4_uuid_bits;

verus! {

/// Greatest value representable in the non-negative signed 64-bit wire domain.
pub const MAX_ROOM_SCOPE: u64 = 0x7fff_ffff_ffff_ffff;

/// A scope value: positive and inside the signed-63-bit domain.
pub open spec fn is_scope_value(v: int) -> bool {
    1 <= v <= MAX_ROOM_SCOPE
}

/// Opaque, positive namespace allocated once for one authoritative room id.
#[derive(Clone, Copy, PartialEq, Eq, Structural, Hash)]
pub struct RoomScope {
    value: u64,
}

impl View for RoomScope {
    type V = u64;

    closed spec fn view(&self) -> u64 {
        self.value
    }
}

impl RoomScope {
    #[verifier::type_invariant]
    closed spec fn wf(self) -> bool {
        is_scope_value(self.value as int)
    }

    /// Creates a scope only inside the positive signed-63-bit value domain.
    pub fn new(value: u64) -> (s: Option<Self>)
        ensures
            s is Some <==> is_scope_value(value as int),
            s matches Some(scope) ==> scope@ == value,
    {
        if value > MAX_ROOM_SCOPE || value == 0 {
            None
        } else {
            Some(RoomScope { value })
        }
    }

    /// Returns the numeric value for link-private grants and admission keys.
    pub fn get(self) -> (v: u64)
        ensures
            v == self@,
            is_scope_value(v as int),
    {
        proof {
            use_type_invariant(&self);
        }
        self.value
    }

    /// Debug text that never reveals the scope value.
    pub fn debug_label(&self) -> (label: &'static str)
        ensures
            label@ == "RoomScope(<opaque>)"@,
    {
        "RoomScope(<opaque>)"
    }
}

/// Scope issued for the `offset`-th allocation (counting from 1) of an
/// allocator seeded with `seed`.
pub open spec fn allocated_scope(seed: int, offset: int) -> int {
    ((seed - 1 + offset) % (MAX_ROOM_SCOPE as int)) + 1
}

/// Seed drawn from `random`: its low 63 bits, raised to 1 when they are all
/// zero.
pub open spec fn seed_for(random: u64) -> int {
    let masked = (random & MAX_ROOM_SCOPE) as int;
    if masked < 1 { 1 } else { masked }
}

/// Monotonic allocator: the `n`-th scope is the seed advanced by `n - 1`
/// positions around the signed-63-bit ring, so no value repeats until the
/// domain is exhausted.
pub struct ServerRoomScopeAllocator {
    seed: u64,
    issued: u64,
}

impl ServerRoomScopeAllocator {
    #[verifier::type_invariant]
    closed spec fn wf(self) -> bool {
        &&& is_scope_value(self.seed as int)
        &&& self.issued <= MAX_ROOM_SCOPE
    }

    /// Random starting point of this allocator.
    pub closed spec fn seed(self) -> int {
        self.seed as int
    }

    /// Number of scopes issued so far.
    pub closed spec fn issued(self) -> int {
        self.issued as int
    }

    /// Creates an allocator whose sequence starts at a random point, so it
    /// does not restart at a predictable value after a process restart.
    pub fn new() -> (a: Self)
        ensures
            a.issued() == 0,
            is_scope_value(a.seed()),
    {
        let random = random_v4_uuid_bits() as u64;
        Self::with_seed(random)
    }

    /// Creates an allocator seeded from `random`, masked to the domain.
    pub fn with_seed(random: u64) -> (a: Self)
        ensures
            a.issued() == 0,
            a.seed() == seed_for(random),
            is_scope_value(a.seed()),
    {
        let masked = random & MAX_ROOM_SCOPE;
        assert(masked <= MAX_ROOM_SCOPE) by (bit_vector)
            requires masked == random & 0x7fff_ffff_ffff_ffffu64;
        let seed = if masked < 1 { 1 } else { masked };
        ServerRoomScopeAllocator { seed, issued: 0 }
    }

    /// Whether every scope of the domain has been issued.
    pub fn is_exhausted(&self) -> (b: bool)
        ensures
            b == (self.issued() >= MAX_ROOM_SCOPE),
    {
        self.issued >= MAX_ROOM_SCOPE
    }

    /// Returns a fresh scope that this allocator will not assign again.
    pub fn allocate(&mut self) -> (s: RoomScope)
        requires
            old(self).issued() < MAX_ROOM_SCOPE,
        ensures
            final(self).seed() == old(self).seed(),
            final(self).issued() == old(self).issued() + 1,
            s@ as int == allocated_scope(old(self).seed(), final(self).issued()),
    {
        proof {
            use_type_invariant(&*self);
        }
        let offset = self.issued + 1;
        let value = ((self.seed - 1 + offset) % MAX_ROOM_SCOPE) + 1;
        self.issued = offset;
        RoomScope { value }
    }
}

/// Two different allocations of one allocator yield different scopes.
pub proof fn law_allocations_are_distinct(seed: int, first: int, second: int)
    requires
        is_scope_value(seed),
        1 <= first < second <= MAX_ROOM_SCOPE,
    ensures
        allocated_scope(seed, first) != allocated_scope(seed, second),
        is_scope_value(allocated_scope(seed, first)),
        is_scope_value(allocated_scope(seed, second)),
{
    let m = MAX_ROOM_SCOPE as int;
    let x = seed - 1 + first;
    let y = seed - 1 + second;
    assert(x % m != y % m) by (nonlinear_arith)
        requires
            m > 0,
            0 <= x < y,
            y - x < m,
    {
        if x % m == y % m {
            assert(x == (x / m) * m + x % m);
            assert(y == (y / m) * m + y % m);
            assert((y / m - x / m) * m == y - x);
        }
    }
}

} // verus!
