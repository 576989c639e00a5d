//! Link-cable-specific room state.
//!
//! This module owns compatibility fingerprints for virtual link-cable rooms.
//! Packet ordering and delivery live exclusively in the room-private bounded
//! data plane.

use vstd::prelude::*;
use std::collections::HashMap;
use vstd::std_specs::iter::IteratorSpec;
use crate::errors::RoomError;
use crate::ids::PlayerIndex;

verus! {

broadcast use vstd::std_specs::hash::group_hash_axioms;

/// Serial modes a link-cable client can drive.
#[derive(Clone, Copy, Debug, PartialEq, Eq, Structural)]
pub enum LinkCableMode {
    /// GBA SIO multi-player mode.
    Multi,
}

/// Link-cable part of a room's session descriptor.
#[derive(Clone, Debug)]
pub struct LinkCableDescriptor {
    /// Console family, such as `gba`.
    pub system_family: String,
    /// Wire protocol namespace, such as `gba-sio-multi-v1`.
    pub link_protocol: String,
    /// Emulator runtime profile both endpoints must share.
    pub runtime_profile: String,
    /// Number of cable endpoints.
    pub max_players: u8,
}

/// Link compatibility a player reports before a link room starts.
#[derive(Clone, Debug)]
pub struct LinkCableCompatibility {
    /// Netplay protocol version the client speaks.
    pub protocol_version: u16,
    /// Console family the client emulates.
    pub system_family: String,
    /// Wire protocol namespace the client drives.
    pub link_protocol: String,
    /// Emulator runtime profile of the client.
    pub runtime_profile: String,
    /// Exact emulator core build.
    pub core_build_id: String,
    /// Serial modes the client supports.
    pub supported_modes: Vec<LinkCableMode>,
}

/// Everything two peers must agree on, as plain values.
pub type CompatibilityFingerprint = (u16, Seq<char>, Seq<char>, Seq<char>, Seq<char>, Seq<LinkCableMode>);

impl LinkCableCompatibility {
    /// The reported compatibility as plain values.
    pub open spec fn fingerprint(&self) -> CompatibilityFingerprint {
        (
            self.protocol_version,
            self.system_family@,
            self.link_protocol@,
            self.runtime_profile@,
            self.core_build_id@,
            self.supported_modes@,
        )
    }

    /// Whether the report names the room's family, protocol and runtime profile.
    pub open spec fn spec_matches_descriptor(&self, link: &LinkCableDescriptor) -> bool {
        &&& self.system_family@ == link.system_family@
        &&& self.link_protocol@ == link.link_protocol@
        &&& self.runtime_profile@ == link.runtime_profile@
    }

    /// Returns whether this report names the room's family, protocol and
    /// runtime profile.
    pub fn matches_descriptor(&self, link: &LinkCableDescriptor) -> (r: bool)
        ensures
            r == self.spec_matches_descriptor(link),
    {
        self.system_family == link.system_family && self.link_protocol == link.link_protocol
            && self.runtime_profile == link.runtime_profile
    }

    /// Returns whether two peers reported exactly the same compatibility.
    pub fn matches_peer(&self, other: &LinkCableCompatibility) -> (r: bool)
        ensures
            r == (self.fingerprint() == other.fingerprint()),
    {
        if self.protocol_version != other.protocol_version || self.system_family != other.system_family
            || self.link_protocol != other.link_protocol || self.runtime_profile != other.runtime_profile
            || self.core_build_id != other.core_build_id {
            return false;
        }
        let n = self.supported_modes.len();
        if n != other.supported_modes.len() {
            return false;
        }
        let mut i: usize = 0;
        while i < n
            invariant
                n == self.supported_modes@.len(),
                n == other.supported_modes@.len(),
                i <= n,
                forall|j: int| 0 <= j < i ==> self.supported_modes@[j] == other.supported_modes@[j],
            decreases n - i,
        {
            if self.supported_modes[i] != other.supported_modes[i] {
                return false;
            }
            i = i + 1;
        }
        assert(self.supported_modes@ =~= other.supported_modes@);
        true
    }
}

/// Runtime state for one link-cable room.
#[derive(Clone, Debug)]
pub struct LinkCableRoomState {
    compatibility: HashMap<u8, LinkCableCompatibility>,
}

impl View for LinkCableRoomState {
    /// Each reporting player's zero-based index, mapped to its report.
    type V = Map<u8, LinkCableCompatibility>;

    closed spec fn view(&self) -> Map<u8, LinkCableCompatibility> {
        self.compatibility@
    }
}

impl Default for LinkCableRoomState {
    fn default() -> (s: Self)
        ensures
            s@ == Map::<u8, LinkCableCompatibility>::empty(),
    {
        LinkCableRoomState::new()
    }
}

/// Whether every connected player is counted and has reported compatibility.
pub open spec fn all_reported(
    reports: Map<u8, LinkCableCompatibility>,
    connected_players: Seq<PlayerIndex>,
    max_players: u8,
) -> bool {
    &&& connected_players.len() == max_players
    &&& forall|i: int| 0 <= i < connected_players.len() ==> reports.contains_key(#[trigger] connected_players[i].0)
}

/// Whether there is at least one report and every report agrees with every other.
pub open spec fn reports_agree(reports: Map<u8, LinkCableCompatibility>) -> bool {
    &&& reports.dom().len() > 0
    &&& forall|a: u8, b: u8| reports.contains_key(a) && reports.contains_key(b)
        ==> (#[trigger] reports[a]).fingerprint() == (#[trigger] reports[b]).fingerprint()
}

impl LinkCableRoomState {
    /// Creates a state with no reports.
    pub fn new() -> (s: Self)
        ensures
            s@ == Map::<u8, LinkCableCompatibility>::empty(),
    {
        LinkCableRoomState { compatibility: HashMap::new() }
    }

    /// Clears compatibility before a new join/sync cycle.
    pub fn reset(&mut self)
        ensures
            final(self)@ == Map::<u8, LinkCableCompatibility>::empty(),
    {
        self.compatibility.clear();
    }

    /// Stores one player's link compatibility and validates it against the room.
    ///
    /// A report for another protocol version, or for another family, wire
    /// protocol or runtime profile than the room's, is refused and removes
    /// whatever the player reported before.
    pub fn set_compatibility(
        &mut self,
        player_index: PlayerIndex,
        protocol_version: u16,
        link: &LinkCableDescriptor,
        compatibility: LinkCableCompatibility,
    ) -> (r: Result<(), RoomError>)
        ensures
            compatibility.protocol_version == protocol_version && compatibility.spec_matches_descriptor(link) ==> {
                &&& r is Ok
                &&& final(self)@ == old(self)@.insert(player_index.0, compatibility)
            },
            !(compatibility.protocol_version == protocol_version && compatibility.spec_matches_descriptor(link)) ==> {
                &&& r == Err::<(), RoomError>(RoomError::CompatibilityMismatch)
                &&& final(self)@ == old(self)@.remove(player_index.0)
            },
    {
        if compatibility.protocol_version != protocol_version || !compatibility.matches_descriptor(link) {
            self.compatibility.remove(&player_index.0);
            return Err(RoomError::CompatibilityMismatch);
        }
        self.compatibility.insert(player_index.0, compatibility);
        Ok(())
    }

    /// Returns whether every connected player has compatible link metadata.
    pub fn connected_players_have_compatibility(&self, connected_players: &[PlayerIndex], max_players: u8) -> (r: bool)
        ensures
            r == all_reported(self@, connected_players@, max_players),
    {
        if connected_players.len() != max_players as usize {
            return false;
        }
        let mut i: usize = 0;
        while i < connected_players.len()
            invariant
                i <= connected_players@.len(),
                forall|j: int| 0 <= j < i ==> self@.contains_key(#[trigger] connected_players@[j].0),
            decreases connected_players@.len() - i,
        {
            if !self.compatibility.contains_key(&connected_players[i].0) {
                return false;
            }
            i = i + 1;
        }
        true
    }

    /// Returns whether every connected player has matching link metadata.
    pub fn connected_players_are_compatible(&self, connected_players: &[PlayerIndex], max_players: u8) -> (r: bool)
        ensures
            r == (all_reported(self@, connected_players@, max_players) && reports_agree(self@)),
    {
        self.connected_players_have_compatibility(connected_players, max_players) && self.compatibility_values_match()
    }

    fn compatibility_values_match(&self) -> (r: bool)
        ensures
            r == reports_agree(self@),
    {
        let ghost m = self.compatibility@;
        let ghost vals = vstd::std_specs::hash::spec_values_iter(&self.compatibility).remaining();
        let ghost mut count: int = 0;
        let mut baseline: Option<&LinkCableCompatibility> = None;
        let mut all_match = true;
        for candidate in it: self.compatibility.values()
            invariant
                it.seq() == vals,
                count == it.index(),
                baseline is None <==> count == 0,
                baseline matches Some(b) ==> vals.len() > 0 && *b == *vals[0],
                all_match <==> forall|j: int| 0 <= j < count ==> (*#[trigger] vals[j]).fingerprint() == (*vals[0]).fingerprint(),
        {
            match baseline {
                None => {
                    baseline = Some(candidate);
                },
                Some(b) => {
                    if !b.matches_peer(candidate) {
                        all_match = false;
                    }
                },
            }
            proof {
                count = count + 1;
            }
        }
        proof {
            let u = vals.unref();
            assert(u.to_set() == m.values());
            assert(u.len() == m.dom().len());
            assert(count == vals.len());
            if baseline.is_some() && all_match {
                assert forall|a: u8, b: u8| m.contains_key(a) && m.contains_key(b)
                    implies (#[trigger] m[a]).fingerprint() == (#[trigger] m[b]).fingerprint() by {
                    assert(m.values().contains(m[a]));
                    assert(m.values().contains(m[b]));
                    assert(u.to_set().contains(m[a]));
                    assert(u.to_set().contains(m[b]));
                    let ja = choose|j: int| 0 <= j < u.len() && u[j] == m[a];
                    let jb = choose|j: int| 0 <= j < u.len() && u[j] == m[b];
                    assert(*vals[ja] == u[ja]);
                    assert(*vals[jb] == u[jb]);
                }
            }
            if reports_agree(m) {
                assert(u.len() > 0);
                assert forall|j: int| 0 <= j < count implies (*#[trigger] vals[j]).fingerprint() == (*vals[0]).fingerprint() by {
                    assert(u[j] == *vals[j]);
                    assert(u[0] == *vals[0]);
                    assert(u.to_set().contains(u[j]));
                    assert(u.to_set().contains(u[0]));
                    assert(m.values().contains(u[j]));
                    assert(m.values().contains(u[0]));
                    let ka = choose|k: u8| m.contains_key(k) && m[k] == u[j];
                    let kb = choose|k: u8| m.contains_key(k) && m[k] == u[0];
                    assert(m[ka].fingerprint() == m[kb].fingerprint());
                }
            }
        }
        baseline.is_some() && all_match
    }
}

} // verus!
