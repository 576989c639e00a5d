//! Tunable room recovery timing, in milliseconds.
//!
//! The relay keeps recovery state in memory. These durations are parsed once
//! from configuration and injected into the registry.

use vstd::prelude::*;

verus! {

/// Timing policy for reconnect, heartbeat, and idle cleanup (milliseconds).
#[derive(Clone, Copy, Debug, PartialEq, Eq, Structural)]
pub struct RoomRecoveryConfig {
    /// How long a delivered runner handoff capability may wait for the runner.
    pub runner_handoff_grace: u64,
    /// How long a disconnected player may reclaim the same slot.
    pub reconnect_grace: u64,
    /// How long without heartbeat before a player is considered stale.
    pub heartbeat_stale: u64,
    /// How long without heartbeat before a player is moved into recovery.
    pub heartbeat_disconnect: u64,
    /// How long a completely idle room may remain in memory.
    pub room_idle: u64,
}

impl Default for RoomRecoveryConfig {
    /// One minute of handoff grace, ninety seconds to reconnect, fifteen
    /// seconds to stale, thirty to recovery, five minutes of idleness.
    fn default() -> (c: Self)
        ensures
            c.runner_handoff_grace == 60_000,
            c.reconnect_grace == 90_000,
            c.heartbeat_stale == 15_000,
            c.heartbeat_disconnect == 30_000,
            c.room_idle == 300_000,
    {
        RoomRecoveryConfig {
            runner_handoff_grace: 60_000,
            reconnect_grace: 90_000,
            heartbeat_stale: 15_000,
            heartbeat_disconnect: 30_000,
            room_idle: 300_000,
        }
    }
}

} // verus!
