//! One room's share of the periodic lifecycle sweep.
//!
//! The sweep expires runner handoffs, marks and times out silent sockets,
//! and decides whether the room has expired and should leave storage.

use vstd::prelude::*;
use crate::recovery_config::RoomRecoveryConfig;
use crate::room::{same_identity, NetplayRoom, RoomModel};
use crate::room_connection_diagnostics::RoomStatus;
use crate::room_connection_ops::{idle_disconnected, recover_outcome, recovery_expired, stale_outcome};
use crate::room_runner_handoff_ops::expire_outcome;

verus! {

/// What one sweep did to a room.
#[derive(Clone, Copy, Debug, PartialEq, Eq, Structural)]
pub struct RoomLifecycleSweep {
    /// What expiring runner handoffs reported: `Some(true)` when a host
    /// handoff closed the room, `Some(false)` when guest slots were cleared.
    pub handoff_expired: Option<bool>,
    /// Whether sockets were newly marked stale.
    pub heartbeat_stale: bool,
    /// Whether heartbeat timeouts started recovery.
    pub heartbeat_timed_out: bool,
    /// Whether the room expired and should leave storage.
    pub expired: bool,
}

/// Whether a room created at `created_at` has waited for a guest at least
/// `join_timeout` by `now`.
pub open spec fn waiting_expired(status: RoomStatus, created_at: u64, now: u64, join_timeout: u64) -> bool {
    status == RoomStatus::WaitingForGuest && now >= created_at && now - created_at >= join_timeout
}

/// Outcome of sweeping a room created at `created_at` at `now` under
/// `config`, where a room still waiting for its guest after `join_timeout`
/// expires too.
pub open spec fn sweep_outcome(m: RoomModel, created_at: u64, now: u64, config: RoomRecoveryConfig, join_timeout: u64)
    -> (RoomModel, RoomLifecycleSweep)
{
    let (m1, handoff_expired) = expire_outcome(m, now);
    let (m2, heartbeat_stale) = stale_outcome(m1, now, config.heartbeat_stale, config.heartbeat_disconnect);
    let (m3, heartbeat_timed_out) = recover_outcome(m2, now, config.heartbeat_disconnect, config.reconnect_grace);
    let expired = handoff_expired == Some(true) || waiting_expired(m3.status, created_at, now, join_timeout)
        || recovery_expired(m3, now)
        || idle_disconnected(m3.players, now, config.room_idle);
    (m3, RoomLifecycleSweep { handoff_expired, heartbeat_stale, heartbeat_timed_out, expired })
}

impl NetplayRoom {
    /// Sweeps this room at `now`: expires runner handoffs, marks stale
    /// sockets, moves timed-out sockets into recovery, and reports whether
    /// the room expired (a host handoff closed it, it waited for a guest
    /// for `join_timeout`, a reconnect deadline passed, or everyone left
    /// long enough ago).
    pub fn sweep_lifecycle(&mut self, now: u64, config: RoomRecoveryConfig, join_timeout: u64) -> (sweep: RoomLifecycleSweep)
        requires
            old(self).wf(),
            now + config.reconnect_grace <= u64::MAX,
        ensures
            final(self).wf(),
            same_identity(old(self), final(self)),
            (final(self)@, sweep) == sweep_outcome(old(self)@, old(self).created_at, now, config, join_timeout),
    {
        let handoff_expired = self.expire_runner_handoffs(now);
        let heartbeat_stale = self.mark_stale_connections(now, config.heartbeat_stale, config.heartbeat_disconnect);
        let heartbeat_timed_out = self.recover_stale_connections(now, config.heartbeat_disconnect, config.reconnect_grace);
        let host_handoff_closed = match handoff_expired {
            Some(closed) => closed,
            None => false,
        };
        let waiting = self.status == RoomStatus::WaitingForGuest && now >= self.created_at
            && now - self.created_at >= join_timeout;
        let expired = host_handoff_closed || waiting || self.is_recovery_expired(now)
            || self.is_idle_disconnected(now, config.room_idle);
        RoomLifecycleSweep { handoff_expired, heartbeat_stale, heartbeat_timed_out, expired }
    }
}

/// A room that an expired host handoff closed leaves storage: whenever the
/// sweep reports that expiring runner handoffs closed the room, it reports
/// the room expired, whatever the heartbeats, deadlines or timeouts say.
pub proof fn law_room_closed_by_a_host_handoff_expires(
    m: RoomModel,
    created_at: u64,
    now: u64,
    config: RoomRecoveryConfig,
    join_timeout: u64,
)
    ensures
        sweep_outcome(m, created_at, now, config, join_timeout).1.handoff_expired == Some(true)
            ==> sweep_outcome(m, created_at, now, config, join_timeout).1.expired,
        expire_outcome(m, now).1 == Some(true) ==> sweep_outcome(m, created_at, now, config, join_timeout).1.expired,
{
}

/// A sweep expires a room exactly for a reason: a host handoff closed it,
/// it has waited for a guest for the join timeout, a reconnect deadline of
/// the swept room has passed, or everyone has been gone for the idle time.
pub proof fn law_sweep_expires_exactly_for_a_reason(
    m: RoomModel,
    created_at: u64,
    now: u64,
    config: RoomRecoveryConfig,
    join_timeout: u64,
)
    ensures
        ({
            let (swept, sweep) = sweep_outcome(m, created_at, now, config, join_timeout);
            sweep.expired <==> (
                sweep.handoff_expired == Some(true)
                || (swept.status == RoomStatus::WaitingForGuest && now >= created_at && now - created_at >= join_timeout)
                || recovery_expired(swept, now)
                || idle_disconnected(swept.players, now, config.room_idle))
        }),
{
}

} // verus!
