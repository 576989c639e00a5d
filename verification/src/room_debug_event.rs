//! Sanitized room event logs for operator debugging.
//!
//! Debug events contain room lifecycle facts only: never access tokens,
//! resume tokens, raw input bytes, snapshot bytes, or other client secrets.

use vstd::prelude::*;
use std::collections::VecDeque;
use crate::ids::RoomId;

verus! {

/// Default number of events a room keeps.
pub const DEFAULT_ROOM_EVENT_CAPACITY: usize = 200;

/// Sanitized event emitted by room lifecycle and protocol operations.
#[derive(Debug, PartialEq, Eq)]
pub struct RoomDebugEvent {
    /// Milliseconds since the unix epoch when the event was recorded.
    pub timestamp_ms: u128,
    /// Stable room id for correlation.
    pub room_id: RoomId,
    /// Invite code display value.
    pub invite_code: String,
    /// Monotonic room event sequence after the event is applied.
    pub event_seq: u64,
    /// Current room epoch.
    pub room_epoch: u64,
    /// Current session epoch.
    pub session_epoch: u64,
    /// Stable event kind.
    pub kind: String,
    /// Short human-safe summary.
    pub detail: String,
}

/// Field-wise equality of two events (strings compared by their characters).
pub open spec fn same_event(a: RoomDebugEvent, b: RoomDebugEvent) -> bool {
    &&& a.timestamp_ms == b.timestamp_ms
    &&& a.room_id == b.room_id
    &&& a.invite_code@ == b.invite_code@
    &&& a.event_seq == b.event_seq
    &&& a.room_epoch == b.room_epoch
    &&& a.session_epoch == b.session_epoch
    &&& a.kind@ == b.kind@
    &&& a.detail@ == b.detail@
}

impl Clone for RoomDebugEvent {
    fn clone(&self) -> (c: Self)
        ensures
            same_event(c, *self),
    {
        RoomDebugEvent {
            timestamp_ms: self.timestamp_ms,
            room_id: self.room_id,
            invite_code: self.invite_code.clone(),
            event_seq: self.event_seq,
            room_epoch: self.room_epoch,
            session_epoch: self.session_epoch,
            kind: self.kind.clone(),
            detail: self.detail.clone(),
        }
    }
}

/// Fixed-size ring buffer for sanitized room debug events.
#[derive(Debug)]
pub struct RoomDebugEventLog {
    capacity: usize,
    events: VecDeque<RoomDebugEvent>,
}

/// The log after appending `e` to `events` under `capacity`: the oldest
/// event is evicted first when the log is full.
pub open spec fn log_after_push(events: Seq<RoomDebugEvent>, capacity: nat, e: RoomDebugEvent) -> Seq<RoomDebugEvent> {
    if events.len() >= capacity && events.len() > 0 { events.drop_first().push(e) } else { events.push(e) }
}

/// The newest `limit` events, oldest first.
pub open spec fn log_tail(events: Seq<RoomDebugEvent>, limit: nat) -> Seq<RoomDebugEvent> {
    if limit >= events.len() { events } else { events.subrange(events.len() - limit, events.len() as int) }
}

impl RoomDebugEventLog {
    /// Events in chronological order.
    pub closed spec fn events(&self) -> Seq<RoomDebugEvent> {
        self.events@
    }

    /// Configured capacity.
    pub closed spec fn capacity(&self) -> nat {
        self.capacity as nat
    }

    /// Creates an empty log with the default capacity.
    pub fn default_log() -> (log: Self)
        ensures
            log.events().len() == 0,
            log.capacity() == DEFAULT_ROOM_EVENT_CAPACITY,
    {
        Self::new(DEFAULT_ROOM_EVENT_CAPACITY)
    }

    /// Creates an empty log with a bounded capacity.
    pub fn new(capacity: usize) -> (log: Self)
        ensures
            log.events().len() == 0,
            log.capacity() == capacity,
    {
        RoomDebugEventLog { capacity, events: VecDeque::new() }
    }

    /// Number of retained events.
    pub fn len(&self) -> (n: usize)
        ensures
            n == self.events().len(),
    {
        self.events.len()
    }

    /// Appends one sanitized event, evicting the oldest event if needed.
    pub fn push(&mut self, event: RoomDebugEvent)
        ensures
            final(self).capacity() == old(self).capacity(),
            final(self).events() == log_after_push(old(self).events(), old(self).capacity(), event),
    {
        if self.events.len() >= self.capacity && self.events.len() > 0 {
            self.events.pop_front();
        }
        self.events.push_back(event);
    }

    /// Returns the newest events in chronological order.
    pub fn tail(&self, limit: usize) -> (r: Vec<RoomDebugEvent>)
        ensures
            r@.len() == log_tail(self.events(), limit as nat).len(),
            forall|i: int| 0 <= i < r@.len() ==> same_event(#[trigger] r@[i], log_tail(self.events(), limit as nat)[i]),
    {
        let len = self.events.len();
        let skip = len.saturating_sub(limit);
        let mut out: Vec<RoomDebugEvent> = Vec::new();
        let mut i = skip;
        while i < len
            invariant
                len == self.events@.len(),
                skip == (if limit >= len { 0 } else { len - limit }),
                skip <= i <= len,
                out@.len() == i - skip,
                forall|j: int| 0 <= j < out@.len() ==> same_event(#[trigger] out@[j], self.events@[skip + j]),
            decreases len - i,
        {
            out.push(self.events[i].clone());
            i = i + 1;
        }
        out
    }
}

/// A non-empty-capacity log never holds more events than its capacity, and
/// the event just appended is always the newest one.
pub proof fn law_log_is_bounded_and_keeps_newest(events: Seq<RoomDebugEvent>, capacity: nat, e: RoomDebugEvent)
    requires
        capacity >= 1,
        events.len() <= capacity,
    ensures
        log_after_push(events, capacity, e).len() <= capacity,
        log_after_push(events, capacity, e).last() == e,
        log_tail(log_after_push(events, capacity, e), 1) == seq![e],
{
    let pushed = log_after_push(events, capacity, e);
    assert(pushed.subrange(pushed.len() - 1, pushed.len() as int) =~= seq![e]);
}

/// Declares `std::time::SystemTime` so that a wrapper may carry it.
#[verifier::external_type_specification]
#[verifier::external_body]
pub struct ExSystemTime(std::time::SystemTime);

/// Declares `std::time::SystemTimeError`, what reading a clock set before
/// the unix epoch gives.
#[verifier::external_type_specification]
#[verifier::external_body]
pub struct ExSystemTimeError(std::time::SystemTimeError);

/// Calls `std::time::SystemTime::now`; the value depends on the machine's
/// clock, so nothing is stated.
#[verifier::external_body]
fn system_time_now() -> std::time::SystemTime {
    std::time::SystemTime::now()
}

/// Calls `std::time::SystemTime::duration_since` against the unix epoch; it
/// fails when `now` lies before the epoch. Both outcomes depend on the
/// clock, so nothing is stated.
#[verifier::external_body]
fn since_unix_epoch(now: &std::time::SystemTime) -> Result<std::time::Duration, std::time::SystemTimeError> {
    now.duration_since(std::time::UNIX_EPOCH)
}

/// Calls `std::time::Duration::as_millis`, the whole milliseconds of
/// `duration`; the duration is opaque here, so nothing is stated.
#[verifier::external_body]
fn duration_millis(duration: &std::time::Duration) -> u128 {
    duration.as_millis()
}

/// A timestamp from the milliseconds since the unix epoch, or zero for a
/// clock set before the epoch (`None`).
pub fn timestamp_or_zero(since_epoch_ms: Option<u128>) -> (ms: u128)
    ensures
        ms == (match since_epoch_ms {
            Some(m) => m,
            None => 0,
        }),
{
    match since_epoch_ms {
        Some(m) => m,
        None => 0,
    }
}

/// Milliseconds since the unix epoch, zero for a clock set before it. The
/// reading depends on the machine's clock; `timestamp_or_zero` states what
/// is made of it.
pub fn current_timestamp_ms() -> u128 {
    let since_epoch_ms = match since_unix_epoch(&system_time_now()) {
        Ok(duration) => Some(duration_millis(&duration)),
        Err(_) => None,
    };
    timestamp_or_zero(since_epoch_ms)
}

} // verus!
