//! Protocol v5 host-driven frame-open operations.
//!
//! On strict controller rooms the host opens each frame; the relay releases
//! it once the host's own input covers it, and holds the first frame of a
//! scheduled start until the scheduled server time.

use vstd::prelude::*;
use crate::errors::RoomError;
use crate::ids::{ConnectionId, PlayerIndex};
use crate::player_slot::{PlayerRole, PlayerSlot, PlayerStatus};
use crate::room::{is_link, same_identity, saturating_inc, with_status, NetplayRoom, RoomModel};
use crate::room_connection_diagnostics::RoomStatus;
use crate::room_controller_netplay_ops::next_expected_frame;
use crate::room_frame_clock_ops::max_frame;
use crate::room_input_connection_ops::input_connection_position;

verus! {

broadcast use vstd::std_specs::hash::group_hash_axioms;

/// A host's declaration that one frame is open.
#[derive(Clone, Copy, Debug, PartialEq, Eq, Structural)]
pub struct HostFrameOpen {
    /// Room generation the host saw.
    pub room_epoch: u64,
    /// Session generation the host saw.
    pub session_epoch: u64,
    /// The frame the host opens.
    pub frame: u64,
}

/// Next frame the relay expects from one player.
#[derive(Clone, Copy, Debug, PartialEq, Eq, Structural)]
pub struct AcceptedInputCursor {
    /// The player.
    pub player_index: PlayerIndex,
    /// The next frame expected from the player.
    pub next_expected_frame: u64,
}

/// The cumulative release state of a strict controller room.
#[derive(Clone, Debug, PartialEq, Eq)]
pub struct ServerFrameReleaseV5 {
    /// Room generation.
    pub room_epoch: u64,
    /// Session generation.
    pub session_epoch: u64,
    /// Latest released frame.
    pub released_frame: u64,
    /// Next frame the host may open.
    pub next_host_frame: u64,
    /// Input cursors of the occupied slots, in slot order.
    pub accepted_inputs: Vec<AcceptedInputCursor>,
}

/// Result of one host frame-open declaration.
#[derive(Clone, Debug, PartialEq, Eq)]
pub enum HostFrameOpenOutcome {
    /// The frame was released.
    Released(ServerFrameReleaseV5),
    /// The frame was already released; the latest cumulative release.
    Duplicate(ServerFrameReleaseV5),
    /// Ordered work from before a transition boundary is obsolete.
    IgnoredTransitionBoundary,
    /// The first frame is held until the scheduled start time.
    Pending {
        /// Milliseconds until the scheduled server time.
        delay_ms: u64,
    },
}

/// A release as plain values.
pub struct ReleaseModel {
    /// Room generation.
    pub room_epoch: u64,
    /// Session generation.
    pub session_epoch: u64,
    /// Latest released frame.
    pub released_frame: u64,
    /// Next frame the host may open.
    pub next_host_frame: u64,
    /// Input cursors of the occupied slots.
    pub accepted_inputs: Seq<AcceptedInputCursor>,
}

/// A host frame-open outcome as plain values.
pub enum HostFrameOpenModel {
    /// The frame was released.
    Released(ReleaseModel),
    /// The latest cumulative release, for a frame released before.
    Duplicate(ReleaseModel),
    /// Obsolete work.
    Ignored,
    /// Held for this many milliseconds.
    Pending(u64),
}

/// A release as plain values.
pub open spec fn release_model(r: ServerFrameReleaseV5) -> ReleaseModel {
    ReleaseModel {
        room_epoch: r.room_epoch,
        session_epoch: r.session_epoch,
        released_frame: r.released_frame,
        next_host_frame: r.next_host_frame,
        accepted_inputs: r.accepted_inputs@,
    }
}

/// A host frame-open outcome as plain values.
pub open spec fn open_outcome_model(o: HostFrameOpenOutcome) -> HostFrameOpenModel {
    match o {
        HostFrameOpenOutcome::Released(r) => HostFrameOpenModel::Released(release_model(r)),
        HostFrameOpenOutcome::Duplicate(r) => HostFrameOpenModel::Duplicate(release_model(r)),
        HostFrameOpenOutcome::IgnoredTransitionBoundary => HostFrameOpenModel::Ignored,
        HostFrameOpenOutcome::Pending { delay_ms } => HostFrameOpenModel::Pending(delay_ms),
    }
}

/// Input cursors of the occupied slots among `players`, in slot order.
pub open spec fn input_cursors(players: Seq<PlayerSlot>, m: RoomModel) -> Seq<AcceptedInputCursor>
    decreases players.len(),
{
    if players.len() == 0 {
        Seq::empty()
    } else {
        let prior = input_cursors(players.drop_last(), m);
        let s = players.last();
        if s.status != PlayerStatus::Empty {
            prior.push(AcceptedInputCursor {
                player_index: s.player_index,
                next_expected_frame: next_expected_frame(m, s.player_index.0),
            })
        } else {
            prior
        }
    }
}

/// The room's cumulative release, once a frame has been released.
pub open spec fn current_release(m: RoomModel) -> Option<ReleaseModel> {
    match m.released_frame {
        None => None,
        Some(r) => Some(ReleaseModel {
            room_epoch: m.room_epoch,
            session_epoch: m.session_epoch,
            released_frame: r,
            next_host_frame: m.next_release_frame,
            accepted_inputs: input_cursors(m.players, m),
        }),
    }
}

/// The latest release handed back for an old open, or nothing to do.
pub open spec fn duplicate_or_ignored(m: RoomModel) -> HostFrameOpenModel {
    match current_release(m) {
        Some(r) => HostFrameOpenModel::Duplicate(r),
        None => HostFrameOpenModel::Ignored,
    }
}

/// Whether the host's input reaches past `frame`.
pub open spec fn host_input_covers(m: RoomModel, frame: u64) -> bool {
    next_expected_frame(m, 0) > frame
}

/// A connected slot's state once gameplay runs.
pub open spec fn playing_slot(s: PlayerSlot) -> PlayerSlot {
    if s.connection_id is Some { with_status(s, PlayerStatus::Playing) } else { s }
}

/// The room once gameplay runs: playing, with every connected player playing.
pub open spec fn entered_playing(m: RoomModel) -> RoomModel {
    RoomModel {
        status: RoomStatus::Playing,
        players: Seq::new(m.players.len(), |i: int| playing_slot(m.players[i])),
        ..m
    }
}

/// The room after releasing `frame`.
pub open spec fn released(m: RoomModel, frame: u64) -> RoomModel {
    RoomModel {
        pending_host_frame_open: None,
        next_release_frame: saturating_inc(frame),
        released_frame: Some(frame),
        room_frame: max_frame(m.room_frame, frame),
        ..m
    }
}

/// Why the input socket `connection_id` may not open host frames, if it
/// may not: only the host's input socket of a strict controller room may.
pub open spec fn host_sender_error(m: RoomModel, strict: bool, connection_id: ConnectionId) -> Option<RoomError> {
    if !strict {
        Some(RoomError::InvalidPayload)
    } else {
        match input_connection_position(m.players, connection_id) {
            None => Some(RoomError::UnknownConnection),
            Some(i) => if m.players[i].role != PlayerRole::Host { Some(RoomError::HostOnly) } else { None },
        }
    }
}

/// Outcome of the input socket `connection_id` opening `open` at server
/// time `now_ms` in a room whose strict-input flag is `strict`.
pub open spec fn host_frame_open_outcome(m: RoomModel, strict: bool, connection_id: ConnectionId, open: HostFrameOpen, now_ms: u64)
    -> (RoomModel, Result<HostFrameOpenModel, RoomError>)
{
    match host_sender_error(m, strict, connection_id) {
        Some(e) => (m, Err(e)),
        None => if open.room_epoch != m.room_epoch || open.session_epoch != m.session_epoch {
            (m, Ok(duplicate_or_ignored(m)))
        } else if m.status == RoomStatus::RepairingState {
            (m, Ok(HostFrameOpenModel::Ignored))
        } else if open.frame < m.next_release_frame {
            match current_release(m) {
                Some(r) => (m, Ok(HostFrameOpenModel::Duplicate(r))),
                None => (m, Err(RoomError::OutOfOrderFrame)),
            }
        } else if m.status == RoomStatus::StartScheduled && open.frame > m.next_release_frame {
            (m, Ok(HostFrameOpenModel::Ignored))
        } else if !(m.status == RoomStatus::StartScheduled || m.status == RoomStatus::Playing) {
            (m, Ok(HostFrameOpenModel::Ignored))
        } else if open.frame > m.next_release_frame || !host_input_covers(m, open.frame) {
            (m, Err(RoomError::OutOfOrderFrame))
        } else if m.status == RoomStatus::StartScheduled {
            match m.scheduled_start {
                None => (m, Err(RoomError::RoomNotReady)),
                Some(start) => if open.frame != start.start_frame {
                    (m, Err(RoomError::OutOfOrderFrame))
                } else if now_ms < start.server_time_ms {
                    (RoomModel { pending_host_frame_open: Some(open.frame), ..m },
                        Ok(HostFrameOpenModel::Pending((start.server_time_ms - now_ms) as u64)))
                } else {
                    let n = released(entered_playing(m), open.frame);
                    (n, Ok(HostFrameOpenModel::Released(current_release(n)->0)))
                },
            }
        } else {
            let n = released(m, open.frame);
            (n, Ok(HostFrameOpenModel::Released(current_release(n)->0)))
        }
    }
}

/// Outcome of the scheduled wake at server time `now_ms`: a held first
/// frame is released once the scheduled time has come.
pub open spec fn release_due_outcome(m: RoomModel, now_ms: u64) -> (RoomModel, Option<ReleaseModel>) {
    match (m.pending_host_frame_open, m.scheduled_start) {
        (Some(frame), Some(start)) => if m.status != RoomStatus::StartScheduled || now_ms < start.server_time_ms {
            (m, None)
        } else {
            let n = released(entered_playing(m), frame);
            (n, current_release(n))
        },
        _ => (m, None),
    }
}

impl NetplayRoom {
    /// Applies an exact host frame open or returns its idempotent prior
    /// release.
    ///
    /// A room holds no coordinated-pause tracker, so no open lies past a
    /// scheduled pause frame.
    pub fn accept_host_frame_open(&mut self, connection_id: ConnectionId, open: HostFrameOpen, server_time_ms: u64)
        -> (r: Result<HostFrameOpenOutcome, RoomError>)
        requires
            old(self).wf(),
        ensures
            final(self).wf(),
            same_identity(old(self), final(self)),
            ({
                let (m, out) = host_frame_open_outcome(old(self)@,
                    old(self).protocol_version >= 5 && !is_link(old(self).gameplay), connection_id, open, server_time_ms);
                &&& final(self)@ == m
                &&& match r {
                    Ok(o) => out == Ok::<HostFrameOpenModel, RoomError>(open_outcome_model(o)),
                    Err(e) => out == Err::<HostFrameOpenModel, RoomError>(e),
                }
            }),
    {
        match self.validate_host_frame_sender(connection_id) {
            Err(e) => return Err(e),
            Ok(()) => {},
        }
        if open.room_epoch != self.room_epoch || open.session_epoch != self.session_epoch {
            return Ok(match self.current_v5_release() {
                Some(release) => HostFrameOpenOutcome::Duplicate(release),
                None => HostFrameOpenOutcome::IgnoredTransitionBoundary,
            });
        }
        if self.status == RoomStatus::RepairingState {
            return Ok(HostFrameOpenOutcome::IgnoredTransitionBoundary);
        }
        if open.frame < self.sync.next_release_frame {
            return match self.current_v5_release() {
                Some(release) => Ok(HostFrameOpenOutcome::Duplicate(release)),
                None => Err(RoomError::OutOfOrderFrame),
            };
        }
        if self.status == RoomStatus::StartScheduled && open.frame > self.sync.next_release_frame {
            return Ok(HostFrameOpenOutcome::IgnoredTransitionBoundary);
        }
        if !(self.status == RoomStatus::StartScheduled || self.status == RoomStatus::Playing) {
            return Ok(HostFrameOpenOutcome::IgnoredTransitionBoundary);
        }
        if open.frame > self.sync.next_release_frame || !self.host_input_covers(open.frame) {
            return Err(RoomError::OutOfOrderFrame);
        }
        if self.status == RoomStatus::StartScheduled {
            let start = match self.sync.scheduled_start {
                Some(start) => start,
                None => return Err(RoomError::RoomNotReady),
            };
            if open.frame != start.start_frame {
                return Err(RoomError::OutOfOrderFrame);
            }
            if server_time_ms < start.server_time_ms {
                self.sync.pending_host_frame_open = Some(open.frame);
                return Ok(HostFrameOpenOutcome::Pending { delay_ms: start.server_time_ms - server_time_ms });
            }
            self.enter_v5_playing();
        }
        Ok(HostFrameOpenOutcome::Released(self.release_v5_host_frame(open.frame)))
    }

    /// Releases a held first host open once its scheduled server time has
    /// come.
    pub fn release_due_v5_host_frame(&mut self, server_time_ms: u64) -> (r: Option<ServerFrameReleaseV5>)
        requires
            old(self).wf(),
        ensures
            final(self).wf(),
            same_identity(old(self), final(self)),
            ({
                let (m, out) = release_due_outcome(old(self)@, server_time_ms);
                &&& final(self)@ == m
                &&& match r {
                    Some(rel) => out == Some(release_model(rel)),
                    None => out is None,
                }
            }),
    {
        let frame = match self.sync.pending_host_frame_open {
            Some(frame) => frame,
            None => return None,
        };
        let start = match self.sync.scheduled_start {
            Some(start) => start,
            None => return None,
        };
        if self.status != RoomStatus::StartScheduled || server_time_ms < start.server_time_ms {
            return None;
        }
        self.enter_v5_playing();
        Some(self.release_v5_host_frame(frame))
    }

    /// Only the host's input socket of a strict controller room opens
    /// frames.
    fn validate_host_frame_sender(&self, connection_id: ConnectionId) -> (r: Result<(), RoomError>)
        requires
            self.wf(),
        ensures
            r == (match host_sender_error(self@, self.protocol_version >= 5 && !is_link(self.gameplay), connection_id) {
                Some(e) => Err(e),
                None => Ok::<(), RoomError>(()),
            }),
    {
        if !self.uses_strict_controller_input() {
            return Err(RoomError::InvalidPayload);
        }
        let position = match self.input_connection_slot_position(connection_id) {
            Some(p) => p,
            None => return Err(RoomError::UnknownConnection),
        };
        if self.players[position].role == PlayerRole::Host {
            Ok(())
        } else {
            Err(RoomError::HostOnly)
        }
    }

    /// Whether the host's input reaches past `frame`.
    fn host_input_covers(&self, frame: u64) -> (b: bool)
        ensures
            b == host_input_covers(self@, frame),
    {
        let next = match self.sync.next_input_frames.get(&0u8) {
            Some(f) => *f,
            None => self.sync.sync_start_frame,
        };
        next > frame
    }

    /// Starts gameplay: the room and every connected player play.
    pub(crate) fn enter_v5_playing(&mut self)
        requires
            old(self).wf(),
        ensures
            final(self).wf(),
            same_identity(old(self), final(self)),
            final(self)@ == entered_playing(old(self)@),
    {
        self.status = RoomStatus::Playing;
        let ghost before = self@;
        let ghost identity = *self;
        let n = self.players.len();
        let mut i: usize = 0;
        while i < n
            invariant
                self.wf(),
                same_identity(&identity, self),
                n == self.players@.len(),
                n == before.players.len(),
                i <= n,
                self@ == (RoomModel { players: self.players@, ..before }),
                forall|j: int| 0 <= j < i ==> self.players@[j] == playing_slot(before.players[j]),
                forall|j: int| i <= j < n ==> self.players@[j] == before.players[j],
            decreases n - i,
        {
            if self.players[i].connection_id.is_some() {
                self.players[i].set_status(PlayerStatus::Playing);
            }
            i = i + 1;
        }
        assert(self.players@ =~= Seq::new(before.players.len(), |j: int| playing_slot(before.players[j])));
    }

    /// Releases `frame` and returns the cumulative release.
    fn release_v5_host_frame(&mut self, frame: u64) -> (r: ServerFrameReleaseV5)
        requires
            old(self).wf(),
        ensures
            final(self).wf(),
            same_identity(old(self), final(self)),
            final(self)@ == released(old(self)@, frame),
            current_release(final(self)@) == Some(release_model(r)),
    {
        self.sync.pending_host_frame_open = None;
        self.sync.next_release_frame = frame.saturating_add(1);
        self.sync.released_frame = Some(frame);
        if frame > self.sync.room_frame {
            self.sync.room_frame = frame;
        }
        ServerFrameReleaseV5 {
            room_epoch: self.room_epoch,
            session_epoch: self.session_epoch,
            released_frame: frame,
            next_host_frame: self.sync.next_release_frame,
            accepted_inputs: self.accepted_input_cursors(),
        }
    }

    /// The room's cumulative release, once a frame has been released.
    fn current_v5_release(&self) -> (r: Option<ServerFrameReleaseV5>)
        ensures
            match r {
                Some(rel) => current_release(self@) == Some(release_model(rel)),
                None => current_release(self@) is None,
            },
    {
        let released_frame = match self.sync.released_frame {
            Some(f) => f,
            None => return None,
        };
        Some(ServerFrameReleaseV5 {
            room_epoch: self.room_epoch,
            session_epoch: self.session_epoch,
            released_frame,
            next_host_frame: self.sync.next_release_frame,
            accepted_inputs: self.accepted_input_cursors(),
        })
    }

    /// Input cursors of the occupied slots, in slot order.
    fn accepted_input_cursors(&self) -> (v: Vec<AcceptedInputCursor>)
        ensures
            v@ == input_cursors(self.players@, self@),
    {
        let mut v: Vec<AcceptedInputCursor> = Vec::new();
        let mut i: usize = 0;
        while i < self.players.len()
            invariant
                i <= self.players@.len(),
                v@ == input_cursors(self.players@.take(i as int), self@),
            decreases self.players@.len() - i,
        {
            proof {
                assert(self.players@.take(i + 1).drop_last() == self.players@.take(i as int));
            }
            if !self.players[i].is_empty() {
                let player_index = self.players[i].player_index;
                let next_expected_frame = match self.sync.next_input_frames.get(&player_index.0) {
                    Some(f) => *f,
                    None => self.sync.sync_start_frame,
                };
                v.push(AcceptedInputCursor { player_index, next_expected_frame });
            }
            i = i + 1;
        }
        proof {
            assert(self.players@.take(self.players@.len() as int) == self.players@);
        }
        v
    }
}

} // verus!
