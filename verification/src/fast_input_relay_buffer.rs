//! Server-side fast-input release buffer.
//!
//! Accepted fast-input records wait here until the authoritative relay frame
//! reaches them. The buffer preserves each record's encoded bytes for
//! zero-copy fanout.

use vstd::prelude::*;
use std::collections::BTreeMap;
use crate::ids::{ConnectionId, PlayerIndex};

verus! {

broadcast use vstd::std_specs::btree::group_btree_axioms, vstd::std_specs::vec::group_vec_axioms;

/// One validated fast-input record.
#[derive(Clone, Debug, PartialEq, Eq)]
pub struct FastInputFrame {
    /// Room generation the record was sent under.
    pub room_epoch: u64,
    /// Session generation the record was sent under.
    pub session_epoch: u64,
    /// Player that produced the record.
    pub player_index: PlayerIndex,
    /// Frame the record belongs to.
    pub frame: u64,
    /// The record's encoded bytes.
    pub payload: Vec<u8>,
}

/// Ready-to-emit fast-input record.
#[derive(Clone, Debug, PartialEq, Eq)]
pub struct BufferedFastInputFrame {
    /// Connection that supplied the record.
    pub source: ConnectionId,
    /// Validated fast-input record.
    pub frame: FastInputFrame,
}

/// Whether a buffered record was sent under the given epochs.
pub open spec fn under_epochs(b: BufferedFastInputFrame, room_epoch: u64, session_epoch: u64) -> bool {
    b.frame.room_epoch == room_epoch && b.frame.session_epoch == session_epoch
}

/// The records of `items` sent under the given epochs, in order.
pub open spec fn released_records(items: Seq<BufferedFastInputFrame>, room_epoch: u64, session_epoch: u64)
    -> Seq<BufferedFastInputFrame>
    decreases items.len(),
{
    if items.len() == 0 {
        Seq::empty()
    } else {
        let prior = released_records(items.drop_last(), room_epoch, session_epoch);
        if under_epochs(items.last(), room_epoch, session_epoch) { prior.push(items.last()) } else { prior }
    }
}

/// Holds accepted future fast-input records until canonical-frame release.
pub struct FastInputRelayBuffer {
    frames_by_number: BTreeMap<u64, Vec<BufferedFastInputFrame>>,
}

impl View for FastInputRelayBuffer {
    /// Waiting records by frame number, in arrival order.
    type V = Map<u64, Seq<BufferedFastInputFrame>>;

    closed spec fn view(&self) -> Map<u64, Seq<BufferedFastInputFrame>> {
        self.frames_by_number@.map_values(|v: Vec<BufferedFastInputFrame>| v@)
    }
}

/// What waits for frame `frame`, in arrival order.
pub open spec fn records_for(m: Map<u64, Seq<BufferedFastInputFrame>>, frame: u64) -> Seq<BufferedFastInputFrame> {
    if m.contains_key(frame) { m[frame] } else { Seq::empty() }
}

impl Default for FastInputRelayBuffer {
    fn default() -> (b: Self)
        ensures
            b@ == Map::<u64, Seq<BufferedFastInputFrame>>::empty(),
    {
        FastInputRelayBuffer::new()
    }
}

impl FastInputRelayBuffer {
    /// An empty buffer.
    pub fn new() -> (b: Self)
        ensures
            b@ == Map::<u64, Seq<BufferedFastInputFrame>>::empty(),
    {
        let b = FastInputRelayBuffer { frames_by_number: BTreeMap::new() };
        assert(b@ =~= Map::<u64, Seq<BufferedFastInputFrame>>::empty());
        b
    }

    /// Stores one accepted record for later canonical-frame release.
    pub fn push(&mut self, source: ConnectionId, frame: FastInputFrame)
        ensures
            final(self)@ == old(self)@.insert(frame.frame,
                records_for(old(self)@, frame.frame).push(BufferedFastInputFrame { source, frame })),
    {
        let number = frame.frame;
        let ghost item = BufferedFastInputFrame { source, frame };
        let buffered = BufferedFastInputFrame { source, frame };
        let mut waiting = match self.frames_by_number.remove(&number) {
            Some(v) => v,
            None => Vec::new(),
        };
        waiting.push(buffered);
        self.frames_by_number.insert(number, waiting);
        proof {
            assert(self@ =~= old(self)@.insert(number, records_for(old(self)@, number).push(item)));
        }
    }

    /// Drains exactly one released frame, keeping only the records sent
    /// under the active epochs.
    pub fn drain_frame(&mut self, frame: u64, room_epoch: u64, session_epoch: u64) -> (drained: Vec<BufferedFastInputFrame>)
        ensures
            final(self)@ == old(self)@.remove(frame),
            drained@ == released_records(records_for(old(self)@, frame), room_epoch, session_epoch),
    {
        let items = match self.frames_by_number.remove(&frame) {
            Some(v) => v,
            None => Vec::new(),
        };
        proof {
            assert(self@ =~= old(self)@.remove(frame));
            assert(items@ == records_for(old(self)@, frame));
        }
        let ghost all = items@;
        let ghost mut count: int = 0;
        let mut drained: Vec<BufferedFastInputFrame> = Vec::new();
        for buffered in it: items.into_iter()
            invariant
                it.seq() == all,
                count == it.index(),
                0 <= count <= all.len(),
                drained@ == released_records(all.take(count), room_epoch, session_epoch),
        {
            proof {
                assert(all.take(count + 1).drop_last() == all.take(count));
                assert(all.take(count + 1).last() == buffered);
            }
            if buffered.frame.room_epoch == room_epoch && buffered.frame.session_epoch == session_epoch {
                drained.push(buffered);
            }
            proof {
                count = count + 1;
            }
        }
        proof {
            assert(all.take(count) == all);
        }
        drained
    }
}

/// A released frame drains once: after draining it, draining it again
/// yields no record, and every other frame still waits untouched.
pub proof fn law_frame_drains_once(m: Map<u64, Seq<BufferedFastInputFrame>>, frame: u64, other: u64, room_epoch: u64, session_epoch: u64)
    requires
        other != frame,
    ensures
        released_records(records_for(m.remove(frame), frame), room_epoch, session_epoch) == Seq::<BufferedFastInputFrame>::empty(),
        records_for(m.remove(frame), other) == records_for(m, other),
{
}

} // verus!
