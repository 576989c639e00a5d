//! Server-side input frame release buffer.
//!
//! The relay accepts bounded future input for prediction clients, but it should
//! only publish frames once the room's canonical frame reaches them.

use vstd::prelude::*;
use std::collections::BTreeMap;
use crate::ids::{ConnectionId, PlayerIndex};

verus! {

broadcast use vstd::std_specs::btree::group_btree_axioms, vstd::std_specs::vec::group_vec_axioms;

/// One player's controller input for one frame.
#[derive(Clone, Debug, PartialEq, Eq)]
pub struct InputFrame {
    /// Frame the input belongs to.
    pub frame: u64,
    /// Encoded controller state.
    pub payload: Vec<u8>,
    /// Player that produced the input.
    pub player_index: PlayerIndex,
}

/// Consecutive input frames of one player, under the epochs they were
/// released in.
#[derive(Clone, Debug, PartialEq, Eq)]
pub struct InputFrameBatch {
    /// The frames, in release order.
    pub frames: Vec<InputFrame>,
    /// Player that produced the frames.
    pub player_index: PlayerIndex,
    /// Room generation of the release.
    pub room_epoch: u64,
    /// Session generation of the release.
    pub session_epoch: u64,
}

/// Ready-to-emit input frames grouped by source socket and player slot.
#[derive(Clone, Debug, PartialEq, Eq)]
pub struct BufferedInputFrameBatch {
    /// Socket that supplied the frames.
    pub source: ConnectionId,
    /// The frames.
    pub batch: InputFrameBatch,
}

/// One accepted frame waiting for release.
#[derive(Clone, Debug, PartialEq, Eq)]
pub struct BufferedInputFrame {
    /// Socket that supplied the frame.
    pub source: ConnectionId,
    /// The frame.
    pub input: InputFrame,
}

/// A released batch as plain values.
pub struct BatchModel {
    /// Socket that supplied the frames.
    pub source: ConnectionId,
    /// Player that produced the frames.
    pub player_index: PlayerIndex,
    /// Room generation of the release.
    pub room_epoch: u64,
    /// Session generation of the release.
    pub session_epoch: u64,
    /// The frames, in release order.
    pub frames: Seq<InputFrame>,
}

/// A released batch as plain values.
pub open spec fn batch_model(b: BufferedInputFrameBatch) -> BatchModel {
    BatchModel {
        source: b.source,
        player_index: b.batch.player_index,
        room_epoch: b.batch.room_epoch,
        session_epoch: b.batch.session_epoch,
        frames: b.batch.frames@,
    }
}

/// Index of the first batch of `source` and `player_index`.
pub open spec fn batch_position(batches: Seq<BatchModel>, source: ConnectionId, player_index: PlayerIndex) -> Option<int> {
    if exists|i: int| 0 <= i < batches.len() && batches[i].source == source && batches[i].player_index == player_index {
        Some(choose|i: int| 0 <= i < batches.len() && batches[i].source == source && batches[i].player_index == player_index
            && forall|j: int| 0 <= j < i ==> !(batches[j].source == source && batches[j].player_index == player_index))
    } else {
        None
    }
}

/// `batches` with `input` from `source` appended to the batch of its socket
/// and player, or to a new batch under the given epochs.
pub open spec fn add_to_batches(batches: Seq<BatchModel>, source: ConnectionId, room_epoch: u64, session_epoch: u64, input: InputFrame)
    -> Seq<BatchModel>
{
    match batch_position(batches, source, input.player_index) {
        Some(i) => batches.update(i, BatchModel { frames: batches[i].frames.push(input), ..batches[i] }),
        None => batches.push(BatchModel {
            source,
            player_index: input.player_index,
            room_epoch,
            session_epoch,
            frames: seq![input],
        }),
    }
}

/// The batches that releasing `items`, in order, produces.
pub open spec fn batches_of(items: Seq<BufferedInputFrame>, room_epoch: u64, session_epoch: u64) -> Seq<BatchModel>
    decreases items.len(),
{
    if items.len() == 0 {
        Seq::empty()
    } else {
        let last = items.last();
        add_to_batches(batches_of(items.drop_last(), room_epoch, session_epoch), last.source, room_epoch, session_epoch, last.input)
    }
}

/// Appends `input` to its socket's and player's batch, or opens a new one.
pub fn push_to_batch(
    batches: &mut Vec<BufferedInputFrameBatch>,
    source: ConnectionId,
    room_epoch: u64,
    session_epoch: u64,
    input: InputFrame,
)
    ensures
        final(batches)@.map_values(|b: BufferedInputFrameBatch| batch_model(b))
            == add_to_batches(old(batches)@.map_values(|b: BufferedInputFrameBatch| batch_model(b)), source, room_epoch,
                session_epoch, input),
{
    let ghost models = old(batches)@.map_values(|b: BufferedInputFrameBatch| batch_model(b));
    let mut i: usize = 0;
    while i < batches.len()
        invariant
            batches@ == old(batches)@,
            models == old(batches)@.map_values(|b: BufferedInputFrameBatch| batch_model(b)),
            i <= batches@.len(),
            forall|j: int| 0 <= j < i ==> !(models[j].source == source && models[j].player_index == input.player_index),
        decreases batches@.len() - i,
    {
        if batches[i].source.0 == source.0 && batches[i].batch.player_index.0 == input.player_index.0 {
            proof {
                let k = choose|k: int| 0 <= k < models.len() && models[k].source == source
                    && models[k].player_index == input.player_index
                    && forall|j: int| 0 <= j < k ==> !(models[j].source == source && models[j].player_index == input.player_index);
                assert(0 <= i < models.len() && models[i as int].source == source && models[i as int].player_index == input.player_index
                    && forall|j: int| 0 <= j < i ==> !(models[j].source == source && models[j].player_index == input.player_index));
                assert(k == i) by {
                    if k < i {
                    } else if k > i {
                    }
                }
            }
            batches[i].batch.frames.push(input);
            proof {
                assert(batches@.map_values(|b: BufferedInputFrameBatch| batch_model(b))
                    =~= add_to_batches(models, source, room_epoch, session_epoch, input));
            }
            return;
        }
        i = i + 1;
    }
    let player_index = input.player_index;
    let mut frames: Vec<InputFrame> = Vec::new();
    frames.push(input);
    batches.push(BufferedInputFrameBatch {
        source,
        batch: InputFrameBatch { frames, player_index, room_epoch, session_epoch },
    });
    proof {
        assert(batches@.map_values(|b: BufferedInputFrameBatch| batch_model(b))
            =~= add_to_batches(models, source, room_epoch, session_epoch, input));
    }
}

/// Holds accepted future input until the authoritative room frame catches up.
pub struct InputFrameRelayBuffer {
    frames_by_number: BTreeMap<u64, Vec<BufferedInputFrame>>,
}

impl View for InputFrameRelayBuffer {
    /// Waiting frames by frame number, in arrival order.
    type V = Map<u64, Seq<BufferedInputFrame>>;

    closed spec fn view(&self) -> Map<u64, Seq<BufferedInputFrame>> {
        self.frames_by_number@.map_values(|v: Vec<BufferedInputFrame>| v@)
    }
}

/// What waits for frame `frame`, in arrival order.
pub open spec fn waiting_for(m: Map<u64, Seq<BufferedInputFrame>>, frame: u64) -> Seq<BufferedInputFrame> {
    if m.contains_key(frame) { m[frame] } else { Seq::empty() }
}

impl Default for InputFrameRelayBuffer {
    fn default() -> (b: Self)
        ensures
            b@ == Map::<u64, Seq<BufferedInputFrame>>::empty(),
    {
        InputFrameRelayBuffer::new()
    }
}

impl InputFrameRelayBuffer {
    /// An empty buffer.
    pub fn new() -> (b: Self)
        ensures
            b@ == Map::<u64, Seq<BufferedInputFrame>>::empty(),
    {
        let b = InputFrameRelayBuffer { frames_by_number: BTreeMap::new() };
        assert(b@ =~= Map::<u64, Seq<BufferedInputFrame>>::empty());
        b
    }

    /// Stores one accepted frame for later canonical-frame release.
    pub fn push(&mut self, source: ConnectionId, input: InputFrame)
        ensures
            final(self)@ == old(self)@.insert(input.frame,
                waiting_for(old(self)@, input.frame).push(BufferedInputFrame { source, input })),
    {
        let frame = input.frame;
        let ghost item = BufferedInputFrame { source, input };
        let buffered = BufferedInputFrame { source, input };
        let mut waiting = match self.frames_by_number.remove(&frame) {
            Some(v) => v,
            None => Vec::new(),
        };
        waiting.push(buffered);
        self.frames_by_number.insert(frame, waiting);
        proof {
            assert(self@ =~= old(self)@.insert(frame, waiting_for(old(self)@, frame).push(item)));
        }
    }

    /// Drains exactly one released frame, grouped into per-socket,
    /// per-player batches under the given epochs.
    pub fn drain_frame(&mut self, frame: u64, room_epoch: u64, session_epoch: u64) -> (batches: Vec<BufferedInputFrameBatch>)
        ensures
            final(self)@ == old(self)@.remove(frame),
            batches@.map_values(|b: BufferedInputFrameBatch| batch_model(b))
                == batches_of(waiting_for(old(self)@, frame), room_epoch, session_epoch),
    {
        let mut batches: Vec<BufferedInputFrameBatch> = Vec::new();
        let items = match self.frames_by_number.remove(&frame) {
            Some(v) => v,
            None => Vec::new(),
        };
        proof {
            assert(self@ =~= old(self)@.remove(frame));
            assert(items@ == waiting_for(old(self)@, frame));
        }
        let ghost all = items@;
        let ghost mut count: int = 0;
        for buffered in it: items.into_iter()
            invariant
                it.seq() == all,
                count == it.index(),
                0 <= count <= all.len(),
                batches@.map_values(|b: BufferedInputFrameBatch| batch_model(b)) == batches_of(all.take(count), room_epoch, session_epoch),
        {
            proof {
                assert(all.take(count + 1).drop_last() == all.take(count));
                assert(all.take(count + 1).last() == buffered);
            }
            push_to_batch(&mut batches, buffered.source, room_epoch, session_epoch, buffered.input);
            proof {
                count = count + 1;
            }
        }
        proof {
            assert(all.take(count) == all);
        }
        batches
    }

    /// Drops all buffered input that belongs to a previous sync epoch.
    pub fn clear(&mut self)
        ensures
            final(self)@ == Map::<u64, Seq<BufferedInputFrame>>::empty(),
    {
        self.frames_by_number.clear();
        assert(self@ =~= Map::<u64, Seq<BufferedInputFrame>>::empty());
    }
}

/// A released frame drains once: after draining it, draining it again
/// yields no batch, and every other frame still waits untouched.
pub proof fn law_frame_drains_once(m: Map<u64, Seq<BufferedInputFrame>>, frame: u64, other: u64, room_epoch: u64, session_epoch: u64)
    requires
        other != frame,
    ensures
        batches_of(waiting_for(m.remove(frame), frame), room_epoch, session_epoch) == Seq::<BatchModel>::empty(),
        waiting_for(m.remove(frame), other) == waiting_for(m, other),
{
}

} // verus!
