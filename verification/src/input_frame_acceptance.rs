//! Relay decision for validated controller input frames.

use vstd::prelude::*;

verus! {

/// Result of accepting one input frame into room state.
#[derive(Clone, Copy, Debug, PartialEq, Eq, Structural)]
pub enum InputFrameAcceptance {
    /// Relay the frame to the other connected players.
    Relay,
    /// Drop the frame without failing the socket.
    Ignore,
}

/// Bounds an input frame must respect to be accepted.
#[derive(Clone, Copy, Debug, PartialEq, Eq, Structural)]
pub struct InputFrameLimits {
    /// How far past the room frame an input frame may lie.
    pub max_future_frame_distance: u64,
}

} // verus!
