# netplay_rooms

Room coordination for invite-code netplay sessions, written in Verus. The
room logic under `src/` is verified against contracts that Verus checks.
The few calls into other crates (UUID generation, SHA-256, the system
clocks, building a `String` from characters) sit behind small trusted
wrappers whose contracts are documented where they are declared. Functions whose result
depends only on the machine (the clocks, the random generators' exact
values) state what holds of every outcome, or nothing where nothing does;
the unit-struct constructors have nothing to state.

## Scope

The library holds one room's state and its rules: membership, recovery,
heartbeats, runner handoffs, input sockets, ready marks and the start of
gameplay with its startup input delay, controller input admission,
the relay frame clock, protocol-5 host frame opens (including a first frame
held until a scheduled start time), and the virtual link cable. It does not
hold:

- the multi-room registry and its event broadcasting (the app keeps a
  plain list of shared rooms and sweeps it);
- controller compatibility fingerprints and the host's start snapshot, so
  nothing in the library moves a controller room into the syncing state or
  completes its snapshot (link rooms get there through their link
  compatibility reports); room views and room events;
- coordinated session pause and resume, and the negotiation that
  schedules a start (a room carries the scheduled start once known);
- snapshot and ROM file relay, voice chat, and state-hash repair with its
  recovery deadline;
- the SBLK wire decoder: link packets arrive with their decoded frame and
  the frame size bounds;
- a process-wide room-scope counter: scopes are unique per
  `ServerRoomScopeAllocator`, so a process keeps one allocator for all its
  rooms.

## Layout

- `src/ids.rs`, `invite_code.rs`, `resume_token.rs`, `room_scope.rs`:
  identifiers, invite codes, resume tokens and room scopes.
- `src/player_slot.rs`, `room.rs`, `room_connection_ops.rs`,
  `room_input_connection_ops.rs`, `room_ready_ops.rs`,
  `room_runner_handoff_ops.rs`,
  `room_sweep.rs`: the room model and its lifecycle (joins, host attachment,
  disconnects, recovery and reconnects, heartbeats, runner handoffs, input
  sockets, the periodic sweep). Each operation is specified against the
  room's mathematical view (`RoomModel`); `room_laws.rs` proves properties
  that span several operations.
- `src/link_wire.rs`, `link_cable_transaction.rs`, `link_cable_data_plane.rs`,
  `link_cable_room_state.rs`, `link_cable_session.rs`, `room_link_cable_ops.rs`:
  the virtual link cable, from the transaction validator to the bounded
  per-room data plane and its room-level operations.
- `src/input_frame_acceptance.rs`, `room_controller_netplay_ops.rs`,
  `room_frame_clock_ops.rs`, `room_host_frame_ops.rs`: controller input
  admission, the relay-owned frame clock and host frame opens.
- `src/adaptive_input_delay_policy.rs`, `input_frame_relay_buffer.rs`,
  `fast_input_relay_buffer.rs`: input delay and input release buffers.
- `src/room_connection_diagnostics.rs`, `room_debug_event.rs`: sanitized
  diagnostics and the bounded debug-event log.
- `app/`: runtime plumbing that Verus does not see: a room shared behind a
  lock with asynchronous link-cable receivers, the periodic sweep task, and
  standard-error and redacted-debug forms of library values.
- `tests/`: executable tests of the library.
