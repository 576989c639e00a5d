//! Room coordination for invite-code netplay sessions: identifiers, invite
//! codes, resume tokens, player slots, the adaptive input-delay policy, the
//! room lifecycle (joins, disconnects, recovery, runner handoffs, heartbeats),
//! input release buffers, and the virtual link-cable provider with its
//! transaction validator and private bounded data plane.

pub mod ids;
pub mod text;
pub mod errors;
pub mod invite_code;
pub mod resume_token;
pub mod room_scope;
pub mod clock;
pub mod recovery_config;
pub mod player_slot;
pub mod adaptive_input_delay_policy;
pub mod room_connection_diagnostics;
pub mod room_debug_event;
pub mod input_frame_relay_buffer;
pub mod fast_input_relay_buffer;
pub mod link_wire;
pub mod link_cable_transaction;
pub mod link_cable_data_plane;
pub mod link_cable_room_state;
pub mod link_cable_session;
pub mod room;
pub mod room_connection_ops;
pub mod room_input_connection_ops;
pub mod input_frame_acceptance;
pub mod room_controller_netplay_ops;
pub mod room_frame_clock_ops;
pub mod room_host_frame_ops;
pub mod room_ready_ops;
pub mod room_runner_handoff_ops;
pub mod room_link_cable_ops;
pub mod room_sweep;
pub mod room_laws;
