//! Discrete logic core of an underwater puzzle game: the six puzzle-element
//! state machines (switch, gate, security camera, keypad code, fan, socket),
//! the per-level wiring that composes them, and the level sequencing that
//! applies their transition requests.
//!
//! Continuous collaborators (physics, rendering, asset loading, raycasts)
//! feed these machines plain per-tick sensor and input values and consume
//! plain state and command values back. Time is fixed-point: ramps run in
//! micro-steps (`ramp::UNIT` per logical unit) over millisecond deltas.
pub mod code;
pub mod discovery;
pub mod fan;
pub mod gate;
pub mod generator;
pub mod levels;
pub mod player;
pub mod ramp;
pub mod scene_props;
pub mod security_camera;
pub mod sequence;
pub mod socket;
pub mod switch;
