//! The hand-authored levels: each one binds named entities of its scene to
//! puzzle elements once at load, and wires the elements' outputs to
//! cross-element commands and a level-transition decision every tick.
//! Commands a wiring issues are not read back within the same tick: element
//! ticks run first, the wiring last.
pub mod lvl0;
pub mod lvl1;
pub mod lvl2;
pub mod lvl3;
pub mod lvl4;
pub mod wiring;
