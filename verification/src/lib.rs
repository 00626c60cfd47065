//! Frame-pacing strategies and a stutter injector for exercising them.
//!
//! Time is counted in whole ticks (see [`ticks`]); every pacing strategy is a
//! total function from a frame delta and an accumulator state to the next
//! state, and the stutter injector decides from one uniform draw whether a
//! pipeline stage has to stall.

pub mod error;
pub mod ticks;
pub mod ieee;
pub mod pacing;
pub mod laws;
pub mod stutter;
pub mod stall;
