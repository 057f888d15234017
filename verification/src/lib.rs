//! Core of a terminal snake game: the per-frame state-update algorithm.
//!
//! The library owns the whole simulation state (snake body, food, timing
//! gate, game-over flag) and advances it one frame at a time. Rendering,
//! keyboard polling and the frame loop live outside; each frame they hand
//! the update entry point the currently pressed key and the wall-clock time
//! in milliseconds, and receive back the draw commands for that frame.

use vstd::prelude::*;

pub mod grid;
pub mod laws;
pub mod rng;
pub mod state;

verus! {

} // verus!
