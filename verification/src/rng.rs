//! Random food placement: a fresh position drawn uniformly over the grid.

use rand::Rng;
use vstd::prelude::*;

use crate::grid::{Position, TERMINAL_HEIGHT, TERMINAL_WIDTH, pos_in_bounds};

verus! {

/// Relies on rand's `thread_rng` and `Rng::gen_range`: a sample from the
/// half-open range `0..n` is strictly below `n`. The range is non-empty
/// since `n > 0`, so the call does not panic.
#[verifier::external_body]
fn random_below(n: u8) -> (r: u8)
    requires
        n > 0,
    ensures
        r < n,
{
    rand::thread_rng().gen_range(0..n)
}

/// A fresh position drawn uniformly over the visible grid.
pub fn random_position() -> (p: Position)
    ensures
        pos_in_bounds(p),
{
    Position { x: random_below(TERMINAL_WIDTH), y: random_below(TERMINAL_HEIGHT) }
}

} // verus!
