//! The game's rules, stated once over the whole update and proved: how the
//! snake's length evolves, that it never leaves the grid, the reversal
//! rule, the movement-rate gate, what self-collision stops, and what a
//! restart yields.

use vstd::prelude::*;

use crate::grid::{Direction, Position, opposite_spec, pos_in_bounds};
use crate::state::{
    Command, Key, MOVE_INTERVAL_MS, Model, Segment, gate_passes, hits_body, initial_model,
    key_direction, lemma_propagated_wf, lemma_resolved_shape, lemma_tick_preserves_wf,
    move_segment, moved, propagated, resolved, tick_cmds, tick_state, wf_model,
};

verus! {

/// Whether this frame's update eats the food: the game is running, the
/// movement gate passes, the moved snake does not collide with itself, and
/// the head lands on the food.
pub open spec fn eats(m: Model, key: Option<Key>, now_ms: u64) -> bool {
    &&& !m.game_over
    &&& gate_passes(m, now_ms)
    &&& !hits_body(moved(resolved(m.snake, key)))
    &&& propagated(moved(resolved(m.snake, key)))[0].pos == m.food_pos
}

/// While the game is running, the snake's length never decreases over a
/// frame, and it increases by exactly one on each frame that eats the food
/// (and stays the same otherwise).
pub proof fn lemma_snake_length(m: Model, key: Option<Key>, now_ms: u64, new_food: Position)
    requires
        wf_model(m),
        !m.game_over,
    ensures
        tick_state(m, key, now_ms, new_food).snake.len() >= m.snake.len(),
        eats(m, key, now_ms) ==> tick_state(m, key, now_ms, new_food).snake.len() == m.snake.len()
            + 1,
        !eats(m, key, now_ms) ==> tick_state(m, key, now_ms, new_food).snake.len()
            == m.snake.len(),
{
    lemma_resolved_shape(m.snake, key);
}

/// After any frame from a well-formed state, every segment's position lies
/// within [0, width-1] x [0, height-1].
pub proof fn lemma_positions_in_bounds(m: Model, key: Option<Key>, now_ms: u64, new_food: Position)
    requires
        wf_model(m),
        pos_in_bounds(new_food),
    ensures
        forall|i: int|
            0 <= i < tick_state(m, key, now_ms, new_food).snake.len() ==> pos_in_bounds(
                (#[trigger] tick_state(m, key, now_ms, new_food).snake[i]).pos,
            ),
{
    lemma_tick_preserves_wf(m, key, now_ms, new_food);
}

/// With more than one segment, a key asking for the exact opposite of the
/// head's pending direction is rejected: resolution leaves the snake
/// unchanged.
pub proof fn lemma_reversal_rejected(s: Seq<Segment>, k: Key, d: Direction)
    requires
        s.len() > 1,
        s[0].direction == Some(d),
        key_direction(k) == Some(opposite_spec(d)),
    ensures
        resolved(s, Some(k)) == s,
{
    assert(opposite_spec(opposite_spec(d)) == d);
}

/// A single-segment snake accepts any of the four directions
/// unconditionally.
pub proof fn lemma_single_segment_accepts(s: Seq<Segment>, k: Key, d: Direction)
    requires
        s.len() == 1,
        key_direction(k) == Some(d),
    ensures
        resolved(s, Some(k))[0].direction == Some(d),
        resolved(s, Some(k))[0].pos == s[0].pos,
{
}

/// A frame that comes less than the movement interval after the last
/// movement tick changes no position and draws nothing: only the pending
/// direction may change, and the only possible command is a quit request.
pub proof fn lemma_gate_blocks(m: Model, key: Option<Key>, now_ms: u64, new_food: Position)
    requires
        wf_model(m),
        !m.game_over,
        now_ms < m.last_move_ms + MOVE_INTERVAL_MS,
    ensures
        tick_state(m, key, now_ms, new_food).snake.len() == m.snake.len(),
        forall|i: int|
            0 <= i < m.snake.len() ==> (#[trigger] tick_state(
                m,
                key,
                now_ms,
                new_food,
            ).snake[i]).pos == m.snake[i].pos,
        tick_state(m, key, now_ms, new_food).food_pos == m.food_pos,
        tick_state(m, key, now_ms, new_food).last_move_ms == m.last_move_ms,
        !tick_state(m, key, now_ms, new_food).game_over,
        key != Some(Key::Quit) ==> tick_cmds(m, key, now_ms, new_food) == Seq::<Command>::empty(),
        key == Some(Key::Quit) ==> tick_cmds(m, key, now_ms, new_food) == seq![Command::Quit],
{
    lemma_resolved_shape(m.snake, key);
}

/// A frame that comes at least the movement interval after the last
/// movement tick moves every segment exactly one clamped step in the
/// direction it holds after input resolution, and records the frame's time
/// as the new movement tick.
pub proof fn lemma_gate_passes_moves(m: Model, key: Option<Key>, now_ms: u64, new_food: Position)
    requires
        wf_model(m),
        !m.game_over,
        now_ms >= m.last_move_ms + MOVE_INTERVAL_MS,
    ensures
        forall|i: int|
            0 <= i < m.snake.len() ==> (#[trigger] tick_state(
                m,
                key,
                now_ms,
                new_food,
            ).snake[i]).pos == move_segment(resolved(m.snake, key)[i]).pos,
        tick_state(m, key, now_ms, new_food).last_move_ms == now_ms,
{
    lemma_resolved_shape(m.snake, key);
    let r = resolved(m.snake, key);
    let mv = moved(r);
    if !hits_body(mv) {
        lemma_propagated_wf(mv);
    }
}

/// Self-collision ends the game on the spot: the moved snake is kept as it
/// is, with no direction propagation and no growth, and nothing else
/// changes this frame.
pub proof fn lemma_self_collision_stops(m: Model, key: Option<Key>, now_ms: u64, new_food: Position)
    requires
        wf_model(m),
        !m.game_over,
        gate_passes(m, now_ms),
        hits_body(moved(resolved(m.snake, key))),
    ensures
        tick_state(m, key, now_ms, new_food).game_over,
        tick_state(m, key, now_ms, new_food).snake == moved(resolved(m.snake, key)),
        tick_state(m, key, now_ms, new_food).food_pos == m.food_pos,
        tick_state(m, key, now_ms, new_food).last_move_ms == now_ms,
{
}

/// From the game-over state, pressing space yields exactly a freshly
/// constructed initial state: a single directionless segment at the fixed
/// start cell, the replacement food, the running flag cleared, and the
/// movement clock set to the frame's time.
pub proof fn lemma_reset_from_over(m: Model, now_ms: u64, new_food: Position)
    requires
        m.game_over,
    ensures
        tick_state(m, Some(Key::Space), now_ms, new_food) == initial_model(now_ms, new_food),
{
}

} // verus!
