use rusty_snake::grid::{Direction, Position, TERMINAL_HEIGHT, TERMINAL_WIDTH};
use rusty_snake::state::{Command, Key, Segment, State};

fn seg(x: u8, y: u8, direction: Option<Direction>) -> Segment {
    Segment { pos: Position { x, y }, direction }
}

fn playing(snake: Vec<Segment>, food: Position, last_move_ms: u64) -> State {
    State { snake, food_pos: food, last_move_ms, game_over: false }
}

#[test]
fn initial_state() {
    let s = State::new_with(0, Position { x: 5, y: 6 });
    assert_eq!(s.snake.len(), 1);
    assert_eq!(s.snake[0], seg(30, 25, None));
    assert_eq!(s.food_pos, Position { x: 5, y: 6 });
    assert_eq!(s.last_move_ms, 0);
    assert!(!s.game_over);
}

#[test]
fn random_food_stays_on_grid() {
    for _ in 0..200 {
        let s = State::new(0);
        assert!(s.food_pos.x < TERMINAL_WIDTH);
        assert!(s.food_pos.y < TERMINAL_HEIGHT);
    }
}

#[test]
fn single_segment_accepts_all_directions() {
    let cases = [
        (Key::Up, Direction::Up),
        (Key::Down, Direction::Down),
        (Key::Left, Direction::Left),
        (Key::Right, Direction::Right),
    ];
    for (key, dir) in cases {
        let mut s = State::new_with(0, Position { x: 0, y: 0 });
        // A gated frame still resolves input.
        let cmds = s.tick_with(Some(key), 50, Position { x: 1, y: 1 });
        assert_eq!(s.snake[0].direction, Some(dir));
        assert_eq!(cmds, vec![]);
    }
    // A single segment may even reverse onto itself.
    let mut s = State::new_with(0, Position { x: 0, y: 0 });
    s.tick_with(Some(Key::Up), 10, Position { x: 1, y: 1 });
    s.tick_with(Some(Key::Down), 20, Position { x: 1, y: 1 });
    assert_eq!(s.snake[0].direction, Some(Direction::Down));
}

#[test]
fn reversal_rejected_with_multiple_segments() {
    let food = Position { x: 0, y: 0 };
    let mut s = playing(
        vec![seg(10, 10, Some(Direction::Up)), seg(10, 11, Some(Direction::Up))],
        food,
        0,
    );
    // Down is the exact opposite of the pending Up: rejected.
    s.tick_with(Some(Key::Down), 10, food);
    assert_eq!(s.snake[0].direction, Some(Direction::Up));
    // A perpendicular turn is accepted.
    s.tick_with(Some(Key::Left), 20, food);
    assert_eq!(s.snake[0].direction, Some(Direction::Left));
    // And so is the direction itself.
    s.tick_with(Some(Key::Left), 30, food);
    assert_eq!(s.snake[0].direction, Some(Direction::Left));
}

#[test]
fn gate_blocks_frames_under_interval() {
    let food = Position { x: 0, y: 0 };
    let mut s = playing(vec![seg(10, 10, Some(Direction::Right))], food, 0);
    let cmds = s.tick_with(None, 99, food);
    assert_eq!(s.snake[0].pos, Position { x: 10, y: 10 });
    assert_eq!(s.last_move_ms, 0);
    assert_eq!(cmds, vec![]);
}

#[test]
fn gate_passes_at_interval_boundary() {
    let food = Position { x: 0, y: 0 };
    let mut s = playing(vec![seg(10, 10, Some(Direction::Right))], food, 0);
    let cmds = s.tick_with(None, 100, food);
    assert_eq!(s.snake[0].pos, Position { x: 11, y: 10 });
    assert_eq!(s.last_move_ms, 100);
    assert_eq!(
        cmds,
        vec![
            Command::Score(1),
            Command::Food(Position { x: 0, y: 0 }),
            Command::Erase(Position { x: 10, y: 10 }),
            Command::Draw(Position { x: 11, y: 10 }),
        ]
    );
}

#[test]
fn two_close_updates_move_once() {
    let food = Position { x: 0, y: 0 };
    let mut s = playing(vec![seg(10, 10, Some(Direction::Right))], food, 0);
    s.tick_with(None, 150, food);
    assert_eq!(s.snake[0].pos, Position { x: 11, y: 10 });
    // Only 60ms after the last movement tick: no movement, no drawing.
    let cmds = s.tick_with(None, 210, food);
    assert_eq!(s.snake[0].pos, Position { x: 11, y: 10 });
    assert_eq!(cmds, vec![]);
    // 100ms after: exactly one more step.
    s.tick_with(None, 250, food);
    assert_eq!(s.snake[0].pos, Position { x: 12, y: 10 });
}

#[test]
fn press_right_then_tick_moves_head() {
    let food = Position { x: 0, y: 0 };
    let mut s = State::new_with(0, food);
    assert_eq!(s.snake[0], seg(30, 25, None));
    s.tick_with(Some(Key::Right), 10, food);
    assert_eq!(s.snake[0].direction, Some(Direction::Right));
    assert_eq!(s.snake[0].pos, Position { x: 30, y: 25 });
    s.tick_with(None, 110, food);
    assert_eq!(s.snake[0].pos, Position { x: 31, y: 25 });
    assert_eq!(s.snake.len(), 1);
}

#[test]
fn body_follows_the_head_one_tick_behind() {
    let food = Position { x: 0, y: 0 };
    let mut s = playing(
        vec![seg(10, 10, Some(Direction::Up)), seg(10, 11, Some(Direction::Up))],
        food,
        0,
    );
    s.tick_with(None, 100, food);
    assert_eq!(s.snake[0].pos, Position { x: 10, y: 9 });
    assert_eq!(s.snake[1].pos, Position { x: 10, y: 10 });
    // Both were moving up, so the tail adopts Up again.
    assert_eq!(s.snake[1].direction, Some(Direction::Up));
    // The head turns left on a gated frame after the move.
    s.tick_with(Some(Key::Left), 150, food);
    assert_eq!(s.snake[0].direction, Some(Direction::Left));
    assert_eq!(s.snake[1].direction, Some(Direction::Up));
    // On the next movement tick the tail still moves Up, the head's
    // direction of the previous tick, not the new Left.
    s.tick_with(None, 200, food);
    assert_eq!(s.snake[0].pos, Position { x: 9, y: 9 });
    assert_eq!(s.snake[1].pos, Position { x: 10, y: 9 });
    // Only now has the turn propagated to the tail.
    assert_eq!(s.snake[1].direction, Some(Direction::Left));
}

#[test]
fn self_collision_ends_the_game() {
    let food = Position { x: 0, y: 0 };
    // Head and body segment step onto the same cell this tick.
    let mut s = playing(
        vec![seg(5, 5, Some(Direction::Down)), seg(5, 7, Some(Direction::Up))],
        food,
        0,
    );
    let cmds = s.tick_with(None, 100, food);
    assert!(s.game_over);
    assert_eq!(s.snake[0].pos, Position { x: 5, y: 6 });
    assert_eq!(s.snake[1].pos, Position { x: 5, y: 6 });
    // No direction propagation happened on the collision tick.
    assert_eq!(s.snake[1].direction, Some(Direction::Up));
    assert_eq!(s.snake.len(), 2);
    // The segments were still drawn before the collision was noticed.
    assert_eq!(
        cmds,
        vec![
            Command::Score(2),
            Command::Food(food),
            Command::Erase(Position { x: 5, y: 5 }),
            Command::Draw(Position { x: 5, y: 6 }),
            Command::Erase(Position { x: 5, y: 7 }),
            Command::Draw(Position { x: 5, y: 6 }),
        ]
    );
}

#[test]
fn over_state_prompts_and_space_resets() {
    let food = Position { x: 0, y: 0 };
    let mut s = playing(
        vec![seg(5, 5, Some(Direction::Down)), seg(5, 7, Some(Direction::Up))],
        food,
        0,
    );
    s.tick_with(None, 100, food);
    assert!(s.game_over);
    // Any frame while over just re-renders the prompt.
    let cmds = s.tick_with(None, 150, Position { x: 9, y: 9 });
    assert_eq!(cmds, vec![Command::OverPrompt]);
    assert!(s.game_over);
    // Arrow keys are ignored while over.
    let cmds = s.tick_with(Some(Key::Up), 200, Position { x: 9, y: 9 });
    assert_eq!(cmds, vec![Command::OverPrompt]);
    assert_eq!(s.snake.len(), 2);
    // Space yields exactly a freshly constructed initial state.
    let cmds = s.tick_with(Some(Key::Space), 500, Position { x: 7, y: 8 });
    assert_eq!(cmds, vec![Command::OverPrompt]);
    let fresh = State::new_with(500, Position { x: 7, y: 8 });
    assert_eq!(s.snake, fresh.snake);
    assert_eq!(s.food_pos, fresh.food_pos);
    assert_eq!(s.last_move_ms, fresh.last_move_ms);
    assert_eq!(s.game_over, fresh.game_over);
}

#[test]
fn eating_food_grows_by_one_from_the_tail() {
    let food = Position { x: 11, y: 10 };
    let mut s = playing(vec![seg(10, 10, Some(Direction::Right))], food, 0);
    let cmds = s.tick_with(None, 100, Position { x: 3, y: 4 });
    assert_eq!(s.snake.len(), 2);
    assert_eq!(s.snake[0].pos, Position { x: 11, y: 10 });
    // The new segment appears one cell behind the old tail and inherits
    // its direction.
    assert_eq!(s.snake[1], seg(10, 10, Some(Direction::Right)));
    assert_eq!(s.food_pos, Position { x: 3, y: 4 });
    // The score drawn this frame is the segment count before growth.
    assert_eq!(cmds[0], Command::Score(1));
}

#[test]
fn length_never_decreases_while_playing() {
    let mut s = State::new_with(0, Position { x: 31, y: 25 });
    let mut len = s.snake.len();
    let keys = [Some(Key::Right), None, Some(Key::Down), None, Some(Key::Left), None, None];
    let mut now: u64 = 0;
    for key in keys {
        now += 100;
        s.tick_with(key, now, Position { x: 2, y: 2 });
        assert!(!s.game_over);
        assert!(s.snake.len() >= len);
        len = s.snake.len();
    }
    // The first tick ate the food at (31,25).
    assert!(len == 2);
}

#[test]
fn movement_saturates_at_grid_edges() {
    let food = Position { x: 40, y: 40 };
    let mut s = playing(vec![seg(0, 0, Some(Direction::Up))], food, 0);
    s.tick_with(None, 100, food);
    assert_eq!(s.snake[0].pos, Position { x: 0, y: 0 });
    let mut s = playing(vec![seg(0, 0, Some(Direction::Left))], food, 0);
    s.tick_with(None, 100, food);
    assert_eq!(s.snake[0].pos, Position { x: 0, y: 0 });
    let mut s = playing(
        vec![seg(TERMINAL_WIDTH - 1, TERMINAL_HEIGHT - 1, Some(Direction::Down))],
        food,
        0,
    );
    s.tick_with(None, 100, food);
    assert_eq!(s.snake[0].pos, Position { x: TERMINAL_WIDTH - 1, y: TERMINAL_HEIGHT - 1 });
    let mut s = playing(
        vec![seg(TERMINAL_WIDTH - 1, TERMINAL_HEIGHT - 1, Some(Direction::Right))],
        food,
        0,
    );
    s.tick_with(None, 100, food);
    assert_eq!(s.snake[0].pos, Position { x: TERMINAL_WIDTH - 1, y: TERMINAL_HEIGHT - 1 });
}

#[test]
fn clamped_step_per_direction() {
    let p = Position { x: 10, y: 10 };
    assert_eq!(p.step(Direction::Up), Position { x: 10, y: 9 });
    assert_eq!(p.step(Direction::Down), Position { x: 10, y: 11 });
    assert_eq!(p.step(Direction::Left), Position { x: 9, y: 10 });
    assert_eq!(p.step(Direction::Right), Position { x: 11, y: 10 });
}

#[test]
fn opposites_pair_up() {
    assert_eq!(Direction::Up.opposite(), Direction::Down);
    assert_eq!(Direction::Down.opposite(), Direction::Up);
    assert_eq!(Direction::Left.opposite(), Direction::Right);
    assert_eq!(Direction::Right.opposite(), Direction::Left);
}

#[test]
fn quit_key_requests_termination() {
    let food = Position { x: 0, y: 0 };
    let mut s = playing(vec![seg(10, 10, Some(Direction::Right))], food, 0);
    // On a gated frame the quit request is the only command.
    let cmds = s.tick_with(Some(Key::Quit), 10, food);
    assert_eq!(cmds, vec![Command::Quit]);
    // On a movement frame it precedes the draws.
    let cmds = s.tick_with(Some(Key::Quit), 110, food);
    assert_eq!(cmds[0], Command::Quit);
    assert_eq!(cmds[1], Command::Score(1));
    // While over, it follows the prompt.
    let mut s = playing(
        vec![seg(5, 5, Some(Direction::Down)), seg(5, 7, Some(Direction::Up))],
        food,
        0,
    );
    s.tick_with(None, 100, food);
    assert!(s.game_over);
    let cmds = s.tick_with(Some(Key::Quit), 200, food);
    assert_eq!(cmds, vec![Command::OverPrompt, Command::Quit]);
}

#[test]
fn tick_draws_replacement_food_on_the_grid() {
    let mut s = playing(vec![seg(10, 10, Some(Direction::Right))], Position { x: 11, y: 10 }, 0);
    let cmds = s.tick(None, 100);
    assert_eq!(s.snake.len(), 2);
    assert_eq!(s.snake[0].pos, Position { x: 11, y: 10 });
    assert!(s.food_pos.x < TERMINAL_WIDTH);
    assert!(s.food_pos.y < TERMINAL_HEIGHT);
    assert_eq!(cmds[0], Command::Score(1));
}

#[test]
fn reset_restarts_the_game() {
    let food = Position { x: 0, y: 0 };
    let mut s = playing(
        vec![seg(5, 5, Some(Direction::Down)), seg(5, 7, Some(Direction::Up))],
        food,
        0,
    );
    s.tick_with(None, 100, food);
    assert!(s.game_over);
    s.reset(700);
    assert_eq!(s.snake.len(), 1);
    assert_eq!(s.snake[0], seg(30, 25, None));
    assert!(!s.game_over);
    assert_eq!(s.last_move_ms, 700);
    assert!(s.food_pos.x < TERMINAL_WIDTH);
    assert!(s.food_pos.y < TERMINAL_HEIGHT);
}
