//! The game state and its per-frame update: input-to-direction resolution,
//! the fixed-rate movement gate, follow-the-leader movement, self-collision
//! detection, growth on eating, and the win/loss/reset lifecycle.
//!
//! The host loop calls [`State::tick`] once per frame with the currently
//! pressed key (if any) and the wall-clock time in milliseconds; the call
//! mutates the state in place and returns the draw commands for that frame.

use vstd::prelude::*;

use crate::grid::{Direction, Position, opposite_spec, pos_in_bounds, step_spec};
use crate::rng::random_position;

verus! {

/// The snake moves at most once per this many milliseconds.
pub const MOVE_INTERVAL_MS: u64 = 100;

/// Grid x coordinate of the head of a freshly constructed snake.
pub const START_X: u8 = 30;
/// Grid y coordinate of the head of a freshly constructed snake.
pub const START_Y: u8 = 25;

/// One unit of the snake: a position on the grid plus the direction it will
/// move on the next movement tick. The direction is absent only for a
/// brand-new snake before any arrow key has been pressed.
#[derive(Clone, Copy, Debug, PartialEq, Eq)]
pub struct Segment {
    pub pos: Position,
    pub direction: Option<Direction>,
}

/// A key press recognized by the game. Anything else is ignored by the
/// update and never reaches the library.
#[derive(Clone, Copy, Debug, PartialEq, Eq, Structural)]
pub enum Key {
    Up,
    Down,
    Left,
    Right,
    Space,
    Quit,
}

/// One draw or control request issued to the host during a frame, in order.
#[derive(Clone, Copy, Debug, PartialEq, Eq)]
pub enum Command {
    /// Print the score line (the segment count) centered on the top row.
    Score(usize),
    /// Print the food marker at this position.
    Food(Position),
    /// Blank the cell at this position (a segment is about to leave it).
    Erase(Position),
    /// Print a snake glyph at this position.
    Draw(Position),
    /// Print the centered game-over / restart prompt.
    OverPrompt,
    /// Terminate the process.
    Quit,
}

/// The whole mutable simulation: snake body (head first), food position,
/// the time of the last movement tick, and the game-over flag.
#[derive(Debug)]
pub struct State {
    pub snake: Vec<Segment>,
    pub food_pos: Position,
    pub last_move_ms: u64,
    pub game_over: bool,
}

/// The mathematical value of a [`State`]: the same fields with the snake
/// as a sequence.
#[verifier::ext_equal]
pub struct Model {
    pub snake: Seq<Segment>,
    pub food_pos: Position,
    pub last_move_ms: u64,
    pub game_over: bool,
}

impl View for State {
    type V = Model;

    open spec fn view(&self) -> Model {
        Model {
            snake: self.snake@,
            food_pos: self.food_pos,
            last_move_ms: self.last_move_ms,
            game_over: self.game_over,
        }
    }
}

/// A snake is well formed when it has at least one segment and every
/// segment lies on the grid.
pub open spec fn wf_snake(s: Seq<Segment>) -> bool {
    &&& s.len() >= 1
    &&& forall|i: int| 0 <= i < s.len() ==> pos_in_bounds(#[trigger] s[i].pos)
}

/// A state is well formed when its snake is and the food is on the grid.
pub open spec fn wf_model(m: Model) -> bool {
    &&& wf_snake(m.snake)
    &&& pos_in_bounds(m.food_pos)
}

/// The direction an arrow key asks for; `None` for space and quit.
pub open spec fn key_direction(k: Key) -> Option<Direction> {
    match k {
        Key::Up => Some(Direction::Up),
        Key::Down => Some(Direction::Down),
        Key::Left => Some(Direction::Left),
        Key::Right => Some(Direction::Right),
        Key::Space => None,
        Key::Quit => None,
    }
}

/// The snake after direction-input resolution. An arrow key sets the head's
/// pending direction; with more than one segment a key exactly opposite to
/// the current pending direction is rejected and the snake is unchanged.
/// Space, quit, and no key leave the snake unchanged.
pub open spec fn resolved(s: Seq<Segment>, key: Option<Key>) -> Seq<Segment> {
    match key {
        None => s,
        Some(k) => match key_direction(k) {
            None => s,
            Some(d) => if s.len() > 1 && s[0].direction == Some(opposite_spec(d)) {
                s
            } else {
                s.update(0, Segment { pos: s[0].pos, direction: Some(d) })
            },
        },
    }
}

/// One segment after its movement step: one clamped cell in its own stored
/// direction, or in place if it has none yet.
pub open spec fn move_segment(s: Segment) -> Segment {
    match s.direction {
        Some(d) => Segment { pos: step_spec(s.pos, d), direction: s.direction },
        None => s,
    }
}

/// The whole snake after every segment has taken its movement step.
pub open spec fn moved(s: Seq<Segment>) -> Seq<Segment> {
    Seq::new(s.len(), |i: int| move_segment(s[i]))
}

/// Whether the head shares a cell with any other segment.
pub open spec fn hits_body(s: Seq<Segment>) -> bool {
    exists|i: int| 1 <= i < s.len() && (#[trigger] s[i].pos) == s[0].pos
}

/// The snake after tail-ward direction propagation: each non-head segment
/// adopts the direction the segment ahead of it held before this step, so
/// the body follows the path the head traced.
pub open spec fn propagated(s: Seq<Segment>) -> Seq<Segment> {
    Seq::new(
        s.len(),
        |i: int| if i == 0 {
            s[0]
        } else {
            Segment { pos: s[i].pos, direction: s[i - 1].direction }
        },
    )
}

/// The segment appended when the snake grows: one clamped cell behind the
/// former tail (opposite to the tail's direction), inheriting the tail's
/// direction; a tail without a direction is duplicated in place.
pub open spec fn grown_tail(t: Segment) -> Segment {
    match t.direction {
        Some(d) => Segment { pos: step_spec(t.pos, opposite_spec(d)), direction: t.direction },
        None => t,
    }
}

/// A freshly constructed game: a single directionless segment at the fixed
/// start cell, the given food, the movement clock set to `now_ms`, and the
/// game running.
pub open spec fn initial_model(now_ms: u64, food: Position) -> Model {
    Model {
        snake: seq![Segment { pos: Position { x: START_X, y: START_Y }, direction: None }],
        food_pos: food,
        last_move_ms: now_ms,
        game_over: false,
    }
}

/// Whether enough wall-clock time has passed since the last movement tick
/// for the snake to move this frame.
pub open spec fn gate_passes(m: Model, now_ms: u64) -> bool {
    now_ms >= m.last_move_ms + MOVE_INTERVAL_MS
}

/// The state after one frame of the update, given the key pressed this
/// frame, the current time, and the position the food would be moved to if
/// it is eaten (or that a restart would place it at).
pub open spec fn tick_state(m: Model, key: Option<Key>, now_ms: u64, new_food: Position) -> Model {
    if m.game_over {
        if key == Some(Key::Space) {
            initial_model(now_ms, new_food)
        } else {
            m
        }
    } else {
        let r = resolved(m.snake, key);
        if !gate_passes(m, now_ms) {
            Model { snake: r, ..m }
        } else {
            let mv = moved(r);
            if hits_body(mv) {
                Model { snake: mv, last_move_ms: now_ms, game_over: true, ..m }
            } else {
                let pr = propagated(mv);
                if pr[0].pos == m.food_pos {
                    Model {
                        snake: pr.push(grown_tail(pr.last())),
                        food_pos: new_food,
                        last_move_ms: now_ms,
                        ..m
                    }
                } else {
                    Model { snake: pr, last_move_ms: now_ms, ..m }
                }
            }
        }
    }
}

/// The erase/draw pair emitted for each segment as it moves, in head-to-tail
/// order: blank its old cell, then draw it at its stepped cell.
pub open spec fn draw_cmds(s: Seq<Segment>) -> Seq<Command> {
    Seq::new(
        2 * s.len(),
        |j: int| if j % 2 == 0 {
            Command::Erase(s[j / 2].pos)
        } else {
            Command::Draw(move_segment(s[j / 2]).pos)
        },
    )
}

/// The commands issued during one frame of the update, in order.
pub open spec fn tick_cmds(m: Model, key: Option<Key>, now_ms: u64, new_food: Position) -> Seq<
    Command,
> {
    if m.game_over {
        if key == Some(Key::Quit) {
            seq![Command::OverPrompt, Command::Quit]
        } else {
            seq![Command::OverPrompt]
        }
    } else {
        let quit: Seq<Command> = if key == Some(Key::Quit) {
            seq![Command::Quit]
        } else {
            Seq::empty()
        };
        if !gate_passes(m, now_ms) {
            quit
        } else {
            quit + seq![
                Command::Score(m.snake.len() as usize),
                Command::Food(m.food_pos),
            ] + draw_cmds(resolved(m.snake, key))
        }
    }
}

/// Direction-input resolution changes neither the snake's length nor any
/// segment's position.
pub proof fn lemma_resolved_shape(s: Seq<Segment>, key: Option<Key>)
    requires
        s.len() >= 1,
    ensures
        resolved(s, key).len() == s.len(),
        forall|i: int| 0 <= i < s.len() ==> (#[trigger] resolved(s, key)[i]).pos == s[i].pos,
{
}

/// Movement keeps every segment on the grid.
pub proof fn lemma_moved_wf(s: Seq<Segment>)
    requires
        wf_snake(s),
    ensures
        wf_snake(moved(s)),
{
    assert forall|i: int| 0 <= i < moved(s).len() implies pos_in_bounds(
        #[trigger] moved(s)[i].pos,
    ) by {
        match s[i].direction {
            Some(d) => crate::grid::lemma_step_in_bounds(s[i].pos, d),
            None => {},
        }
    }
}

/// Direction propagation changes no segment's position.
pub proof fn lemma_propagated_wf(s: Seq<Segment>)
    requires
        wf_snake(s),
    ensures
        wf_snake(propagated(s)),
        forall|i: int| 0 <= i < s.len() ==> (#[trigger] propagated(s)[i]).pos == s[i].pos,
{
}

/// One frame of the update keeps the state well formed, whatever key was
/// pressed, as long as the replacement food lies on the grid.
pub proof fn lemma_tick_preserves_wf(m: Model, key: Option<Key>, now_ms: u64, new_food: Position)
    requires
        wf_model(m),
        pos_in_bounds(new_food),
    ensures
        wf_model(tick_state(m, key, now_ms, new_food)),
{
    if m.game_over {
    } else {
        let r = resolved(m.snake, key);
        lemma_resolved_shape(m.snake, key);
        assert(wf_snake(r));
        if gate_passes(m, now_ms) {
            let mv = moved(r);
            lemma_moved_wf(r);
            if !hits_body(mv) {
                let pr = propagated(mv);
                lemma_propagated_wf(mv);
                if pr[0].pos == m.food_pos {
                    let g = grown_tail(pr.last());
                    assert(pos_in_bounds(pr.last().pos));
                    match pr.last().direction {
                        Some(d) => crate::grid::lemma_step_in_bounds(
                            pr.last().pos,
                            opposite_spec(d),
                        ),
                        None => {},
                    }
                    assert(pos_in_bounds(g.pos));
                    assert(wf_snake(pr.push(g)));
                }
            }
        }
    }
}

impl State {
    /// A fresh game with the given food position and the movement clock set
    /// to `now_ms`.
    pub fn new_with(now_ms: u64, food: Position) -> (s: State)
        ensures
            s@ == initial_model(now_ms, food),
    {
        let mut snake: Vec<Segment> = Vec::new();
        snake.push(Segment { pos: Position { x: START_X, y: START_Y }, direction: None });
        let s = State { snake, food_pos: food, last_move_ms: now_ms, game_over: false };
        proof {
            assert(s@.snake =~= initial_model(now_ms, food).snake);
        }
        s
    }

    /// A fresh game with randomly placed food and the movement clock set to
    /// `now_ms`.
    pub fn new(now_ms: u64) -> (s: State)
        ensures
            s@ == initial_model(now_ms, s@.food_pos),
            pos_in_bounds(s@.food_pos),
    {
        Self::new_with(now_ms, random_position())
    }

    /// Resets the game to a fresh state with the given food position.
    pub fn reset_with(&mut self, now_ms: u64, food: Position)
        ensures
            final(self)@ == initial_model(now_ms, food),
    {
        *self = Self::new_with(now_ms, food);
    }

    /// Resets the game to a fresh state with randomly placed food.
    ///
    /// This can be used to re/start the game.
    pub fn reset(&mut self, now_ms: u64)
        ensures
            final(self)@ == initial_model(now_ms, final(self)@.food_pos),
            pos_in_bounds(final(self)@.food_pos),
    {
        *self = Self::new(now_ms);
    }

    /// Reacts to the key pressed this frame: an arrow key updates the
    /// head's pending direction under the reversal rule, and the result
    /// says whether the quit key was pressed.
    pub fn handle_key(&mut self, key: Option<Key>) -> (quit: bool)
        requires
            old(self).snake.len() >= 1,
        ensures
            final(self)@.snake == resolved(old(self)@.snake, key),
            final(self)@.food_pos == old(self)@.food_pos,
            final(self)@.last_move_ms == old(self)@.last_move_ms,
            final(self)@.game_over == old(self)@.game_over,
            quit == (key == Some(Key::Quit)),
    {
        let mut quit = false;
        if let Some(k) = key {
            let arrow: Option<Direction> = match k {
                Key::Up => Some(Direction::Up),
                Key::Down => Some(Direction::Down),
                Key::Left => Some(Direction::Left),
                Key::Right => Some(Direction::Right),
                Key::Space => None,
                Key::Quit => {
                    quit = true;
                    None
                },
            };
            if let Some(d) = arrow {
                let head = self.snake[0];
                let rejected = self.snake.len() > 1 && (match head.direction {
                    Some(c) => c == d.opposite(),
                    None => false,
                });
                if !rejected {
                    self.snake.set(0, Segment { pos: head.pos, direction: Some(d) });
                }
            }
        }
        quit
    }

    /// Moves every segment one clamped step in its own direction, in
    /// head-to-tail order, and returns the erase/draw command pair for each.
    pub fn move_segments(&mut self) -> (cmds: Vec<Command>)
        ensures
            final(self)@.snake == moved(old(self)@.snake),
            final(self)@.food_pos == old(self)@.food_pos,
            final(self)@.last_move_ms == old(self)@.last_move_ms,
            final(self)@.game_over == old(self)@.game_over,
            cmds@ == draw_cmds(old(self)@.snake),
    {
        let ghost orig: Seq<Segment> = self.snake@;
        let mut cmds: Vec<Command> = Vec::new();
        let n = self.snake.len();
        let mut i: usize = 0;
        while i < n
            invariant
                n == orig.len(),
                i <= n,
                self.snake@.len() == n,
                self.food_pos == old(self).food_pos,
                self.last_move_ms == old(self).last_move_ms,
                self.game_over == old(self).game_over,
                forall|j: int| 0 <= j < i ==> self.snake@[j] == move_segment(orig[j]),
                forall|j: int| i <= j < n ==> self.snake@[j] == orig[j],
                cmds@.len() == 2 * i,
                forall|j: int| 0 <= j < 2 * i ==> cmds@[j] == draw_cmds(orig)[j],
            decreases n - i,
        {
            let seg = self.snake[i];
            cmds.push(Command::Erase(seg.pos));
            let stepped = match seg.direction {
                Some(d) => Segment { pos: seg.pos.step(d), direction: seg.direction },
                None => seg,
            };
            self.snake.set(i, stepped);
            cmds.push(Command::Draw(stepped.pos));
            i = i + 1;
        }
        proof {
            assert(self.snake@ =~= moved(orig));
            assert(cmds@ =~= draw_cmds(orig));
        }
        cmds
    }

    /// Whether the head now shares a cell with any other segment.
    pub fn self_collision(&self) -> (r: bool)
        requires
            self.snake.len() >= 1,
        ensures
            r == hits_body(self@.snake),
    {
        let head_pos = self.snake[0].pos;
        let n = self.snake.len();
        let mut i: usize = 1;
        while i < n
            invariant
                1 <= i <= n,
                n == self.snake@.len(),
                head_pos == self.snake@[0].pos,
                forall|j: int| 1 <= j < i ==> (#[trigger] self.snake@[j].pos) != head_pos,
            decreases n - i,
        {
            if self.snake[i].pos == head_pos {
                return true;
            }
            i = i + 1;
        }
        false
    }

    /// Propagates directions tail-ward: iterating strictly tail-to-head,
    /// each non-head segment adopts the direction the segment ahead of it
    /// held before this step.
    pub fn propagate_directions(&mut self)
        requires
            old(self).snake.len() >= 1,
        ensures
            final(self)@.snake == propagated(old(self)@.snake),
            final(self)@.food_pos == old(self)@.food_pos,
            final(self)@.last_move_ms == old(self)@.last_move_ms,
            final(self)@.game_over == old(self)@.game_over,
    {
        let ghost orig: Seq<Segment> = self.snake@;
        let mut i: usize = self.snake.len() - 1;
        while i > 0
            invariant
                i < orig.len(),
                self.snake@.len() == orig.len(),
                self.food_pos == old(self).food_pos,
                self.last_move_ms == old(self).last_move_ms,
                self.game_over == old(self).game_over,
                forall|j: int| 0 <= j <= i ==> self.snake@[j] == orig[j],
                forall|j: int|
                    i < j < orig.len() ==> self.snake@[j] == (Segment {
                        pos: orig[j].pos,
                        direction: orig[j - 1].direction,
                    }),
            decreases i,
        {
            let ahead = self.snake[i - 1].direction;
            let seg = self.snake[i];
            self.snake.set(i, Segment { pos: seg.pos, direction: ahead });
            i = i - 1;
        }
        proof {
            assert(self.snake@ =~= propagated(orig));
        }
    }

    /// If the head has landed on the food: moves the food to `new_food` and
    /// appends one segment one clamped cell behind the former tail,
    /// inheriting the tail's direction. Otherwise changes nothing.
    pub fn consume_food(&mut self, new_food: Position)
        requires
            old(self).snake.len() >= 1,
        ensures
            old(self)@.snake[0].pos == old(self)@.food_pos ==> final(self)@ == (Model {
                snake: old(self)@.snake.push(grown_tail(old(self)@.snake.last())),
                food_pos: new_food,
                ..old(self)@
            }),
            old(self)@.snake[0].pos != old(self)@.food_pos ==> final(self)@ == old(self)@,
    {
        if self.snake[0].pos == self.food_pos {
            self.food_pos = new_food;
            let tail = self.snake[self.snake.len() - 1];
            let grown = match tail.direction {
                Some(d) => Segment { pos: tail.pos.step(d.opposite()), direction: tail.direction },
                None => tail,
            };
            self.snake.push(grown);
        }
    }

    /// One frame of the update, made deterministic by taking the position
    /// the food would move to if it is eaten this frame (or that a restart
    /// would place it at). Resolves the key, applies the movement-rate
    /// gate, moves the snake, detects self-collision, and handles food
    /// consumption; returns this frame's draw commands in order.
    pub fn tick_with(&mut self, key: Option<Key>, now_ms: u64, new_food: Position) -> (cmds: Vec<
        Command,
    >)
        requires
            wf_model(old(self)@),
            pos_in_bounds(new_food),
        ensures
            final(self)@ == tick_state(old(self)@, key, now_ms, new_food),
            cmds@ == tick_cmds(old(self)@, key, now_ms, new_food),
            wf_model(final(self)@),
    {
        proof {
            lemma_tick_preserves_wf(old(self)@, key, now_ms, new_food);
        }
        let ghost m: Model = old(self)@;
        let mut cmds: Vec<Command> = Vec::new();

        // While the game is over, only the restart and quit keys react.
        if self.game_over {
            cmds.push(Command::OverPrompt);
            match key {
                Some(Key::Space) => self.reset_with(now_ms, new_food),
                Some(Key::Quit) => cmds.push(Command::Quit),
                _ => {},
            }
            proof {
                assert(self@ =~= tick_state(m, key, now_ms, new_food));
                assert(cmds@ =~= tick_cmds(m, key, now_ms, new_food));
            }
            return cmds;
        }

        // Resolve direction input every frame, so a turn queued between
        // movement ticks is not lost.
        let quit = self.handle_key(key);
        if quit {
            cmds.push(Command::Quit);
        }

        // Make the snake move each 100ms, no less than that.
        if !(now_ms >= self.last_move_ms && now_ms - self.last_move_ms >= MOVE_INTERVAL_MS) {
            proof {
                assert(self@ =~= tick_state(m, key, now_ms, new_food));
                assert(cmds@ =~= tick_cmds(m, key, now_ms, new_food));
            }
            return cmds;
        }
        self.last_move_ms = now_ms;

        cmds.push(Command::Score(self.snake.len()));
        cmds.push(Command::Food(self.food_pos));

        let mut draw = self.move_segments();
        cmds.append(&mut draw);
        proof {
            assert(cmds@ =~= tick_cmds(m, key, now_ms, new_food));
        }

        // If the head touches any other segment, the game is over; nothing
        // further changes this frame.
        if self.self_collision() {
            self.game_over = true;
            proof {
                assert(self@ =~= tick_state(m, key, now_ms, new_food));
            }
            return cmds;
        }

        self.propagate_directions();
        self.consume_food(new_food);
        proof {
            assert(self@ =~= tick_state(m, key, now_ms, new_food));
        }
        cmds
    }

    /// One frame of the update: like [`State::tick_with`], with the
    /// replacement food position drawn uniformly over the grid.
    pub fn tick(&mut self, key: Option<Key>, now_ms: u64) -> (cmds: Vec<Command>)
        requires
            wf_model(old(self)@),
        ensures
            exists|nf: Position|
                #![trigger tick_state(old(self)@, key, now_ms, nf)]
                pos_in_bounds(nf) && final(self)@ == tick_state(old(self)@, key, now_ms, nf)
                    && cmds@ == tick_cmds(old(self)@, key, now_ms, nf),
            wf_model(final(self)@),
    {
        let nf = random_position();
        self.tick_with(key, now_ms, nf)
    }
}

} // verus!
