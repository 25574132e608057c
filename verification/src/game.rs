//! The game: arena, snake and food composed into the tick-driven
//! running/game-over state machine.

use vstd::prelude::*;

use crate::food::Food;
use crate::grid::{step_target, Direction, Position};
use crate::playground::Playground;
use crate::rng::RandomSource;
use crate::snake::{eat_rel, reset_rel, step_rel, Snake};
use crate::ConfigError;

verus! {

/// The standard movement delay between steps, in milliseconds.
pub const DEFAULT_MOVE_DELAY: u64 = 300;

/// How much each bonus eat shortens the movement delay, in milliseconds.
pub const SPEED_UP_DECREMENT: u64 = 20;

#[derive(Clone, Copy, PartialEq, Eq, Structural, Debug)]
pub enum Status {
    Running,
    GameOver,
}

/// A logical input command.  The input layer maps raw device events to
/// these; the engine never sees key codes.
#[derive(Clone, Copy, PartialEq, Eq, Structural, Debug)]
pub enum Command {
    Turn(Direction),
    Confirm,
}

/// What ends a game-over: an explicit confirmation command, or a fixed
/// wait in milliseconds.
#[derive(Clone, Copy, PartialEq, Eq, Structural, Debug)]
pub enum RestartPolicy {
    Manual,
    Auto(u64),
}

/// Addition on timers that sticks at the largest value instead of
/// wrapping.
pub open spec fn sat_add64(a: u64, b: u64) -> u64 {
    if a + b <= u64::MAX {
        (a + b) as u64
    } else {
        u64::MAX
    }
}

fn sat_add(a: u64, b: u64) -> (r: u64)
    ensures
        r == sat_add64(a, b),
{
    if a <= u64::MAX - b {
        a + b
    } else {
        u64::MAX
    }
}

/// Subtraction on the movement delay, floored at zero.
pub open spec fn sub_floor64(a: u64, b: u64) -> u64 {
    if a >= b {
        (a - b) as u64
    } else {
        0
    }
}

fn sub_floor(a: u64, b: u64) -> (r: u64)
    ensures
        r == sub_floor64(a, b),
{
    if a >= b {
        a - b
    } else {
        0
    }
}

/// Whether cell `p` is free for a spawn: not under the snake, not under
/// the staple food, and not under the bonus while one is shown.
pub open spec fn free_cell(
    snake: Snake,
    food_pos: Position,
    bonus_pos: Position,
    show_bonus: bool,
    p: Position,
) -> bool {
    &&& !snake.occupies(p)
    &&& p != food_pos
    &&& (show_bonus ==> p != bonus_pos)
}

fn is_free(snake: &Snake, food: &Food, bonus: &Food, show_bonus: bool, pos: &Position) -> (r: bool)
    ensures
        r == free_cell(*snake, food.position, bonus.position, show_bonus, *pos),
{
    !snake.on_position(pos) && !food.on_position(pos) && !(show_bonus && bonus.on_position(pos))
}

/// How many random samples are tried before the exhaustive sweep.
pub const SPAWN_ATTEMPTS: u32 = 64;

/// Picks a collision-free cell strictly inside the border margin:
/// first by bounded random sampling, then, should that fail, by an
/// exhaustive sweep of the interior.  Fails exactly when no interior
/// cell is free, which means the arena cannot host the spawn.
pub fn random_free_position(
    playground: &Playground,
    snake: &Snake,
    food: &Food,
    bonus: &Food,
    show_bonus: bool,
    rng: &mut RandomSource,
) -> (r: Result<Position, ConfigError>)
    requires
        playground.wf(),
    ensures
        match r {
            Ok(p) => {
                &&& playground.in_interior(p)
                &&& free_cell(*snake, food.position, bonus.position, show_bonus, p)
            },
            Err(e) => {
                &&& e == ConfigError::ArenaFull
                &&& forall|p: Position|
                    playground.in_interior(p) ==> !free_cell(
                        *snake,
                        food.position,
                        bonus.position,
                        show_bonus,
                        p,
                    )
            },
        },
{
    let border = playground.get_border_width();
    let width = playground.get_width();
    let height = playground.get_height();
    let cols: u32 = width - 2 * border;
    let rows: u32 = height - 2 * border;

    let mut attempts: u32 = 0;
    while attempts < SPAWN_ATTEMPTS
        invariant
            playground.wf(),
            border == playground.border_width,
            width == playground.width,
            height == playground.height,
            cols == width - 2 * border,
            rows == height - 2 * border,
        decreases SPAWN_ATTEMPTS - attempts,
    {
        let column = border + rng.next_below(cols);
        let row = border + rng.next_below(rows);
        let pos = Position(column, row);
        if is_free(snake, food, bonus, show_bonus, &pos) {
            return Ok(pos);
        }
        attempts = attempts + 1;
    }

    let mut column: u32 = border;
    while column < width - border
        invariant
            playground.wf(),
            border == playground.border_width,
            width == playground.width,
            height == playground.height,
            border <= column <= width - border,
            forall|p: Position| #![auto]
                playground.in_interior(p) && p.0 < column ==> !free_cell(
                    *snake,
                    food.position,
                    bonus.position,
                    show_bonus,
                    p,
                ),
        decreases width - border - column,
    {
        let mut row: u32 = border;
        while row < height - border
            invariant
                playground.wf(),
                border == playground.border_width,
                width == playground.width,
                height == playground.height,
                border <= column < width - border,
                border <= row <= height - border,
                forall|p: Position| #![auto]
                    playground.in_interior(p) && p.0 < column ==> !free_cell(
                        *snake,
                        food.position,
                        bonus.position,
                        show_bonus,
                        p,
                    ),
                forall|p: Position| #![auto]
                    playground.in_interior(p) && p.0 == column && p.1 < row ==> !free_cell(
                        *snake,
                        food.position,
                        bonus.position,
                        show_bonus,
                        p,
                    ),
            decreases height - border - row,
        {
            let pos = Position(column, row);
            if is_free(snake, food, bonus, show_bonus, &pos) {
                return Ok(pos);
            }
            row = row + 1;
        }
        column = column + 1;
    }
    Err(ConfigError::ArenaFull)
}

/// The whole play session: arena, snake, the staple and the bonus food,
/// score, status, timers and the random source.
pub struct Game {
    pub playground: Playground,
    pub snake: Snake,
    pub food: Food,
    pub bonus: Food,
    pub score: u64,
    pub status: Status,
    pub init_move_delay: u64,
    pub move_delay: u64,
    pub waiting_time: u64,
    pub bonus_time: u64,
    pub show_bonus: bool,
    pub missed_bonus: bool,
    pub restart_policy: RestartPolicy,
    pub rng: RandomSource,
}

impl Game {
    /// The session invariant: a sound arena, a sound snake whose
    /// starting cell lies in the playable interior, a head inside the
    /// interior whenever the game runs, and food only on interior
    /// cells.
    pub open spec fn wf(self) -> bool {
        &&& self.playground.wf()
        &&& self.snake.wf()
        &&& self.playground.in_interior(self.snake.init_position)
        &&& (self.status == Status::Running ==> self.playground.in_interior(self.snake.head))
        &&& self.playground.in_interior(self.food.position)
        &&& (self.show_bonus ==> self.playground.in_interior(self.bonus.position))
    }

    /// Builds a session: validates the snake's placement, then gives
    /// the staple food a collision-free cell.  The arena itself is
    /// validated by `Playground::new`.
    pub fn new(
        playground: Playground,
        snake: Snake,
        food: Food,
        bonus: Food,
        move_delay: u64,
        restart_policy: RestartPolicy,
        rng: RandomSource,
    ) -> (r: Result<Game, ConfigError>)
        requires
            playground.wf(),
            snake.wf(),
        ensures
            match r {
                Ok(g) => {
                    &&& g.wf()
                    &&& g.playground == playground
                    &&& g.snake == snake
                    &&& g.playground.in_interior(g.food.position)
                    &&& free_cell(snake, food.position, bonus.position, false, g.food.position)
                    &&& g.food.calories == food.calories
                    &&& g.food.disappear_after == food.disappear_after
                    &&& g.bonus == bonus
                    &&& g.score == 0
                    &&& g.status == Status::Running
                    &&& g.move_delay == move_delay
                    &&& g.init_move_delay == move_delay
                    &&& g.waiting_time == 0
                    &&& g.bonus_time == 0
                    &&& !g.show_bonus
                    &&& !g.missed_bonus
                    &&& g.restart_policy == restart_policy
                },
                Err(e) => {
                    ||| {
                        &&& e == ConfigError::SnakePlacement
                        &&& !(playground.in_interior(snake.head) && playground.in_interior(
                            snake.init_position,
                        ))
                    }
                    ||| {
                        &&& e == ConfigError::ArenaFull
                        &&& forall|p: Position|
                            playground.in_interior(p) ==> !free_cell(
                                snake,
                                food.position,
                                bonus.position,
                                false,
                                p,
                            )
                    }
                },
            },
    {
        if !(playground.contains_interior(&snake.head) && playground.contains_interior(
            &snake.init_position,
        )) {
            return Err(ConfigError::SnakePlacement);
        }
        let mut game = Game {
            playground,
            snake,
            food,
            bonus,
            score: 0,
            status: Status::Running,
            init_move_delay: move_delay,
            move_delay,
            waiting_time: 0,
            bonus_time: 0,
            show_bonus: false,
            missed_bonus: false,
            restart_policy,
            rng,
        };
        let pos = match random_free_position(
            &game.playground,
            &game.snake,
            &game.food,
            &game.bonus,
            game.show_bonus,
            &mut game.rng,
        ) {
            Ok(p) => p,
            Err(e) => {
                return Err(e);
            },
        };
        game.food.set_position(pos);
        Ok(game)
    }
}

/// Whether the shown bonus has outlived its disappearance budget.
pub open spec fn bonus_expired(g: Game) -> bool {
    match g.bonus.disappear_after {
        Some(t) => g.bonus_time > t,
        None => false,
    }
}

/// Every interior cell is taken, by the snake, the staple food or the
/// bonus food.  The collision-free spawn search fails exactly in such
/// a state, so each function that may spawn promises this of the state
/// it leaves behind on failure.
pub open spec fn arena_exhausted(g: Game) -> bool {
    forall|p: Position|
        g.playground.in_interior(p) ==> (g.snake.occupies(p) || p == g.food.position || p
            == g.bonus.position)
}

/// How a step followed by an eat in the same tick transforms the
/// snake: the head advances, the old head joins the body, and the cell
/// the step vacated is immediately regrown.
pub open spec fn stepped_then_ate(pre: Snake, post: Snake, dir: Option<Direction>) -> bool {
    let d = match dir {
        Some(x) => x,
        None => pre.direction,
    };
    &&& post.head == step_target(pre.head, d)
    &&& post.direction == d
    &&& post.body@ == (seq![pre.head] + pre.body@.drop_last()).push(pre.body@.last())
    &&& post.prev_tail is None
    &&& post.eatings == pre.eatings + 1
    &&& post.init_position == pre.init_position
    &&& post.init_direction == pre.init_direction
    &&& post.init_length == pre.init_length
}

/// A step with an eat in the same tick keeps the snake on its old
/// cells plus the step target: useful to rule the arena-full failure
/// out from knowledge of the state before the tick.
pub proof fn lemma_stepped_then_ate_occupies(
    pre: Snake,
    post: Snake,
    dir: Option<Direction>,
    p: Position,
)
    requires
        stepped_then_ate(pre, post, dir),
        post.occupies(p),
        pre.body@.len() >= 1,
    ensures
        pre.occupies(p) || p == step_target(
            pre.head,
            match dir {
                Some(d) => d,
                None => pre.direction,
            },
        ),
{
    let n = pre.body@.len() as int;
    let shifted = seq![pre.head] + pre.body@.drop_last();
    let grown = shifted.push(pre.body@.last());
    if post.body@.contains(p) {
        let i = choose|i: int| 0 <= i < grown.len() && grown[i] == p;
        if i == 0 {
            assert(grown[0] == pre.head);
            assert(p == pre.head);
        } else if i == n {
            assert(grown[n] == pre.body@.last());
            assert(pre.body@[n - 1] == p);
            assert(pre.body@.contains(p));
        } else {
            assert(grown[i] == shifted[i]);
            assert(shifted[i] == pre.body@.drop_last()[i - 1]);
            assert(pre.body@.drop_last()[i - 1] == pre.body@[i - 1]);
            assert(pre.body@.contains(p));
        }
    }
}

/// One movement step and what follows it in the same tick:
/// the head advances one cell; landing on the staple food eats it,
/// adds its calories and respawns it elsewhere; landing on a shown
/// bonus eats it, adds its calories, hides it and quickens the pace;
/// then the game ends exactly when the head overlaps the body or the
/// wall ring.  The waiting time starts over.
pub open spec fn step_outcome(pre: Game, post: Game, dir: Option<Direction>) -> bool {
    let d = match dir {
        Some(x) => x,
        None => pre.snake.direction,
    };
    let new_head = step_target(pre.snake.head, d);
    &&& post.playground == pre.playground
    &&& post.init_move_delay == pre.init_move_delay
    &&& post.restart_policy == pre.restart_policy
    &&& post.bonus_time == pre.bonus_time
    &&& post.waiting_time == 0
    &&& post.status == (if post.snake.bites_itself_spec() || pre.playground.hits_wall(new_head) {
        Status::GameOver
    } else {
        Status::Running
    })
    &&& if new_head == pre.food.position {
        &&& stepped_then_ate(pre.snake, post.snake, dir)
        &&& post.score == sat_add64(pre.score, pre.food.calories as u64)
        &&& post.food.calories == pre.food.calories
        &&& post.food.disappear_after == pre.food.disappear_after
        &&& pre.playground.in_interior(post.food.position)
        &&& free_cell(
            post.snake,
            pre.food.position,
            pre.bonus.position,
            pre.show_bonus,
            post.food.position,
        )
        &&& !post.missed_bonus
        &&& post.bonus == pre.bonus
        &&& post.show_bonus == pre.show_bonus
        &&& post.move_delay == pre.move_delay
    } else if pre.show_bonus && new_head == pre.bonus.position {
        &&& stepped_then_ate(pre.snake, post.snake, dir)
        &&& post.score == sat_add64(pre.score, pre.bonus.calories as u64)
        &&& post.food == pre.food
        &&& post.bonus == pre.bonus
        &&& !post.show_bonus
        &&& post.missed_bonus == pre.missed_bonus
        &&& post.move_delay == sub_floor64(pre.move_delay, SPEED_UP_DECREMENT)
    } else {
        &&& step_rel(pre.snake, post.snake, dir)
        &&& post.score == pre.score
        &&& post.food == pre.food
        &&& post.bonus == pre.bonus
        &&& post.show_bonus == pre.show_bonus
        &&& post.missed_bonus == pre.missed_bonus
        &&& post.move_delay == pre.move_delay
    }
}

/// Whether `post` is `pre` brought back to a fresh session: snake,
/// score, status, pace and timers reset, the staple food on a new
/// collision-free cell, the bonus hidden.
pub open spec fn restart_rel(pre: Game, post: Game) -> bool {
    &&& post.playground == pre.playground
    &&& reset_rel(pre.snake, post.snake)
    &&& post.status == Status::Running
    &&& post.score == 0
    &&& post.move_delay == pre.init_move_delay
    &&& post.init_move_delay == pre.init_move_delay
    &&& post.waiting_time == 0
    &&& post.bonus_time == 0
    &&& !post.show_bonus
    &&& !post.missed_bonus
    &&& post.restart_policy == pre.restart_policy
    &&& post.food.calories == pre.food.calories
    &&& post.food.disappear_after == pre.food.disappear_after
    &&& pre.playground.in_interior(post.food.position)
    &&& free_cell(post.snake, pre.food.position, pre.bonus.position, false, post.food.position)
    &&& post.bonus == pre.bonus
}

/// The bonus bookkeeping of one tick: an expired bonus is taken off
/// and marked missed; otherwise, when the snake has earned one and
/// none is shown and none was missed, a bonus is spawned on a free
/// interior cell and its timer starts; otherwise nothing changes.
pub open spec fn bonus_phase(pre: Game, post: Game) -> bool {
    if pre.show_bonus && bonus_expired(pre) {
        post == (Game { show_bonus: false, missed_bonus: true, ..pre })
    } else if !pre.show_bonus && pre.snake.is_worth_bonus() && !pre.missed_bonus {
        &&& post.playground == pre.playground
        &&& post.snake == pre.snake
        &&& post.food == pre.food
        &&& post.bonus.calories == pre.bonus.calories
        &&& post.bonus.disappear_after == pre.bonus.disappear_after
        &&& pre.playground.in_interior(post.bonus.position)
        &&& free_cell(pre.snake, pre.food.position, pre.bonus.position, false, post.bonus.position)
        &&& post.score == pre.score
        &&& post.status == pre.status
        &&& post.move_delay == pre.move_delay
        &&& post.init_move_delay == pre.init_move_delay
        &&& post.waiting_time == pre.waiting_time
        &&& post.bonus_time == 0
        &&& post.show_bonus
        &&& post.missed_bonus == pre.missed_bonus
        &&& post.restart_policy == pre.restart_policy
    } else {
        post == pre
    }
}

/// The movement of one tick: once the waiting time exceeds the
/// movement delay, one step with no heading override; otherwise
/// nothing.
pub open spec fn move_phase(pre: Game, post: Game) -> bool {
    if pre.waiting_time > pre.move_delay {
        step_outcome(pre, post, None)
    } else {
        post == pre
    }
}

/// One timed tick: both timers accumulate the delta; a finished game
/// only waits for its restart policy; a running game does the bonus
/// bookkeeping and then at most one movement step.
pub open spec fn tick_rel(pre: Game, post: Game, delta: u64) -> bool {
    let wt = sat_add64(pre.waiting_time, delta);
    let bt = sat_add64(pre.bonus_time, delta);
    if pre.status == Status::GameOver {
        match pre.restart_policy {
            RestartPolicy::Manual => post == (Game { waiting_time: wt, bonus_time: bt, ..pre }),
            RestartPolicy::Auto(wait) => if wt > wait {
                restart_rel(pre, post)
            } else {
                post == (Game { waiting_time: wt, bonus_time: bt, ..pre })
            },
        }
    } else {
        exists|m: Game|
            bonus_phase(Game { waiting_time: wt, bonus_time: bt, ..pre }, m) && #[trigger] move_phase(
                m,
                post,
            )
    }
}

/// How a logical input command acts: while running, a turn command
/// that is neither the current heading nor its reverse triggers an
/// immediate step under the new heading; the current heading and its
/// reverse are ignored without any state change.  After a game-over, a
/// confirmation restarts the session; anything else is ignored.
pub open spec fn key_rel(pre: Game, post: Game, command: Command) -> bool {
    match command {
        Command::Turn(d) => if pre.status == Status::Running && d != pre.snake.direction && d
            != pre.snake.direction.spec_opposite() {
            step_outcome(pre, post, Some(d))
        } else {
            post == pre
        },
        Command::Confirm => if pre.status == Status::GameOver {
            restart_rel(pre, post)
        } else {
            post == pre
        },
    }
}

/// The commands that are ignored outright: a turn equal to the current
/// heading or to its reverse, any turn after a game-over, and a
/// confirmation while the game still runs.  Such a call is owed
/// success with the state untouched.
pub open spec fn key_ignored(pre: Game, command: Command) -> bool {
    match command {
        Command::Turn(d) => !(pre.status == Status::Running && d != pre.snake.direction && d
            != pre.snake.direction.spec_opposite()),
        Command::Confirm => pre.status != Status::GameOver,
    }
}

impl Game {
    /// The session invariant without the word on the head: across a
    /// movement step the head may stand on the wall ring until the
    /// game-over decision falls.
    pub open spec fn wf_except_head(self) -> bool {
        &&& self.playground.wf()
        &&& self.snake.wf()
        &&& self.playground.in_interior(self.snake.init_position)
        &&& self.playground.in_interior(self.food.position)
        &&& (self.show_bonus ==> self.playground.in_interior(self.bonus.position))
    }

    /// The consumption check that follows a movement step.
    fn try_eating(&mut self) -> (r: Result<(), ConfigError>)
        requires
            old(self).wf_except_head(),
            old(self).snake.prev_tail is Some,
        ensures
            final(self).wf_except_head(),
            final(self).playground == old(self).playground,
            final(self).status == old(self).status,
            final(self).snake.head == old(self).snake.head,
            match r {
                Ok(()) => try_eat_rel(*old(self), *final(self)),
                Err(e) => {
                    &&& e == ConfigError::ArenaFull
                    &&& old(self).snake.head == old(self).food.position
                    &&& eat_rel(old(self).snake, final(self).snake)
                    &&& final(self).food == old(self).food
                    &&& final(self).bonus == old(self).bonus
                    &&& final(self).show_bonus == old(self).show_bonus
                    &&& forall|p: Position|
                        old(self).playground.in_interior(p) ==> !free_cell(
                            final(self).snake,
                            old(self).food.position,
                            old(self).bonus.position,
                            old(self).show_bonus,
                            p,
                        )
                },
            },
    {
        if self.food.on_position(self.snake.get_head_position()) {
            self.snake.eat();
            self.score = sat_add(self.score, self.food.get_calories() as u64);
            self.missed_bonus = false;
            let pos = match random_free_position(
                &self.playground,
                &self.snake,
                &self.food,
                &self.bonus,
                self.show_bonus,
                &mut self.rng,
            ) {
                Ok(p) => p,
                Err(e) => {
                    return Err(e);
                },
            };
            self.food.set_position(pos);
            Ok(())
        } else if self.show_bonus && self.bonus.on_position(self.snake.get_head_position()) {
            self.snake.eat();
            self.score = sat_add(self.score, self.bonus.get_calories() as u64);
            self.show_bonus = false;
            self.move_delay = sub_floor(self.move_delay, SPEED_UP_DECREMENT);
            Ok(())
        } else {
            Ok(())
        }
    }

    /// One movement step followed by the consumption check and the
    /// game-over decision.
    fn update_snake(&mut self, dir: Option<Direction>) -> (r: Result<(), ConfigError>)
        requires
            old(self).wf(),
            old(self).status == Status::Running,
        ensures
            final(self).wf(),
            final(self).playground == old(self).playground,
            step_target(
                old(self).snake.head,
                match dir {
                    Some(d) => d,
                    None => old(self).snake.direction,
                },
            ) != old(self).food.position ==> r is Ok,
            match r {
                Ok(()) => step_outcome(*old(self), *final(self), dir),
                Err(e) => {
                    &&& e == ConfigError::ArenaFull
                    &&& stepped_then_ate(old(self).snake, final(self).snake, dir)
                    &&& final(self).food == old(self).food
                    &&& final(self).bonus == old(self).bonus
                    &&& arena_exhausted(*final(self))
                },
            },
    {
        self.snake.step(dir);
        match self.try_eating() {
            Err(e) => {
                proof {
                    assert forall|p: Position| self.playground.in_interior(p) implies (
                    self.snake.occupies(p) || p == self.food.position || p
                        == self.bonus.position) by {
                        assert(!free_cell(
                            self.snake,
                            self.food.position,
                            self.bonus.position,
                            self.show_bonus,
                            p,
                        ));
                    }
                }
                return Err(e);
            },
            Ok(()) => {},
        }
        let collided = self.snake.bite_itself() || self.snake.hit_walls_of(&self.playground);
        if collided {
            self.status = Status::GameOver;
        }
        self.waiting_time = 0;
        Ok(())
    }

    /// Handles one logical input command, as `key_rel` states.  An
    /// ignored command is owed success with the state untouched; a
    /// turn whose step does not land on the staple food needs no spawn
    /// and is owed success too.  Failure comes only out of a spawn
    /// search on an exhausted arena, and says so.
    pub fn key_pressed(&mut self, command: Command) -> (r: Result<(), ConfigError>)
        requires
            old(self).wf(),
        ensures
            final(self).wf(),
            key_ignored(*old(self), command) ==> r is Ok && *final(self) == *old(self),
            (match command {
                Command::Turn(d) => old(self).status == Status::Running && step_target(
                    old(self).snake.head,
                    d,
                ) != old(self).food.position,
                Command::Confirm => false,
            }) ==> r is Ok,
            match r {
                Ok(()) => key_rel(*old(self), *final(self), command),
                Err(e) => {
                    &&& e == ConfigError::ArenaFull
                    &&& final(self).playground == old(self).playground
                    &&& final(self).food == old(self).food
                    &&& (match command {
                        Command::Turn(d) => stepped_then_ate(
                            old(self).snake,
                            final(self).snake,
                            Some(d),
                        ),
                        Command::Confirm => reset_rel(old(self).snake, final(self).snake),
                    })
                    &&& arena_exhausted(*final(self))
                },
            },
    {
        match command {
            Command::Turn(d) => {
                if self.status == Status::Running {
                    let current = *self.snake.get_direction();
                    if d != current && d != current.opposite() {
                        return self.update_snake(Some(d));
                    }
                }
                Ok(())
            },
            Command::Confirm => {
                if self.status == Status::GameOver {
                    self.restart()
                } else {
                    Ok(())
                }
            },
        }
    }

    /// Advances the simulation by one tick of `delta_time`
    /// milliseconds, as `tick_rel` states.  A tick that attempts no
    /// spawn is owed success: every game-over tick short of an
    /// automatic restart, and every running tick that neither owes a
    /// bonus spawn nor steps onto the staple food.  Failure comes only
    /// out of a spawn search on an exhausted arena, and says so.
    pub fn update(&mut self, delta_time: u64) -> (r: Result<(), ConfigError>)
        requires
            old(self).wf(),
        ensures
            final(self).wf(),
            old(self).status == Status::GameOver && (match old(self).restart_policy {
                RestartPolicy::Manual => true,
                RestartPolicy::Auto(wait) => sat_add64(old(self).waiting_time, delta_time)
                    <= wait,
            }) ==> r is Ok,
            ({
                &&& old(self).status == Status::Running
                &&& !(!old(self).show_bonus && old(self).snake.is_worth_bonus() && !old(
                    self,
                ).missed_bonus)
                &&& (sat_add64(old(self).waiting_time, delta_time) <= old(self).move_delay
                    || step_target(old(self).snake.head, old(self).snake.direction) != old(
                    self,
                ).food.position)
            }) ==> r is Ok,
            match r {
                Ok(()) => tick_rel(*old(self), *final(self), delta_time),
                Err(e) => {
                    &&& e == ConfigError::ArenaFull
                    &&& final(self).playground == old(self).playground
                    &&& final(self).food == old(self).food
                    &&& (if old(self).status == Status::GameOver {
                        reset_rel(old(self).snake, final(self).snake)
                    } else {
                        final(self).snake == old(self).snake || stepped_then_ate(
                            old(self).snake,
                            final(self).snake,
                            None,
                        )
                    })
                    &&& arena_exhausted(*final(self))
                },
            },
    {
        self.waiting_time = sat_add(self.waiting_time, delta_time);
        self.bonus_time = sat_add(self.bonus_time, delta_time);
        if self.status == Status::GameOver {
            match self.restart_policy {
                RestartPolicy::Manual => {
                    return Ok(());
                },
                RestartPolicy::Auto(wait) => {
                    if self.waiting_time > wait {
                        return self.restart();
                    } else {
                        return Ok(());
                    }
                },
            }
        }
        let ghost t = *self;
        if self.show_bonus {
            let expired = match self.bonus.get_disappear_after() {
                Some(budget) => self.bonus_time > budget,
                None => false,
            };
            if expired {
                self.show_bonus = false;
                self.missed_bonus = true;
            }
        } else if self.snake.worth_bonus() && !self.missed_bonus {
            let pos = match random_free_position(
                &self.playground,
                &self.snake,
                &self.food,
                &self.bonus,
                self.show_bonus,
                &mut self.rng,
            ) {
                Ok(p) => p,
                Err(e) => {
                    proof {
                        assert forall|p: Position| self.playground.in_interior(p) implies (
                        self.snake.occupies(p) || p == self.food.position || p
                            == self.bonus.position) by {
                            assert(!free_cell(
                                self.snake,
                                self.food.position,
                                self.bonus.position,
                                self.show_bonus,
                                p,
                            ));
                        }
                    }
                    return Err(e);
                },
            };
            self.bonus.set_position(pos);
            self.show_bonus = true;
            self.bonus_time = 0;
        }
        let ghost m = *self;
        if self.waiting_time > self.move_delay {
            match self.update_snake(None) {
                Err(e) => {
                    return Err(e);
                },
                Ok(()) => {},
            }
        }
        proof {
            assert(bonus_phase(t, m) && move_phase(m, *self));
        }
        Ok(())
    }

    /// Reinitializes every piece of per-session mutable state while
    /// the arena and the configuration stay fixed, as `restart_rel`
    /// states.  On failure every reset has still been performed — only
    /// the staple food keeps its old cell — and the reset state leaves
    /// no interior cell free, which is the only source of failure.
    pub fn restart(&mut self) -> (r: Result<(), ConfigError>)
        requires
            old(self).wf(),
        ensures
            final(self).wf(),
            match r {
                Ok(()) => restart_rel(*old(self), *final(self)),
                Err(e) => {
                    &&& e == ConfigError::ArenaFull
                    &&& reset_rel(old(self).snake, final(self).snake)
                    &&& final(self).status == Status::Running
                    &&& final(self).score == 0
                    &&& final(self).move_delay == old(self).init_move_delay
                    &&& final(self).init_move_delay == old(self).init_move_delay
                    &&& final(self).waiting_time == 0
                    &&& final(self).bonus_time == 0
                    &&& !final(self).show_bonus
                    &&& !final(self).missed_bonus
                    &&& final(self).restart_policy == old(self).restart_policy
                    &&& final(self).food == old(self).food
                    &&& final(self).bonus == old(self).bonus
                    &&& final(self).playground == old(self).playground
                    &&& arena_exhausted(*final(self))
                },
            },
    {
        self.snake.reset();
        self.status = Status::Running;
        self.move_delay = self.init_move_delay;
        self.waiting_time = 0;
        self.bonus_time = 0;
        self.score = 0;
        self.show_bonus = false;
        self.missed_bonus = false;
        let pos = match random_free_position(
            &self.playground,
            &self.snake,
            &self.food,
            &self.bonus,
            self.show_bonus,
            &mut self.rng,
        ) {
            Ok(p) => p,
            Err(e) => {
                proof {
                    assert forall|p: Position| self.playground.in_interior(p) implies (
                    self.snake.occupies(p) || p == self.food.position || p
                        == self.bonus.position) by {
                        assert(!free_cell(
                            self.snake,
                            self.food.position,
                            self.bonus.position,
                            self.show_bonus,
                            p,
                        ));
                    }
                }
                return Err(e);
            },
        };
        self.food.set_position(pos);
        Ok(())
    }
}

/// The consumption check alone: eating the staple adds its calories,
/// respawns it collision-free and clears the missed-bonus mark; eating
/// a shown bonus adds its calories, hides it and shortens the movement
/// delay, floored at zero; a head on neither food leaves the game
/// untouched.
pub open spec fn try_eat_rel(pre: Game, post: Game) -> bool {
    if pre.snake.head == pre.food.position {
        &&& eat_rel(pre.snake, post.snake)
        &&& post.score == sat_add64(pre.score, pre.food.calories as u64)
        &&& post.food.calories == pre.food.calories
        &&& post.food.disappear_after == pre.food.disappear_after
        &&& pre.playground.in_interior(post.food.position)
        &&& free_cell(
            post.snake,
            pre.food.position,
            pre.bonus.position,
            pre.show_bonus,
            post.food.position,
        )
        &&& !post.missed_bonus
        &&& post.bonus == pre.bonus
        &&& post.show_bonus == pre.show_bonus
        &&& post.move_delay == pre.move_delay
        &&& post.playground == pre.playground
        &&& post.status == pre.status
        &&& post.init_move_delay == pre.init_move_delay
        &&& post.waiting_time == pre.waiting_time
        &&& post.bonus_time == pre.bonus_time
        &&& post.restart_policy == pre.restart_policy
    } else if pre.show_bonus && pre.bonus.position == pre.snake.head {
        &&& eat_rel(pre.snake, post.snake)
        &&& post.score == sat_add64(pre.score, pre.bonus.calories as u64)
        &&& post.food == pre.food
        &&& post.bonus == pre.bonus
        &&& !post.show_bonus
        &&& post.missed_bonus == pre.missed_bonus
        &&& post.move_delay == sub_floor64(pre.move_delay, SPEED_UP_DECREMENT)
        &&& post.playground == pre.playground
        &&& post.status == pre.status
        &&& post.init_move_delay == pre.init_move_delay
        &&& post.waiting_time == pre.waiting_time
        &&& post.bonus_time == pre.bonus_time
        &&& post.restart_policy == pre.restart_policy
    } else {
        post == pre
    }
}

} // verus!
