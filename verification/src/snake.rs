//! The snake: an ordered run of occupied cells, a heading, and the
//! growth and eating state machine.

use vstd::prelude::*;

use std::collections::VecDeque;

use crate::grid::{behind, can_step, fits_behind, step_target, Direction, Position};
use crate::playground::Playground;

verus! {

/// A bonus becomes worth spawning after every so many eats.
pub const BONUS_CADENCE: u64 = 5;

pub const DEFAULT_SNAKE_COLUMN: u32 = 5;

pub const DEFAULT_SNAKE_ROW: u32 = 3;

pub const DEFAULT_SNAKE_LENGTH: u8 = 2;

/// The segmented snake.  `body` runs neck first, tail last; the head is
/// kept apart.  `prev_tail` remembers, for exactly one movement step,
/// the tail cell that the step vacated, so that the next eat can grow
/// there; consuming it clears it, which guards against stale reuse.
pub struct Snake {
    pub head: Position,
    pub body: VecDeque<Position>,
    pub direction: Direction,
    pub init_position: Position,
    pub init_direction: Direction,
    pub init_length: u8,
    pub prev_tail: Option<Position>,
    pub eatings: u64,
}

/// The body a fresh snake starts with: `len` cells laid out one after
/// another behind the head, tail last.
pub open spec fn initial_body(p: Position, d: Direction, len: int) -> Seq<Position> {
    Seq::new(len as nat, |i: int| behind(p, d, i + 1))
}

/// How one movement step transforms the snake: the head advances one
/// cell along the (possibly overridden) heading, the old head becomes
/// the front body cell, and the old tail cell is dropped and remembered
/// in `prev_tail`.
pub open spec fn step_rel(pre: Snake, post: Snake, dir: Option<Direction>) -> bool {
    let d = match dir {
        Some(x) => x,
        None => pre.direction,
    };
    &&& post.direction == d
    &&& post.head == step_target(pre.head, d)
    &&& post.body@ == seq![pre.head] + pre.body@.drop_last()
    &&& post.prev_tail == Some(pre.body@.last())
    &&& post.eatings == pre.eatings
    &&& post.init_position == pre.init_position
    &&& post.init_direction == pre.init_direction
    &&& post.init_length == pre.init_length
}

/// How one eat transforms the snake: one new tail cell at the
/// remembered previous tail, one more eating counted, the memory
/// consumed.
pub open spec fn eat_rel(pre: Snake, post: Snake) -> bool {
    &&& post.body@ == pre.body@.push(pre.prev_tail.unwrap())
    &&& post.eatings == pre.eatings + 1
    &&& post.prev_tail is None
    &&& post.head == pre.head
    &&& post.direction == pre.direction
    &&& post.init_position == pre.init_position
    &&& post.init_direction == pre.init_direction
    &&& post.init_length == pre.init_length
}

/// Whether `post` is `pre` restored to its starting configuration.
pub open spec fn reset_rel(pre: Snake, post: Snake) -> bool {
    &&& post.head == pre.init_position
    &&& post.direction == pre.init_direction
    &&& post.body@ == initial_body(pre.init_position, pre.init_direction, pre.init_length as int)
    &&& post.prev_tail is None
    &&& post.eatings == 0
    &&& post.init_position == pre.init_position
    &&& post.init_direction == pre.init_direction
    &&& post.init_length == pre.init_length
}

impl Snake {
    /// The snake's structural invariant.  Its last clause is the growth
    /// accounting law: the body is exactly as long as the starting
    /// length plus the number of successful eats.
    pub open spec fn wf(self) -> bool {
        &&& self.init_length >= 1
        &&& fits_behind(self.init_position, self.init_direction, self.init_length as int)
        &&& self.body@.len() == self.init_length + self.eatings
    }

    /// Whether the snake stands on `p` with its head or any body cell.
    pub open spec fn occupies(self, p: Position) -> bool {
        self.head == p || self.body@.contains(p)
    }

    /// Whether the head overlaps a body cell.
    pub open spec fn bites_itself_spec(self) -> bool {
        self.body@.contains(self.head)
    }

    /// Whether the eating counter has just completed another cadence.
    pub open spec fn is_worth_bonus(self) -> bool {
        self.eatings != 0 && self.eatings % BONUS_CADENCE == 0
    }

    pub fn new(init_position: Position, init_direction: Direction, init_length: u8) -> (r: Snake)
        requires
            init_length >= 1,
            fits_behind(init_position, init_direction, init_length as int),
        ensures
            r.head == init_position,
            r.direction == init_direction,
            r.body@ == initial_body(init_position, init_direction, init_length as int),
            r.prev_tail is None,
            r.eatings == 0,
            r.init_position == init_position,
            r.init_direction == init_direction,
            r.init_length == init_length,
            r.wf(),
    {
        let body = Snake::build_snake_body(init_position, init_direction, init_length);
        Snake {
            head: init_position,
            body,
            direction: init_direction,
            init_position,
            init_direction,
            init_length,
            prev_tail: None,
            eatings: 0,
        }
    }

    fn build_snake_body(init_position: Position, init_direction: Direction, init_length: u8) -> (body:
        VecDeque<Position>)
        requires
            fits_behind(init_position, init_direction, init_length as int),
        ensures
            body@ == initial_body(init_position, init_direction, init_length as int),
    {
        let mut body: VecDeque<Position> = VecDeque::new();
        let mut pos = init_position;
        let mut i: u8 = 0;
        while i < init_length
            invariant
                i <= init_length,
                fits_behind(init_position, init_direction, init_length as int),
                body@.len() == i,
                forall|k: int| 0 <= k < i ==> body@[k] == behind(init_position, init_direction, k + 1),
                pos == behind(init_position, init_direction, i as int),
            decreases init_length - i,
        {
            pos = match init_direction {
                Direction::Up => Position(pos.0, pos.1 + 1),
                Direction::Down => Position(pos.0, pos.1 - 1),
                Direction::Left => Position(pos.0 + 1, pos.1),
                Direction::Right => Position(pos.0 - 1, pos.1),
            };
            body.push_back(pos);
            i = i + 1;
        }
        proof {
            assert(body@ =~= initial_body(init_position, init_direction, init_length as int));
        }
        body
    }

    /// One movement step.  If a heading is handed in it is adopted
    /// first; its legality (no reversal) is the caller's concern.
    pub fn step(&mut self, dir: Option<Direction>)
        requires
            old(self).wf(),
            can_step(
                old(self).head,
                match dir {
                    Some(d) => d,
                    None => old(self).direction,
                },
            ),
        ensures
            step_rel(*old(self), *final(self), dir),
            final(self).wf(),
    {
        if let Some(direction) = dir {
            self.direction = direction;
        }
        let last_head_pos = self.head;
        let new_head_pos = match self.direction {
            Direction::Up => Position(last_head_pos.0, last_head_pos.1 - 1),
            Direction::Down => Position(last_head_pos.0, last_head_pos.1 + 1),
            Direction::Left => Position(last_head_pos.0 - 1, last_head_pos.1),
            Direction::Right => Position(last_head_pos.0 + 1, last_head_pos.1),
        };
        self.head = new_head_pos;
        let tail = self.body.pop_back().unwrap();
        self.prev_tail = Some(tail);
        self.body.push_front(last_head_pos);
        proof {
            assert(self.body@ =~= seq![old(self).head] + old(self).body@.drop_last());
        }
    }

    /// Grows one body cell at the tail position remembered by the last
    /// step.  Must follow that step before any further step; the memory
    /// is consumed, so a second eat without a step in between is ruled
    /// out.
    pub fn eat(&mut self)
        requires
            old(self).wf(),
            old(self).prev_tail is Some,
        ensures
            eat_rel(*old(self), *final(self)),
            final(self).wf(),
    {
        let l: usize = self.body.len();
        proof {
            assert(self.eatings < u64::MAX);
        }
        let t: Position = self.prev_tail.unwrap();
        self.body.push_back(t);
        self.prev_tail = None;
        self.eatings = self.eatings + 1;
    }

    /// Restores the starting head, body, heading and eating counter.
    pub fn reset(&mut self)
        requires
            old(self).wf(),
        ensures
            reset_rel(*old(self), *final(self)),
            final(self).wf(),
    {
        self.head = self.init_position;
        self.body = Snake::build_snake_body(self.init_position, self.init_direction, self.init_length);
        self.direction = self.init_direction;
        self.prev_tail = None;
        self.eatings = 0;
    }

    /// True exactly when the eating counter is positive and a multiple
    /// of the bonus cadence.
    pub fn worth_bonus(&self) -> (r: bool)
        ensures
            r == self.is_worth_bonus(),
    {
        self.eatings != 0 && self.eatings % BONUS_CADENCE == 0
    }

    /// True exactly when the head stands on one of the body cells.
    pub fn bite_itself(&self) -> (r: bool)
        ensures
            r == self.bites_itself_spec(),
    {
        let n: usize = self.body.len();
        let mut i: usize = 0;
        while i < n
            invariant
                i <= n,
                n == self.body@.len(),
                forall|k: int| 0 <= k < i ==> self.body@[k] != self.head,
            decreases n - i,
        {
            if self.body[i] == self.head {
                return true;
            }
            i = i + 1;
        }
        false
    }

    /// True exactly when the head's column or row equals a border
    /// coordinate of the arena, on any of the four sides.
    pub fn hit_walls_of(&self, playground: &Playground) -> (r: bool)
        requires
            playground.wf(),
        ensures
            r == playground.hits_wall(self.head),
    {
        let width = playground.get_width();
        let height = playground.get_height();
        let wall_width = playground.get_border_width();
        let column = self.head.0;
        let row = self.head.1;

        let hit_top = row == wall_width - 1;
        let hit_left = column == wall_width - 1;
        let hit_bottom = row == height - wall_width;
        let hit_right = column == width - wall_width;

        hit_top || hit_bottom || hit_left || hit_right
    }

    /// True exactly when `position` equals the head or any body cell.
    pub fn on_position(&self, position: &Position) -> (r: bool)
        ensures
            r == self.occupies(*position),
    {
        let n: usize = self.body.len();
        let mut i: usize = 0;
        while i < n
            invariant
                i <= n,
                n == self.body@.len(),
                forall|k: int| 0 <= k < i ==> self.body@[k] != *position,
            decreases n - i,
        {
            if self.body[i] == *position {
                return true;
            }
            i = i + 1;
        }
        self.head == *position
    }

    pub fn get_head_position(&self) -> (r: &Position)
        ensures
            *r == self.head,
    {
        &self.head
    }

    pub fn get_direction(&self) -> (r: &Direction)
        ensures
            *r == self.direction,
    {
        &self.direction
    }

    pub fn get_eatings(&self) -> (r: u64)
        ensures
            r == self.eatings,
    {
        self.eatings
    }
}

impl Default for Snake {
    /// The standard snake: two body cells behind a head at column 5,
    /// row 3, heading right.
    fn default() -> (r: Snake)
        ensures
            r.head == Position(DEFAULT_SNAKE_COLUMN, DEFAULT_SNAKE_ROW),
            r.direction == Direction::Right,
            r.init_length == DEFAULT_SNAKE_LENGTH,
            r.eatings == 0,
            r.wf(),
    {
        Snake::new(
            Position(DEFAULT_SNAKE_COLUMN, DEFAULT_SNAKE_ROW),
            Direction::Right,
            DEFAULT_SNAKE_LENGTH,
        )
    }
}

/// Growth accounting: in every reachable snake configuration the body
/// length equals the starting length plus the number of successful
/// eats.  Reachable configurations are exactly those satisfying `wf`,
/// which every constructor establishes and every mutator preserves.
pub proof fn lemma_growth_accounting(s: Snake)
    requires
        s.wf(),
    ensures
        s.body@.len() == s.init_length + s.eatings,
{
}

/// Self-overlap detection across a step: immediately after a movement
/// step the snake bites itself exactly when the new head stands on the
/// shifted body, that is, on the old head's cell or on any old body
/// cell except the vacated tail.
pub proof fn lemma_step_detects_overlap(pre: Snake, post: Snake, dir: Option<Direction>)
    requires
        pre.wf(),
        step_rel(pre, post, dir),
    ensures
        post.bites_itself_spec() <==> (post.head == pre.head || pre.body@.drop_last().contains(
            post.head,
        )),
{
    let shifted = seq![pre.head] + pre.body@.drop_last();
    if post.bites_itself_spec() {
        let i = choose|i: int| 0 <= i < shifted.len() && shifted[i] == post.head;
        if i == 0 {
            assert(post.head == pre.head);
        } else {
            assert(pre.body@.drop_last()[i - 1] == post.head);
            assert(pre.body@.drop_last().contains(post.head));
        }
    }
    if post.head == pre.head {
        assert(shifted[0] == post.head);
        assert(shifted.contains(post.head));
    } else if pre.body@.drop_last().contains(post.head) {
        let j = choose|j: int|
            0 <= j < pre.body@.drop_last().len() && pre.body@.drop_last()[j] == post.head;
        assert(shifted[j + 1] == post.head);
        assert(shifted.contains(post.head));
    }
}

} // verus!
