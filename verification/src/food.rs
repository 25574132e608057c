//! Collectible food: position, score value, and an optional expiry budget.

use vstd::prelude::*;

use crate::grid::Position;

verus! {

pub const DEFAULT_FOOD_CALORIES: u32 = 2;

pub const DEFAULT_BONUS_CALORIES: u32 = 10;

/// How long a bonus stays on the grid before it despawns, in milliseconds.
pub const BONUS_DISAPPEAR_TIME: u64 = 5000;

/// A collectible entity.  `disappear_after` is an elapsed-time budget in
/// milliseconds after which the food despawns; `None` means it never
/// expires.
#[derive(Clone, Copy, PartialEq, Eq, Structural, Debug)]
pub struct Food {
    pub position: Position,
    pub calories: u32,
    pub disappear_after: Option<u64>,
}

impl Food {
    /// A food of the given value, placed at the grid origin until a
    /// spawn assigns it a collision-free cell.
    pub fn new(calories: u32, disappear_after: Option<u64>) -> (r: Food)
        ensures
            r == (Food { position: Position(0, 0), calories, disappear_after }),
    {
        Food { position: Position(0, 0), calories, disappear_after }
    }

    /// The staple food: low value, never expires.
    pub fn default_food() -> (r: Food)
        ensures
            r == (Food {
                position: Position(0, 0),
                calories: DEFAULT_FOOD_CALORIES,
                disappear_after: None,
            }),
    {
        Food::new(DEFAULT_FOOD_CALORIES, None)
    }

    /// The bonus food: high value, despawns after its time budget.
    pub fn default_bonus() -> (r: Food)
        ensures
            r == (Food {
                position: Position(0, 0),
                calories: DEFAULT_BONUS_CALORIES,
                disappear_after: Some(BONUS_DISAPPEAR_TIME),
            }),
    {
        Food::new(DEFAULT_BONUS_CALORIES, Some(BONUS_DISAPPEAR_TIME))
    }

    pub fn on_position(&self, position: &Position) -> (r: bool)
        ensures
            r == (self.position == *position),
    {
        self.position == *position
    }

    pub fn get_position(&self) -> (r: &Position)
        ensures
            *r == self.position,
    {
        &self.position
    }

    pub fn set_position(&mut self, position: Position)
        ensures
            final(self).position == position,
            final(self).calories == old(self).calories,
            final(self).disappear_after == old(self).disappear_after,
    {
        self.position = position;
    }

    pub fn get_calories(&self) -> (r: u32)
        ensures
            r == self.calories,
    {
        self.calories
    }

    pub fn get_disappear_after(&self) -> (r: Option<u64>)
        ensures
            r == self.disappear_after,
    {
        self.disappear_after
    }
}

} // verus!
