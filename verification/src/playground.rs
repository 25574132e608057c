//! The arena: a fixed playable rectangle surrounded by a wall margin.

use vstd::prelude::*;

use crate::grid::Position;
use crate::ConfigError;

verus! {

/// The bounded playable rectangle, walls included.  A cell belongs to the
/// playable interior when both coordinates keep at least `border_width`
/// cells of wall on every side.
#[derive(Clone, Copy, PartialEq, Eq, Structural, Debug)]
pub struct Playground {
    pub width: u32,
    pub height: u32,
    pub border_width: u32,
}

pub const DEFAULT_PLAYGROUND_WIDTH: u32 = 35;
pub const DEFAULT_PLAYGROUND_HEIGHT: u32 = 25;
pub const DEFAULT_BORDER_WIDTH: u32 = 1;

impl Playground {
    /// A non-degenerate arena: walls at least one cell thick and a
    /// non-empty playable interior on both axes.
    pub open spec fn wf(self) -> bool {
        &&& self.border_width >= 1
        &&& self.width > 2 * self.border_width
        &&& self.height > 2 * self.border_width
    }

    /// The playable interior: every cell the snake can occupy without the
    /// run ending, and every cell where food may spawn.
    pub open spec fn in_interior(self, p: Position) -> bool {
        &&& self.border_width <= p.0 <= self.width - self.border_width - 1
        &&& self.border_width <= p.1 <= self.height - self.border_width - 1
    }

    /// Whether a head at `p` touches the innermost wall ring on any side.
    pub open spec fn hits_wall(self, p: Position) -> bool {
        ||| p.1 == self.border_width - 1
        ||| p.0 == self.border_width - 1
        ||| p.1 == self.height - self.border_width
        ||| p.0 == self.width - self.border_width
    }

    /// Builds the arena, rejecting degenerate dimensions: the walls must
    /// be at least one cell thick and thinner than half of either side.
    pub fn new(width: u32, height: u32, border_width: u32) -> (r: Result<Playground, ConfigError>)
        ensures
            match r {
                Ok(p) => {
                    &&& p == (Playground { width, height, border_width })
                    &&& p.wf()
                },
                Err(e) => {
                    &&& e == ConfigError::DegenerateArena
                    &&& !(Playground { width, height, border_width }).wf()
                },
            },
    {
        if border_width >= 1 && (width as u64) > 2 * (border_width as u64) && (height as u64) > 2
            * (border_width as u64) {
            Ok(Playground { width, height, border_width })
        } else {
            Err(ConfigError::DegenerateArena)
        }
    }

    pub fn get_width(&self) -> (r: u32)
        ensures
            r == self.width,
    {
        self.width
    }

    pub fn get_height(&self) -> (r: u32)
        ensures
            r == self.height,
    {
        self.height
    }

    pub fn get_border_width(&self) -> (r: u32)
        ensures
            r == self.border_width,
    {
        self.border_width
    }

    /// Whether `p` lies in the playable interior.
    pub fn contains_interior(&self, p: &Position) -> (r: bool)
        requires
            self.wf(),
        ensures
            r == self.in_interior(*p),
    {
        self.border_width <= p.0 && p.0 <= self.width - self.border_width - 1
            && self.border_width <= p.1 && p.1 <= self.height - self.border_width - 1
    }
}

impl Default for Playground {
    /// The standard arena: 35 columns by 25 rows with a one-cell wall.
    fn default() -> (r: Playground)
        ensures
            r == (Playground {
                width: DEFAULT_PLAYGROUND_WIDTH,
                height: DEFAULT_PLAYGROUND_HEIGHT,
                border_width: DEFAULT_BORDER_WIDTH,
            }),
            r.wf(),
    {
        Playground {
            width: DEFAULT_PLAYGROUND_WIDTH,
            height: DEFAULT_PLAYGROUND_HEIGHT,
            border_width: DEFAULT_BORDER_WIDTH,
        }
    }
}

} // verus!
