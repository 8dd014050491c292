use vstd::prelude::*;

use crate::board::CELL;

verus! {

/// One of the four ways a segment of the snake can travel.
#[derive(Clone, Copy, Debug, PartialEq, Eq, Structural)]
pub enum Direction {
    Up,
    Down,
    Left,
    Right,
}

impl Direction {
    /// The direction pointing the other way.
    pub open spec fn spec_opposite(self) -> Direction {
        match self {
            Direction::Up => Direction::Down,
            Direction::Down => Direction::Up,
            Direction::Left => Direction::Right,
            Direction::Right => Direction::Left,
        }
    }

    /// Horizontal offset of one step in this direction.
    pub open spec fn dx(self) -> int {
        match self {
            Direction::Left => -(CELL as int),
            Direction::Right => CELL as int,
            _ => 0,
        }
    }

    /// Vertical offset of one step in this direction; `y` grows downwards.
    pub open spec fn dy(self) -> int {
        match self {
            Direction::Up => -(CELL as int),
            Direction::Down => CELL as int,
            _ => 0,
        }
    }

    /// Returns the direction pointing the other way.
    #[verifier::when_used_as_spec(spec_opposite)]
    pub fn opposite(self) -> (r: Direction)
        ensures
            r == self.spec_opposite(),
    {
        match self {
            Direction::Up => Direction::Down,
            Direction::Down => Direction::Up,
            Direction::Left => Direction::Right,
            Direction::Right => Direction::Left,
        }
    }

    /// Returns the offset `(dx, dy)` of one step in this direction.
    pub fn delta(self) -> (r: (i32, i32))
        ensures
            r.0 == self.dx(),
            r.1 == self.dy(),
    {
        match self {
            Direction::Up => (0, -CELL),
            Direction::Down => (0, CELL),
            Direction::Left => (-CELL, 0),
            Direction::Right => (CELL, 0),
        }
    }
}

} // verus!
