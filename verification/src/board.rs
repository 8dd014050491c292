use vstd::prelude::*;

use crate::direction::Direction;

verus! {

/// Side of one cell of the board, in distance units.
pub const CELL: i32 = 10;

/// Width of the board, in distance units.
pub const WIDTH: i32 = 600;

/// Height of the board, in distance units.
pub const HEIGHT: i32 = 300;

/// Number of columns of the board.
pub const COLUMNS: i32 = 60;

/// Number of rows of the board.
pub const ROWS: i32 = 30;

/// The upper left corner of a square of side `CELL`.
#[derive(Clone, Copy, Debug, PartialEq, Eq, Structural)]
pub struct Cell {
    pub x: i32,
    pub y: i32,
}

/// Whether `(x, y)` is the corner of a cell of the board: both coordinates are
/// multiples of `CELL`, `x` lies in `[0, WIDTH)` and `y` in `[0, HEIGHT)`.
pub open spec fn on_board(x: int, y: int) -> bool {
    &&& 0 <= x < WIDTH
    &&& 0 <= y < HEIGHT
    &&& x % (CELL as int) == 0
    &&& y % (CELL as int) == 0
}

impl Cell {
    /// Whether this cell is one of the board's.
    pub open spec fn on_board(self) -> bool {
        on_board(self.x as int, self.y as int)
    }

    /// Tells whether this cell is one of the board's.
    pub fn is_on_board(&self) -> (r: bool)
        ensures
            r == self.on_board(),
    {
        0 <= self.x && self.x < WIDTH && 0 <= self.y && self.y < HEIGHT && self.x % CELL == 0
            && self.y % CELL == 0
    }

    /// The cell one step away in direction `d` on the torus: a step over an
    /// edge of the board comes back in at the opposite edge.
    pub open spec fn stepped(self, d: Direction) -> Cell {
        Cell {
            x: ((self.x + d.dx()) % (WIDTH as int)) as i32,
            y: ((self.y + d.dy()) % (HEIGHT as int)) as i32,
        }
    }
}

} // verus!
