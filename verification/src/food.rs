use rand::Rng;
use vstd::prelude::*;

use crate::board::{on_board, Cell, CELL, COLUMNS, ROWS};

verus! {

/// The one food item of the game: the corner of the cell it lies on.
#[derive(Clone, Copy, Debug, PartialEq, Eq, Structural)]
pub struct Food {
    pub x: i32,
    pub y: i32,
}

/// Draws an integer from `rand`'s thread-local generator: the call
/// `rand::thread_rng().gen_range(0..bound)`.  `gen_range` panics on an empty
/// range, which `bound > 0` rules out, and returns a member of the range.
/// Nothing else is claimed of the number: two calls may differ.  The
/// generator also panics where the operating system cannot give it entropy
/// for its seed, which no argument can rule out.
#[verifier::external_body]
fn random_below(bound: i32) -> (r: i32)
    requires
        0 < bound,
    ensures
        0 <= r < bound,
{
    rand::thread_rng().gen_range(0..bound)
}

impl Food {
    /// Whether the food lies on a cell of the board.
    pub open spec fn on_board(self) -> bool {
        on_board(self.x as int, self.y as int)
    }

    /// Tells whether the food lies on a cell of the board.
    pub fn is_on_board(&self) -> (r: bool)
        ensures
            r == self.on_board(),
    {
        (Cell { x: self.x, y: self.y }).is_on_board()
    }

    /// Puts food on the cell in column `column` and row `row` of the board.
    pub fn at_cell(column: i32, row: i32) -> (f: Food)
        requires
            0 <= column < COLUMNS,
            0 <= row < ROWS,
        ensures
            f.x == column * CELL,
            f.y == row * CELL,
            f.on_board(),
    {
        Food { x: column * CELL, y: row * CELL }
    }

    /// Puts food on a cell of the board picked at random: the column and the
    /// row are drawn one after the other.  Which cell comes out is not
    /// determined; it is always one of the board's.
    pub fn new() -> (f: Food)
        ensures
            f.on_board(),
    {
        let column: i32 = random_below(COLUMNS);
        let row: i32 = random_below(ROWS);
        Food::at_cell(column, row)
    }
}

} // verus!
