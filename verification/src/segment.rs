use vstd::prelude::*;

use crate::board::{Cell, CELL, HEIGHT, WIDTH};
use crate::direction::Direction;

verus! {

/// One segment of the snake: the cell it occupies and the direction of its
/// next step.
#[derive(Clone, Copy, Debug, PartialEq, Eq, Structural)]
pub struct SnakeRect {
    pub direction: Direction,
    pub cell: Cell,
}

impl SnakeRect {
    /// Whether the segment sits on a cell of the board.
    pub open spec fn on_board(self) -> bool {
        self.cell.on_board()
    }

    /// The segment after one step in its own direction.
    pub open spec fn slid(self) -> SnakeRect {
        SnakeRect { direction: self.direction, cell: self.cell.stepped(self.direction) }
    }

    /// Makes a segment at `(x, y)` heading in `direction`.
    pub fn new(direction: Direction, x: i32, y: i32) -> (r: SnakeRect)
        ensures
            r == (SnakeRect { direction, cell: Cell { x, y } }),
    {
        SnakeRect { direction, cell: Cell { x, y } }
    }

    /// Moves the segment one cell in its direction.  A step over an edge of
    /// the board wraps to the opposite edge, so the segment stays on the board.
    pub fn slide(&mut self)
        requires
            old(self).on_board(),
        ensures
            *final(self) == old(self).slid(),
            final(self).on_board(),
    {
        match self.direction {
            Direction::Up => {
                if self.y() <= 0 {
                    self.cell.y = HEIGHT - CELL;
                } else {
                    self.cell.y = self.y() - CELL;
                }
            },
            Direction::Down => {
                self.cell.y = (self.y() + CELL) % HEIGHT;
            },
            Direction::Left => {
                if self.x() <= 0 {
                    self.cell.x = WIDTH - CELL;
                } else {
                    self.cell.x = self.x() - CELL;
                }
            },
            Direction::Right => {
                self.cell.x = (self.x() + CELL) % WIDTH;
            },
        }
    }

    /// The horizontal coordinate of the segment's cell.
    pub fn x(&self) -> (r: i32)
        ensures
            r == self.cell.x,
    {
        self.cell.x
    }

    /// The vertical coordinate of the segment's cell.
    pub fn y(&self) -> (r: i32)
        ensures
            r == self.cell.y,
    {
        self.cell.y
    }

    /// Sets the direction of the segment's next step.
    pub fn set_direction(&mut self, direction: Direction)
        ensures
            *final(self) == (SnakeRect { direction, cell: old(self).cell }),
    {
        self.direction = direction;
    }

    /// The direction of the segment's next step.
    pub fn get_direction(&self) -> (r: Direction)
        ensures
            r == self.direction,
    {
        self.direction
    }
}

} // verus!
