use vstd::prelude::*;

use crate::direction::Direction;
use crate::food::Food;
use crate::segment::SnakeRect;
use crate::snake::{Snake, SnakeView};

verus! {

/// A key that the game reacts to.
#[derive(Clone, Copy, Debug, PartialEq, Eq, Structural)]
pub enum Key {
    Up,
    Down,
    Left,
    Right,
    Space,
}

impl SnakeView {
    /// The game after a request to head in `direction`.  A request for the
    /// exact reverse of the head's direction changes nothing; any other
    /// turns the head and sets the snake moving.
    pub open spec fn steered(self, direction: Direction) -> SnakeView {
        if direction == self.head.direction.spec_opposite() {
            self
        } else {
            SnakeView {
                head: SnakeRect { direction, cell: self.head.cell },
                is_moving: true,
                ..self
            }
        }
    }

    /// The game after a pause or resume: a moving snake stops, a resting one
    /// moves.
    pub open spec fn toggled(self) -> SnakeView {
        SnakeView { is_moving: !self.is_moving, ..self }
    }

    /// The game after `key` was pressed.
    pub open spec fn pressed(self, key: Key) -> SnakeView {
        match key {
            Key::Up => self.steered(Direction::Up),
            Key::Down => self.steered(Direction::Down),
            Key::Left => self.steered(Direction::Left),
            Key::Right => self.steered(Direction::Right),
            Key::Space => self.toggled(),
        }
    }

    /// The game after one tick: a moving snake slides, a resting one stays as
    /// it is.
    pub open spec fn ticked(self, reset_food: Food, next_food: Food) -> SnakeView {
        if self.is_moving {
            self.slid(reset_food, next_food)
        } else {
            self
        }
    }
}

impl Snake {
    /// Asks the snake to head in `direction`.  A request for the exact
    /// reverse of the head's direction is ignored, whether the snake moves or
    /// not; any other turns the head and sets the snake moving.
    pub fn steer(&mut self, direction: Direction)
        ensures
            final(self)@ == old(self)@.steered(direction),
            direction == old(self).head.direction.spec_opposite() ==> final(self)@ == old(self)@,
            direction != old(self).head.direction.spec_opposite() ==> final(self).head.direction
                == direction && final(self).is_moving,
            old(self)@.wf() ==> final(self)@.wf(),
    {
        if self.get_direction() == direction.opposite() {
            return;
        }
        self.is_moving = true;
        self.set_direction(direction);
    }

    /// Pauses a moving snake and resumes a resting one.
    pub fn toggle(&mut self)
        ensures
            final(self)@ == old(self)@.toggled(),
            final(self).is_moving == !old(self).is_moving,
            old(self)@.wf() ==> final(self)@.wf(),
    {
        if self.is_moving {
            self.is_moving = false;
        } else {
            self.is_moving = true;
        }
    }

    /// Reacts to a key: an arrow key steers, the space bar pauses or resumes.
    pub fn press(&mut self, key: Key)
        ensures
            final(self)@ == old(self)@.pressed(key),
            old(self)@.wf() ==> final(self)@.wf(),
    {
        match key {
            Key::Up => self.steer(Direction::Up),
            Key::Down => self.steer(Direction::Down),
            Key::Left => self.steer(Direction::Left),
            Key::Right => self.steer(Direction::Right),
            Key::Space => self.toggle(),
        }
    }

    /// One tick of the game, with the food to use handed in: slides the snake
    /// if it moves, and leaves a resting snake untouched.
    pub fn tick_with(&mut self, reset_food: Food, next_food: Food)
        requires
            old(self)@.wf(),
            old(self).length < usize::MAX,
            reset_food.on_board(),
            next_food.on_board(),
        ensures
            final(self)@ == old(self)@.ticked(reset_food, next_food),
            !old(self).is_moving ==> final(self)@ == old(self)@,
            final(self)@.wf(),
    {
        if self.is_moving {
            self.slide_with(reset_food, next_food);
        }
    }

    /// One tick of the game: slides the snake if it moves, and leaves a
    /// resting snake untouched.  Food is put on a cell picked at random, so
    /// the outcome is `ticked` for some two food items on the board.
    pub fn tick(&mut self)
        requires
            old(self)@.wf(),
            old(self).length < usize::MAX,
        ensures
            exists|reset_food: Food, next_food: Food|
                #![trigger old(self)@.ticked(reset_food, next_food)]
                reset_food.on_board() && next_food.on_board() && final(self)@ == old(self)@.ticked(
                    reset_food,
                    next_food,
                ),
            !old(self).is_moving ==> final(self)@ == old(self)@,
            final(self)@.wf(),
    {
        if self.is_moving {
            self.slide();
            proof {
                let (reset_food, next_food) = choose|reset_food: Food, next_food: Food|
                    #![trigger old(self)@.slid(reset_food, next_food)]
                    reset_food.on_board() && next_food.on_board() && self@ == old(self)@.slid(
                        reset_food,
                        next_food,
                    );
                assert(self@ == old(self)@.ticked(reset_food, next_food));
            }
        } else {
            assert(self@ == old(self)@.ticked(self.food, self.food));
        }
    }
}

} // verus!
