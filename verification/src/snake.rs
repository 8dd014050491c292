use vstd::prelude::*;

use crate::board::Cell;
use crate::direction::Direction;
use crate::food::Food;
use crate::segment::SnakeRect;

verus! {

/// The state of one game: the snake, the food and whether the snake moves.
///
/// `body` lists the segments behind the head from front to back; it is empty
/// when the game starts.
#[derive(Debug)]
pub struct Snake {
    pub head: SnakeRect,
    pub body: Vec<SnakeRect>,
    pub food: Food,
    pub length: usize,
    pub is_moving: bool,
}

/// The mathematical value of a `Snake`.
pub struct SnakeView {
    pub head: SnakeRect,
    pub body: Seq<SnakeRect>,
    pub food: Food,
    pub length: nat,
    pub is_moving: bool,
}

impl View for Snake {
    type V = SnakeView;

    open spec fn view(&self) -> SnakeView {
        SnakeView {
            head: self.head,
            body: self.body@,
            food: self.food,
            length: self.length as nat,
            is_moving: self.is_moving,
        }
    }
}

impl SnakeView {
    /// The invariant of a game: `length` counts the head and the body, and
    /// the head, every segment of the body and the food are on the board.
    pub open spec fn wf(self) -> bool {
        &&& self.length == 1 + self.body.len()
        &&& self.head.on_board()
        &&& self.food.on_board()
        &&& forall|i: int| 0 <= i < self.body.len() ==> (#[trigger] self.body[i]).on_board()
    }

    /// The game at its start, with `food` as its food: a lone head at
    /// (100, 100) that faces right and does not move yet.
    pub open spec fn fresh(food: Food) -> SnakeView {
        SnakeView {
            head: SnakeRect { direction: Direction::Right, cell: Cell { x: 100, y: 100 } },
            body: Seq::empty(),
            food,
            length: 1,
            is_moving: false,
        }
    }

    /// The last segment of the snake: the last of the body, or the head where
    /// there is no body.
    pub open spec fn tail(self) -> SnakeRect {
        if self.body.len() == 0 {
            self.head
        } else {
            self.body.last()
        }
    }

    /// The segment that growth attaches: one cell behind the tail on the
    /// torus, so across the edge where the tail has just come in over it, and
    /// headed the same way.
    pub open spec fn next_tail(self) -> SnakeRect {
        SnakeRect {
            direction: self.tail().direction,
            cell: self.tail().cell.stepped(self.tail().direction.spec_opposite()),
        }
    }

    /// The snake one segment longer.
    pub open spec fn grown(self) -> SnakeView {
        SnakeView { body: self.body.push(self.next_tail()), length: self.length + 1, ..self }
    }

    /// The direction that segment `i` of the body follows after the next
    /// move: the one that the segment in front of it followed in that move.
    pub open spec fn handed_down(self, i: int) -> Direction {
        if i == 0 {
            self.head.direction
        } else {
            self.body[i - 1].direction
        }
    }

    /// Segment `i` of the body after the next move: it has stepped one cell
    /// in its own direction and then taken over the direction of the segment
    /// in front of it.
    pub open spec fn moved(self, i: int) -> SnakeRect {
        SnakeRect { direction: self.handed_down(i), cell: self.body[i].slid().cell }
    }

    /// The snake after every segment has moved one cell in its own direction
    /// and each segment of the body has taken over the direction of the
    /// segment in front of it.
    pub open spec fn advanced(self) -> SnakeView {
        SnakeView {
            head: self.head.slid(),
            body: Seq::new(self.body.len(), |i: int| self.moved(i)),
            ..self
        }
    }

    /// Whether a segment of the body lies on the head's cell.
    pub open spec fn hits_body(self) -> bool {
        exists|i: int| 0 <= i < self.body.len() && (#[trigger] self.body[i]).cell == self.head.cell
    }

    /// Whether the head lies on the food.
    pub open spec fn hits_food(self) -> bool {
        self.head.cell.x == self.food.x && self.head.cell.y == self.food.y
    }

    /// The snake after it has eaten: `food` is the new food, and the snake is
    /// one segment longer.
    pub open spec fn fed(self, food: Food) -> SnakeView {
        (SnakeView { food, ..self }).grown()
    }

    /// What a collision check makes of the game.  A head on a body segment
    /// starts the game anew with `reset_food`; after that, a head on the food
    /// replaces the food by `next_food` and lets the snake grow.
    pub open spec fn collided(self, reset_food: Food, next_food: Food) -> SnakeView {
        let s = if self.hits_body() {
            SnakeView::fresh(reset_food)
        } else {
            self
        };
        if s.hits_food() {
            s.fed(next_food)
        } else {
            s
        }
    }

    /// One tick of a moving snake: the move, then the collision check.
    pub open spec fn slid(self, reset_food: Food, next_food: Food) -> SnakeView {
        self.advanced().collided(reset_food, next_food)
    }

    /// The corners of the squares to paint: the head, the body from front to
    /// back, then the food.
    pub open spec fn cells(self) -> Seq<Cell> {
        seq![self.head.cell] + self.body.map_values(|s: SnakeRect| s.cell) + seq![
            Cell { x: self.food.x, y: self.food.y },
        ]
    }
}

impl Snake {
    /// Starts a game with the given food: a lone head at (100, 100) that
    /// faces right and does not move yet.
    pub fn with_food(food: Food) -> (s: Snake)
        ensures
            s@ == SnakeView::fresh(food),
    {
        Snake {
            head: SnakeRect::new(Direction::Right, 100, 100),
            body: Vec::new(),
            food,
            length: 1,
            is_moving: false,
        }
    }

    /// Tells whether the game meets its invariant: `length` counts the head
    /// and the body, and the head, every segment of the body and the food
    /// are on the board.
    pub fn is_valid(&self) -> (r: bool)
        ensures
            r == self@.wf(),
    {
        let n = self.body.len();
        if n == usize::MAX || self.length != n + 1 {
            return false;
        }
        if !self.head.cell.is_on_board() || !self.food.is_on_board() {
            return false;
        }
        let mut i: usize = 0;
        while i < n
            invariant
                i <= n,
                n == self.body@.len(),
                forall|j: int| 0 <= j < i ==> (#[trigger] self.body@[j]).on_board(),
            decreases n - i,
        {
            if !self.body[i].cell.is_on_board() {
                return false;
            }
            i += 1;
        }
        true
    }

    /// Starts a game with food on a cell picked at random.
    pub fn new() -> (s: Snake)
        ensures
            s@ == SnakeView::fresh(s.food),
            s.food.on_board(),
            s@.wf(),
    {
        Snake::with_food(Food::new())
    }

    /// Starts the game anew, with fresh food on a cell picked at random.
    pub fn clear(&mut self)
        ensures
            final(self)@ == SnakeView::fresh(final(self).food),
            final(self).food.on_board(),
            final(self)@.wf(),
    {
        *self = Snake::new();
    }

    /// The direction of the head.
    pub fn get_direction(&self) -> (r: Direction)
        ensures
            r == self@.head.direction,
    {
        self.head.direction
    }

    /// Turns the head; the body is left as it is.
    pub fn set_direction(&mut self, direction: Direction)
        ensures
            final(self)@ == (SnakeView {
                head: SnakeRect { direction, cell: old(self)@.head.cell },
                ..old(self)@
            }),
    {
        self.head.direction = direction;
    }

    /// Attaches a segment one cell behind the tail, headed as the tail is,
    /// and counts it in `length`.  Behind a tail at the edge that it has just
    /// come in over, the new segment lies across that edge, on the board.
    pub fn grow(&mut self)
        requires
            old(self)@.wf(),
            old(self).length < usize::MAX,
        ensures
            final(self)@ == old(self)@.grown(),
            final(self).length == old(self).length + 1,
            final(self).body@.len() == old(self).body@.len() + 1,
            final(self)@.wf(),
    {
        self.length += 1;
        let n = self.body.len();
        let old_tail = if n > 0 {
            self.body[n - 1]
        } else {
            self.head
        };
        let old_tail_direction = old_tail.get_direction();
        let mut tail = SnakeRect::new(old_tail_direction.opposite(), old_tail.x(), old_tail.y());
        tail.slide();
        tail.set_direction(old_tail_direction);
        self.body.push(tail);
    }

    /// Moves every segment one cell.  Each segment of the body steps in its
    /// own direction and then takes over the direction that the segment in
    /// front of it has just followed; the head steps last.  A turn of the
    /// head so travels down the body by one segment per call.
    pub fn advance(&mut self)
        requires
            old(self)@.wf(),
        ensures
            final(self)@ == old(self)@.advanced(),
            final(self)@.wf(),
    {
        let mut direction = self.get_direction();
        let n = self.body.len();
        let mut i: usize = 0;
        while i < n
            invariant
                i <= n,
                n == old(self).body@.len(),
                n == self.body@.len(),
                old(self)@.wf(),
                self.head == old(self).head,
                self.food == old(self).food,
                self.length == old(self).length,
                self.is_moving == old(self).is_moving,
                direction == old(self)@.handed_down(i as int),
                forall|j: int|
                    0 <= j < i ==> (#[trigger] self.body@[j]) == old(self)@.moved(j)
                        && self.body@[j].on_board(),
                forall|j: int| i <= j < n ==> (#[trigger] self.body@[j]) == old(self).body@[j],
            decreases n - i,
        {
            let mut segment = self.body[i];
            segment.slide();
            if segment.get_direction() != direction {
                let temp = segment.get_direction();
                segment.set_direction(direction);
                direction = temp;
            }
            self.body[i] = segment;
            i += 1;
        }
        self.head.slide();
        assert(self@.body =~= old(self)@.advanced().body);
    }

    /// Whether a segment of the body lies on the head's cell.
    pub fn hits_body(&self) -> (r: bool)
        ensures
            r == self@.hits_body(),
    {
        let n = self.body.len();
        let mut i: usize = 0;
        while i < n
            invariant
                i <= n,
                n == self.body@.len(),
                forall|j: int| 0 <= j < i ==> (#[trigger] self.body@[j]).cell != self.head.cell,
            decreases n - i,
        {
            if self.head.x() == self.body[i].x() && self.head.y() == self.body[i].y() {
                return true;
            }
            i += 1;
        }
        false
    }

    /// Whether the head lies on the food.
    pub fn hits_food(&self) -> (r: bool)
        ensures
            r == self@.hits_food(),
    {
        self.head.x() == self.food.x && self.head.y() == self.food.y
    }

    /// Checks the head against the body and the food, with the food to use
    /// handed in.  A head on a body segment starts the game anew with
    /// `reset_food`.  After that, a head on the food replaces the food by
    /// `next_food` and lets the snake grow by one segment.
    pub fn check_collision_with(&mut self, reset_food: Food, next_food: Food)
        requires
            old(self)@.wf(),
            old(self).length < usize::MAX,
            reset_food.on_board(),
            next_food.on_board(),
        ensures
            final(self)@ == old(self)@.collided(reset_food, next_food),
            final(self)@.wf(),
    {
        if self.hits_body() {
            *self = Snake::with_food(reset_food);
        }
        if self.hits_food() {
            self.food = next_food;
            self.grow();
        }
    }

    /// Checks the head against the body and the food.  A head on a body
    /// segment starts the game anew.  After that, a head on the food puts new
    /// food on the board and lets the snake grow by one segment.  Food is put
    /// on a cell picked at random, so the outcome is `collided` for some two
    /// food items on the board.
    pub fn check_collision(&mut self)
        requires
            old(self)@.wf(),
            old(self).length < usize::MAX,
        ensures
            exists|reset_food: Food, next_food: Food|
                #![trigger old(self)@.collided(reset_food, next_food)]
                reset_food.on_board() && next_food.on_board() && final(self)@ == old(self)@.collided(
                    reset_food,
                    next_food,
                ),
            !old(self)@.hits_body() && !old(self)@.hits_food() ==> final(self)@ == old(self)@,
            final(self)@.wf(),
    {
        let ghost mut reset_food = self.food;
        if self.hits_body() {
            self.clear();
            proof {
                reset_food = self.food;
            }
        }
        let ghost mut next_food = self.food;
        if self.hits_food() {
            self.food = Food::new();
            proof {
                next_food = self.food;
            }
            self.grow();
        }
        assert(self@ == old(self)@.collided(reset_food, next_food));
    }

    /// One tick of a moving snake, with the food to use handed in: moves
    /// every segment one cell, then checks for collisions.
    pub fn slide_with(&mut self, reset_food: Food, next_food: Food)
        requires
            old(self)@.wf(),
            old(self).length < usize::MAX,
            reset_food.on_board(),
            next_food.on_board(),
        ensures
            final(self)@ == old(self)@.slid(reset_food, next_food),
            final(self)@.wf(),
    {
        self.advance();
        self.check_collision_with(reset_food, next_food);
    }

    /// One tick of a moving snake: moves every segment one cell, then checks
    /// for collisions.  Food is put on a cell picked at random, so the
    /// outcome is `slid` for some two food items on the board.
    pub fn slide(&mut self)
        requires
            old(self)@.wf(),
            old(self).length < usize::MAX,
        ensures
            exists|reset_food: Food, next_food: Food|
                #![trigger old(self)@.slid(reset_food, next_food)]
                reset_food.on_board() && next_food.on_board() && final(self)@ == old(self)@.slid(
                    reset_food,
                    next_food,
                ),
            !old(self)@.advanced().hits_body() && !old(self)@.advanced().hits_food()
                ==> final(self)@ == old(self)@.advanced(),
            final(self)@.wf(),
    {
        self.advance();
        let ghost moved = self@;
        self.check_collision();
        proof {
            let (reset_food, next_food) = choose|reset_food: Food, next_food: Food|
                #![trigger moved.collided(reset_food, next_food)]
                reset_food.on_board() && next_food.on_board() && self@ == moved.collided(
                    reset_food,
                    next_food,
                );
            assert(self@ == old(self)@.slid(reset_food, next_food));
        }
    }

    /// The corners of the squares to paint, each of side `CELL`: the head,
    /// the body from front to back, then the food.
    pub fn render(&self) -> (r: Vec<Cell>)
        ensures
            r@ == self@.cells(),
            r@.len() == self@.body.len() + 2,
            self@.wf() ==> forall|i: int| 0 <= i < r@.len() ==> (#[trigger] r@[i]).on_board(),
    {
        let mut renderer: Vec<Cell> = Vec::new();
        renderer.push(self.head.cell);
        let n = self.body.len();
        let mut i: usize = 0;
        while i < n
            invariant
                i <= n,
                n == self.body@.len(),
                renderer@.len() == i + 1,
                renderer@[0] == self.head.cell,
                forall|j: int| 0 <= j < i ==> renderer@[j + 1] == self.body@[j].cell,
            decreases n - i,
        {
            renderer.push(self.body[i].cell);
            i += 1;
        }
        renderer.push(Cell { x: self.food.x, y: self.food.y });
        assert(renderer@ =~= self@.cells());
        assert(self@.wf() ==> forall|i: int|
            0 <= i < renderer@.len() ==> (#[trigger] renderer@[i]).on_board()) by {
            if self@.wf() {
                assert forall|i: int| 0 <= i < renderer@.len() implies (
                #[trigger] renderer@[i]).on_board() by {
                    if 0 < i <= n {
                        assert(self.body@[i - 1].on_board());
                    }
                }
            }
        }
        renderer
    }
}

} // verus!
