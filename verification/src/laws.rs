use vstd::prelude::*;

use crate::board::Cell;
use crate::direction::Direction;
use crate::food::Food;
use crate::segment::SnakeRect;
use crate::snake::SnakeView;

verus! {

impl SnakeView {
    /// The snake after `moves` moves in a row during which nothing steers the
    /// head.
    pub open spec fn advanced_by(self, moves: nat) -> SnakeView
        decreases moves,
    {
        if moves == 0 {
            self
        } else {
            self.advanced_by((moves - 1) as nat).advanced()
        }
    }

    /// The segment in front of segment `i` of the body: the head for the
    /// first, else the segment before it.
    pub open spec fn leader(self, i: int) -> SnakeRect {
        if i == 0 {
            self.head
        } else {
            self.body[i - 1]
        }
    }

    /// Whether the snake is a chain: the next step of every segment of the
    /// body takes it to the cell that the segment in front of it is on now.
    pub open spec fn is_chain(self) -> bool {
        forall|i: int|
            0 <= i < self.body.len() ==> (#[trigger] self.body[i]).slid().cell == self.leader(
                i,
            ).cell
    }

    /// Whether a segment other than the tail lies on `cell`.
    pub open spec fn covers_before_tail(self, cell: Cell) -> bool {
        ||| self.body.len() > 0 && self.head.cell == cell
        ||| exists|i: int| 0 <= i < self.body.len() - 1 && (#[trigger] self.body[i]).cell == cell
    }
}

/// The board is closed under steps: one step from a cell of the board, in
/// any direction, ends on a cell of the board.
pub proof fn lemma_step_stays_on_board(cell: Cell, direction: Direction)
    requires
        cell.on_board(),
    ensures
        cell.stepped(direction).on_board(),
{
}

/// The opposite of the opposite of a direction is the direction itself, and
/// no direction is its own opposite.
pub proof fn lemma_opposite_is_an_involution(direction: Direction)
    ensures
        direction.spec_opposite().spec_opposite() == direction,
        direction.spec_opposite() != direction,
{
}

/// A request to reverse the head is ignored; every other request turns the
/// head as asked, sets the snake moving and touches nothing else.
pub proof fn lemma_only_a_reversal_is_ignored(s: SnakeView, direction: Direction)
    ensures
        direction == s.head.direction.spec_opposite() ==> s.steered(direction) == s,
        direction != s.head.direction.spec_opposite() ==> {
            &&& s.steered(direction).head.direction == direction
            &&& s.steered(direction).is_moving
            &&& s.steered(direction).head.cell == s.head.cell
            &&& s.steered(direction).body == s.body
            &&& s.steered(direction).food == s.food
            &&& s.steered(direction).length == s.length
        },
        s.steered(direction).head.direction != s.head.direction.spec_opposite(),
{
}

/// A step against a direction and then a step in it lead back to where they
/// began, over an edge of the board too; the cell in between is another cell
/// of the board.
pub proof fn lemma_step_back_and_forth(cell: Cell, direction: Direction)
    requires
        cell.on_board(),
    ensures
        cell.stepped(direction.spec_opposite()).on_board(),
        cell.stepped(direction.spec_opposite()) != cell,
        cell.stepped(direction.spec_opposite()).stepped(direction) == cell,
{
}

/// Growth adds exactly one segment, at the end of the body, and counts it.
/// The new segment lies on the board, on another cell than the tail it was
/// attached to, and its next step takes it to the cell that the tail is on
/// now.
pub proof fn lemma_growth_adds_one_segment(s: SnakeView)
    requires
        s.wf(),
    ensures
        s.grown().wf(),
        s.grown().tail().on_board(),
        s.grown().length == s.length + 1,
        s.grown().body.len() == s.body.len() + 1,
        s.grown().body.subrange(0, s.body.len() as int) == s.body,
        s.grown().head == s.head,
        s.grown().tail().cell != s.tail().cell,
        s.grown().tail().slid().cell == s.tail().cell,
{
    if s.body.len() > 0 {
        assert(s.body.last().on_board());
    }
    lemma_step_back_and_forth(s.tail().cell, s.tail().direction);
    assert(s.grown().body.subrange(0, s.body.len() as int) =~= s.body);
}

/// Where no segment lies on the cell behind the tail, the segment that
/// growth attaches shares its cell with no segment that was there before.
pub proof fn lemma_new_segment_is_on_a_free_cell(s: SnakeView)
    requires
        s.wf(),
        !s.covers_before_tail(s.next_tail().cell),
    ensures
        s.grown().tail().cell != s.head.cell,
        forall|i: int|
            0 <= i < s.body.len() ==> (#[trigger] s.grown().body[i]).cell != s.grown().tail().cell,
{
    let cell = s.next_tail().cell;
    lemma_growth_adds_one_segment(s);
    assert(cell != s.tail().cell);
    assert forall|i: int| 0 <= i < s.body.len() implies (#[trigger] s.grown().body[i]).cell
        != s.grown().tail().cell by {
        assert(s.grown().body[i] == s.body[i]);
        if i < s.body.len() - 1 {
            assert(s.body[i].cell != cell);
        }
    }
}

/// In one move every segment of the body steps in the direction it had
/// before the move, and only then takes over the direction that the segment
/// in front of it had: the first segment the head's, each other one its
/// predecessor's.
pub proof fn lemma_segment_steps_before_it_turns(s: SnakeView, i: int)
    requires
        0 <= i < s.body.len(),
    ensures
        s.advanced().body.len() == s.body.len(),
        s.advanced().head == s.head.slid(),
        s.advanced().body[i].cell == s.body[i].cell.stepped(s.body[i].direction),
        i == 0 ==> s.advanced().body[i].direction == s.head.direction,
        i > 0 ==> s.advanced().body[i].direction == s.body[i - 1].direction,
{
}

/// A turn of the head travels down the body by one segment per move.  After
/// `moves` moves during which nothing steers the head, segment `i` of the
/// body follows the head's direction if `i < moves`; otherwise it follows
/// the direction that segment `i - moves` had before the first of them.
pub proof fn lemma_turn_travels_one_segment_per_move(s: SnakeView, moves: nat, i: int)
    requires
        0 <= i < s.body.len(),
    ensures
        s.advanced_by(moves).body.len() == s.body.len(),
        s.advanced_by(moves).head.direction == s.head.direction,
        i < moves ==> s.advanced_by(moves).body[i].direction == s.head.direction,
        i >= moves ==> s.advanced_by(moves).body[i].direction == s.body[i - moves].direction,
    decreases moves,
{
    if moves > 0 {
        let before = s.advanced_by((moves - 1) as nat);
        lemma_turn_travels_one_segment_per_move(s, (moves - 1) as nat, i);
        if i > 0 {
            lemma_turn_travels_one_segment_per_move(s, (moves - 1) as nat, i - 1);
        }
        assert(s.advanced_by(moves) == before.advanced());
        assert(before.advanced().body[i].direction == before.handed_down(i));
    }
}

/// A chain stays a chain through a move: every segment of the body ends on
/// the cell that the segment in front of it has just left, and is headed for
/// the cell that this segment has moved to.
pub proof fn lemma_move_keeps_chain(s: SnakeView)
    requires
        s.is_chain(),
    ensures
        s.advanced().is_chain(),
        forall|i: int|
            0 <= i < s.body.len() ==> (#[trigger] s.advanced().body[i]).cell == s.leader(i).cell,
{
    let t = s.advanced();
    assert forall|i: int| 0 <= i < s.body.len() implies (#[trigger] t.body[i]).cell == s.leader(
        i,
    ).cell by {
        assert(s.body[i].slid().cell == s.leader(i).cell);
    }
    assert forall|i: int| 0 <= i < t.body.len() implies (#[trigger] t.body[i]).slid().cell
        == t.leader(i).cell by {
        assert(s.body[i].slid().cell == s.leader(i).cell);
        assert(t.body[i].direction == s.leader(i).direction);
        if i > 0 {
            assert(s.body[i - 1].slid().cell == s.leader(i - 1).cell);
            assert(t.body[i - 1].cell == s.body[i - 1].slid().cell);
        }
    }
}

/// A chain stays a chain when it grows.
pub proof fn lemma_growth_keeps_chain(s: SnakeView)
    requires
        s.tail().on_board(),
        s.is_chain(),
    ensures
        s.grown().is_chain(),
{
    let t = s.grown();
    assert forall|i: int| 0 <= i < t.body.len() implies (#[trigger] t.body[i]).slid().cell
        == t.leader(i).cell by {
        if i < s.body.len() {
            assert(t.body[i] == s.body[i]);
            assert(s.body[i].slid().cell == s.leader(i).cell);
        } else {
            lemma_step_back_and_forth(s.tail().cell, s.tail().direction);
            assert(t.body[i] == s.next_tail());
            assert(t.leader(i) == s.tail());
        }
    }
}

/// Feeding a chain leaves it a chain: new food changes no segment, and the
/// segment that growth attaches is headed for the tail.
pub proof fn lemma_feeding_keeps_chain(s: SnakeView, food: Food)
    requires
        s.tail().on_board(),
        s.is_chain(),
    ensures
        s.fed(food).is_chain(),
{
    let fed = SnakeView { food, ..s };
    assert forall|i: int| 0 <= i < fed.body.len() implies (#[trigger] fed.body[i]).slid().cell
        == fed.leader(i).cell by {
        assert(s.body[i].slid().cell == s.leader(i).cell);
    }
    lemma_growth_keeps_chain(fed);
}

/// A tick keeps a valid game a chain, whatever food is handed in: in every
/// state that play reaches from the start, the body follows the head's path.
pub proof fn lemma_tick_keeps_chain(s: SnakeView, reset_food: Food, next_food: Food)
    requires
        s.wf(),
        s.is_chain(),
    ensures
        s.ticked(reset_food, next_food).is_chain(),
        SnakeView::fresh(reset_food).is_chain(),
{
    let start = SnakeView::fresh(reset_food);
    assert(start.is_chain());
    if s.is_moving {
        lemma_move_keeps_invariant(s);
        lemma_move_keeps_chain(s);
        let moved = s.advanced();
        if moved.hits_body() {
            if start.hits_food() {
                lemma_feeding_keeps_chain(start, next_food);
            }
        } else if moved.hits_food() {
            if moved.body.len() > 0 {
                assert(moved.body.last().on_board());
            }
            lemma_feeding_keeps_chain(moved, next_food);
        }
    }
}

/// A move keeps the invariant of the game: every segment stays on the board.
pub proof fn lemma_move_keeps_invariant(s: SnakeView)
    requires
        s.wf(),
    ensures
        s.advanced().wf(),
        s.advanced().length == s.length,
        s.advanced().body.len() == s.body.len(),
{
    assert forall|i: int| 0 <= i < s.advanced().body.len() implies (
    #[trigger] s.advanced().body[i]).on_board() by {
        assert(s.body[i].on_board());
    }
}

/// A tick keeps the invariant of the game, whatever food is handed in:
/// `length` counts the head and the body in every state that play reaches.
pub proof fn lemma_tick_keeps_invariant(s: SnakeView, reset_food: Food, next_food: Food)
    requires
        s.wf(),
        reset_food.on_board(),
        next_food.on_board(),
    ensures
        s.ticked(reset_food, next_food).wf(),
{
    lemma_move_keeps_invariant(s);
    let moved = s.advanced();
    let checked = if moved.hits_body() {
        SnakeView::fresh(reset_food)
    } else {
        moved
    };
    assert(checked.wf());
    if checked.hits_food() {
        let fed = SnakeView { food: next_food, ..checked };
        assert(fed.wf());
        lemma_growth_adds_one_segment(fed);
    }
}

/// A head on a body segment starts the game anew: unless the new food lies
/// under the new head, the game is exactly a fresh one with that food.
pub proof fn lemma_self_collision_resets(s: SnakeView, reset_food: Food, next_food: Food)
    requires
        s.hits_body(),
    ensures
        !SnakeView::fresh(reset_food).hits_food() ==> s.collided(reset_food, next_food)
            == SnakeView::fresh(reset_food),
        SnakeView::fresh(reset_food).hits_food() ==> s.collided(reset_food, next_food)
            == SnakeView::fresh(reset_food).fed(next_food),
{
}

/// A head that reaches the food without touching the body eats it: the food
/// is replaced, the snake is one segment longer, and the new segment sits
/// one cell behind the tail on the torus.
pub proof fn lemma_eating_grows(s: SnakeView, reset_food: Food, next_food: Food)
    requires
        !s.hits_body(),
        s.hits_food(),
    ensures
        s.collided(reset_food, next_food).food == next_food,
        s.collided(reset_food, next_food).length == s.length + 1,
        s.collided(reset_food, next_food).body == s.body.push(s.next_tail()),
        s.collided(reset_food, next_food).head == s.head,
        s.collided(reset_food, next_food).is_moving == s.is_moving,
{
}

/// A head that touches neither the body nor the food leaves the game as the
/// move made it.
pub proof fn lemma_free_cell_changes_nothing(s: SnakeView, reset_food: Food, next_food: Food)
    requires
        !s.hits_body(),
        !s.hits_food(),
    ensures
        s.collided(reset_food, next_food) == s,
{
}

/// Pausing twice is no change, and a pause flips nothing but `is_moving`.
pub proof fn lemma_toggle_twice_is_no_change(s: SnakeView)
    ensures
        s.toggled().toggled() == s,
        s.toggled().is_moving == !s.is_moving,
        s.toggled().head == s.head,
        s.toggled().body == s.body,
        s.toggled().food == s.food,
        s.toggled().length == s.length,
{
}

/// A resting snake does not move: a tick leaves it as it is, whatever food
/// is handed in.
pub proof fn lemma_resting_snake_stays(s: SnakeView, reset_food: Food, next_food: Food)
    requires
        !s.is_moving,
    ensures
        s.ticked(reset_food, next_food) == s,
{
}

} // verus!
