use snake::board::Cell;
use snake::direction::Direction;
use snake::food::Food;
use snake::input::Key;
use snake::segment::SnakeRect;
use snake::snake::Snake;

fn far_food() -> Food {
    Food { x: 500, y: 200 }
}

fn snake_with(head: SnakeRect, body: Vec<SnakeRect>, food: Food, is_moving: bool) -> Snake {
    let length = 1 + body.len();
    Snake { head, body, food, length, is_moving }
}

fn assert_is_fresh(s: &Snake) {
    assert_eq!(s.head, SnakeRect::new(Direction::Right, 100, 100));
    assert!(s.body.is_empty());
    assert_eq!(s.length, 1);
    assert!(!s.is_moving);
}

#[test]
fn new_snake_is_a_lone_head() {
    let s = Snake::new();
    assert_is_fresh(&s);
    assert_eq!(s.get_direction(), Direction::Right);
    assert!(0 <= s.food.x && s.food.x < 600 && s.food.x % 10 == 0);
    assert!(0 <= s.food.y && s.food.y < 300 && s.food.y % 10 == 0);
}

#[test]
fn with_food_keeps_the_food() {
    let s = Snake::with_food(Food { x: 30, y: 40 });
    assert_is_fresh(&s);
    assert_eq!(s.food, Food { x: 30, y: 40 });
}

#[test]
fn set_direction_turns_only_the_head() {
    let mut s = snake_with(
        SnakeRect::new(Direction::Right, 100, 100),
        vec![SnakeRect::new(Direction::Right, 90, 100)],
        far_food(),
        true,
    );
    s.set_direction(Direction::Up);
    assert_eq!(s.get_direction(), Direction::Up);
    assert_eq!(s.head, SnakeRect::new(Direction::Up, 100, 100));
    assert_eq!(s.body, vec![SnakeRect::new(Direction::Right, 90, 100)]);
    assert_eq!(s.length, 2);
    assert!(s.is_moving);
    assert_eq!(s.food, far_food());
}

#[test]
fn grow_from_a_lone_head() {
    let expected = [
        (Direction::Up, (100, 110)),
        (Direction::Down, (100, 90)),
        (Direction::Left, (110, 100)),
        (Direction::Right, (90, 100)),
    ];
    for (d, (x, y)) in expected {
        let mut s = Snake::with_food(far_food());
        s.set_direction(d);
        s.grow();
        assert_eq!(s.length, 2);
        assert_eq!(s.body, vec![SnakeRect::new(d, x, y)]);
        assert_eq!(s.head, SnakeRect::new(d, 100, 100));
    }
}

#[test]
fn grow_attaches_behind_the_tail() {
    let expected = [
        (Direction::Up, (200, 60)),
        (Direction::Down, (200, 40)),
        (Direction::Left, (210, 50)),
        (Direction::Right, (190, 50)),
    ];
    for (d, (x, y)) in expected {
        let first = SnakeRect::new(Direction::Right, 90, 100);
        let tail = SnakeRect::new(d, 200, 50);
        let mut s =
            snake_with(SnakeRect::new(Direction::Right, 100, 100), vec![first, tail], far_food(), true);
        s.grow();
        assert_eq!(s.length, 4);
        assert_eq!(s.body.len(), 3);
        assert_eq!(s.body[0], first);
        assert_eq!(s.body[1], tail);
        assert_eq!(s.body[2], SnakeRect::new(d, x, y));
        assert_ne!(s.body[2].cell, tail.cell);
        assert_ne!(s.body[2].cell, first.cell);
        assert_ne!(s.body[2].cell, s.head.cell);
        assert_eq!(s.food, far_food());
        assert!(s.is_moving);
    }
}

#[test]
fn grow_at_the_edge_wraps_to_the_far_edge() {
    let mut s = snake_with(SnakeRect::new(Direction::Right, 0, 100), vec![], Food { x: 300, y: 200 }, true);
    s.grow();
    assert_eq!(s.length, 2);
    assert_eq!(s.body, vec![SnakeRect::new(Direction::Right, 590, 100)]);
    assert!(s.is_valid());
    s.advance();
    assert_eq!(s.head, SnakeRect::new(Direction::Right, 10, 100));
    assert_eq!(s.body, vec![SnakeRect::new(Direction::Right, 0, 100)]);

    let mut s = snake_with(SnakeRect::new(Direction::Up, 40, 290), vec![], far_food(), true);
    s.grow();
    assert_eq!(s.body, vec![SnakeRect::new(Direction::Up, 40, 0)]);
    assert!(s.is_valid());
    s.advance();
    assert_eq!(s.head, SnakeRect::new(Direction::Up, 40, 280));
    assert_eq!(s.body, vec![SnakeRect::new(Direction::Up, 40, 290)]);

    let mut s = snake_with(SnakeRect::new(Direction::Left, 590, 0), vec![], far_food(), true);
    s.grow();
    assert_eq!(s.body, vec![SnakeRect::new(Direction::Left, 0, 0)]);
    s.advance();
    assert_eq!(s.body, vec![SnakeRect::new(Direction::Left, 590, 0)]);

    let mut s = snake_with(SnakeRect::new(Direction::Down, 70, 0), vec![], far_food(), true);
    s.grow();
    assert_eq!(s.body, vec![SnakeRect::new(Direction::Down, 70, 290)]);
    s.advance();
    assert_eq!(s.body, vec![SnakeRect::new(Direction::Down, 70, 0)]);
}

#[test]
fn grow_behind_a_tail_at_the_edge_wraps() {
    let mut s = snake_with(
        SnakeRect::new(Direction::Right, 10, 100),
        vec![SnakeRect::new(Direction::Right, 0, 100)],
        far_food(),
        true,
    );
    s.grow();
    assert_eq!(s.length, 3);
    assert_eq!(
        s.body,
        vec![SnakeRect::new(Direction::Right, 0, 100), SnakeRect::new(Direction::Right, 590, 100)]
    );
    s.grow();
    assert_eq!(s.length, 4);
    assert_eq!(s.body[2], SnakeRect::new(Direction::Right, 580, 100));
    assert!(s.is_valid());
}

#[test]
fn eating_at_the_edge_keeps_every_segment_on_the_board() {
    let mut s = snake_with(SnakeRect::new(Direction::Right, 590, 100), vec![], Food { x: 0, y: 100 }, true);
    s.slide_with(far_food(), Food { x: 40, y: 50 });
    assert_eq!(s.head, SnakeRect::new(Direction::Right, 0, 100));
    assert_eq!(s.body, vec![SnakeRect::new(Direction::Right, 590, 100)]);
    assert_eq!(s.length, 2);
    assert_eq!(s.food, Food { x: 40, y: 50 });
    for cell in s.render() {
        assert!(cell.is_on_board());
    }
}

#[test]
fn advance_moves_every_segment_one_cell() {
    let mut s = snake_with(
        SnakeRect::new(Direction::Right, 590, 100),
        vec![SnakeRect::new(Direction::Right, 580, 100), SnakeRect::new(Direction::Right, 570, 100)],
        far_food(),
        true,
    );
    s.advance();
    assert_eq!(s.head, SnakeRect::new(Direction::Right, 0, 100));
    assert_eq!(
        s.body,
        vec![SnakeRect::new(Direction::Right, 590, 100), SnakeRect::new(Direction::Right, 580, 100)]
    );
    assert_eq!(s.length, 3);
    assert_eq!(s.food, far_food());
    assert!(s.is_moving);
}

#[test]
fn a_turn_reaches_one_more_segment_per_tick() {
    let mut s = snake_with(
        SnakeRect::new(Direction::Right, 100, 100),
        vec![
            SnakeRect::new(Direction::Right, 90, 100),
            SnakeRect::new(Direction::Right, 80, 100),
            SnakeRect::new(Direction::Right, 70, 100),
        ],
        far_food(),
        true,
    );
    s.steer(Direction::Up);

    s.slide_with(far_food(), far_food());
    assert_eq!(s.head, SnakeRect::new(Direction::Up, 100, 90));
    assert_eq!(
        s.body,
        vec![
            SnakeRect::new(Direction::Up, 100, 100),
            SnakeRect::new(Direction::Right, 90, 100),
            SnakeRect::new(Direction::Right, 80, 100),
        ]
    );

    s.slide_with(far_food(), far_food());
    assert_eq!(s.head, SnakeRect::new(Direction::Up, 100, 80));
    assert_eq!(
        s.body,
        vec![
            SnakeRect::new(Direction::Up, 100, 90),
            SnakeRect::new(Direction::Up, 100, 100),
            SnakeRect::new(Direction::Right, 90, 100),
        ]
    );

    s.slide_with(far_food(), far_food());
    assert_eq!(s.head, SnakeRect::new(Direction::Up, 100, 70));
    assert_eq!(
        s.body,
        vec![
            SnakeRect::new(Direction::Up, 100, 80),
            SnakeRect::new(Direction::Up, 100, 90),
            SnakeRect::new(Direction::Up, 100, 100),
        ]
    );
    assert_eq!(s.length, 4);
}

#[test]
fn two_turns_in_a_row_travel_down_the_body_in_order() {
    let mut s = snake_with(
        SnakeRect::new(Direction::Right, 100, 100),
        vec![SnakeRect::new(Direction::Right, 90, 100), SnakeRect::new(Direction::Right, 80, 100)],
        far_food(),
        true,
    );
    s.steer(Direction::Down);
    s.slide();
    s.steer(Direction::Left);
    s.slide();
    assert_eq!(s.head, SnakeRect::new(Direction::Left, 90, 110));
    assert_eq!(
        s.body,
        vec![SnakeRect::new(Direction::Left, 100, 110), SnakeRect::new(Direction::Down, 100, 100)]
    );
    s.slide();
    assert_eq!(s.head, SnakeRect::new(Direction::Left, 80, 110));
    assert_eq!(
        s.body,
        vec![SnakeRect::new(Direction::Left, 90, 110), SnakeRect::new(Direction::Left, 100, 110)]
    );
}

#[test]
fn hits_body_and_hits_food() {
    let mut s = snake_with(
        SnakeRect::new(Direction::Right, 100, 100),
        vec![SnakeRect::new(Direction::Right, 90, 100), SnakeRect::new(Direction::Up, 100, 100)],
        far_food(),
        true,
    );
    assert!(s.hits_body());
    assert!(!s.hits_food());
    s.body[1] = SnakeRect::new(Direction::Up, 100, 110);
    assert!(!s.hits_body());
    s.food = Food { x: 100, y: 100 };
    assert!(s.hits_food());
    s.food = Food { x: 100, y: 110 };
    assert!(!s.hits_food());
}

#[test]
fn self_collision_resets_the_game() {
    let mut s = snake_with(
        SnakeRect::new(Direction::Down, 300, 200),
        vec![
            SnakeRect::new(Direction::Down, 300, 190),
            SnakeRect::new(Direction::Left, 300, 200),
            SnakeRect::new(Direction::Up, 310, 200),
        ],
        far_food(),
        true,
    );
    s.check_collision_with(Food { x: 20, y: 30 }, Food { x: 40, y: 50 });
    assert_is_fresh(&s);
    assert_eq!(s.food, Food { x: 20, y: 30 });
}

#[test]
fn self_collision_resets_the_game_with_random_food() {
    for _ in 0..200 {
        let mut s = snake_with(
            SnakeRect::new(Direction::Down, 300, 200),
            vec![SnakeRect::new(Direction::Down, 300, 190), SnakeRect::new(Direction::Left, 300, 200)],
            far_food(),
            true,
        );
        s.check_collision();
        assert!(0 <= s.food.x && s.food.x < 600 && s.food.x % 10 == 0);
        assert!(0 <= s.food.y && s.food.y < 300 && s.food.y % 10 == 0);
        if s.length == 1 {
            assert_is_fresh(&s);
        } else {
            assert_eq!(s.length, 2);
            assert_eq!(s.head, SnakeRect::new(Direction::Right, 100, 100));
            assert_eq!(s.body, vec![SnakeRect::new(Direction::Right, 90, 100)]);
            assert!(!s.is_moving);
        }
    }
}

#[test]
fn reset_onto_food_eats_it_at_once() {
    let mut s = snake_with(
        SnakeRect::new(Direction::Down, 300, 200),
        vec![SnakeRect::new(Direction::Left, 300, 200)],
        far_food(),
        true,
    );
    s.check_collision_with(Food { x: 100, y: 100 }, Food { x: 40, y: 50 });
    assert_eq!(s.head, SnakeRect::new(Direction::Right, 100, 100));
    assert_eq!(s.body, vec![SnakeRect::new(Direction::Right, 90, 100)]);
    assert_eq!(s.length, 2);
    assert_eq!(s.food, Food { x: 40, y: 50 });
    assert!(!s.is_moving);
}

#[test]
fn clear_starts_anew() {
    let mut s = snake_with(
        SnakeRect::new(Direction::Down, 300, 200),
        vec![SnakeRect::new(Direction::Down, 300, 190)],
        far_food(),
        true,
    );
    s.clear();
    assert_is_fresh(&s);
    assert!(0 <= s.food.x && s.food.x < 600 && s.food.x % 10 == 0);
    assert!(0 <= s.food.y && s.food.y < 300 && s.food.y % 10 == 0);
}

#[test]
fn no_collision_changes_nothing() {
    let body = vec![SnakeRect::new(Direction::Right, 90, 100)];
    let mut s = snake_with(SnakeRect::new(Direction::Right, 100, 100), body.clone(), far_food(), true);
    s.check_collision();
    assert_eq!(s.head, SnakeRect::new(Direction::Right, 100, 100));
    assert_eq!(s.body, body);
    assert_eq!(s.food, far_food());
    assert_eq!(s.length, 2);
    assert!(s.is_moving);
}

#[test]
fn eating_replaces_the_food_and_grows() {
    let mut s = snake_with(
        SnakeRect::new(Direction::Right, 100, 100),
        vec![SnakeRect::new(Direction::Right, 90, 100), SnakeRect::new(Direction::Right, 80, 100)],
        Food { x: 110, y: 100 },
        true,
    );
    s.slide_with(Food { x: 20, y: 30 }, Food { x: 40, y: 50 });
    assert_ne!(s.food, Food { x: 110, y: 100 });
    assert_eq!(s.food, Food { x: 40, y: 50 });
    assert_eq!(s.length, 4);
    assert_eq!(s.head, SnakeRect::new(Direction::Right, 110, 100));
    assert_eq!(
        s.body,
        vec![
            SnakeRect::new(Direction::Right, 100, 100),
            SnakeRect::new(Direction::Right, 90, 100),
            SnakeRect::new(Direction::Right, 80, 100),
        ]
    );
    assert!(s.is_moving);
}

#[test]
fn eating_with_random_food_grows() {
    let mut s = Snake::with_food(Food { x: 110, y: 100 });
    s.press(Key::Right);
    s.slide();
    assert_eq!(s.length, 2);
    assert_eq!(s.head, SnakeRect::new(Direction::Right, 110, 100));
    assert_eq!(s.body, vec![SnakeRect::new(Direction::Right, 100, 100)]);
    assert!(0 <= s.food.x && s.food.x < 600 && s.food.x % 10 == 0);
    assert!(0 <= s.food.y && s.food.y < 300 && s.food.y % 10 == 0);
}

#[test]
fn eating_after_a_turn_attaches_behind_the_old_tail() {
    let mut s = snake_with(
        SnakeRect::new(Direction::Up, 100, 100),
        vec![SnakeRect::new(Direction::Right, 90, 100)],
        Food { x: 100, y: 90 },
        true,
    );
    s.slide_with(far_food(), Food { x: 0, y: 0 });
    assert_eq!(s.head, SnakeRect::new(Direction::Up, 100, 90));
    assert_eq!(
        s.body,
        vec![SnakeRect::new(Direction::Up, 100, 100), SnakeRect::new(Direction::Up, 100, 110)]
    );
    assert_eq!(s.length, 3);
    assert_eq!(s.food, Food { x: 0, y: 0 });
}

#[test]
fn render_lists_head_body_food() {
    let s = snake_with(
        SnakeRect::new(Direction::Right, 100, 100),
        vec![SnakeRect::new(Direction::Right, 90, 100), SnakeRect::new(Direction::Up, 80, 100)],
        Food { x: 300, y: 20 },
        false,
    );
    assert_eq!(
        s.render(),
        vec![
            Cell { x: 100, y: 100 },
            Cell { x: 90, y: 100 },
            Cell { x: 80, y: 100 },
            Cell { x: 300, y: 20 },
        ]
    );
    let lone = Snake::with_food(Food { x: 0, y: 290 });
    assert_eq!(lone.render(), vec![Cell { x: 100, y: 100 }, Cell { x: 0, y: 290 }]);
}

#[test]
fn length_counts_head_and_body_through_play() {
    let mut s = Snake::new();
    let keys = [Key::Down, Key::Left, Key::Up, Key::Right, Key::Space, Key::Space];
    for round in 0..3000 {
        s.press(keys[(round / 7) % keys.len()]);
        s.tick();
        assert_eq!(s.length, 1 + s.body.len());
        assert!(s.is_valid());
        let cells = s.render();
        assert_eq!(cells.len(), s.body.len() + 2);
        for cell in cells {
            assert!(cell.is_on_board());
        }
        assert!(0 <= s.head.x() && s.head.x() < 600 && s.head.x() % 10 == 0);
        assert!(0 <= s.head.y() && s.head.y() < 300 && s.head.y() % 10 == 0);
        assert!(0 <= s.food.x && s.food.x < 600 && s.food.x % 10 == 0);
        assert!(0 <= s.food.y && s.food.y < 300 && s.food.y % 10 == 0);
    }
}

#[test]
fn is_valid_tells_the_invariant() {
    let good = snake_with(
        SnakeRect::new(Direction::Right, 0, 100),
        vec![SnakeRect::new(Direction::Right, 590, 100)],
        far_food(),
        true,
    );
    assert!(good.is_valid());
    assert!(Snake::new().is_valid());

    let mut miscounted = Snake::with_food(far_food());
    miscounted.length = 2;
    assert!(!miscounted.is_valid());

    let off_grid = snake_with(SnakeRect::new(Direction::Right, 105, 100), vec![], far_food(), true);
    assert!(!off_grid.is_valid());

    let outside = snake_with(SnakeRect::new(Direction::Right, 600, 100), vec![], far_food(), true);
    assert!(!outside.is_valid());

    let body_outside = snake_with(
        SnakeRect::new(Direction::Right, 0, 100),
        vec![SnakeRect::new(Direction::Right, -10, 100)],
        far_food(),
        true,
    );
    assert!(!body_outside.is_valid());

    let body_off_grid = snake_with(
        SnakeRect::new(Direction::Right, 100, 100),
        vec![SnakeRect::new(Direction::Right, 90, 100), SnakeRect::new(Direction::Right, 80, 101)],
        far_food(),
        true,
    );
    assert!(!body_off_grid.is_valid());

    let stray_food = snake_with(
        SnakeRect::new(Direction::Right, 0, 100),
        vec![],
        Food { x: 600, y: 0 },
        true,
    );
    assert!(!stray_food.is_valid());
}

#[test]
fn the_body_follows_the_heads_path() {
    let mut s = Snake::with_food(Food { x: 110, y: 100 });
    let turns = [Key::Right, Key::Down, Key::Down, Key::Left, Key::Up, Key::Up, Key::Right];
    let mut foods = 0;
    for round in 0..400 {
        s.press(turns[(round / 3) % turns.len()]);
        let before: Vec<Cell> = s.render();
        let (hx, hy) = s.get_direction().delta();
        let next = Food { x: (s.head.x() + 2 * hx).rem_euclid(600), y: (s.head.y() + 2 * hy).rem_euclid(300) };
        let old_length = s.length;
        s.tick_with(Food { x: 0, y: 0 }, next);
        if s.length == 1 && old_length > 1 {
            continue;
        }
        if s.length > old_length {
            foods += 1;
        }
        for i in 0..old_length - 1 {
            assert_eq!(s.body[i].cell, before[i]);
        }
        for i in 0..s.body.len() {
            let (dx, dy) = s.body[i].get_direction().delta();
            let leader = if i == 0 { s.head.cell } else { s.body[i - 1].cell };
            assert_eq!((s.body[i].x() + dx).rem_euclid(600), leader.x);
            assert_eq!((s.body[i].y() + dy).rem_euclid(300), leader.y);
        }
    }
    assert!(foods > 0);
}
