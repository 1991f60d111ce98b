use rand::rngs::StdRng;
use rand::SeedableRng;
use rusty_snake::direction::Direction;
use rusty_snake::food::{contains_cell, count_free, nth_free_cell, random_free_cell};
use rusty_snake::game::{collides, Game, TickEvent};
use rusty_snake::grid::{Bounds, Position};
use rusty_snake::snake::Snake;

const ALL: [Direction; 4] = [Direction::Left, Direction::Right, Direction::Up, Direction::Down];

fn p(x: i32, y: i32) -> Position {
    Position::new(x, y)
}

fn cells(game: &Game) -> Vec<Position> {
    game.snake().segments()
}

#[test]
fn opposite_pairs() {
    assert_eq!(Direction::Left.opposite(), Direction::Right);
    assert_eq!(Direction::Right.opposite(), Direction::Left);
    assert_eq!(Direction::Up.opposite(), Direction::Down);
    assert_eq!(Direction::Down.opposite(), Direction::Up);
}

#[test]
fn reversal_is_ignored_and_other_requests_taken() {
    for current in ALL {
        for requested in ALL {
            let mut snake = Snake::from_cells(vec![p(5, 5), p(5, 4)], current);
            snake.set_intent(requested);
            if requested == current.opposite() {
                assert_eq!(snake.direction(), current);
            } else {
                assert_eq!(snake.direction(), requested);
            }
            if requested != current {
                assert_eq!(snake.direction() == current, requested == current.opposite());
            }
        }
    }
}

#[test]
fn latest_legal_intent_survives() {
    let mut game = Game::new();
    game.set_intent(Direction::Down);
    assert_eq!(game.snake().direction(), Direction::Up);
    game.set_intent(Direction::Left);
    game.set_intent(Direction::Right);
    assert_eq!(game.snake().direction(), Direction::Left);
    game.set_intent(Direction::Down);
    assert_eq!(game.snake().direction(), Direction::Down);
}

#[test]
fn step_offsets() {
    let c = p(4, 7);
    assert_eq!(Direction::Left.step(c), p(3, 7));
    assert_eq!(Direction::Right.step(c), p(5, 7));
    assert_eq!(Direction::Up.step(c), p(4, 8));
    assert_eq!(Direction::Down.step(c), p(4, 6));
}

#[test]
fn advance_shifts_follow_the_leader() {
    let before = vec![p(3, 3), p(3, 2), p(4, 2), p(5, 2)];
    let mut snake = Snake::from_cells(before.clone(), Direction::Left);
    let vacated = snake.advance();
    assert_eq!(vacated, p(5, 2));
    let after = snake.segments();
    assert_eq!(after.len(), before.len());
    assert_eq!(after[0], p(2, 3));
    for i in 1..after.len() {
        assert_eq!(after[i], before[i - 1]);
    }
    assert_eq!(snake.direction(), Direction::Left);
}

#[test]
fn grow_appends_at_given_cell() {
    let mut snake = Snake::spawn();
    snake.grow(p(3, 1));
    assert_eq!(snake.segments(), vec![p(3, 3), p(3, 2), p(3, 1)]);
    assert_eq!(snake.len(), 3);
    assert_eq!(snake.tail(), p(3, 1));
    assert_eq!(snake.head(), p(3, 3));
}

#[test]
fn fresh_game_state() {
    let game = Game::new();
    assert_eq!(cells(&game), vec![p(3, 3), p(3, 2)]);
    assert_eq!(game.snake().direction(), Direction::Up);
    assert_eq!(game.food(), None);
    assert_eq!(game.last_tail(), None);
    assert_eq!(game.bounds(), Bounds { width: 15, height: 15 });
    assert_eq!(Bounds::arena(), Bounds { width: 15, height: 15 });
}

#[test]
fn wall_boundary() {
    let b = Bounds::arena();
    assert!(b.hits_wall(p(15, 3)));
    assert!(!b.hits_wall(p(14, 3)));
    assert!(b.hits_wall(p(3, 15)));
    assert!(!b.hits_wall(p(3, 14)));
    assert!(b.hits_wall(p(-1, 3)));
    assert!(b.hits_wall(p(3, -1)));
    assert!(!b.hits_wall(p(0, 0)));
}

#[test]
fn tick_into_right_wall_is_game_over() {
    let snake = Snake::from_cells(vec![p(14, 3), p(13, 3)], Direction::Right);
    let mut game = Game::from_snake(Bounds::arena(), snake);
    assert_eq!(game.tick(), TickEvent::GameOver);
    assert_eq!(cells(&game), vec![p(3, 3), p(3, 2)]);
    assert_eq!(game.last_tail(), Some(p(13, 3)));
}

#[test]
fn tick_to_last_column_is_no_collision() {
    let snake = Snake::from_cells(vec![p(13, 3), p(12, 3)], Direction::Right);
    let mut game = Game::from_snake(Bounds::arena(), snake);
    assert_eq!(game.tick(), TickEvent::Moved);
    assert_eq!(cells(&game), vec![p(14, 3), p(13, 3)]);
}

#[test]
fn self_collision_moving_down() {
    let snake = Snake::from_cells(vec![p(3, 3), p(3, 2), p(3, 1)], Direction::Down);
    let mut moved = Snake::from_cells(vec![p(3, 3), p(3, 2), p(3, 1)], Direction::Down);
    moved.advance();
    assert_eq!(moved.head(), p(3, 2));
    assert!(collides(&Bounds::arena(), &moved));
    let mut game = Game::from_snake(Bounds::arena(), snake);
    assert_eq!(game.tick(), TickEvent::GameOver);
    assert_eq!(cells(&game), vec![p(3, 3), p(3, 2)]);
    assert_eq!(game.snake().direction(), Direction::Up);
}

#[test]
fn following_the_tail_is_no_collision() {
    let snake = Snake::from_cells(vec![p(1, 1), p(1, 2), p(2, 2), p(2, 1)], Direction::Right);
    let mut game = Game::from_snake(Bounds::arena(), snake);
    assert_eq!(game.tick(), TickEvent::Moved);
    assert_eq!(cells(&game), vec![p(2, 1), p(1, 1), p(1, 2), p(2, 2)]);
    assert_eq!(game.last_tail(), Some(p(2, 1)));
}

#[test]
fn occupancy_queries() {
    let snake = Snake::from_cells(vec![p(1, 1), p(1, 2), p(2, 2)], Direction::Up);
    assert!(snake.occupies(p(1, 1)));
    assert!(snake.occupies(p(2, 2)));
    assert!(!snake.occupies(p(2, 1)));
    assert!(!snake.occupies_from(1, p(1, 1)));
    assert!(snake.occupies_from(1, p(1, 2)));
    assert!(contains_cell(&vec![p(0, 0), p(4, 4)], p(4, 4)));
    assert!(!contains_cell(&vec![], p(4, 4)));
}

#[test]
fn nth_free_cell_in_row_major_order() {
    let b = Bounds { width: 3, height: 3 };
    let occupied = vec![p(0, 0), p(2, 0)];
    assert_eq!(count_free(b, &occupied), 7);
    assert_eq!(nth_free_cell(b, &occupied, 0), Some(p(1, 0)));
    assert_eq!(nth_free_cell(b, &occupied, 1), Some(p(0, 1)));
    assert_eq!(nth_free_cell(b, &occupied, 6), Some(p(2, 2)));
    assert_eq!(nth_free_cell(b, &occupied, 7), None);
    assert_eq!(count_free(b, &vec![]), 9);
    assert_eq!(count_free(b, &vec![p(5, 5), p(-1, 0)]), 9);
}

#[test]
fn food_is_never_placed_on_the_snake() {
    let b = Bounds { width: 4, height: 3 };
    let occupied = vec![p(0, 0), p(1, 0), p(2, 0), p(3, 0), p(0, 1)];
    let mut rng = StdRng::seed_from_u64(7);
    for _ in 0..200 {
        let c = random_free_cell(b, &occupied, &mut rng).unwrap();
        assert!(!occupied.contains(&c));
        assert!(!b.hits_wall(c));
    }
}

#[test]
fn spawn_food_draws_every_free_cell() {
    let b = Bounds { width: 2, height: 2 };
    let mut game = Game::from_snake(b, Snake::from_cells(vec![p(0, 0)], Direction::Up));
    let mut rng = StdRng::seed_from_u64(42);
    let mut seen = vec![];
    for _ in 0..200 {
        let c = game.spawn_food(&mut rng).unwrap();
        assert_eq!(game.food(), Some(c));
        assert_ne!(c, p(0, 0));
        if !seen.contains(&c) {
            seen.push(c);
        }
    }
    assert_eq!(seen.len(), 3);
}

#[test]
fn full_grid_gives_no_food() {
    let b = Bounds { width: 2, height: 1 };
    let mut game = Game::from_snake(b, Snake::from_cells(vec![p(0, 0), p(1, 0)], Direction::Up));
    let mut rng = StdRng::seed_from_u64(1);
    assert_eq!(count_free(b, &cells(&game)), 0);
    assert_eq!(game.spawn_food(&mut rng), None);
    assert_eq!(game.food(), None);
    assert_eq!(game.place_food(0), None);
}

#[test]
fn place_food_replaces_live_food() {
    let mut game = Game::new();
    assert_eq!(game.place_food(0), Some(p(0, 0)));
    assert_eq!(game.place_food(1), Some(p(1, 0)));
    assert_eq!(game.food(), Some(p(1, 0)));
    assert_eq!(game.place_food(1000), None);
    assert_eq!(game.food(), Some(p(1, 0)));
}

#[test]
fn growth_uses_the_tail_cell_of_the_same_tick() {
    let snake = Snake::from_cells(vec![p(5, 5), p(5, 4), p(6, 4), p(7, 4)], Direction::Left);
    let mut game = Game::from_snake(Bounds::arena(), snake);
    // row-major index of (4, 5) is 79; three occupied cells come before it
    assert_eq!(game.place_food(76), Some(p(4, 5)));
    assert_eq!(game.tick(), TickEvent::Grew);
    let after = cells(&game);
    assert_eq!(after, vec![p(4, 5), p(5, 5), p(5, 4), p(6, 4), p(7, 4)]);
    assert_eq!(game.last_tail(), Some(p(7, 4)));
    assert_eq!(Some(*after.last().unwrap()), game.last_tail());
    assert_eq!(game.food(), None);
}

#[test]
fn reset_after_long_snake() {
    let body: Vec<Position> = (0..10).map(|x| p(x, 7)).collect();
    let mut game = Game::from_snake(Bounds::arena(), Snake::from_cells(body, Direction::Left));
    game.place_food(0);
    assert_eq!(game.tick(), TickEvent::GameOver);
    assert_eq!(cells(&game), vec![p(3, 3), p(3, 2)]);
    assert_eq!(game.snake().direction(), Direction::Up);
    assert_eq!(game.food(), None);
    game.reset();
    assert_eq!(cells(&game), vec![p(3, 3), p(3, 2)]);
}

#[test]
fn reset_clears_food_and_body() {
    let mut game = Game::new();
    game.place_food(3);
    game.set_intent(Direction::Left);
    game.reset();
    assert_eq!(cells(&game), vec![p(3, 3), p(3, 2)]);
    assert_eq!(game.snake().direction(), Direction::Up);
    assert_eq!(game.food(), None);
}

#[test]
fn end_to_end_first_meal() {
    let mut game = Game::with_bounds(Bounds { width: 15, height: 15 });
    assert_eq!(cells(&game), vec![p(3, 3), p(3, 2)]);
    game.set_intent(Direction::Up);
    assert_eq!(game.snake().direction(), Direction::Up);
    // (3, 4) has row-major index 63; (3, 2) and (3, 3) come before it
    assert_eq!(game.place_food(61), Some(p(3, 4)));
    assert_eq!(game.tick(), TickEvent::Grew);
    assert_eq!(game.last_tail(), Some(p(3, 2)));
    assert_eq!(cells(&game), vec![p(3, 4), p(3, 3), p(3, 2)]);
    assert_eq!(game.snake().len(), 3);
    assert_eq!(game.food(), None);
}

#[test]
fn plain_move_keeps_food() {
    let mut game = Game::new();
    assert_eq!(game.place_food(0), Some(p(0, 0)));
    assert_eq!(game.tick(), TickEvent::Moved);
    assert_eq!(cells(&game), vec![p(3, 4), p(3, 3)]);
    assert_eq!(game.food(), Some(p(0, 0)));
    assert_eq!(game.last_tail(), Some(p(3, 2)));
}
