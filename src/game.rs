use vstd::prelude::*;
use rand::rngs::StdRng;
use crate::direction::Direction;
use crate::food::{
    is_kth_free, free_count, grid_full, nth_free_cell, random_free_cell,
};
use crate::grid::{lemma_inside_is_steppable, Bounds, Position, ARENA_HEIGHT, ARENA_WIDTH};
use crate::snake::{shifted, spawn_cells, Snake};

verus! {

/// What a movement tick ended in.
#[derive(Clone, Copy, Debug, PartialEq, Eq, Structural)]
pub enum TickEvent {
    /// The snake moved and nothing else happened.
    Moved,
    /// The head reached the food: the food is gone and the snake grew by one.
    Grew,
    /// The head left the grid or ran into the body: the round started over.
    GameOver,
}

/// Game over after a move: the head (first cell) is outside the grid or lies
/// on another segment.
pub open spec fn collides_spec(b: Bounds, cells: Seq<Position>) -> bool
    recommends
        cells.len() > 0,
{
    !b.contains(cells[0]) || cells.subrange(1, cells.len() as int).contains(cells[0])
}

/// Collision check on the snake as it stands after its move.
pub fn collides(b: &Bounds, snake: &Snake) -> (r: bool)
    requires
        snake.wf(),
    ensures
        r == collides_spec(*b, snake.cells()),
{
    let head = snake.head();
    b.hits_wall(head) || snake.occupies_from(1, head)
}

/// The whole simulation: the snake, the food if one is live, the cell the
/// tail left on the last tick, and the size of the grid.
pub struct Game {
    snake: Snake,
    food: Option<Position>,
    last_tail: Option<Position>,
    bounds: Bounds,
}

impl Game {
    pub closed spec fn snake_spec(&self) -> Snake {
        self.snake
    }

    pub open spec fn cells(&self) -> Seq<Position> {
        self.snake_spec().cells()
    }

    pub open spec fn heading(&self) -> Direction {
        self.snake_spec().heading()
    }

    pub closed spec fn food_spec(&self) -> Option<Position> {
        self.food
    }

    pub closed spec fn last_tail_spec(&self) -> Option<Position> {
        self.last_tail
    }

    pub closed spec fn bounds_spec(&self) -> Bounds {
        self.bounds
    }

    /// The grid is well formed, the body is not empty, and the head can take
    /// its next step.
    pub open spec fn wf(&self) -> bool {
        &&& self.bounds_spec().wf()
        &&& self.snake_spec().wf()
        &&& self.snake_spec().head_spec().steppable()
    }

    /// The state at the start of a round: a fresh snake and no food.
    pub open spec fn is_fresh_round(&self) -> bool {
        &&& self.cells() == spawn_cells()
        &&& self.heading() == Direction::Up
        &&& self.food_spec() is None
    }

    /// A new game on the 15 by 15 arena.
    pub fn new() -> (r: Game)
        ensures
            r.wf(),
            r.is_fresh_round(),
            r.last_tail_spec() is None,
            r.bounds_spec() == (Bounds { width: ARENA_WIDTH, height: ARENA_HEIGHT }),
    {
        Game::with_bounds(Bounds::arena())
    }

    /// A new game on a grid of the given size.
    pub fn with_bounds(bounds: Bounds) -> (r: Game)
        requires
            bounds.wf(),
        ensures
            r.wf(),
            r.is_fresh_round(),
            r.last_tail_spec() is None,
            r.bounds_spec() == bounds,
    {
        Game { snake: Snake::spawn(), food: None, last_tail: None, bounds }
    }

    /// A game that goes on from the given snake, with no food yet.
    pub fn from_snake(bounds: Bounds, snake: Snake) -> (r: Game)
        requires
            bounds.wf(),
            snake.wf(),
            snake.head_spec().steppable(),
        ensures
            r.wf(),
            r.snake_spec() == snake,
            r.food_spec() is None,
            r.last_tail_spec() is None,
            r.bounds_spec() == bounds,
    {
        Game { snake, food: None, last_tail: None, bounds }
    }

    pub fn snake(&self) -> (r: &Snake)
        ensures
            *r == self.snake_spec(),
    {
        &self.snake
    }

    pub fn food(&self) -> (r: Option<Position>)
        ensures
            r == self.food_spec(),
    {
        self.food
    }

    pub fn last_tail(&self) -> (r: Option<Position>)
        ensures
            r == self.last_tail_spec(),
    {
        self.last_tail
    }

    pub fn bounds(&self) -> (r: Bounds)
        ensures
            r == self.bounds_spec(),
    {
        self.bounds
    }

    /// Input: takes the requested heading unless it reverses the current one.
    pub fn set_intent(&mut self, requested: Direction)
        requires
            old(self).wf(),
        ensures
            final(self).wf(),
            final(self).heading() == old(self).heading().after_intent(requested),
            final(self).cells() == old(self).cells(),
            final(self).food_spec() == old(self).food_spec(),
            final(self).last_tail_spec() == old(self).last_tail_spec(),
            final(self).bounds_spec() == old(self).bounds_spec(),
    {
        self.snake.set_intent(requested);
    }

    /// Ends the round: the body and the food are removed and a fresh snake is
    /// spawned, whatever the length of the old one.
    pub fn reset(&mut self)
        requires
            old(self).bounds_spec().wf(),
        ensures
            final(self).wf(),
            final(self).is_fresh_round(),
            final(self).cells().len() == 2,
            final(self).last_tail_spec() == old(self).last_tail_spec(),
            final(self).bounds_spec() == old(self).bounds_spec(),
    {
        self.snake = Snake::spawn();
        self.food = None;
    }

    /// One movement tick: move, check collisions, eat, grow, and start over
    /// on game over. Growth puts the new segment on the cell the tail left
    /// in this same tick.
    pub fn tick(&mut self) -> (r: TickEvent)
        requires
            old(self).wf(),
        ensures
            final(self).wf(),
            final(self).bounds_spec() == old(self).bounds_spec(),
            final(self).last_tail_spec() == Some(old(self).cells().last()),
            ({
                let moved = shifted(old(self).cells(), old(self).heading());
                let over = collides_spec(old(self).bounds_spec(), moved);
                let ate = old(self).food_spec() == Some(moved[0]);
                &&& over ==> r == TickEvent::GameOver && final(self).is_fresh_round()
                &&& !over && ate ==> {
                    &&& r == TickEvent::Grew
                    &&& final(self).cells() == moved.push(old(self).cells().last())
                    &&& final(self).heading() == old(self).heading()
                    &&& final(self).food_spec() is None
                }
                &&& !over && !ate ==> {
                    &&& r == TickEvent::Moved
                    &&& final(self).cells() == moved
                    &&& final(self).heading() == old(self).heading()
                    &&& final(self).food_spec() == old(self).food_spec()
                }
            }),
            r == TickEvent::Grew ==> final(self).last_tail_spec() == Some(
                final(self).cells().last(),
            ),
    {
        let vacated = self.snake.advance();
        self.last_tail = Some(vacated);
        let head = self.snake.head();
        let over = collides(&self.bounds, &self.snake);
        let ate = match self.food {
            Some(f) => f == head,
            None => false,
        };
        if ate {
            self.food = None;
            self.snake.grow(vacated);
        }
        if over {
            self.reset();
            return TickEvent::GameOver;
        }
        proof {
            lemma_inside_is_steppable(self.bounds, head);
        }
        if ate {
            TickEvent::Grew
        } else {
            TickEvent::Moved
        }
    }

    /// Places the food on the `k`-th free cell in row-major order, counting
    /// from zero, replacing any live food. With no more than `k` free cells
    /// nothing changes and `None` comes back.
    pub fn place_food(&mut self, k: u64) -> (r: Option<Position>)
        requires
            old(self).wf(),
        ensures
            final(self).wf(),
            final(self).snake_spec() == old(self).snake_spec(),
            final(self).last_tail_spec() == old(self).last_tail_spec(),
            final(self).bounds_spec() == old(self).bounds_spec(),
            r is Some <==> k < free_count(old(self).bounds_spec(), old(self).cells()),
            r matches Some(p) ==> {
                &&& is_kth_free(old(self).bounds_spec(), old(self).cells(), k as int, p)
                &&& old(self).bounds_spec().contains(p)
                &&& !old(self).cells().contains(p)
                &&& final(self).food_spec() == Some(p)
            },
            r is None ==> final(self).food_spec() == old(self).food_spec(),
    {
        let occupied = self.snake.segments();
        let r = nth_free_cell(self.bounds, &occupied, k);
        if let Some(p) = r {
            self.food = Some(p);
        }
        r
    }

    /// Places the food on a free cell drawn uniformly at random, replacing
    /// any live food. On a full grid nothing changes and `None` comes back.
    pub fn spawn_food(&mut self, rng: &mut StdRng) -> (r: Option<Position>)
        requires
            old(self).wf(),
        ensures
            final(self).wf(),
            final(self).snake_spec() == old(self).snake_spec(),
            final(self).last_tail_spec() == old(self).last_tail_spec(),
            final(self).bounds_spec() == old(self).bounds_spec(),
            r is None <==> grid_full(old(self).bounds_spec(), old(self).cells()),
            r matches Some(p) ==> {
                &&& old(self).bounds_spec().contains(p)
                &&& !old(self).cells().contains(p)
                &&& final(self).food_spec() == Some(p)
            },
            r is None ==> final(self).food_spec() == old(self).food_spec(),
    {
        let occupied = self.snake.segments();
        let r = random_free_cell(self.bounds, &occupied, rng);
        if let Some(p) = r {
            self.food = Some(p);
        }
        r
    }
}

} // verus!
