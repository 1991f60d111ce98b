use vstd::prelude::*;
use crate::grid::Position;

verus! {

/// The heading of the snake's head.
#[derive(Clone, Copy, Debug, PartialEq, Eq, Structural)]
pub enum Direction {
    Left,
    Right,
    Up,
    Down,
}

impl Direction {
    pub open spec fn opposite_spec(self) -> Direction {
        match self {
            Direction::Left => Direction::Right,
            Direction::Right => Direction::Left,
            Direction::Up => Direction::Down,
            Direction::Down => Direction::Up,
        }
    }

    /// The reverse heading.
    pub fn opposite(self) -> (r: Direction)
        ensures
            r == self.opposite_spec(),
    {
        match self {
            Direction::Left => Direction::Right,
            Direction::Right => Direction::Left,
            Direction::Up => Direction::Down,
            Direction::Down => Direction::Up,
        }
    }

    /// Horizontal unit offset of the heading.
    pub open spec fn dx(self) -> int {
        match self {
            Direction::Left => -1,
            Direction::Right => 1,
            _ => 0,
        }
    }

    /// Vertical unit offset of the heading.
    pub open spec fn dy(self) -> int {
        match self {
            Direction::Up => 1,
            Direction::Down => -1,
            _ => 0,
        }
    }

    /// The cell one step from `p` in this direction.
    pub open spec fn step_spec(self, p: Position) -> Position {
        Position { x: (p.x + self.dx()) as i32, y: (p.y + self.dy()) as i32 }
    }

    /// Moves `p` by the unit offset of this direction.
    pub fn step(self, p: Position) -> (r: Position)
        requires
            p.steppable(),
        ensures
            r == self.step_spec(p),
            r.x == p.x + self.dx(),
            r.y == p.y + self.dy(),
    {
        match self {
            Direction::Left => Position { x: p.x - 1, y: p.y },
            Direction::Right => Position { x: p.x + 1, y: p.y },
            Direction::Up => Position { x: p.x, y: p.y + 1 },
            Direction::Down => Position { x: p.x, y: p.y - 1 },
        }
    }

    /// The heading after `requested` is asked for while heading `self`: a
    /// reversal is ignored, any other request is taken.
    pub open spec fn after_intent(self, requested: Direction) -> Direction {
        if requested == self.opposite_spec() {
            self
        } else {
            requested
        }
    }

    pub fn apply_intent(self, requested: Direction) -> (r: Direction)
        ensures
            r == self.after_intent(requested),
    {
        if requested == self.opposite() {
            self
        } else {
            requested
        }
    }
}

/// A request other than the current heading leaves the heading unchanged
/// exactly when it asks for the reverse heading.
pub proof fn lemma_reversal_ignored(current: Direction, requested: Direction)
    requires
        requested != current,
    ensures
        (current.after_intent(requested) == current) <==> (requested == current.opposite_spec()),
{
}

} // verus!
