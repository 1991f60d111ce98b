use vstd::prelude::*;
use crate::direction::Direction;
use crate::grid::Position;

verus! {

/// Column of both cells of a freshly spawned snake.
pub const SPAWN_X: i32 = 3;

/// Row of the head of a freshly spawned snake.
pub const SPAWN_HEAD_Y: i32 = 3;

/// Row of the tail of a freshly spawned snake, one below the head.
pub const SPAWN_TAIL_Y: i32 = 2;

/// The cells of a freshly spawned snake, head first.
pub open spec fn spawn_cells() -> Seq<Position> {
    seq![Position { x: SPAWN_X, y: SPAWN_HEAD_Y }, Position { x: SPAWN_X, y: SPAWN_TAIL_Y }]
}

/// The cells after one movement tick: the head takes one step in `dir`, and
/// every other segment takes the cell its leader held before the move.
pub open spec fn shifted(cells: Seq<Position>, dir: Direction) -> Seq<Position>
    recommends
        cells.len() > 0,
{
    seq![dir.step_spec(cells[0])] + cells.subrange(0, cells.len() - 1)
}

/// The snake's body, head first, and the heading of its head.
pub struct Snake {
    segments: Vec<Position>,
    direction: Direction,
}

impl Snake {
    /// The cells of the segments, head first.
    pub closed spec fn cells(&self) -> Seq<Position> {
        self.segments@
    }

    pub closed spec fn heading(&self) -> Direction {
        self.direction
    }

    /// The body is never empty.
    pub open spec fn wf(&self) -> bool {
        self.cells().len() > 0
    }

    pub open spec fn head_spec(&self) -> Position {
        self.cells()[0]
    }

    pub open spec fn tail_spec(&self) -> Position {
        self.cells().last()
    }

    /// A fresh snake: head at (3, 3) heading up, one tail segment below it.
    pub fn spawn() -> (r: Snake)
        ensures
            r.cells() == spawn_cells(),
            r.heading() == Direction::Up,
            r.wf(),
    {
        let segments = vec![
            Position { x: SPAWN_X, y: SPAWN_HEAD_Y },
            Position { x: SPAWN_X, y: SPAWN_TAIL_Y },
        ];
        let r = Snake { segments, direction: Direction::Up };
        assert(r.cells() =~= spawn_cells());
        r
    }

    /// A snake with the given cells, head first, and heading.
    pub fn from_cells(cells: Vec<Position>, direction: Direction) -> (r: Snake)
        requires
            cells@.len() > 0,
        ensures
            r.cells() == cells@,
            r.heading() == direction,
            r.wf(),
    {
        Snake { segments: cells, direction }
    }

    /// Number of segments, the head included.
    pub fn len(&self) -> (r: usize)
        ensures
            r == self.cells().len(),
    {
        self.segments.len()
    }

    pub fn head(&self) -> (r: Position)
        requires
            self.wf(),
        ensures
            r == self.head_spec(),
    {
        self.segments[0]
    }

    pub fn tail(&self) -> (r: Position)
        requires
            self.wf(),
        ensures
            r == self.tail_spec(),
    {
        self.segments[self.segments.len() - 1]
    }

    pub fn direction(&self) -> (r: Direction)
        ensures
            r == self.heading(),
    {
        self.direction
    }

    /// A copy of the cells, head first.
    pub fn segments(&self) -> (r: Vec<Position>)
        ensures
            r@ == self.cells(),
    {
        let mut r: Vec<Position> = Vec::new();
        let mut i: usize = 0;
        while i < self.segments.len()
            invariant
                i <= self.segments@.len(),
                r@ == self.segments@.subrange(0, i as int),
            decreases self.segments@.len() - i,
        {
            r.push(self.segments[i]);
            i = i + 1;
            assert(r@ =~= self.segments@.subrange(0, i as int));
        }
        assert(self.segments@.subrange(0, i as int) =~= self.segments@);
        r
    }

    /// Whether some segment from index `from` on lies on `p`.
    pub fn occupies_from(&self, from: usize, p: Position) -> (r: bool)
        requires
            from <= self.cells().len(),
        ensures
            r == self.cells().subrange(from as int, self.cells().len() as int).contains(p),
    {
        let n = self.segments.len();
        let mut i: usize = from;
        while i < n
            invariant
                from <= i <= n,
                n == self.segments@.len(),
                forall|j: int| from <= j < i ==> self.segments@[j] != p,
            decreases n - i,
        {
            if self.segments[i] == p {
                let ghost s = self.segments@.subrange(from as int, n as int);
                assert(s[i - from] == p);
                return true;
            }
            i = i + 1;
        }
        let ghost s = self.segments@.subrange(from as int, n as int);
        assert forall|k: int| 0 <= k < s.len() implies s[k] != p by {
            assert(s[k] == self.segments@[from + k]);
        }
        false
    }

    /// Whether any segment lies on `p`.
    pub fn occupies(&self, p: Position) -> (r: bool)
        ensures
            r == self.cells().contains(p),
    {
        let r = self.occupies_from(0, p);
        assert(self.cells().subrange(0, self.cells().len() as int) =~= self.cells());
        r
    }

    /// Takes the requested heading unless it reverses the current one.
    pub fn set_intent(&mut self, requested: Direction)
        ensures
            final(self).heading() == old(self).heading().after_intent(requested),
            final(self).cells() == old(self).cells(),
    {
        self.direction = self.direction.apply_intent(requested);
    }

    /// One movement tick: the head steps in its heading and every other
    /// segment takes its leader's cell from before the move. Returns the cell
    /// that the last segment left.
    pub fn advance(&mut self) -> (vacated: Position)
        requires
            old(self).wf(),
            old(self).head_spec().steppable(),
        ensures
            final(self).cells() == shifted(old(self).cells(), old(self).heading()),
            final(self).heading() == old(self).heading(),
            vacated == old(self).tail_spec(),
            final(self).wf(),
            final(self).cells().len() == old(self).cells().len(),
    {
        let n = self.segments.len();
        let mut moved: Vec<Position> = Vec::new();
        moved.push(self.direction.step(self.segments[0]));
        let mut i: usize = 0;
        while i + 1 < n
            invariant
                n == self.segments@.len(),
                n > 0,
                i + 1 <= n,
                moved@ == seq![self.direction.step_spec(self.segments@[0])]
                    + self.segments@.subrange(0, i as int),
            decreases n - i,
        {
            moved.push(self.segments[i]);
            i = i + 1;
            assert(moved@ =~= seq![self.direction.step_spec(self.segments@[0])]
                + self.segments@.subrange(0, i as int));
        }
        let vacated = self.segments[n - 1];
        self.segments = moved;
        vacated
    }

    /// Appends one segment at `at`, behind the current tail.
    pub fn grow(&mut self, at: Position)
        ensures
            final(self).cells() == old(self).cells().push(at),
            final(self).heading() == old(self).heading(),
            final(self).cells().len() > 0,
    {
        self.segments.push(at);
    }
}

/// Every segment but the head holds, after a tick, the cell that its leader
/// held before it; the head holds the old head moved by one unit offset.
pub proof fn lemma_shift(cells: Seq<Position>, dir: Direction, i: int)
    requires
        0 <= i < cells.len(),
    ensures
        shifted(cells, dir).len() == cells.len(),
        i == 0 ==> shifted(cells, dir)[i] == dir.step_spec(cells[0]),
        i >= 1 ==> shifted(cells, dir)[i] == cells[i - 1],
{
}

} // verus!
