use vstd::prelude::*;

verus! {

/// Width of the default arena, in cells.
pub const ARENA_WIDTH: i32 = 15;

/// Height of the default arena, in cells.
pub const ARENA_HEIGHT: i32 = 15;

/// A cell of the grid: column `x`, row `y`, with `y` growing upwards.
#[derive(Clone, Copy, Debug, PartialEq, Eq, Structural)]
pub struct Position {
    pub x: i32,
    pub y: i32,
}

/// The size of the grid: cells with `0 <= x < width` and `0 <= y < height`.
#[derive(Clone, Copy, Debug, PartialEq, Eq, Structural)]
pub struct Bounds {
    pub width: i32,
    pub height: i32,
}

impl Position {
    pub fn new(x: i32, y: i32) -> (r: Position)
        ensures
            r == (Position { x, y }),
    {
        Position { x, y }
    }

    /// The position can move one cell in any direction without leaving `i32`.
    pub open spec fn steppable(self) -> bool {
        i32::MIN < self.x < i32::MAX && i32::MIN < self.y < i32::MAX
    }
}

impl Bounds {
    /// The arena of the original game: 15 by 15 cells.
    pub fn arena() -> (r: Bounds)
        ensures
            r == (Bounds { width: ARENA_WIDTH, height: ARENA_HEIGHT }),
            r.wf(),
    {
        Bounds { width: ARENA_WIDTH, height: ARENA_HEIGHT }
    }

    /// Both sides of the grid are positive.
    pub open spec fn wf(self) -> bool {
        self.width > 0 && self.height > 0
    }

    pub open spec fn contains(self, p: Position) -> bool {
        0 <= p.x < self.width && 0 <= p.y < self.height
    }

    /// Number of cells of the grid.
    pub open spec fn area(self) -> int {
        self.width * self.height
    }

    /// The cell with row-major index `i` (`x` runs fastest).
    pub open spec fn cell_at(self, i: int) -> Position {
        Position { x: (i % (self.width as int)) as i32, y: (i / (self.width as int)) as i32 }
    }

    /// Row-major index of a cell.
    pub open spec fn index_of(self, p: Position) -> int {
        p.y * self.width + p.x
    }

    /// Wall collision: the position lies outside the grid.
    pub fn hits_wall(&self, p: Position) -> (r: bool)
        ensures
            r == (p.x < 0 || p.y < 0 || p.x >= self.width || p.y >= self.height),
            r == !self.contains(p),
    {
        p.x < 0 || p.y < 0 || p.x >= self.width || p.y >= self.height
    }
}

/// A cell inside a well-formed grid can take one step without overflow.
pub proof fn lemma_inside_is_steppable(b: Bounds, p: Position)
    requires
        b.contains(p),
    ensures
        p.steppable(),
{
}

/// Row-major indices below the area and the cells of the grid correspond one to one.
pub proof fn lemma_cell_index(b: Bounds, i: int)
    requires
        b.wf(),
        0 <= i < b.area(),
    ensures
        b.contains(b.cell_at(i)),
        b.index_of(b.cell_at(i)) == i,
{
    let w = b.width as int;
    let h = b.height as int;
    assert(0 <= i % w < w) by (nonlinear_arith)
        requires w > 0;
    assert(i == w * (i / w) + i % w) by (nonlinear_arith)
        requires w > 0;
    assert(0 <= i / w) by (nonlinear_arith)
        requires w > 0, i >= 0;
    assert(i / w < h) by (nonlinear_arith)
        requires w > 0, h > 0, 0 <= i < w * h;
    assert((i / w) * w + i % w == i) by (nonlinear_arith)
        requires w > 0;
}

/// Each cell of the grid is the cell at its own row-major index.
pub proof fn lemma_index_cell(b: Bounds, p: Position)
    requires
        b.wf(),
        b.contains(p),
    ensures
        0 <= b.index_of(p) < b.area(),
        b.cell_at(b.index_of(p)) == p,
{
    let w = b.width as int;
    let h = b.height as int;
    let x = p.x as int;
    let y = p.y as int;
    assert(0 <= y * w + x < w * h) by (nonlinear_arith)
        requires 0 <= x < w, 0 <= y < h;
    assert((y * w + x) % w == x) by (nonlinear_arith)
        requires 0 <= x < w, 0 <= y;
    assert((y * w + x) / w == y) by (nonlinear_arith)
        requires 0 <= x < w, 0 <= y;
}

} // verus!
