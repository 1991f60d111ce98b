use vstd::prelude::*;
use rand::Rng;
use rand::rngs::StdRng;
use crate::grid::{lemma_cell_index, lemma_index_cell, Bounds, Position};

verus! {

#[verifier::external_type_specification]
#[verifier::external_body]
pub struct ExStdRng(rand::rngs::StdRng);

/// Relies on rand::Rng::gen_range: a value drawn from `0..n`, so below `n`.
/// It panics only on an empty range, which `n > 0` rules out.
#[verifier::external_body]
fn draw_below(rng: &mut StdRng, n: u64) -> (r: u64)
    requires
        n > 0,
    ensures
        r < n,
{
    rng.gen_range(0..n)
}

/// The cell with row-major index `i` lies on none of `occupied`.
pub open spec fn is_free(b: Bounds, occupied: Seq<Position>, i: int) -> bool {
    !occupied.contains(b.cell_at(i))
}

/// Number of free cells among the row-major indices below `n`.
pub open spec fn free_below(b: Bounds, occupied: Seq<Position>, n: int) -> nat
    decreases n,
{
    if n <= 0 {
        0
    } else {
        free_below(b, occupied, n - 1) + if is_free(b, occupied, n - 1) {
            1nat
        } else {
            0nat
        }
    }
}

/// Number of free cells of the grid.
pub open spec fn free_count(b: Bounds, occupied: Seq<Position>) -> nat {
    free_below(b, occupied, b.area())
}

/// The `k`-th free cell of the grid in row-major order, counting from zero.
pub open spec fn is_kth_free(b: Bounds, occupied: Seq<Position>, k: int, p: Position) -> bool {
    exists|i: int|
        0 <= i < b.area() && p == b.cell_at(i) && is_free(b, occupied, i) && free_below(
            b,
            occupied,
            i,
        ) == k
}

/// The grid has no free cell.
pub open spec fn grid_full(b: Bounds, occupied: Seq<Position>) -> bool {
    forall|p: Position| b.contains(p) ==> occupied.contains(p)
}

proof fn lemma_free_below_monotone(b: Bounds, occupied: Seq<Position>, m: int, n: int)
    requires
        m <= n,
    ensures
        free_below(b, occupied, m) <= free_below(b, occupied, n),
    decreases n - m,
{
    if m < n {
        lemma_free_below_monotone(b, occupied, m, n - 1);
    }
}

proof fn lemma_free_below_bound(b: Bounds, occupied: Seq<Position>, n: int)
    requires
        n >= 0,
    ensures
        free_below(b, occupied, n) <= n,
    decreases n,
{
    if n > 0 {
        lemma_free_below_bound(b, occupied, n - 1);
    }
}

proof fn lemma_no_free_below(b: Bounds, occupied: Seq<Position>, n: int)
    ensures
        free_below(b, occupied, n) == 0 <==> forall|i: int|
            0 <= i < n ==> !is_free(b, occupied, i),
    decreases n,
{
    if n > 0 {
        lemma_no_free_below(b, occupied, n - 1);
    }
}

/// The grid has no free cell exactly when the count of free cells is zero.
pub proof fn lemma_full_iff_no_free(b: Bounds, occupied: Seq<Position>)
    requires
        b.wf(),
    ensures
        grid_full(b, occupied) <==> free_count(b, occupied) == 0,
{
    lemma_no_free_below(b, occupied, b.area());
    if free_count(b, occupied) == 0 {
        assert forall|p: Position| b.contains(p) implies occupied.contains(p) by {
            lemma_index_cell(b, p);
            assert(!is_free(b, occupied, b.index_of(p)));
        }
    } else {
        assert(!grid_full(b, occupied)) by {
            let i = choose|i: int| 0 <= i < b.area() && is_free(b, occupied, i);
            lemma_cell_index(b, i);
        }
    }
}

/// A free cell found by rank lies inside the grid and off every occupied cell.
pub proof fn lemma_kth_free_is_free(b: Bounds, occupied: Seq<Position>, k: int, p: Position)
    requires
        b.wf(),
        is_kth_free(b, occupied, k, p),
    ensures
        b.contains(p),
        !occupied.contains(p),
{
    let i = choose|i: int|
        0 <= i < b.area() && p == b.cell_at(i) && is_free(b, occupied, i) && free_below(
            b,
            occupied,
            i,
        ) == k;
    lemma_cell_index(b, i);
}

/// At most one cell has a given rank among the free cells.
pub proof fn lemma_kth_free_unique(
    b: Bounds,
    occupied: Seq<Position>,
    k: int,
    p: Position,
    q: Position,
)
    requires
        b.wf(),
        is_kth_free(b, occupied, k, p),
        is_kth_free(b, occupied, k, q),
    ensures
        p == q,
{
    let i = choose|i: int|
        0 <= i < b.area() && p == b.cell_at(i) && is_free(b, occupied, i) && free_below(
            b,
            occupied,
            i,
        ) == k;
    let j = choose|j: int|
        0 <= j < b.area() && q == b.cell_at(j) && is_free(b, occupied, j) && free_below(
            b,
            occupied,
            j,
        ) == k;
    if i < j {
        lemma_free_below_monotone(b, occupied, i + 1, j);
    } else if j < i {
        lemma_free_below_monotone(b, occupied, j + 1, i);
    }
}

/// Whether `p` is one of `cells`.
pub fn contains_cell(cells: &Vec<Position>, p: Position) -> (r: bool)
    ensures
        r == cells@.contains(p),
{
    let mut i: usize = 0;
    while i < cells.len()
        invariant
            i <= cells@.len(),
            forall|j: int| 0 <= j < i ==> cells@[j] != p,
        decreases cells@.len() - i,
    {
        if cells[i] == p {
            return true;
        }
        i = i + 1;
    }
    false
}

/// The cell with row-major index `i`.
fn cell_at(b: Bounds, i: u64) -> (r: Position)
    requires
        b.wf(),
        i < b.area(),
    ensures
        r == b.cell_at(i as int),
{
    proof {
        lemma_cell_index(b, i as int);
    }
    let w = b.width as u64;
    Position { x: (i % w) as i32, y: (i / w) as i32 }
}

/// Number of cells of the grid as a `u64`.
fn area(b: Bounds) -> (r: u64)
    requires
        b.wf(),
    ensures
        r == b.area(),
{
    assert(b.width as int * b.height as int <= 0x7fff_ffff * 0x7fff_ffff) by (nonlinear_arith)
        requires 0 < b.width <= 0x7fff_ffff, 0 < b.height <= 0x7fff_ffff;
    b.width as u64 * b.height as u64
}

/// Number of cells of the grid that lie on none of `occupied`.
pub fn count_free(b: Bounds, occupied: &Vec<Position>) -> (r: u64)
    requires
        b.wf(),
    ensures
        r == free_count(b, occupied@),
{
    let n = area(b);
    let mut count: u64 = 0;
    let mut i: u64 = 0;
    while i < n
        invariant
            b.wf(),
            n == b.area(),
            i <= n,
            count == free_below(b, occupied@, i as int),
        decreases n - i,
    {
        proof {
            lemma_free_below_bound(b, occupied@, i as int);
        }
        let p = cell_at(b, i);
        if !contains_cell(occupied, p) {
            count = count + 1;
        }
        i = i + 1;
    }
    count
}

/// The `k`-th free cell of the grid in row-major order, counting from zero,
/// or `None` when the grid has no more than `k` free cells.
pub fn nth_free_cell(b: Bounds, occupied: &Vec<Position>, k: u64) -> (r: Option<Position>)
    requires
        b.wf(),
    ensures
        r is Some <==> k < free_count(b, occupied@),
        r matches Some(p) ==> is_kth_free(b, occupied@, k as int, p),
        r matches Some(p) ==> b.contains(p) && !occupied@.contains(p),
{
    let n = area(b);
    let mut count: u64 = 0;
    let mut i: u64 = 0;
    while i < n
        invariant
            b.wf(),
            n == b.area(),
            i <= n,
            count == free_below(b, occupied@, i as int),
            count <= k,
        decreases n - i,
    {
        proof {
            lemma_free_below_bound(b, occupied@, i as int);
        }
        let p = cell_at(b, i);
        if !contains_cell(occupied, p) {
            if count == k {
                proof {
                    lemma_free_below_monotone(b, occupied@, i + 1, n as int);
                    assert(is_kth_free(b, occupied@, k as int, p));
                    lemma_kth_free_is_free(b, occupied@, k as int, p);
                }
                return Some(p);
            }
            count = count + 1;
        }
        i = i + 1;
    }
    None
}

/// Picks a free cell of the grid uniformly at random: the rank of the cell
/// among the free ones is drawn from `rng`. `None` when the grid is full.
pub fn random_free_cell(b: Bounds, occupied: &Vec<Position>, rng: &mut StdRng) -> (r: Option<
    Position,
>)
    requires
        b.wf(),
    ensures
        r is None <==> grid_full(b, occupied@),
        r matches Some(p) ==> b.contains(p) && !occupied@.contains(p),
        r matches Some(p) ==> exists|k: int|
            0 <= k < free_count(b, occupied@) && is_kth_free(b, occupied@, k, p),
{
    proof {
        lemma_full_iff_no_free(b, occupied@);
    }
    let free = count_free(b, occupied);
    if free == 0 {
        return None;
    }
    let k = draw_below(rng, free);
    nth_free_cell(b, occupied, k)
}

} // verus!
