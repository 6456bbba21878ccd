//! The playing field: the cells strictly inside the wall, and which of them
//! the snake leaves free.

use vstd::prelude::*;
use vstd::relations::injective_on;
use vstd::set_lib::{lemma_int_range, lemma_len_subset, lemma_map_size, set_int_range};

use crate::config::{
    BORDER_END_X, BORDER_END_Y, BORDER_START_X, BORDER_START_Y, INTERIOR_AREA, INTERIOR_HEIGHT,
    INTERIOR_START_X, INTERIOR_START_Y, INTERIOR_WIDTH,
};
use crate::entities::{Point, Snek};

verus! {

/// Whether `p` lies strictly inside the wall.
pub open spec fn inside_border(p: Point) -> bool {
    &&& BORDER_START_X < p.x < BORDER_END_X
    &&& BORDER_START_Y < p.y < BORDER_END_Y
}

/// The cells inside the wall are numbered row by row, from the top left.
/// This is the cell with number `i`.
pub open spec fn interior_cell(i: int) -> Point {
    Point {
        x: (INTERIOR_START_X + i % (INTERIOR_WIDTH as int)) as u32,
        y: (INTERIOR_START_Y + i / (INTERIOR_WIDTH as int)) as u32,
    }
}

/// The number of a cell inside the wall.
pub open spec fn interior_index(p: Point) -> int {
    (p.y - INTERIOR_START_Y) * INTERIOR_WIDTH + (p.x - INTERIOR_START_X)
}

/// All cells inside the wall, in the order of their numbers.
pub open spec fn interior_cells() -> Seq<Point> {
    Seq::new(INTERIOR_AREA as nat, |i: int| interior_cell(i))
}

/// Whether `p` is a cell inside the wall that `body` does not cover.
pub open spec fn is_free_cell(body: Seq<Point>, p: Point) -> bool {
    inside_border(p) && !body.contains(p)
}

/// Whether `body` leaves any cell inside the wall free.
pub open spec fn has_free_cell(body: Seq<Point>) -> bool {
    exists|p: Point| is_free_cell(body, p)
}

/// The cells inside the wall that `body` does not cover, in the order of
/// their numbers.
pub open spec fn free_cells(body: Seq<Point>) -> Seq<Point> {
    interior_cells().filter(|p: Point| !body.contains(p))
}

/// The area inside the wall, as a number.
pub proof fn lemma_interior_area()
    ensures
        INTERIOR_AREA == INTERIOR_WIDTH * INTERIOR_HEIGHT,
        INTERIOR_AREA == 1681,
{
    assert(INTERIOR_WIDTH * INTERIOR_HEIGHT == 1681) by (nonlinear_arith)
        requires
            INTERIOR_WIDTH == 41,
            INTERIOR_HEIGHT == 41,
    ;
}

/// Every number below the area names a cell inside the wall, and that cell
/// has this number.
pub proof fn lemma_interior_cell_of_index(i: int)
    requires
        0 <= i < INTERIOR_AREA,
    ensures
        inside_border(interior_cell(i)),
        interior_index(interior_cell(i)) == i,
        0 <= i % (INTERIOR_WIDTH as int) < INTERIOR_WIDTH,
        0 <= i / (INTERIOR_WIDTH as int) < INTERIOR_HEIGHT,
{
    lemma_interior_area();
    assert(i % (INTERIOR_WIDTH as int) == i % 41);
    assert(i / (INTERIOR_WIDTH as int) == i / 41);
    assert(i == 41 * (i / 41) + i % 41);
}

/// Every cell inside the wall has a number below the area, and is the cell
/// that this number names.
pub proof fn lemma_interior_index_of_cell(p: Point)
    requires
        inside_border(p),
    ensures
        0 <= interior_index(p) < INTERIOR_AREA,
        interior_cell(interior_index(p)) == p,
{
    lemma_interior_area();
    let i = interior_index(p);
    let col = p.x - INTERIOR_START_X;
    let row = p.y - INTERIOR_START_Y;
    assert(i == row * 41 + col);
    assert(i % (INTERIOR_WIDTH as int) == i % 41);
    assert(i / (INTERIOR_WIDTH as int) == i / 41);
    assert(i / 41 == row && i % 41 == col);
}

/// Numbering the cells inside the wall loses none and adds none: the
/// numbered cells are exactly the cells inside the wall.
pub proof fn lemma_interior_cells_cover(p: Point)
    ensures
        inside_border(p) <==> interior_cells().contains(p),
{
    lemma_interior_area();
    if inside_border(p) {
        lemma_interior_index_of_cell(p);
        assert(interior_cells()[interior_index(p)] == p);
    }
    if interior_cells().contains(p) {
        let i = choose|i: int| 0 <= i < interior_cells().len() && interior_cells()[i] == p;
        lemma_interior_cell_of_index(i);
    }
}

/// The cell inside the wall with number `i`.
pub fn interior_cell_at(i: u32) -> (p: Point)
    requires
        i < INTERIOR_AREA,
    ensures
        p == interior_cell(i as int),
        inside_border(p),
{
    proof {
        lemma_interior_cell_of_index(i as int);
    }
    Point::new(INTERIOR_START_X + i % INTERIOR_WIDTH, INTERIOR_START_Y + i / INTERIOR_WIDTH)
}

/// The free cells among the first `n` cells inside the wall.
spec fn free_cells_below(body: Seq<Point>, n: int) -> Seq<Point> {
    interior_cells().take(n).filter(|p: Point| !body.contains(p))
}

/// Looking at one more cell adds it to the free cells if `body` does not
/// cover it, and adds nothing otherwise.
proof fn lemma_free_cells_below_step(body: Seq<Point>, n: int)
    requires
        0 <= n < INTERIOR_AREA,
    ensures
        free_cells_below(body, n + 1) == if body.contains(interior_cell(n)) {
            free_cells_below(body, n)
        } else {
            free_cells_below(body, n).push(interior_cell(n))
        },
{
    let cells = interior_cells();
    let free = |p: Point| !body.contains(p);
    assert(cells.take(n + 1) =~= cells.take(n).push(interior_cell(n)));
    cells.take(n).lemma_filter_push(interior_cell(n), free);
}

/// The free cells among the first `n` are the first free cells of all.
proof fn lemma_free_cells_below_prefix(body: Seq<Point>, n: int)
    requires
        0 <= n <= INTERIOR_AREA,
    ensures
        free_cells_below(body, n).len() <= free_cells(body).len(),
        free_cells_below(body, n) == free_cells(body).take(free_cells_below(body, n).len() as int),
        free_cells_below(body, INTERIOR_AREA as int) == free_cells(body),
{
    let cells = interior_cells();
    let free = |p: Point| !body.contains(p);
    assert(cells =~= cells.take(n) + cells.skip(n));
    Seq::filter_distributes_over_add(cells.take(n), cells.skip(n), free);
    assert(cells.take(INTERIOR_AREA as int) =~= cells);
    assert(free_cells(body).take(free_cells_below(body, n).len() as int) =~= free_cells_below(
        body,
        n,
    ));
}

/// The free cells are exactly the cells inside the wall that `body` does
/// not cover.
pub proof fn lemma_free_cells_are_free(body: Seq<Point>, p: Point)
    ensures
        free_cells(body).contains(p) <==> is_free_cell(body, p),
{
    let cells = interior_cells();
    let free = |p: Point| !body.contains(p);
    lemma_interior_cells_cover(p);
    if free_cells(body).contains(p) {
        cells.lemma_filter_contains_rev(free, p);
        let k = choose|k: int| 0 <= k < free_cells(body).len() && free_cells(body)[k] == p;
        cells.lemma_filter_pred(free, k);
    }
    if is_free_cell(body, p) {
        let i = choose|i: int| 0 <= i < cells.len() && cells[i] == p;
        cells.lemma_filter_contains(free, i);
    }
}

/// A body leaves a cell free exactly when its list of free cells is not
/// empty.
pub proof fn lemma_has_free_cell(body: Seq<Point>)
    ensures
        has_free_cell(body) <==> free_cells(body).len() > 0,
{
    if has_free_cell(body) {
        let p = choose|p: Point| is_free_cell(body, p);
        lemma_free_cells_are_free(body, p);
    }
    if free_cells(body).len() > 0 {
        let p = free_cells(body)[0];
        assert(free_cells(body).contains(p));
        lemma_free_cells_are_free(body, p);
    }
}

/// A body that covers fewer cells than lie inside the wall leaves one of
/// them free.
pub proof fn lemma_small_body_leaves_free_cell(body: Seq<Point>)
    requires
        body.to_set().len() < INTERIOR_AREA,
    ensures
        has_free_cell(body),
{
    if !has_free_cell(body) {
        let numbers = set_int_range(0, INTERIOR_AREA as int);
        let cell_of = |i: int| interior_cell(i);
        let cells = numbers.map(cell_of);
        lemma_int_range(0, INTERIOR_AREA as int);
        assert(injective_on(cell_of, numbers)) by {
            assert forall|i: int, j: int|
                numbers.contains(i) && numbers.contains(j) && #[trigger] cell_of(i) == #[trigger] cell_of(
                    j,
                ) implies i == j by {
                lemma_interior_cell_of_index(i);
                lemma_interior_cell_of_index(j);
            }
        }
        lemma_map_size(numbers, cells, cell_of);
        assert(cells.subset_of(body.to_set())) by {
            assert forall|p: Point| cells.contains(p) implies body.to_set().contains(p) by {
                let i = choose|i: int| numbers.contains(i) && p == cell_of(i);
                lemma_interior_cell_of_index(i);
                assert(!is_free_cell(body, p));
            }
        }
        lemma_len_subset(cells, body.to_set());
    }
}

/// The cell in column `x` and row `y`, if it lies inside the wall and the
/// snake does not cover it.
pub fn free_cell_at(snek: &Snek, x: u32, y: u32) -> (cell: Option<Point>)
    ensures
        cell == if is_free_cell(snek@, Point { x, y }) {
            Some(Point { x, y })
        } else {
            None::<Point>
        },
{
    let candidate = Point::new(x, y);
    let inside = BORDER_START_X < x && x < BORDER_END_X && BORDER_START_Y < y && y < BORDER_END_Y;
    if inside && !snek.occupies(&candidate) {
        Some(candidate)
    } else {
        None
    }
}

/// Counts the cells inside the wall that the snake does not cover.
pub fn free_cell_count(snek: &Snek) -> (count: u32)
    ensures
        count == free_cells(snek@).len(),
        count <= INTERIOR_AREA,
{
    let mut count: u32 = 0;
    let mut i: u32 = 0;
    while i < INTERIOR_AREA
        invariant
            i <= INTERIOR_AREA,
            count <= i,
            count == free_cells_below(snek@, i as int).len(),
        decreases INTERIOR_AREA - i,
    {
        let cell = interior_cell_at(i);
        proof {
            lemma_free_cells_below_step(snek@, i as int);
        }
        if !snek.occupies(&cell) {
            count += 1;
        }
        i += 1;
    }
    proof {
        lemma_free_cells_below_prefix(snek@, INTERIOR_AREA as int);
    }
    count
}

/// The free cell with number `k`, counting the free cells from 0 in the
/// order of the cells inside the wall.
pub fn nth_free_cell(snek: &Snek, k: u32) -> (cell: Point)
    requires
        k < free_cells(snek@).len(),
    ensures
        cell == free_cells(snek@)[k as int],
        is_free_cell(snek@, cell),
{
    let mut seen: u32 = 0;
    let mut i: u32 = 0;
    proof {
        lemma_free_cells_below_prefix(snek@, INTERIOR_AREA as int);
    }
    loop
        invariant
            i <= INTERIOR_AREA,
            seen <= k,
            seen == free_cells_below(snek@, i as int).len(),
            k < free_cells(snek@).len(),
            free_cells_below(snek@, INTERIOR_AREA as int) == free_cells(snek@),
        decreases INTERIOR_AREA - i,
    {
        let cell = interior_cell_at(i);
        proof {
            lemma_free_cells_below_step(snek@, i as int);
            lemma_free_cells_below_prefix(snek@, i + 1);
        }
        if !snek.occupies(&cell) {
            if seen == k {
                proof {
                    let found = free_cells_below(snek@, i + 1);
                    assert(found[k as int] == cell);
                    assert(found == free_cells(snek@).take(k + 1));
                    assert(free_cells(snek@).take(k + 1)[k as int] == free_cells(snek@)[k as int]);
                    assert(free_cells(snek@).contains(cell));
                    lemma_free_cells_are_free(snek@, cell);
                }
                return cell;
            }
            seen += 1;
        }
        i += 1;
    }
}

} // verus!
