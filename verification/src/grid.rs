//! The cell grid: fixed dimensions, row-major indexing and toroidal wrapping.

use vstd::prelude::*;

verus! {

/// Number of columns of the grid.
pub const GRID_W: usize = 100;

/// Number of rows of the grid.
pub const GRID_H: usize = 100;

/// A cell buffer holds exactly one entry per cell of the grid.
pub open spec fn is_grid(buf: Seq<bool>) -> bool {
    buf.len() == GRID_W * GRID_H
}

/// The column in `[0, GRID_W)` that column `x` names on the torus.
pub open spec fn wrap_x(x: int) -> int {
    x % (GRID_W as int)
}

/// The row in `[0, GRID_H)` that row `y` names on the torus.
pub open spec fn wrap_y(y: int) -> int {
    y % (GRID_H as int)
}

/// Row-major position of the cell in column `x` of row `y`.
pub open spec fn cell_index(x: int, y: int) -> int {
    y * GRID_W + x
}

/// Column of the cell stored at position `i`.
pub open spec fn column_of(i: int) -> int {
    i % (GRID_W as int)
}

/// Row of the cell stored at position `i`.
pub open spec fn row_of(i: int) -> int {
    i / (GRID_W as int)
}

/// State of the cell at `(x, y)`, where both coordinates are read on the
/// torus: any integer names a column, and any integer names a row.
pub open spec fn cell(buf: Seq<bool>, x: int, y: int) -> bool {
    buf[cell_index(wrap_x(x), wrap_y(y))]
}

/// The grid on which every cell is dead.
pub open spec fn empty_grid() -> Seq<bool> {
    Seq::new((GRID_W * GRID_H) as nat, |i: int| false)
}

/// Row-major index of the cell in column `x` of row `y`.
pub fn idx(x: usize, y: usize) -> (i: usize)
    requires
        x < GRID_W,
        y < GRID_H,
    ensures
        i == cell_index(x as int, y as int),
        i < GRID_W * GRID_H,
        column_of(i as int) == x,
        row_of(i as int) == y,
{
    y * GRID_W + x
}

/// Coordinates and buffer positions correspond one to one: every position of
/// a cell buffer is the index of exactly the cell in its column and row.
pub proof fn index_is_bijective(i: int)
    requires
        0 <= i < GRID_W * GRID_H,
    ensures
        0 <= column_of(i) < GRID_W,
        0 <= row_of(i) < GRID_H,
        cell_index(column_of(i), row_of(i)) == i,
        forall|x: int, y: int|
            0 <= x < GRID_W && 0 <= y < GRID_H && cell_index(x, y) == i ==> x == column_of(i) && y
                == row_of(i),
{
}

/// Wrapping leaves coordinates inside the grid alone and glues each edge to
/// the opposite one.
pub proof fn wrap_glues_edges(x: int, y: int)
    requires
        0 <= x < GRID_W,
        0 <= y < GRID_H,
    ensures
        wrap_x(x) == x,
        wrap_y(y) == y,
        wrap_x(-1) == GRID_W - 1,
        wrap_x(GRID_W as int) == 0,
        wrap_y(-1) == GRID_H - 1,
        wrap_y(GRID_H as int) == 0,
        0 <= wrap_x(x - 1) < GRID_W,
        0 <= wrap_x(x + 1) < GRID_W,
        0 <= wrap_y(y - 1) < GRID_H,
        0 <= wrap_y(y + 1) < GRID_H,
{
}

/// Wrapped coordinates lie on the grid.
pub proof fn lemma_wrap_in_range(a: int)
    ensures
        0 <= wrap_x(a) < GRID_W,
        0 <= wrap_y(a) < GRID_H,
{
}

/// A whole grid width or height further on is the same column or row.
pub proof fn lemma_wrap_is_periodic(a: int)
    ensures
        wrap_x(a + GRID_W) == wrap_x(a),
        wrap_y(a + GRID_H) == wrap_y(a),
{
}

/// It makes no difference whether a coordinate is wrapped before a distance
/// is added to it or only afterwards.
pub proof fn lemma_wrap_of_sum(a: int, d: int)
    ensures
        wrap_x(wrap_x(a) + d) == wrap_x(a + d),
        wrap_y(wrap_y(a) + d) == wrap_y(a + d),
{
}

/// An offset inside the grid leads from an origin to a column or row exactly
/// if it is the distance of that column or row from the origin on the torus.
pub proof fn lemma_offset_from_origin(offset: int, origin: int, at: int)
    requires
        0 <= offset < GRID_W,
        0 <= offset < GRID_H,
    ensures
        wrap_x(offset + origin) == wrap_x(at) <==> offset == wrap_x(at - origin),
        wrap_y(offset + origin) == wrap_y(at) <==> offset == wrap_y(at - origin),
{
}

} // verus!
