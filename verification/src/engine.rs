//! The generational update: neighbour counting on the torus and the rule that
//! turns one generation into the next.

use vstd::prelude::*;
use crate::grid::{
    GRID_W, GRID_H, cell, column_of, row_of, idx, is_grid, lemma_wrap_in_range,
    lemma_wrap_is_periodic, wrap_x, wrap_y,
};

verus! {

/// `1` if the cell at `(x, y)` (read on the torus) is alive, `0` otherwise.
pub open spec fn alive(buf: Seq<bool>, x: int, y: int) -> int {
    if cell(buf, x, y) {
        1
    } else {
        0
    }
}

/// Number of live cells among the eight cells that touch `(x, y)` on the
/// torus, the cell itself not counted.
pub open spec fn live_neighbor_count(buf: Seq<bool>, x: int, y: int) -> int {
    alive(buf, x - 1, y - 1) + alive(buf, x, y - 1) + alive(buf, x + 1, y - 1)
        + alive(buf, x - 1, y) + alive(buf, x + 1, y)
        + alive(buf, x - 1, y + 1) + alive(buf, x, y + 1) + alive(buf, x + 1, y + 1)
}

/// The transition rule: a live cell stays alive with two or three live
/// neighbours, a dead cell comes alive with exactly three.
pub open spec fn lives_on(is_alive: bool, neighbors: int) -> bool {
    if is_alive {
        neighbors == 2 || neighbors == 3
    } else {
        neighbors == 3
    }
}

/// The generation that follows `current`: the rule applied to every cell at
/// once.
pub open spec fn next_generation(current: Seq<bool>) -> Seq<bool> {
    Seq::new(
        current.len(),
        |i: int| lives_on(current[i], live_neighbor_count(current, column_of(i), row_of(i))),
    )
}

/// Every cell of every buffer has between zero and eight live neighbours.
pub proof fn neighbor_count_in_range(buf: Seq<bool>, x: int, y: int)
    ensures
        0 <= live_neighbor_count(buf, x, y) <= 8,
{
}

/// A cell a whole grid width or height further on is the same cell.
proof fn lemma_cell_is_periodic(buf: Seq<bool>, x: int, y: int)
    ensures
        cell(buf, x + GRID_W, y) == cell(buf, x, y),
        cell(buf, x, y + GRID_H) == cell(buf, x, y),
{
    lemma_wrap_is_periodic(x);
    lemma_wrap_is_periodic(y);
    lemma_wrap_in_range(x);
    lemma_wrap_in_range(y);
}

/// The neighbourhood wraps around the edges of the grid. The row above row
/// `0` is the last row and the row below the last row is row `0`; the column
/// left of column `0` is the last column and the column right of the last
/// column is column `0`. So a cell on the top row counts the bottom row among
/// its neighbours, and a cell in the leftmost column the rightmost column.
pub proof fn neighborhood_wraps_around(buf: Seq<bool>, x: int, y: int)
    ensures
        cell(buf, x, -1) == cell(buf, x, GRID_H - 1),
        cell(buf, x, GRID_H as int) == cell(buf, x, 0),
        cell(buf, -1, y) == cell(buf, GRID_W - 1, y),
        cell(buf, GRID_W as int, y) == cell(buf, 0, y),
        live_neighbor_count(buf, x, 0) == alive(buf, x - 1, GRID_H - 1) + alive(buf, x, GRID_H - 1)
            + alive(buf, x + 1, GRID_H - 1) + alive(buf, x - 1, 0) + alive(buf, x + 1, 0)
            + alive(buf, x - 1, 1) + alive(buf, x, 1) + alive(buf, x + 1, 1),
        live_neighbor_count(buf, 0, y) == alive(buf, GRID_W - 1, y - 1) + alive(buf, 0, y - 1)
            + alive(buf, 1, y - 1) + alive(buf, GRID_W - 1, y) + alive(buf, 1, y)
            + alive(buf, GRID_W - 1, y + 1) + alive(buf, 0, y + 1) + alive(buf, 1, y + 1),
{
    lemma_cell_is_periodic(buf, x - 1, -1);
    lemma_cell_is_periodic(buf, x, -1);
    lemma_cell_is_periodic(buf, x + 1, -1);
    lemma_cell_is_periodic(buf, x, 0);
    lemma_cell_is_periodic(buf, -1, y - 1);
    lemma_cell_is_periodic(buf, -1, y);
    lemma_cell_is_periodic(buf, -1, y + 1);
    lemma_cell_is_periodic(buf, 0, y);
}

/// Neighbour counts repeat with the grid: a whole grid width or height
/// further on, the count is the same.
pub proof fn neighbor_count_is_periodic(buf: Seq<bool>, x: int, y: int)
    ensures
        live_neighbor_count(buf, x + GRID_W, y) == live_neighbor_count(buf, x, y),
        live_neighbor_count(buf, x, y + GRID_H) == live_neighbor_count(buf, x, y),
{
    lemma_cell_is_periodic(buf, x - 1, y - 1);
    lemma_cell_is_periodic(buf, x, y - 1);
    lemma_cell_is_periodic(buf, x + 1, y - 1);
    lemma_cell_is_periodic(buf, x - 1, y);
    lemma_cell_is_periodic(buf, x + 1, y);
    lemma_cell_is_periodic(buf, x - 1, y + 1);
    lemma_cell_is_periodic(buf, x, y + 1);
    lemma_cell_is_periodic(buf, x + 1, y + 1);
}

/// The next generation depends on the cells of the current one and on
/// nothing else: two buffers that hold the same cells have the same next
/// generation, and it is again a buffer of the same length.
pub proof fn next_generation_is_deterministic(a: Seq<bool>, b: Seq<bool>)
    requires
        a.len() == b.len(),
        forall|i: int| 0 <= i < a.len() ==> a[i] == b[i],
    ensures
        next_generation(a) == next_generation(b),
        next_generation(a).len() == a.len(),
{
    assert(a =~= b);
}

/// Contribution of the neighbour in column slot `dx` and row slot `dy` of the
/// three by three block around `(x, y)`; slot `(1, 1)` is the cell itself.
spec fn slot(buf: Seq<bool>, x: int, y: int, dx: int, dy: int) -> int {
    if dx == 1 && dy == 1 {
        0
    } else {
        alive(buf, x + dx - 1, y + dy - 1)
    }
}

/// Live neighbours in the first `n` slots of row slot `dy`.
spec fn row_part(buf: Seq<bool>, x: int, y: int, dy: int, n: int) -> int {
    (if n > 0 { slot(buf, x, y, 0, dy) } else { 0 })
        + (if n > 1 { slot(buf, x, y, 1, dy) } else { 0 })
        + (if n > 2 { slot(buf, x, y, 2, dy) } else { 0 })
}

/// Live neighbours in the first `m` row slots.
spec fn rows_part(buf: Seq<bool>, x: int, y: int, m: int) -> int {
    (if m > 0 { row_part(buf, x, y, 0, 3) } else { 0 })
        + (if m > 1 { row_part(buf, x, y, 1, 3) } else { 0 })
        + (if m > 2 { row_part(buf, x, y, 2, 3) } else { 0 })
}

/// Adding a whole grid width or height before taking the remainder names the
/// same column or row, and keeps the machine arithmetic above zero.
proof fn lemma_shifted_remainder(v: int, d: int)
    requires
        0 <= d < 3,
    ensures
        0 <= v < GRID_W ==> (v + GRID_W + d - 1) % (GRID_W as int) == wrap_x(v + d - 1),
        0 <= v < GRID_H ==> (v + GRID_H + d - 1) % (GRID_H as int) == wrap_y(v + d - 1),
{
    lemma_wrap_is_periodic(v + d - 1);
}

/// One more slot of a row adds that slot's contribution.
proof fn lemma_row_part_grows(buf: Seq<bool>, x: int, y: int, dy: int, n: int)
    requires
        0 <= n < 3,
    ensures
        row_part(buf, x, y, dy, n + 1) == row_part(buf, x, y, dy, n) + slot(buf, x, y, n, dy),
        0 <= row_part(buf, x, y, dy, n) <= n,
{
}

/// One more row adds that row's three slots.
proof fn lemma_rows_part_grows(buf: Seq<bool>, x: int, y: int, m: int)
    requires
        0 <= m < 3,
    ensures
        rows_part(buf, x, y, m + 1) == rows_part(buf, x, y, m) + row_part(buf, x, y, m, 3),
        0 <= rows_part(buf, x, y, m) <= 3 * m,
        rows_part(buf, x, y, 3) == live_neighbor_count(buf, x, y),
{
}

/// Counts the live cells among the eight neighbours of `(x, y)`. The grid
/// wraps around: a cell on an edge has its missing neighbours on the opposite
/// edge.
pub fn live_neighbors(x: usize, y: usize, buf: &[bool]) -> (count: u8)
    requires
        x < GRID_W,
        y < GRID_H,
        is_grid(buf@),
    ensures
        count == live_neighbor_count(buf@, x as int, y as int),
        count <= 8,
{
    let mut count: u8 = 0;
    for dy in 0..3usize
        invariant
            x < GRID_W,
            y < GRID_H,
            is_grid(buf@),
            count == rows_part(buf@, x as int, y as int, dy as int),
    {
        let ny: usize = (y + GRID_H + dy - 1) % GRID_H;
        proof {
            lemma_shifted_remainder(y as int, dy as int);
            lemma_rows_part_grows(buf@, x as int, y as int, dy as int);
        }
        for dx in 0..3usize
            invariant
                x < GRID_W,
                y < GRID_H,
                dy < 3,
                ny == wrap_y(y + dy - 1),
                ny < GRID_H,
                is_grid(buf@),
                0 <= rows_part(buf@, x as int, y as int, dy as int) <= 3 * dy,
                count == rows_part(buf@, x as int, y as int, dy as int) + row_part(
                    buf@,
                    x as int,
                    y as int,
                    dy as int,
                    dx as int,
                ),
        {
            proof {
                lemma_shifted_remainder(x as int, dx as int);
                lemma_row_part_grows(buf@, x as int, y as int, dy as int, dx as int);
            }
            if !(dx == 1 && dy == 1) {
                let nx: usize = (x + GRID_W + dx - 1) % GRID_W;
                assert(nx == wrap_x(x + dx - 1));
                if buf[idx(nx, ny)] {
                    count += 1;
                }
            }
        }
    }
    proof {
        lemma_rows_part_grows(buf@, x as int, y as int, 0);
    }
    count
}

/// Computes the generation after `current` into `next`. Every entry of `next`
/// is overwritten; what it held before plays no part.
pub fn step(current: &[bool], next: &mut [bool])
    requires
        is_grid(current@),
        is_grid(old(next)@),
    ensures
        final(next)@ == next_generation(current@),
        is_grid(final(next)@),
{
    for y in 0..GRID_H
        invariant
            is_grid(current@),
            is_grid(next@),
            forall|i: int|
                0 <= i < y * GRID_W ==> next@[i] == #[trigger] next_generation(current@)[i],
    {
        for x in 0..GRID_W
            invariant
                y < GRID_H,
                is_grid(current@),
                is_grid(next@),
                forall|i: int|
                    0 <= i < y * GRID_W + x ==> next@[i] == #[trigger] next_generation(
                        current@,
                    )[i],
        {
            let is_alive: bool = current[idx(x, y)];
            let n: u8 = live_neighbors(x, y, current);
            next[idx(x, y)] = match (is_alive, n) {
                (true, 2) | (true, 3) => true,
                (true, _) => false,
                (false, 3) => true,
                _ => false,
            };
        }
    }
}

} // verus!
