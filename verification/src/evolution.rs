//! How patterns evolve: repeated generations, and the behaviour that gives
//! the classic patterns of the catalog their names, for every place on the
//! grid that a pattern may be put.

use vstd::prelude::*;
use crate::engine::{alive, live_neighbor_count, lives_on, next_generation};
use crate::grid::{
    GRID_W, GRID_H, cell, cell_index, column_of, empty_grid, lemma_offset_from_origin,
    lemma_wrap_in_range, lemma_wrap_of_sum, row_of, wrap_x, wrap_y,
};
use crate::placement::{covers, placed, target};

verus! {

/// The grid `n` generations after `start`.
pub open spec fn generations(start: Seq<bool>, n: nat) -> Seq<bool>
    decreases n,
{
    if n == 0 {
        start
    } else {
        next_generation(generations(start, (n - 1) as nat))
    }
}

/// The grid that holds `pattern` alone, its origin at `(ox, oy)`.
pub open spec fn alone(pattern: Seq<(usize, usize)>, ox: int, oy: int) -> Seq<bool> {
    placed(empty_grid(), pattern, ox, oy)
}

/// Whether `pattern` lists the offset `(u, v)`.
pub open spec fn lists(pattern: Seq<(usize, usize)>, u: int, v: int) -> bool {
    exists|k: int| 0 <= k < pattern.len() && (#[trigger] pattern[k]).0 == u && pattern[k].1 == v
}

/// Whether every offset of `pattern` lies inside the grid.
pub open spec fn fits(pattern: Seq<(usize, usize)>) -> bool {
    forall|k: int|
        0 <= k < pattern.len() ==> (#[trigger] pattern[k]).0 < GRID_W && pattern[k].1 < GRID_H
}

/// `1` if `pattern` lists the offset that `(u, v)` names on the torus.
pub open spec fn listed(pattern: Seq<(usize, usize)>, u: int, v: int) -> int {
    if lists(pattern, wrap_x(u), wrap_y(v)) {
        1
    } else {
        0
    }
}

/// Number of offsets that `pattern` lists among the eight around `(u, v)`.
pub open spec fn listed_around(pattern: Seq<(usize, usize)>, u: int, v: int) -> int {
    listed(pattern, u - 1, v - 1) + listed(pattern, u, v - 1) + listed(pattern, u + 1, v - 1)
        + listed(pattern, u - 1, v) + listed(pattern, u + 1, v) + listed(pattern, u - 1, v + 1)
        + listed(pattern, u, v + 1) + listed(pattern, u + 1, v + 1)
}

/// Whether `after` is what `before` becomes in one generation, both read as
/// patterns on the torus with the same origin.
pub open spec fn evolves(before: Seq<(usize, usize)>, after: Seq<(usize, usize)>) -> bool {
    forall|u: int, v: int|
        0 <= u < GRID_W && 0 <= v < GRID_H ==> #[trigger] lists(after, u, v) == lives_on(
            lists(before, u, v),
            listed_around(before, u, v),
        )
}

/// A pattern placed alone holds the cell `(x, y)` exactly if it lists the
/// offset of `(x, y)` from its origin.
proof fn lemma_cell_of_alone(pattern: Seq<(usize, usize)>, ox: int, oy: int, x: int, y: int)
    requires
        fits(pattern),
    ensures
        cell(alone(pattern, ox, oy), x, y) == lists(pattern, wrap_x(x - ox), wrap_y(y - oy)),
{
    let g = alone(pattern, ox, oy);
    let u = wrap_x(x - ox);
    let v = wrap_y(y - oy);
    let i = cell_index(wrap_x(x), wrap_y(y));
    lemma_wrap_in_range(x);
    lemma_wrap_in_range(y);
    assert(0 <= i < GRID_W * GRID_H);
    assert(g[i] == covers(pattern, ox, oy, i));
    if covers(pattern, ox, oy, i) {
        let k = choose|k: int| 0 <= k < pattern.len() && #[trigger] target(pattern[k], ox, oy) == i;
        lemma_wrap_in_range(pattern[k].0 + ox);
        lemma_wrap_in_range(pattern[k].1 + oy);
        lemma_offset_from_origin(pattern[k].0 as int, ox, x);
        lemma_offset_from_origin(pattern[k].1 as int, oy, y);
        assert(pattern[k].0 == u && pattern[k].1 == v);
    }
    if lists(pattern, u, v) {
        let k = choose|k: int|
            0 <= k < pattern.len() && (#[trigger] pattern[k]).0 == u && pattern[k].1 == v;
        lemma_offset_from_origin(pattern[k].0 as int, ox, x);
        lemma_offset_from_origin(pattern[k].1 as int, oy, y);
        assert(target(pattern[k], ox, oy) == i);
    }
}

/// Around a cell, a pattern placed alone has as many live neighbours as it
/// lists offsets around the offset of that cell.
proof fn lemma_count_of_alone(pattern: Seq<(usize, usize)>, ox: int, oy: int, x: int, y: int)
    requires
        fits(pattern),
    ensures
        live_neighbor_count(alone(pattern, ox, oy), x, y) == listed_around(
            pattern,
            wrap_x(x - ox),
            wrap_y(y - oy),
        ),
{
    let g = alone(pattern, ox, oy);
    let u = wrap_x(x - ox);
    let v = wrap_y(y - oy);
    assert forall|a: int, b: int| -1 <= a <= 1 && -1 <= b <= 1 implies #[trigger] alive(
        g,
        x + a,
        y + b,
    ) == listed(pattern, u + a, v + b) by {
        lemma_cell_of_alone(pattern, ox, oy, x + a, y + b);
        lemma_wrap_of_sum(x - ox, a);
        lemma_wrap_of_sum(y - oy, b);
    }
    assert(alive(g, x + (-1), y + (-1)) == listed(pattern, u + (-1), v + (-1)));
    assert(alive(g, x + 0, y + (-1)) == listed(pattern, u + 0, v + (-1)));
    assert(alive(g, x + 1, y + (-1)) == listed(pattern, u + 1, v + (-1)));
    assert(alive(g, x + (-1), y + 0) == listed(pattern, u + (-1), v + 0));
    assert(alive(g, x + 1, y + 0) == listed(pattern, u + 1, v + 0));
    assert(alive(g, x + (-1), y + 1) == listed(pattern, u + (-1), v + 1));
    assert(alive(g, x + 0, y + 1) == listed(pattern, u + 0, v + 1));
    assert(alive(g, x + 1, y + 1) == listed(pattern, u + 1, v + 1));
}

/// A buffer position holds the cell in its column and row.
proof fn lemma_cell_at_position(buf: Seq<bool>, i: int)
    requires
        0 <= i < GRID_W * GRID_H,
    ensures
        buf[i] == cell(buf, column_of(i), row_of(i)),
        0 <= column_of(i) < GRID_W,
        0 <= row_of(i) < GRID_H,
{
}

/// If one pattern evolves into another, then wherever the first is placed
/// alone on the grid, the next generation is the second placed alone at the
/// same origin.
pub proof fn evolution_holds_at_every_origin(
    before: Seq<(usize, usize)>,
    after: Seq<(usize, usize)>,
    ox: int,
    oy: int,
)
    requires
        fits(before),
        fits(after),
        evolves(before, after),
    ensures
        next_generation(alone(before, ox, oy)) == alone(after, ox, oy),
{
    let g = alone(before, ox, oy);
    let h = alone(after, ox, oy);
    assert forall|i: int| 0 <= i < g.len() implies next_generation(g)[i] == h[i] by {
        let x = column_of(i);
        let y = row_of(i);
        let u = wrap_x(x - ox);
        let v = wrap_y(y - oy);
        lemma_cell_at_position(g, i);
        lemma_cell_at_position(h, i);
        lemma_wrap_in_range(x - ox);
        lemma_wrap_in_range(y - oy);
        lemma_cell_of_alone(before, ox, oy, x, y);
        lemma_cell_of_alone(after, ox, oy, x, y);
        lemma_count_of_alone(before, ox, oy, x, y);
        assert(lists(after, u, v) == lives_on(lists(before, u, v), listed_around(before, u, v)));
        assert(next_generation(g)[i] == lives_on(g[i], live_neighbor_count(g, x, y)));
    }
    assert(next_generation(g) =~= h);
}

/// Whether `moved` lists the offsets of `pattern`, each moved by `(dx, dy)`
/// on the torus.
pub open spec fn moved_by(
    pattern: Seq<(usize, usize)>,
    moved: Seq<(usize, usize)>,
    dx: int,
    dy: int,
) -> bool {
    forall|u: int, v: int|
        0 <= u < GRID_W && 0 <= v < GRID_H ==> #[trigger] lists(moved, u, v) == lists(
            pattern,
            wrap_x(u - dx),
            wrap_y(v - dy),
        )
}

/// A pattern whose offsets are moved is the pattern placed at a moved origin.
pub proof fn moved_pattern_is_moved_origin(
    pattern: Seq<(usize, usize)>,
    moved: Seq<(usize, usize)>,
    dx: int,
    dy: int,
    ox: int,
    oy: int,
)
    requires
        fits(pattern),
        fits(moved),
        moved_by(pattern, moved, dx, dy),
    ensures
        alone(moved, ox, oy) == alone(pattern, ox + dx, oy + dy),
{
    let g = alone(moved, ox, oy);
    let h = alone(pattern, ox + dx, oy + dy);
    assert forall|i: int| 0 <= i < g.len() implies g[i] == h[i] by {
        let x = column_of(i);
        let y = row_of(i);
        lemma_cell_at_position(g, i);
        lemma_cell_at_position(h, i);
        lemma_wrap_in_range(x - ox);
        lemma_wrap_in_range(y - oy);
        lemma_cell_of_alone(moved, ox, oy, x, y);
        lemma_cell_of_alone(pattern, ox + dx, oy + dy, x, y);
        lemma_wrap_of_sum(x - ox, -dx);
        lemma_wrap_of_sum(y - oy, -dy);
        assert(lists(moved, wrap_x(x - ox), wrap_y(y - oy)) == lists(
            pattern,
            wrap_x(wrap_x(x - ox) - dx),
            wrap_y(wrap_y(y - oy) - dy),
        ));
    }
    assert(g =~= h);
}

/// Two patterns that do not list the same offsets give different grids,
/// wherever they are placed.
pub proof fn different_patterns_are_different_grids(
    first: Seq<(usize, usize)>,
    second: Seq<(usize, usize)>,
    u: int,
    v: int,
    ox: int,
    oy: int,
)
    requires
        fits(first),
        fits(second),
        0 <= u < GRID_W,
        0 <= v < GRID_H,
        lists(first, u, v) != lists(second, u, v),
    ensures
        alone(first, ox, oy) != alone(second, ox, oy),
{
    lemma_cell_of_alone(first, ox, oy, ox + u, oy + v);
    lemma_cell_of_alone(second, ox, oy, ox + u, oy + v);
    let here = cell(alone(first, ox, oy), ox + u, oy + v);
    let there = cell(alone(second, ox, oy), ox + u, oy + v);
    assert(here != there);
}

} // verus!
