//! Placing catalog patterns onto the grid, and the default scene.
//!
//! A placement turns cells on and never off. Where two placements reach the
//! same cell, the cell is simply alive: placements merge, in any order.

use vstd::prelude::*;
use crate::grid::{GRID_W, GRID_H, cell_index, empty_grid, idx, is_grid, wrap_x, wrap_y};
use crate::patterns::{
    BEACON, BEEHIVE, BLINKER, BLOCK, BOAT, GLIDER, HWSS, LOAF, LWSS, MWSS, PENTA_DECATHLON, PULSAR,
    TOAD, TUB,
};

verus! {

/// Buffer position that a pattern cell at `offset` reaches when the pattern's
/// origin is put at `(ox, oy)`: the offset is added to the origin and the sum
/// is wrapped onto the torus.
pub open spec fn target(offset: (usize, usize), ox: int, oy: int) -> int {
    cell_index(wrap_x(offset.0 + ox), wrap_y(offset.1 + oy))
}

/// Whether the pattern, with its origin at `(ox, oy)`, reaches the cell
/// stored at position `i`.
pub open spec fn covers(pattern: Seq<(usize, usize)>, ox: int, oy: int, i: int) -> bool {
    exists|k: int| 0 <= k < pattern.len() && #[trigger] target(pattern[k], ox, oy) == i
}

/// The buffer after a placement: a cell is alive if it was alive before or
/// the pattern reaches it.
pub open spec fn placed(buf: Seq<bool>, pattern: Seq<(usize, usize)>, ox: int, oy: int) -> Seq<
    bool,
> {
    Seq::new(buf.len(), |i: int| buf[i] || covers(pattern, ox, oy, i))
}

/// The default scene: every catalog pattern, some of them more than once,
/// placed in this order on the empty grid.
pub open spec fn default_scene() -> Seq<bool> {
    let g = empty_grid();
    let g = placed(g, BLOCK@, 2, 2);
    let g = placed(g, BEEHIVE@, 8, 2);
    let g = placed(g, LOAF@, 14, 2);
    let g = placed(g, BOAT@, 20, 2);
    let g = placed(g, TUB@, 26, 2);
    let g = placed(g, BLINKER@, 10, 30);
    let g = placed(g, BLINKER@, 90, 90);
    let g = placed(g, TOAD@, 20, 30);
    let g = placed(g, TOAD@, 10, 10);
    let g = placed(g, TOAD@, 50, 30);
    let g = placed(g, TOAD@, 50, 60);
    let g = placed(g, BEACON@, 30, 28);
    let g = placed(g, PULSAR@, 50, 5);
    let g = placed(g, PULSAR@, 30, 55);
    let g = placed(g, PENTA_DECATHLON@, 70, 20);
    let g = placed(g, PENTA_DECATHLON@, 90, 0);
    let g = placed(g, GLIDER@, 0, 0);
    let g = placed(g, GLIDER@, 80, 90);
    let g = placed(g, GLIDER@, 2, 60);
    let g = placed(g, LWSS@, 80, 80);
    let g = placed(g, LWSS@, 50, 5);
    let g = placed(g, LWSS@, 80, 5);
    let g = placed(g, LWSS@, 20, 70);
    let g = placed(g, MWSS@, 40, 80);
    let g = placed(g, HWSS@, 60, 60);
    g
}

/// A pattern only reaches cells of the grid.
pub proof fn covered_cells_are_on_the_grid(
    pattern: Seq<(usize, usize)>,
    ox: int,
    oy: int,
    i: int,
)
    requires
        covers(pattern, ox, oy, i),
    ensures
        0 <= i < GRID_W * GRID_H,
{
}

/// A placement only adds: every cell that was alive stays alive, every cell
/// that the pattern reaches is alive, and no other cell changes.
pub proof fn placement_only_adds(
    buf: Seq<bool>,
    pattern: Seq<(usize, usize)>,
    ox: int,
    oy: int,
    i: int,
)
    requires
        is_grid(buf),
        0 <= i < GRID_W * GRID_H,
    ensures
        is_grid(placed(buf, pattern, ox, oy)),
        buf[i] ==> placed(buf, pattern, ox, oy)[i],
        covers(pattern, ox, oy, i) ==> placed(buf, pattern, ox, oy)[i],
        !buf[i] && !covers(pattern, ox, oy, i) ==> !placed(buf, pattern, ox, oy)[i],
{
}

/// Two placements give the same buffer in either order.
pub proof fn placements_commute(
    buf: Seq<bool>,
    first: Seq<(usize, usize)>,
    first_ox: int,
    first_oy: int,
    second: Seq<(usize, usize)>,
    second_ox: int,
    second_oy: int,
)
    ensures
        placed(placed(buf, first, first_ox, first_oy), second, second_ox, second_oy) == placed(
            placed(buf, second, second_ox, second_oy),
            first,
            first_ox,
            first_oy,
        ),
{
    assert(placed(placed(buf, first, first_ox, first_oy), second, second_ox, second_oy) =~= placed(
        placed(buf, second, second_ox, second_oy),
        first,
        first_ox,
        first_oy,
    ));
}

/// Where two placements reach the same cell, that cell is alive afterwards,
/// whichever of the two comes first.
pub proof fn colliding_placements_leave_cell_alive(
    buf: Seq<bool>,
    first: Seq<(usize, usize)>,
    first_ox: int,
    first_oy: int,
    second: Seq<(usize, usize)>,
    second_ox: int,
    second_oy: int,
    i: int,
)
    requires
        is_grid(buf),
        covers(first, first_ox, first_oy, i),
        covers(second, second_ox, second_oy, i),
    ensures
        placed(placed(buf, first, first_ox, first_oy), second, second_ox, second_oy)[i],
        placed(placed(buf, second, second_ox, second_oy), first, first_ox, first_oy)[i],
{
    covered_cells_are_on_the_grid(first, first_ox, first_oy, i);
}

/// Wrapping an offset and an origin before adding them names the same column
/// or row as wrapping their sum.
proof fn lemma_wrap_of_parts(offset: int, origin: int)
    ensures
        wrap_x(wrap_x(offset) + wrap_x(origin)) == wrap_x(offset + origin),
        wrap_y(wrap_y(offset) + wrap_y(origin)) == wrap_y(offset + origin),
        0 <= wrap_x(offset + origin) < GRID_W,
        0 <= wrap_y(offset + origin) < GRID_H,
{
}

/// A pattern cut after its cell `k` reaches what the pattern cut before that
/// cell reaches, and the target of cell `k`.
proof fn lemma_covers_one_more(pattern: Seq<(usize, usize)>, k: int, ox: int, oy: int, i: int)
    requires
        0 <= k < pattern.len(),
    ensures
        covers(pattern.take(k + 1), ox, oy, i) <==> (covers(pattern.take(k), ox, oy, i) || target(
            pattern[k],
            ox,
            oy,
        ) == i),
{
    let shorter = pattern.take(k);
    let longer = pattern.take(k + 1);
    if covers(longer, ox, oy, i) {
        let j = choose|j: int| 0 <= j < longer.len() && #[trigger] target(longer[j], ox, oy) == i;
        if j < k {
            assert(shorter[j] == longer[j]);
            assert(target(shorter[j], ox, oy) == i);
        }
    }
    if covers(shorter, ox, oy, i) {
        let j = choose|j: int| 0 <= j < shorter.len() && #[trigger] target(shorter[j], ox, oy) == i;
        assert(longer[j] == shorter[j]);
        assert(target(longer[j], ox, oy) == i);
    }
    if target(pattern[k], ox, oy) == i {
        assert(longer[k] == pattern[k]);
        assert(target(longer[k], ox, oy) == i);
    }
}

/// Sets alive every cell that `pattern` reaches from the origin `(ox, oy)`.
/// Cells that fall beyond an edge come back in on the opposite edge. No cell
/// is cleared.
pub fn place(buf: &mut [bool], pattern: &[(usize, usize)], ox: usize, oy: usize)
    requires
        is_grid(old(buf)@),
    ensures
        final(buf)@ == placed(old(buf)@, pattern@, ox as int, oy as int),
        is_grid(final(buf)@),
{
    let n: usize = pattern.len();
    assert(buf@ =~= placed(old(buf)@, pattern@.take(0), ox as int, oy as int));
    for k in 0..n
        invariant
            n == pattern@.len(),
            is_grid(buf@),
            is_grid(old(buf)@),
            buf@ == placed(old(buf)@, pattern@.take(k as int), ox as int, oy as int),
    {
        let (x, y) = pattern[k];
        let gx: usize = (x % GRID_W + ox % GRID_W) % GRID_W;
        let gy: usize = (y % GRID_H + oy % GRID_H) % GRID_H;
        proof {
            lemma_wrap_of_parts(x as int, ox as int);
            lemma_wrap_of_parts(y as int, oy as int);
        }
        let at: usize = idx(gx, gy);
        buf[at] = true;
        proof {
            let after = placed(old(buf)@, pattern@.take(k + 1), ox as int, oy as int);
            assert(at == target(pattern@[k as int], ox as int, oy as int));
            assert forall|i: int| 0 <= i < after.len() implies buf@[i] == after[i] by {
                lemma_covers_one_more(pattern@, k as int, ox as int, oy as int, i);
            }
            assert(buf@ =~= after);
        }
    }
    assert(pattern@.take(n as int) =~= pattern@);
}

/// Clears the grid and lays out the default scene.
pub fn load_pattern(buf: &mut [bool])
    requires
        is_grid(old(buf)@),
    ensures
        final(buf)@ == default_scene(),
        is_grid(final(buf)@),
{
    let n: usize = buf.len();
    for i in 0..n
        invariant
            n == buf@.len(),
            is_grid(buf@),
            forall|j: int| 0 <= j < i ==> !buf@[j],
    {
        buf[i] = false;
    }
    assert(buf@ =~= empty_grid());

    place(buf, &BLOCK, 2, 2);
    place(buf, &BEEHIVE, 8, 2);
    place(buf, &LOAF, 14, 2);
    place(buf, &BOAT, 20, 2);
    place(buf, &TUB, 26, 2);

    place(buf, &BLINKER, 10, 30);
    place(buf, &BLINKER, 90, 90);
    place(buf, &TOAD, 20, 30);
    place(buf, &TOAD, 10, 10);
    place(buf, &TOAD, 50, 30);
    place(buf, &TOAD, 50, 60);
    place(buf, &BEACON, 30, 28);
    place(buf, &PULSAR, 50, 5);
    place(buf, &PULSAR, 30, 55);
    place(buf, &PENTA_DECATHLON, 70, 20);
    place(buf, &PENTA_DECATHLON, 90, 0);

    place(buf, &GLIDER, 0, 0);
    place(buf, &GLIDER, 80, 90);
    place(buf, &GLIDER, 2, 60);
    place(buf, &LWSS, 80, 80);
    place(buf, &LWSS, 50, 5);
    place(buf, &LWSS, 80, 5);
    place(buf, &LWSS, 20, 70);
    place(buf, &MWSS, 40, 80);
    place(buf, &HWSS, 60, 60);
}

} // verus!
