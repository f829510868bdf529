//! Drawing a generation onto a pixel surface, one pixel per cell.

use vstd::prelude::*;
use crate::framebuffer::{
    Color, Framebuffer, FramebufferView, lemma_position_in_range, lemma_position_injective,
};
use crate::grid::{GRID_W, GRID_H, cell_index, idx, is_grid};

verus! {

/// Colour of a cell: white for a live cell, black for a dead one.
pub open spec fn cell_color(is_alive: bool) -> Color {
    if is_alive {
        Color::white()
    } else {
        Color::black()
    }
}

/// Colour of the pixel `(x, y)` once `cells` has been drawn onto the surface
/// `before`: the colour of the cell `(x, y)` where the grid has one, the
/// pixel's earlier colour elsewhere.
pub open spec fn drawn_pixel(before: FramebufferView, cells: Seq<bool>, x: int, y: int) -> Color {
    if x < GRID_W && y < GRID_H {
        cell_color(cells[cell_index(x, y)])
    } else {
        before.pixel(x, y)
    }
}

/// Whether the cell `(x, y)` comes before the cell `(column, row)` when the
/// grid is walked row by row.
spec fn walked(x: int, y: int, column: int, row: int) -> bool {
    0 <= x < GRID_W && 0 <= y && (y < row || (y == row && x < column))
}

/// The surface while a drawing is under way, the walk having reached the
/// cell `(column, row)`.
spec fn drawn_so_far(
    before: FramebufferView,
    now: FramebufferView,
    cells: Seq<bool>,
    column: int,
    row: int,
) -> bool {
    &&& now.width == before.width
    &&& now.height == before.height
    &&& now.background_color == before.background_color
    &&& now.pixels.len() == before.pixels.len()
    &&& forall|x: int, y: int|
        #![trigger now.pixel(x, y)]
        #![trigger before.contains(x, y)]
        before.contains(x, y) ==> now.pixel(x, y) == if walked(x, y, column, row) {
            cell_color(cells[cell_index(x, y)])
        } else {
            before.pixel(x, y)
        }
}

/// Painting the cell that the walk has reached moves the walk one cell on.
proof fn lemma_walk_on(
    before: FramebufferView,
    now: FramebufferView,
    cells: Seq<bool>,
    column: int,
    row: int,
)
    requires
        0 <= column < GRID_W,
        0 <= row < GRID_H,
        before.pixels.len() == before.width * before.height,
        drawn_so_far(before, now, cells, column, row),
    ensures
        drawn_so_far(
            before,
            now.painted(column, row, cell_color(cells[cell_index(column, row)])),
            cells,
            column + 1,
            row,
        ),
{
    let color = cell_color(cells[cell_index(column, row)]);
    let next = now.painted(column, row, color);
    if now.contains(column, row) {
        lemma_position_in_range(column, row, now.width as int, now.height as int);
    }
    assert forall|x: int, y: int|
        #![trigger next.pixel(x, y)]
        #![trigger before.contains(x, y)]
        before.contains(x, y) implies next.pixel(x, y) == if walked(x, y, column + 1, row) {
        cell_color(cells[cell_index(x, y)])
    } else {
        before.pixel(x, y)
    } by {
        lemma_position_in_range(x, y, now.width as int, now.height as int);
        if now.contains(column, row) {
            lemma_position_in_range(column, row, now.width as int, now.height as int);
            if now.position(x, y) == now.position(column, row) {
                lemma_position_injective(x, y, column, row, now.width as int);
            }
        }
    }
}

/// Draws the generation `cells` onto `fb`: the pixel `(x, y)` becomes white
/// where the cell `(x, y)` is alive and black where it is dead. Cells that
/// the surface has no pixel for are skipped, and pixels beyond the grid keep
/// their colour. The surface is left drawing in the colour of the last cell.
pub fn draw_grid(fb: &mut Framebuffer, cells: &[bool])
    requires
        old(fb).wf(),
        is_grid(cells@),
    ensures
        final(fb).wf(),
        final(fb)@.width == old(fb)@.width,
        final(fb)@.height == old(fb)@.height,
        final(fb)@.background_color == old(fb)@.background_color,
        final(fb)@.current_color == cell_color(cells@[GRID_W * GRID_H - 1]),
        final(fb)@.pixels.len() == old(fb)@.pixels.len(),
        forall|x: int, y: int|
            old(fb)@.contains(x, y) ==> #[trigger] final(fb)@.pixel(x, y) == drawn_pixel(
                old(fb)@,
                cells@,
                x,
                y,
            ),
{
    fb.set_current_color(Color::black());
    for y in 0..GRID_H
        invariant
            is_grid(cells@),
            old(fb).wf(),
            drawn_so_far(old(fb)@, fb@, cells@, 0, y as int),
            y > 0 ==> fb@.current_color == cell_color(cells@[cell_index(GRID_W - 1, y - 1)]),
    {
        for x in 0..GRID_W
            invariant
                y < GRID_H,
                is_grid(cells@),
                old(fb).wf(),
                drawn_so_far(old(fb)@, fb@, cells@, x as int, y as int),
                x > 0 ==> fb@.current_color == cell_color(cells@[cell_index(x - 1, y as int)]),
        {
            let is_alive: bool = cells[idx(x, y)];
            if is_alive {
                fb.set_current_color(Color::white());
            } else {
                fb.set_current_color(Color::black());
            }
            proof {
                lemma_walk_on(old(fb)@, fb@, cells@, x as int, y as int);
            }
            fb.point(x as i32, y as i32);
        }
        assert(drawn_so_far(old(fb)@, fb@, cells@, 0, y + 1)) by {
            assert forall|px: int, py: int|
                walked(px, py, GRID_W as int, y as int) == walked(px, py, 0, y + 1) by {}
        }
    }
}

} // verus!
