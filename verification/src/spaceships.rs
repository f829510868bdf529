//! Spaceships: patterns that come back to their shape some cells further on.

use vstd::prelude::*;
use crate::engine::next_generation;
use crate::evolution::{
    alone, evolution_holds_at_every_origin, evolves, fits, generations, lists, moved_by,
    moved_pattern_is_moved_origin,
};
use crate::patterns::{GLIDER, HWSS, LWSS, MWSS};

verus! {

/// The glider one generation on.
///
/// ```text
/// ...
/// O.O
/// .OO
/// .O.
/// ```
spec fn glider_1() -> Seq<(usize, usize)> {
    seq![(0, 1), (2, 1), (1, 2), (2, 2), (1, 3)]
}

/// The glider two generations on.
///
/// ```text
/// ...
/// ..O
/// O.O
/// .OO
/// ```
spec fn glider_2() -> Seq<(usize, usize)> {
    seq![(2, 1), (0, 2), (2, 2), (1, 3), (2, 3)]
}

/// The glider three generations on.
///
/// ```text
/// ....
/// .O..
/// ..OO
/// .OO.
/// ```
spec fn glider_3() -> Seq<(usize, usize)> {
    seq![(1, 1), (2, 2), (3, 2), (1, 3), (2, 3)]
}

/// The glider four generations on: its first shape, one cell to the right and
/// one cell down.
///
/// ```text
/// ....
/// ..O.
/// ...O
/// .OOO
/// ```
spec fn glider_4() -> Seq<(usize, usize)> {
    seq![(2, 1), (3, 2), (1, 3), (2, 3), (3, 3)]
}

/// The offsets that the glider lists.
proof fn lemma_glider_offsets()
    ensures
        fits(GLIDER@),
        forall|u: int, v: int|
            #[trigger] lists(GLIDER@, u, v) <==> (
                v == 0 && u == 1
                || v == 1 && u == 2
                || v == 2 && 0 <= u <= 2
            ),
{
    let p = GLIDER@;
    assert(p[0] == (1usize, 0usize));
    assert(p[1] == (2usize, 1usize));
    assert(p[2] == (0usize, 2usize));
    assert(p[3] == (1usize, 2usize));
    assert(p[4] == (2usize, 2usize));
}

/// The offsets that the glider, one generation on, lists.
proof fn lemma_glider_1_offsets()
    ensures
        fits(glider_1()),
        forall|u: int, v: int|
            #[trigger] lists(glider_1(), u, v) <==> (
                v == 1 && (u == 0 || u == 2)
                || v == 2 && 1 <= u <= 2
                || v == 3 && u == 1
            ),
{
    let p = glider_1();
    assert(p[0] == (0usize, 1usize));
    assert(p[1] == (2usize, 1usize));
    assert(p[2] == (1usize, 2usize));
    assert(p[3] == (2usize, 2usize));
    assert(p[4] == (1usize, 3usize));
}

/// The offsets that the glider, two generations on, lists.
proof fn lemma_glider_2_offsets()
    ensures
        fits(glider_2()),
        forall|u: int, v: int|
            #[trigger] lists(glider_2(), u, v) <==> (
                v == 1 && u == 2
                || v == 2 && (u == 0 || u == 2)
                || v == 3 && 1 <= u <= 2
            ),
{
    let p = glider_2();
    assert(p[0] == (2usize, 1usize));
    assert(p[1] == (0usize, 2usize));
    assert(p[2] == (2usize, 2usize));
    assert(p[3] == (1usize, 3usize));
    assert(p[4] == (2usize, 3usize));
}

/// The offsets that the glider, three generations on, lists.
proof fn lemma_glider_3_offsets()
    ensures
        fits(glider_3()),
        forall|u: int, v: int|
            #[trigger] lists(glider_3(), u, v) <==> (
                v == 1 && u == 1
                || v == 2 && 2 <= u <= 3
                || v == 3 && 1 <= u <= 2
            ),
{
    let p = glider_3();
    assert(p[0] == (1usize, 1usize));
    assert(p[1] == (2usize, 2usize));
    assert(p[2] == (3usize, 2usize));
    assert(p[3] == (1usize, 3usize));
    assert(p[4] == (2usize, 3usize));
}

/// The offsets that the glider, four generations on, lists.
proof fn lemma_glider_4_offsets()
    ensures
        fits(glider_4()),
        forall|u: int, v: int|
            #[trigger] lists(glider_4(), u, v) <==> (
                v == 1 && u == 2
                || v == 2 && u == 3
                || v == 3 && 1 <= u <= 3
            ),
{
    let p = glider_4();
    assert(p[0] == (2usize, 1usize));
    assert(p[1] == (3usize, 2usize));
    assert(p[2] == (1usize, 3usize));
    assert(p[3] == (2usize, 3usize));
    assert(p[4] == (3usize, 3usize));
}

/// The first generation of the glider.
proof fn lemma_glider_generation_1()
    ensures
        fits(GLIDER@),
        fits(glider_1()),
        evolves(GLIDER@, glider_1()),
{
    lemma_glider_offsets();
    lemma_glider_1_offsets();
}

/// The second generation of the glider.
proof fn lemma_glider_generation_2()
    ensures
        fits(glider_1()),
        fits(glider_2()),
        evolves(glider_1(), glider_2()),
{
    lemma_glider_1_offsets();
    lemma_glider_2_offsets();
}

/// The third generation of the glider.
proof fn lemma_glider_generation_3()
    ensures
        fits(glider_2()),
        fits(glider_3()),
        evolves(glider_2(), glider_3()),
{
    lemma_glider_2_offsets();
    lemma_glider_3_offsets();
}

/// The fourth generation of the glider.
proof fn lemma_glider_generation_4()
    ensures
        fits(glider_3()),
        fits(glider_4()),
        evolves(glider_3(), glider_4()),
        moved_by(GLIDER@, glider_4(), 1, 1),
{
    lemma_glider_3_offsets();
    lemma_glider_4_offsets();
    lemma_glider_offsets();
}

/// What the glider, placed alone, has become after each generation of one
/// round.
proof fn lemma_glider_generations(ox: int, oy: int)
    ensures
        generations(alone(GLIDER@, ox, oy), 1) == alone(glider_1(), ox, oy),
        generations(alone(GLIDER@, ox, oy), 2) == alone(glider_2(), ox, oy),
        generations(alone(GLIDER@, ox, oy), 3) == alone(glider_3(), ox, oy),
        generations(alone(GLIDER@, ox, oy), 4) == alone(glider_4(), ox, oy),
{
    let start = alone(GLIDER@, ox, oy);
    lemma_glider_generation_1();
    evolution_holds_at_every_origin(GLIDER@, glider_1(), ox, oy);
    assert(generations(start, 1) == next_generation(generations(start, 0)));
    lemma_glider_generation_2();
    evolution_holds_at_every_origin(glider_1(), glider_2(), ox, oy);
    assert(generations(start, 2) == next_generation(generations(start, 1)));
    lemma_glider_generation_3();
    evolution_holds_at_every_origin(glider_2(), glider_3(), ox, oy);
    assert(generations(start, 3) == next_generation(generations(start, 2)));
    lemma_glider_generation_4();
    evolution_holds_at_every_origin(glider_3(), glider_4(), ox, oy);
    assert(generations(start, 4) == next_generation(generations(start, 3)));
}

/// The glider placed alone anywhere on the grid is, four generations later,
/// the same shape one cell to the right and one cell down, and nothing else is
/// alive. Near an edge it goes over the edge and comes back in on the opposite
/// side.
pub proof fn glider_moves_down_and_right(ox: int, oy: int)
    ensures
        generations(alone(GLIDER@, ox, oy), 4) == alone(GLIDER@, ox + 1, oy + 1),
{
    lemma_glider_generations(ox, oy);
    moved_pattern_is_moved_origin(GLIDER@, glider_4(), 1, 1, ox, oy);
}

/// The lightweight spaceship one generation on.
///
/// ```text
/// .....
/// .OO..
/// OO.OO
/// .OOOO
/// ..OO.
/// ```
///
/// The picture starts one column left of the origin, where the offsets count
/// down from `99`.
spec fn lwss_1() -> Seq<(usize, usize)> {
    seq![
        (0, 1), (1, 1), (99, 2), (0, 2), (2, 2), (3, 2), (0, 3), (1, 3), (2, 3), (3, 3), (1, 4),
        (2, 4),
    ]
}

/// The lightweight spaceship two generations on.
///
/// ```text
/// .....
/// OOOO.
/// O...O
/// O....
/// .O..O
/// ```
///
/// The picture starts one column left of the origin, where the offsets count
/// down from `99`.
spec fn lwss_2() -> Seq<(usize, usize)> {
    seq![(99, 1), (0, 1), (1, 1), (2, 1), (99, 2), (3, 2), (99, 3), (0, 4), (3, 4)]
}

/// The lightweight spaceship three generations on.
///
/// ```text
/// ..OO.
/// .OOOO
/// OO.OO
/// .OO..
/// ```
///
/// The picture starts two columns left of the origin, where the offsets count
/// down from `99`.
spec fn lwss_3() -> Seq<(usize, usize)> {
    seq![
        (0, 0), (1, 0), (99, 1), (0, 1), (1, 1), (2, 1), (98, 2), (99, 2), (1, 2), (2, 2), (99, 3),
        (0, 3),
    ]
}

/// The lightweight spaceship four generations on: its first shape, two cells
/// to the left.
///
/// ```text
/// .O..O
/// O....
/// O...O
/// OOOO.
/// ```
///
/// The picture starts two columns left of the origin, where the offsets count
/// down from `99`.
spec fn lwss_4() -> Seq<(usize, usize)> {
    seq![(99, 0), (2, 0), (98, 1), (98, 2), (2, 2), (98, 3), (99, 3), (0, 3), (1, 3)]
}

/// The offsets that the lightweight spaceship lists.
proof fn lemma_lwss_offsets()
    ensures
        fits(LWSS@),
        forall|u: int, v: int|
            #[trigger] lists(LWSS@, u, v) <==> (
                v == 0 && (u == 1 || u == 4)
                || v == 1 && u == 0
                || v == 2 && (u == 0 || u == 4)
                || v == 3 && 0 <= u <= 3
            ),
{
    let p = LWSS@;
    assert(p[0] == (1usize, 0usize));
    assert(p[1] == (4usize, 0usize));
    assert(p[2] == (0usize, 1usize));
    assert(p[3] == (0usize, 2usize));
    assert(p[4] == (4usize, 2usize));
    assert(p[5] == (0usize, 3usize));
    assert(p[6] == (1usize, 3usize));
    assert(p[7] == (2usize, 3usize));
    assert(p[8] == (3usize, 3usize));
}

/// The offsets that the lightweight spaceship, one generation on, lists.
proof fn lemma_lwss_1_offsets()
    ensures
        fits(lwss_1()),
        forall|u: int, v: int|
            #[trigger] lists(lwss_1(), u, v) <==> (
                v == 1 && 0 <= u <= 1
                || v == 2 && (u == 0 || 2 <= u <= 3 || u == 99)
                || v == 3 && 0 <= u <= 3
                || v == 4 && 1 <= u <= 2
            ),
{
    let p = lwss_1();
    assert(p[0] == (0usize, 1usize));
    assert(p[1] == (1usize, 1usize));
    assert(p[2] == (99usize, 2usize));
    assert(p[3] == (0usize, 2usize));
    assert(p[4] == (2usize, 2usize));
    assert(p[5] == (3usize, 2usize));
    assert(p[6] == (0usize, 3usize));
    assert(p[7] == (1usize, 3usize));
    assert(p[8] == (2usize, 3usize));
    assert(p[9] == (3usize, 3usize));
    assert(p[10] == (1usize, 4usize));
    assert(p[11] == (2usize, 4usize));
}

/// The offsets that the lightweight spaceship, two generations on, lists.
proof fn lemma_lwss_2_offsets()
    ensures
        fits(lwss_2()),
        forall|u: int, v: int|
            #[trigger] lists(lwss_2(), u, v) <==> (
                v == 1 && (0 <= u <= 2 || u == 99)
                || v == 2 && (u == 3 || u == 99)
                || v == 3 && u == 99
                || v == 4 && (u == 0 || u == 3)
            ),
{
    let p = lwss_2();
    assert(p[0] == (99usize, 1usize));
    assert(p[1] == (0usize, 1usize));
    assert(p[2] == (1usize, 1usize));
    assert(p[3] == (2usize, 1usize));
    assert(p[4] == (99usize, 2usize));
    assert(p[5] == (3usize, 2usize));
    assert(p[6] == (99usize, 3usize));
    assert(p[7] == (0usize, 4usize));
    assert(p[8] == (3usize, 4usize));
}

/// The offsets that the lightweight spaceship, three generations on, lists.
proof fn lemma_lwss_3_offsets()
    ensures
        fits(lwss_3()),
        forall|u: int, v: int|
            #[trigger] lists(lwss_3(), u, v) <==> (
                v == 0 && 0 <= u <= 1
                || v == 1 && (0 <= u <= 2 || u == 99)
                || v == 2 && (1 <= u <= 2 || 98 <= u <= 99)
                || v == 3 && (u == 0 || u == 99)
            ),
{
    let p = lwss_3();
    assert(p[0] == (0usize, 0usize));
    assert(p[1] == (1usize, 0usize));
    assert(p[2] == (99usize, 1usize));
    assert(p[3] == (0usize, 1usize));
    assert(p[4] == (1usize, 1usize));
    assert(p[5] == (2usize, 1usize));
    assert(p[6] == (98usize, 2usize));
    assert(p[7] == (99usize, 2usize));
    assert(p[8] == (1usize, 2usize));
    assert(p[9] == (2usize, 2usize));
    assert(p[10] == (99usize, 3usize));
    assert(p[11] == (0usize, 3usize));
}

/// The offsets that the lightweight spaceship, four generations on, lists.
proof fn lemma_lwss_4_offsets()
    ensures
        fits(lwss_4()),
        forall|u: int, v: int|
            #[trigger] lists(lwss_4(), u, v) <==> (
                v == 0 && (u == 2 || u == 99)
                || v == 1 && u == 98
                || v == 2 && (u == 2 || u == 98)
                || v == 3 && (0 <= u <= 1 || 98 <= u <= 99)
            ),
{
    let p = lwss_4();
    assert(p[0] == (99usize, 0usize));
    assert(p[1] == (2usize, 0usize));
    assert(p[2] == (98usize, 1usize));
    assert(p[3] == (98usize, 2usize));
    assert(p[4] == (2usize, 2usize));
    assert(p[5] == (98usize, 3usize));
    assert(p[6] == (99usize, 3usize));
    assert(p[7] == (0usize, 3usize));
    assert(p[8] == (1usize, 3usize));
}

/// The first generation of the lightweight spaceship.
proof fn lemma_lwss_generation_1()
    ensures
        fits(LWSS@),
        fits(lwss_1()),
        evolves(LWSS@, lwss_1()),
{
    lemma_lwss_offsets();
    lemma_lwss_1_offsets();
}

/// The second generation of the lightweight spaceship.
proof fn lemma_lwss_generation_2()
    ensures
        fits(lwss_1()),
        fits(lwss_2()),
        evolves(lwss_1(), lwss_2()),
{
    lemma_lwss_1_offsets();
    lemma_lwss_2_offsets();
}

/// The third generation of the lightweight spaceship.
proof fn lemma_lwss_generation_3()
    ensures
        fits(lwss_2()),
        fits(lwss_3()),
        evolves(lwss_2(), lwss_3()),
{
    lemma_lwss_2_offsets();
    lemma_lwss_3_offsets();
}

/// The fourth generation of the lightweight spaceship.
proof fn lemma_lwss_generation_4()
    ensures
        fits(lwss_3()),
        fits(lwss_4()),
        evolves(lwss_3(), lwss_4()),
        moved_by(LWSS@, lwss_4(), -2, 0),
{
    lemma_lwss_3_offsets();
    lemma_lwss_4_offsets();
    lemma_lwss_offsets();
}

/// What the lightweight spaceship, placed alone, has become after each
/// generation of one round.
proof fn lemma_lwss_generations(ox: int, oy: int)
    ensures
        generations(alone(LWSS@, ox, oy), 1) == alone(lwss_1(), ox, oy),
        generations(alone(LWSS@, ox, oy), 2) == alone(lwss_2(), ox, oy),
        generations(alone(LWSS@, ox, oy), 3) == alone(lwss_3(), ox, oy),
        generations(alone(LWSS@, ox, oy), 4) == alone(lwss_4(), ox, oy),
{
    let start = alone(LWSS@, ox, oy);
    lemma_lwss_generation_1();
    evolution_holds_at_every_origin(LWSS@, lwss_1(), ox, oy);
    assert(generations(start, 1) == next_generation(generations(start, 0)));
    lemma_lwss_generation_2();
    evolution_holds_at_every_origin(lwss_1(), lwss_2(), ox, oy);
    assert(generations(start, 2) == next_generation(generations(start, 1)));
    lemma_lwss_generation_3();
    evolution_holds_at_every_origin(lwss_2(), lwss_3(), ox, oy);
    assert(generations(start, 3) == next_generation(generations(start, 2)));
    lemma_lwss_generation_4();
    evolution_holds_at_every_origin(lwss_3(), lwss_4(), ox, oy);
    assert(generations(start, 4) == next_generation(generations(start, 3)));
}

/// The lightweight spaceship placed alone anywhere on the grid is, four
/// generations later, the same shape two cells to the left, and nothing else
/// is alive. Near an edge it goes over the edge and comes back in on the
/// opposite side.
pub proof fn lwss_moves_left(ox: int, oy: int)
    ensures
        generations(alone(LWSS@, ox, oy), 4) == alone(LWSS@, ox - 2, oy),
{
    lemma_lwss_generations(ox, oy);
    moved_pattern_is_moved_origin(LWSS@, lwss_4(), -2, 0, ox, oy);
}

/// The middleweight spaceship one generation on.
///
/// ```text
/// ......
/// ......
/// .OO...
/// OO.OOO
/// .OOOOO
/// ..OOO.
/// ```
///
/// The picture starts one column left of the origin, where the offsets count
/// down from `99`.
spec fn mwss_1() -> Seq<(usize, usize)> {
    seq![
        (0, 2), (1, 2), (99, 3), (0, 3), (2, 3), (3, 3), (4, 3), (0, 4), (1, 4), (2, 4), (3, 4),
        (4, 4), (1, 5), (2, 5), (3, 5),
    ]
}

/// The middleweight spaceship two generations on.
///
/// ```text
/// ......
/// ......
/// OOOOO.
/// O....O
/// O.....
/// .O...O
/// ...O..
/// ```
///
/// The picture starts one column left of the origin, where the offsets count
/// down from `99`.
spec fn mwss_2() -> Seq<(usize, usize)> {
    seq![(99, 2), (0, 2), (1, 2), (2, 2), (3, 2), (99, 3), (4, 3), (99, 4), (0, 5), (4, 5), (2, 6)]
}

/// The middleweight spaceship three generations on.
///
/// ```text
/// ......
/// ..OOO.
/// .OOOOO
/// OO.OOO
/// .OO...
/// ```
///
/// The picture starts two columns left of the origin, where the offsets count
/// down from `99`.
spec fn mwss_3() -> Seq<(usize, usize)> {
    seq![
        (0, 1), (1, 1), (2, 1), (99, 2), (0, 2), (1, 2), (2, 2), (3, 2), (98, 3), (99, 3), (1, 3),
        (2, 3), (3, 3), (99, 4), (0, 4),
    ]
}

/// The middleweight spaceship four generations on: its first shape, two cells
/// to the left.
///
/// ```text
/// ...O..
/// .O...O
/// O.....
/// O....O
/// OOOOO.
/// ```
///
/// The picture starts two columns left of the origin, where the offsets count
/// down from `99`.
spec fn mwss_4() -> Seq<(usize, usize)> {
    seq![
        (1, 0), (99, 1), (3, 1), (98, 2), (98, 3), (3, 3), (98, 4), (99, 4), (0, 4), (1, 4), (2, 4),
    ]
}

/// The offsets that the middleweight spaceship lists.
proof fn lemma_mwss_offsets()
    ensures
        fits(MWSS@),
        forall|u: int, v: int|
            #[trigger] lists(MWSS@, u, v) <==> (
                v == 0 && u == 3
                || v == 1 && (u == 1 || u == 5)
                || v == 2 && u == 0
                || v == 3 && (u == 0 || u == 5)
                || v == 4 && 0 <= u <= 4
            ),
{
    let p = MWSS@;
    assert(p[0] == (3usize, 0usize));
    assert(p[1] == (1usize, 1usize));
    assert(p[2] == (5usize, 1usize));
    assert(p[3] == (0usize, 2usize));
    assert(p[4] == (0usize, 3usize));
    assert(p[5] == (5usize, 3usize));
    assert(p[6] == (0usize, 4usize));
    assert(p[7] == (1usize, 4usize));
    assert(p[8] == (2usize, 4usize));
    assert(p[9] == (3usize, 4usize));
    assert(p[10] == (4usize, 4usize));
}

/// The offsets that the middleweight spaceship, one generation on, lists.
proof fn lemma_mwss_1_offsets()
    ensures
        fits(mwss_1()),
        forall|u: int, v: int|
            #[trigger] lists(mwss_1(), u, v) <==> (
                v == 2 && 0 <= u <= 1
                || v == 3 && (u == 0 || 2 <= u <= 4 || u == 99)
                || v == 4 && 0 <= u <= 4
                || v == 5 && 1 <= u <= 3
            ),
{
    let p = mwss_1();
    assert(p[0] == (0usize, 2usize));
    assert(p[1] == (1usize, 2usize));
    assert(p[2] == (99usize, 3usize));
    assert(p[3] == (0usize, 3usize));
    assert(p[4] == (2usize, 3usize));
    assert(p[5] == (3usize, 3usize));
    assert(p[6] == (4usize, 3usize));
    assert(p[7] == (0usize, 4usize));
    assert(p[8] == (1usize, 4usize));
    assert(p[9] == (2usize, 4usize));
    assert(p[10] == (3usize, 4usize));
    assert(p[11] == (4usize, 4usize));
    assert(p[12] == (1usize, 5usize));
    assert(p[13] == (2usize, 5usize));
    assert(p[14] == (3usize, 5usize));
}

/// The offsets that the middleweight spaceship, two generations on, lists.
proof fn lemma_mwss_2_offsets()
    ensures
        fits(mwss_2()),
        forall|u: int, v: int|
            #[trigger] lists(mwss_2(), u, v) <==> (
                v == 2 && (0 <= u <= 3 || u == 99)
                || v == 3 && (u == 4 || u == 99)
                || v == 4 && u == 99
                || v == 5 && (u == 0 || u == 4)
                || v == 6 && u == 2
            ),
{
    let p = mwss_2();
    assert(p[0] == (99usize, 2usize));
    assert(p[1] == (0usize, 2usize));
    assert(p[2] == (1usize, 2usize));
    assert(p[3] == (2usize, 2usize));
    assert(p[4] == (3usize, 2usize));
    assert(p[5] == (99usize, 3usize));
    assert(p[6] == (4usize, 3usize));
    assert(p[7] == (99usize, 4usize));
    assert(p[8] == (0usize, 5usize));
    assert(p[9] == (4usize, 5usize));
    assert(p[10] == (2usize, 6usize));
}

/// The offsets that the middleweight spaceship, three generations on, lists.
proof fn lemma_mwss_3_offsets()
    ensures
        fits(mwss_3()),
        forall|u: int, v: int|
            #[trigger] lists(mwss_3(), u, v) <==> (
                v == 1 && 0 <= u <= 2
                || v == 2 && (0 <= u <= 3 || u == 99)
                || v == 3 && (1 <= u <= 3 || 98 <= u <= 99)
                || v == 4 && (u == 0 || u == 99)
            ),
{
    let p = mwss_3();
    assert(p[0] == (0usize, 1usize));
    assert(p[1] == (1usize, 1usize));
    assert(p[2] == (2usize, 1usize));
    assert(p[3] == (99usize, 2usize));
    assert(p[4] == (0usize, 2usize));
    assert(p[5] == (1usize, 2usize));
    assert(p[6] == (2usize, 2usize));
    assert(p[7] == (3usize, 2usize));
    assert(p[8] == (98usize, 3usize));
    assert(p[9] == (99usize, 3usize));
    assert(p[10] == (1usize, 3usize));
    assert(p[11] == (2usize, 3usize));
    assert(p[12] == (3usize, 3usize));
    assert(p[13] == (99usize, 4usize));
    assert(p[14] == (0usize, 4usize));
}

/// The offsets that the middleweight spaceship, four generations on, lists.
proof fn lemma_mwss_4_offsets()
    ensures
        fits(mwss_4()),
        forall|u: int, v: int|
            #[trigger] lists(mwss_4(), u, v) <==> (
                v == 0 && u == 1
                || v == 1 && (u == 3 || u == 99)
                || v == 2 && u == 98
                || v == 3 && (u == 3 || u == 98)
                || v == 4 && (0 <= u <= 2 || 98 <= u <= 99)
            ),
{
    let p = mwss_4();
    assert(p[0] == (1usize, 0usize));
    assert(p[1] == (99usize, 1usize));
    assert(p[2] == (3usize, 1usize));
    assert(p[3] == (98usize, 2usize));
    assert(p[4] == (98usize, 3usize));
    assert(p[5] == (3usize, 3usize));
    assert(p[6] == (98usize, 4usize));
    assert(p[7] == (99usize, 4usize));
    assert(p[8] == (0usize, 4usize));
    assert(p[9] == (1usize, 4usize));
    assert(p[10] == (2usize, 4usize));
}

/// The first generation of the middleweight spaceship.
proof fn lemma_mwss_generation_1()
    ensures
        fits(MWSS@),
        fits(mwss_1()),
        evolves(MWSS@, mwss_1()),
{
    lemma_mwss_offsets();
    lemma_mwss_1_offsets();
}

/// The second generation of the middleweight spaceship.
proof fn lemma_mwss_generation_2()
    ensures
        fits(mwss_1()),
        fits(mwss_2()),
        evolves(mwss_1(), mwss_2()),
{
    lemma_mwss_1_offsets();
    lemma_mwss_2_offsets();
}

/// The third generation of the middleweight spaceship.
proof fn lemma_mwss_generation_3()
    ensures
        fits(mwss_2()),
        fits(mwss_3()),
        evolves(mwss_2(), mwss_3()),
{
    lemma_mwss_2_offsets();
    lemma_mwss_3_offsets();
}

/// The fourth generation of the middleweight spaceship.
proof fn lemma_mwss_generation_4()
    ensures
        fits(mwss_3()),
        fits(mwss_4()),
        evolves(mwss_3(), mwss_4()),
        moved_by(MWSS@, mwss_4(), -2, 0),
{
    lemma_mwss_3_offsets();
    lemma_mwss_4_offsets();
    lemma_mwss_offsets();
}

/// What the middleweight spaceship, placed alone, has become after each
/// generation of one round.
proof fn lemma_mwss_generations(ox: int, oy: int)
    ensures
        generations(alone(MWSS@, ox, oy), 1) == alone(mwss_1(), ox, oy),
        generations(alone(MWSS@, ox, oy), 2) == alone(mwss_2(), ox, oy),
        generations(alone(MWSS@, ox, oy), 3) == alone(mwss_3(), ox, oy),
        generations(alone(MWSS@, ox, oy), 4) == alone(mwss_4(), ox, oy),
{
    let start = alone(MWSS@, ox, oy);
    lemma_mwss_generation_1();
    evolution_holds_at_every_origin(MWSS@, mwss_1(), ox, oy);
    assert(generations(start, 1) == next_generation(generations(start, 0)));
    lemma_mwss_generation_2();
    evolution_holds_at_every_origin(mwss_1(), mwss_2(), ox, oy);
    assert(generations(start, 2) == next_generation(generations(start, 1)));
    lemma_mwss_generation_3();
    evolution_holds_at_every_origin(mwss_2(), mwss_3(), ox, oy);
    assert(generations(start, 3) == next_generation(generations(start, 2)));
    lemma_mwss_generation_4();
    evolution_holds_at_every_origin(mwss_3(), mwss_4(), ox, oy);
    assert(generations(start, 4) == next_generation(generations(start, 3)));
}

/// The middleweight spaceship placed alone anywhere on the grid is, four
/// generations later, the same shape two cells to the left, and nothing else
/// is alive. Near an edge it goes over the edge and comes back in on the
/// opposite side.
pub proof fn mwss_moves_left(ox: int, oy: int)
    ensures
        generations(alone(MWSS@, ox, oy), 4) == alone(MWSS@, ox - 2, oy),
{
    lemma_mwss_generations(ox, oy);
    moved_pattern_is_moved_origin(MWSS@, mwss_4(), -2, 0, ox, oy);
}

/// The heavyweight spaceship one generation on.
///
/// ```text
/// .......
/// .......
/// .OO....
/// OO.OOOO
/// .OOOOOO
/// ..OOOO.
/// ```
///
/// The picture starts one column left of the origin, where the offsets count
/// down from `99`.
spec fn hwss_1() -> Seq<(usize, usize)> {
    seq![
        (0, 2), (1, 2), (99, 3), (0, 3), (2, 3), (3, 3), (4, 3), (5, 3), (0, 4), (1, 4), (2, 4),
        (3, 4), (4, 4), (5, 4), (1, 5), (2, 5), (3, 5), (4, 5),
    ]
}

/// The heavyweight spaceship two generations on.
///
/// ```text
/// .......
/// .......
/// OOOOOO.
/// O.....O
/// O......
/// .O....O
/// ...OO..
/// ```
///
/// The picture starts one column left of the origin, where the offsets count
/// down from `99`.
spec fn hwss_2() -> Seq<(usize, usize)> {
    seq![
        (99, 2), (0, 2), (1, 2), (2, 2), (3, 2), (4, 2), (99, 3), (5, 3), (99, 4), (0, 5), (5, 5),
        (2, 6), (3, 6),
    ]
}

/// The heavyweight spaceship three generations on.
///
/// ```text
/// .......
/// ..OOOO.
/// .OOOOOO
/// OO.OOOO
/// .OO....
/// ```
///
/// The picture starts two columns left of the origin, where the offsets count
/// down from `99`.
spec fn hwss_3() -> Seq<(usize, usize)> {
    seq![
        (0, 1), (1, 1), (2, 1), (3, 1), (99, 2), (0, 2), (1, 2), (2, 2), (3, 2), (4, 2), (98, 3),
        (99, 3), (1, 3), (2, 3), (3, 3), (4, 3), (99, 4), (0, 4),
    ]
}

/// The heavyweight spaceship four generations on: its first shape, two cells
/// to the left.
///
/// ```text
/// ...OO..
/// .O....O
/// O......
/// O.....O
/// OOOOOO.
/// ```
///
/// The picture starts two columns left of the origin, where the offsets count
/// down from `99`.
spec fn hwss_4() -> Seq<(usize, usize)> {
    seq![
        (1, 0), (2, 0), (99, 1), (4, 1), (98, 2), (98, 3), (4, 3), (98, 4), (99, 4), (0, 4), (1, 4),
        (2, 4), (3, 4),
    ]
}

/// The offsets that the heavyweight spaceship lists.
proof fn lemma_hwss_offsets()
    ensures
        fits(HWSS@),
        forall|u: int, v: int|
            #[trigger] lists(HWSS@, u, v) <==> (
                v == 0 && 3 <= u <= 4
                || v == 1 && (u == 1 || u == 6)
                || v == 2 && u == 0
                || v == 3 && (u == 0 || u == 6)
                || v == 4 && 0 <= u <= 5
            ),
{
    let p = HWSS@;
    assert(p[0] == (3usize, 0usize));
    assert(p[1] == (4usize, 0usize));
    assert(p[2] == (1usize, 1usize));
    assert(p[3] == (6usize, 1usize));
    assert(p[4] == (0usize, 2usize));
    assert(p[5] == (0usize, 3usize));
    assert(p[6] == (6usize, 3usize));
    assert(p[7] == (0usize, 4usize));
    assert(p[8] == (1usize, 4usize));
    assert(p[9] == (2usize, 4usize));
    assert(p[10] == (3usize, 4usize));
    assert(p[11] == (4usize, 4usize));
    assert(p[12] == (5usize, 4usize));
}

/// The offsets that the heavyweight spaceship, one generation on, lists.
proof fn lemma_hwss_1_offsets()
    ensures
        fits(hwss_1()),
        forall|u: int, v: int|
            #[trigger] lists(hwss_1(), u, v) <==> (
                v == 2 && 0 <= u <= 1
                || v == 3 && (u == 0 || 2 <= u <= 5 || u == 99)
                || v == 4 && 0 <= u <= 5
                || v == 5 && 1 <= u <= 4
            ),
{
    let p = hwss_1();
    assert(p[0] == (0usize, 2usize));
    assert(p[1] == (1usize, 2usize));
    assert(p[2] == (99usize, 3usize));
    assert(p[3] == (0usize, 3usize));
    assert(p[4] == (2usize, 3usize));
    assert(p[5] == (3usize, 3usize));
    assert(p[6] == (4usize, 3usize));
    assert(p[7] == (5usize, 3usize));
    assert(p[8] == (0usize, 4usize));
    assert(p[9] == (1usize, 4usize));
    assert(p[10] == (2usize, 4usize));
    assert(p[11] == (3usize, 4usize));
    assert(p[12] == (4usize, 4usize));
    assert(p[13] == (5usize, 4usize));
    assert(p[14] == (1usize, 5usize));
    assert(p[15] == (2usize, 5usize));
    assert(p[16] == (3usize, 5usize));
    assert(p[17] == (4usize, 5usize));
}

/// The offsets that the heavyweight spaceship, two generations on, lists.
proof fn lemma_hwss_2_offsets()
    ensures
        fits(hwss_2()),
        forall|u: int, v: int|
            #[trigger] lists(hwss_2(), u, v) <==> (
                v == 2 && (0 <= u <= 4 || u == 99)
                || v == 3 && (u == 5 || u == 99)
                || v == 4 && u == 99
                || v == 5 && (u == 0 || u == 5)
                || v == 6 && 2 <= u <= 3
            ),
{
    let p = hwss_2();
    assert(p[0] == (99usize, 2usize));
    assert(p[1] == (0usize, 2usize));
    assert(p[2] == (1usize, 2usize));
    assert(p[3] == (2usize, 2usize));
    assert(p[4] == (3usize, 2usize));
    assert(p[5] == (4usize, 2usize));
    assert(p[6] == (99usize, 3usize));
    assert(p[7] == (5usize, 3usize));
    assert(p[8] == (99usize, 4usize));
    assert(p[9] == (0usize, 5usize));
    assert(p[10] == (5usize, 5usize));
    assert(p[11] == (2usize, 6usize));
    assert(p[12] == (3usize, 6usize));
}

/// The offsets that the heavyweight spaceship, three generations on, lists.
proof fn lemma_hwss_3_offsets()
    ensures
        fits(hwss_3()),
        forall|u: int, v: int|
            #[trigger] lists(hwss_3(), u, v) <==> (
                v == 1 && 0 <= u <= 3
                || v == 2 && (0 <= u <= 4 || u == 99)
                || v == 3 && (1 <= u <= 4 || 98 <= u <= 99)
                || v == 4 && (u == 0 || u == 99)
            ),
{
    let p = hwss_3();
    assert(p[0] == (0usize, 1usize));
    assert(p[1] == (1usize, 1usize));
    assert(p[2] == (2usize, 1usize));
    assert(p[3] == (3usize, 1usize));
    assert(p[4] == (99usize, 2usize));
    assert(p[5] == (0usize, 2usize));
    assert(p[6] == (1usize, 2usize));
    assert(p[7] == (2usize, 2usize));
    assert(p[8] == (3usize, 2usize));
    assert(p[9] == (4usize, 2usize));
    assert(p[10] == (98usize, 3usize));
    assert(p[11] == (99usize, 3usize));
    assert(p[12] == (1usize, 3usize));
    assert(p[13] == (2usize, 3usize));
    assert(p[14] == (3usize, 3usize));
    assert(p[15] == (4usize, 3usize));
    assert(p[16] == (99usize, 4usize));
    assert(p[17] == (0usize, 4usize));
}

/// The offsets that the heavyweight spaceship, four generations on, lists.
proof fn lemma_hwss_4_offsets()
    ensures
        fits(hwss_4()),
        forall|u: int, v: int|
            #[trigger] lists(hwss_4(), u, v) <==> (
                v == 0 && 1 <= u <= 2
                || v == 1 && (u == 4 || u == 99)
                || v == 2 && u == 98
                || v == 3 && (u == 4 || u == 98)
                || v == 4 && (0 <= u <= 3 || 98 <= u <= 99)
            ),
{
    let p = hwss_4();
    assert(p[0] == (1usize, 0usize));
    assert(p[1] == (2usize, 0usize));
    assert(p[2] == (99usize, 1usize));
    assert(p[3] == (4usize, 1usize));
    assert(p[4] == (98usize, 2usize));
    assert(p[5] == (98usize, 3usize));
    assert(p[6] == (4usize, 3usize));
    assert(p[7] == (98usize, 4usize));
    assert(p[8] == (99usize, 4usize));
    assert(p[9] == (0usize, 4usize));
    assert(p[10] == (1usize, 4usize));
    assert(p[11] == (2usize, 4usize));
    assert(p[12] == (3usize, 4usize));
}

/// The first generation of the heavyweight spaceship.
proof fn lemma_hwss_generation_1()
    ensures
        fits(HWSS@),
        fits(hwss_1()),
        evolves(HWSS@, hwss_1()),
{
    lemma_hwss_offsets();
    lemma_hwss_1_offsets();
}

/// The second generation of the heavyweight spaceship.
proof fn lemma_hwss_generation_2()
    ensures
        fits(hwss_1()),
        fits(hwss_2()),
        evolves(hwss_1(), hwss_2()),
{
    lemma_hwss_1_offsets();
    lemma_hwss_2_offsets();
}

/// The third generation of the heavyweight spaceship.
proof fn lemma_hwss_generation_3()
    ensures
        fits(hwss_2()),
        fits(hwss_3()),
        evolves(hwss_2(), hwss_3()),
{
    lemma_hwss_2_offsets();
    lemma_hwss_3_offsets();
}

/// The fourth generation of the heavyweight spaceship.
proof fn lemma_hwss_generation_4()
    ensures
        fits(hwss_3()),
        fits(hwss_4()),
        evolves(hwss_3(), hwss_4()),
        moved_by(HWSS@, hwss_4(), -2, 0),
{
    lemma_hwss_3_offsets();
    lemma_hwss_4_offsets();
    lemma_hwss_offsets();
}

/// What the heavyweight spaceship, placed alone, has become after each
/// generation of one round.
proof fn lemma_hwss_generations(ox: int, oy: int)
    ensures
        generations(alone(HWSS@, ox, oy), 1) == alone(hwss_1(), ox, oy),
        generations(alone(HWSS@, ox, oy), 2) == alone(hwss_2(), ox, oy),
        generations(alone(HWSS@, ox, oy), 3) == alone(hwss_3(), ox, oy),
        generations(alone(HWSS@, ox, oy), 4) == alone(hwss_4(), ox, oy),
{
    let start = alone(HWSS@, ox, oy);
    lemma_hwss_generation_1();
    evolution_holds_at_every_origin(HWSS@, hwss_1(), ox, oy);
    assert(generations(start, 1) == next_generation(generations(start, 0)));
    lemma_hwss_generation_2();
    evolution_holds_at_every_origin(hwss_1(), hwss_2(), ox, oy);
    assert(generations(start, 2) == next_generation(generations(start, 1)));
    lemma_hwss_generation_3();
    evolution_holds_at_every_origin(hwss_2(), hwss_3(), ox, oy);
    assert(generations(start, 3) == next_generation(generations(start, 2)));
    lemma_hwss_generation_4();
    evolution_holds_at_every_origin(hwss_3(), hwss_4(), ox, oy);
    assert(generations(start, 4) == next_generation(generations(start, 3)));
}

/// The heavyweight spaceship placed alone anywhere on the grid is, four
/// generations later, the same shape two cells to the left, and nothing else
/// is alive. Near an edge it goes over the edge and comes back in on the
/// opposite side.
pub proof fn hwss_moves_left(ox: int, oy: int)
    ensures
        generations(alone(HWSS@, ox, oy), 4) == alone(HWSS@, ox - 2, oy),
{
    lemma_hwss_generations(ox, oy);
    moved_pattern_is_moved_origin(HWSS@, hwss_4(), -2, 0, ox, oy);
}

} // verus!
