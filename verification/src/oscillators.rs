//! Oscillators: patterns that come back to their first cells after a fixed
//! number of generations.

use vstd::prelude::*;
use crate::engine::next_generation;
use crate::evolution::{
    alone, different_patterns_are_different_grids, evolution_holds_at_every_origin, evolves, fits,
    generations, lists,
};
use crate::patterns::{BEACON, BLINKER, PENTA_DECATHLON, PULSAR, TOAD};

verus! {

/// The blinker one generation on.
///
/// ```text
/// .O
/// .O
/// .O
/// ```
///
/// The picture starts one row above the origin, where the offsets count down
/// from `99`.
spec fn blinker_1() -> Seq<(usize, usize)> {
    seq![(1, 99), (1, 0), (1, 1)]
}

/// The offsets that the blinker lists.
proof fn lemma_blinker_offsets()
    ensures
        fits(BLINKER@),
        forall|u: int, v: int|
            #[trigger] lists(BLINKER@, u, v) <==> v == 0 && 0 <= u <= 2,
{
    let p = BLINKER@;
    assert(p[0] == (0usize, 0usize));
    assert(p[1] == (1usize, 0usize));
    assert(p[2] == (2usize, 0usize));
}

/// The offsets that the blinker, one generation on, lists.
proof fn lemma_blinker_1_offsets()
    ensures
        fits(blinker_1()),
        forall|u: int, v: int|
            #[trigger] lists(blinker_1(), u, v) <==> (0 <= v <= 1 || v == 99) && u == 1,
{
    let p = blinker_1();
    assert(p[0] == (1usize, 99usize));
    assert(p[1] == (1usize, 0usize));
    assert(p[2] == (1usize, 1usize));
}

/// The first generation of the blinker.
proof fn lemma_blinker_generation_1()
    ensures
        fits(BLINKER@),
        fits(blinker_1()),
        evolves(BLINKER@, blinker_1()),
{
    lemma_blinker_offsets();
    lemma_blinker_1_offsets();
}

/// The second generation of the blinker.
proof fn lemma_blinker_generation_2()
    ensures
        fits(blinker_1()),
        fits(BLINKER@),
        evolves(blinker_1(), BLINKER@),
{
    lemma_blinker_1_offsets();
    lemma_blinker_offsets();
}

/// What the blinker, placed alone, has become after each generation of one
/// round.
proof fn lemma_blinker_generations(ox: int, oy: int)
    ensures
        generations(alone(BLINKER@, ox, oy), 1) == alone(blinker_1(), ox, oy),
        generations(alone(BLINKER@, ox, oy), 2) == alone(BLINKER@, ox, oy),
{
    let start = alone(BLINKER@, ox, oy);
    lemma_blinker_generation_1();
    evolution_holds_at_every_origin(BLINKER@, blinker_1(), ox, oy);
    assert(generations(start, 1) == next_generation(generations(start, 0)));
    lemma_blinker_generation_2();
    evolution_holds_at_every_origin(blinker_1(), BLINKER@, ox, oy);
    assert(generations(start, 2) == next_generation(generations(start, 1)));
}

/// One generation on, the blinker is not what it was at first.
proof fn lemma_blinker_1_differs(ox: int, oy: int)
    ensures
        alone(blinker_1(), ox, oy) != alone(BLINKER@, ox, oy),
{
    lemma_blinker_offsets();
    lemma_blinker_1_offsets();
    different_patterns_are_different_grids(blinker_1(), BLINKER@, 1, 99, ox, oy);
}

/// The blinker placed alone anywhere on the grid, across an edge or not, is
/// back to its first cells after two generations, and not before.
pub proof fn blinker_has_period_two(ox: int, oy: int)
    ensures
        generations(alone(BLINKER@, ox, oy), 2) == alone(BLINKER@, ox, oy),
        generations(alone(BLINKER@, ox, oy), 1) != alone(BLINKER@, ox, oy),
{
    lemma_blinker_generations(ox, oy);
    lemma_blinker_1_differs(ox, oy);
}

/// The toad one generation on.
///
/// ```text
/// ..O.
/// O..O
/// O..O
/// .O..
/// ```
///
/// The picture starts one row above the origin, where the offsets count down
/// from `99`.
spec fn toad_1() -> Seq<(usize, usize)> {
    seq![(2, 99), (0, 0), (3, 0), (0, 1), (3, 1), (1, 2)]
}

/// The offsets that the toad lists.
proof fn lemma_toad_offsets()
    ensures
        fits(TOAD@),
        forall|u: int, v: int|
            #[trigger] lists(TOAD@, u, v) <==> (
                v == 0 && 1 <= u <= 3
                || v == 1 && 0 <= u <= 2
            ),
{
    let p = TOAD@;
    assert(p[0] == (1usize, 0usize));
    assert(p[1] == (2usize, 0usize));
    assert(p[2] == (3usize, 0usize));
    assert(p[3] == (0usize, 1usize));
    assert(p[4] == (1usize, 1usize));
    assert(p[5] == (2usize, 1usize));
}

/// The offsets that the toad, one generation on, lists.
proof fn lemma_toad_1_offsets()
    ensures
        fits(toad_1()),
        forall|u: int, v: int|
            #[trigger] lists(toad_1(), u, v) <==> (
                v == 99 && u == 2
                || 0 <= v <= 1 && (u == 0 || u == 3)
                || v == 2 && u == 1
            ),
{
    let p = toad_1();
    assert(p[0] == (2usize, 99usize));
    assert(p[1] == (0usize, 0usize));
    assert(p[2] == (3usize, 0usize));
    assert(p[3] == (0usize, 1usize));
    assert(p[4] == (3usize, 1usize));
    assert(p[5] == (1usize, 2usize));
}

/// The first generation of the toad.
proof fn lemma_toad_generation_1()
    ensures
        fits(TOAD@),
        fits(toad_1()),
        evolves(TOAD@, toad_1()),
{
    lemma_toad_offsets();
    lemma_toad_1_offsets();
}

/// The second generation of the toad.
proof fn lemma_toad_generation_2()
    ensures
        fits(toad_1()),
        fits(TOAD@),
        evolves(toad_1(), TOAD@),
{
    lemma_toad_1_offsets();
    lemma_toad_offsets();
}

/// What the toad, placed alone, has become after each generation of one round.
proof fn lemma_toad_generations(ox: int, oy: int)
    ensures
        generations(alone(TOAD@, ox, oy), 1) == alone(toad_1(), ox, oy),
        generations(alone(TOAD@, ox, oy), 2) == alone(TOAD@, ox, oy),
{
    let start = alone(TOAD@, ox, oy);
    lemma_toad_generation_1();
    evolution_holds_at_every_origin(TOAD@, toad_1(), ox, oy);
    assert(generations(start, 1) == next_generation(generations(start, 0)));
    lemma_toad_generation_2();
    evolution_holds_at_every_origin(toad_1(), TOAD@, ox, oy);
    assert(generations(start, 2) == next_generation(generations(start, 1)));
}

/// One generation on, the toad is not what it was at first.
proof fn lemma_toad_1_differs(ox: int, oy: int)
    ensures
        alone(toad_1(), ox, oy) != alone(TOAD@, ox, oy),
{
    lemma_toad_offsets();
    lemma_toad_1_offsets();
    different_patterns_are_different_grids(toad_1(), TOAD@, 2, 99, ox, oy);
}

/// The toad placed alone anywhere on the grid, across an edge or not, is back
/// to its first cells after two generations, and not before.
pub proof fn toad_has_period_two(ox: int, oy: int)
    ensures
        generations(alone(TOAD@, ox, oy), 2) == alone(TOAD@, ox, oy),
        generations(alone(TOAD@, ox, oy), 1) != alone(TOAD@, ox, oy),
{
    lemma_toad_generations(ox, oy);
    lemma_toad_1_differs(ox, oy);
}

/// The beacon one generation on.
///
/// ```text
/// OO..
/// O...
/// ...O
/// ..OO
/// ```
spec fn beacon_1() -> Seq<(usize, usize)> {
    seq![(0, 0), (1, 0), (0, 1), (3, 2), (2, 3), (3, 3)]
}

/// The offsets that the beacon lists.
proof fn lemma_beacon_offsets()
    ensures
        fits(BEACON@),
        forall|u: int, v: int|
            #[trigger] lists(BEACON@, u, v) <==> (
                0 <= v <= 1 && 0 <= u <= 1
                || 2 <= v <= 3 && 2 <= u <= 3
            ),
{
    let p = BEACON@;
    assert(p[0] == (0usize, 0usize));
    assert(p[1] == (1usize, 0usize));
    assert(p[2] == (0usize, 1usize));
    assert(p[3] == (1usize, 1usize));
    assert(p[4] == (2usize, 2usize));
    assert(p[5] == (3usize, 2usize));
    assert(p[6] == (2usize, 3usize));
    assert(p[7] == (3usize, 3usize));
}

/// The offsets that the beacon, one generation on, lists.
proof fn lemma_beacon_1_offsets()
    ensures
        fits(beacon_1()),
        forall|u: int, v: int|
            #[trigger] lists(beacon_1(), u, v) <==> (
                v == 0 && 0 <= u <= 1
                || v == 1 && u == 0
                || v == 2 && u == 3
                || v == 3 && 2 <= u <= 3
            ),
{
    let p = beacon_1();
    assert(p[0] == (0usize, 0usize));
    assert(p[1] == (1usize, 0usize));
    assert(p[2] == (0usize, 1usize));
    assert(p[3] == (3usize, 2usize));
    assert(p[4] == (2usize, 3usize));
    assert(p[5] == (3usize, 3usize));
}

/// The first generation of the beacon.
proof fn lemma_beacon_generation_1()
    ensures
        fits(BEACON@),
        fits(beacon_1()),
        evolves(BEACON@, beacon_1()),
{
    lemma_beacon_offsets();
    lemma_beacon_1_offsets();
}

/// The second generation of the beacon.
proof fn lemma_beacon_generation_2()
    ensures
        fits(beacon_1()),
        fits(BEACON@),
        evolves(beacon_1(), BEACON@),
{
    lemma_beacon_1_offsets();
    lemma_beacon_offsets();
}

/// What the beacon, placed alone, has become after each generation of one
/// round.
proof fn lemma_beacon_generations(ox: int, oy: int)
    ensures
        generations(alone(BEACON@, ox, oy), 1) == alone(beacon_1(), ox, oy),
        generations(alone(BEACON@, ox, oy), 2) == alone(BEACON@, ox, oy),
{
    let start = alone(BEACON@, ox, oy);
    lemma_beacon_generation_1();
    evolution_holds_at_every_origin(BEACON@, beacon_1(), ox, oy);
    assert(generations(start, 1) == next_generation(generations(start, 0)));
    lemma_beacon_generation_2();
    evolution_holds_at_every_origin(beacon_1(), BEACON@, ox, oy);
    assert(generations(start, 2) == next_generation(generations(start, 1)));
}

/// One generation on, the beacon is not what it was at first.
proof fn lemma_beacon_1_differs(ox: int, oy: int)
    ensures
        alone(beacon_1(), ox, oy) != alone(BEACON@, ox, oy),
{
    lemma_beacon_offsets();
    lemma_beacon_1_offsets();
    different_patterns_are_different_grids(beacon_1(), BEACON@, 1, 1, ox, oy);
}

/// The beacon placed alone anywhere on the grid, across an edge or not, is
/// back to its first cells after two generations, and not before.
pub proof fn beacon_has_period_two(ox: int, oy: int)
    ensures
        generations(alone(BEACON@, ox, oy), 2) == alone(BEACON@, ox, oy),
        generations(alone(BEACON@, ox, oy), 1) != alone(BEACON@, ox, oy),
{
    lemma_beacon_generations(ox, oy);
    lemma_beacon_1_differs(ox, oy);
}

/// The pulsar one generation on.
///
/// ```text
/// ....O.....O....
/// ....O.....O....
/// ....OO...OO....
/// ...............
/// OOO..OO.OO..OOO
/// ..O.O.O.O.O.O..
/// ....OO...OO....
/// ...............
/// ....OO...OO....
/// ..O.O.O.O.O.O..
/// OOO..OO.OO..OOO
/// ...............
/// ....OO...OO....
/// ....O.....O....
/// ....O.....O....
/// ```
///
/// The picture starts one column left of and one row above the origin, where
/// the offsets count down from `99`.
spec fn pulsar_1() -> Seq<(usize, usize)> {
    seq![
        (3, 99), (9, 99), (3, 0), (9, 0), (3, 1), (4, 1), (8, 1), (9, 1), (99, 3), (0, 3), (1, 3),
        (4, 3), (5, 3), (7, 3), (8, 3), (11, 3), (12, 3), (13, 3), (1, 4), (3, 4), (5, 4), (7, 4),
        (9, 4), (11, 4), (3, 5), (4, 5), (8, 5), (9, 5), (3, 7), (4, 7), (8, 7), (9, 7), (1, 8),
        (3, 8), (5, 8), (7, 8), (9, 8), (11, 8), (99, 9), (0, 9), (1, 9), (4, 9), (5, 9), (7, 9),
        (8, 9), (11, 9), (12, 9), (13, 9), (3, 11), (4, 11), (8, 11), (9, 11), (3, 12), (9, 12),
        (3, 13), (9, 13),
    ]
}

/// The pulsar two generations on.
///
/// ```text
/// ..OO.....OO..
/// ...OO...OO...
/// O..O.O.O.O..O
/// OOO.OO.OO.OOO
/// .O.O.O.O.O.O.
/// ..OOO...OOO..
/// .............
/// ..OOO...OOO..
/// .O.O.O.O.O.O.
/// OOO.OO.OO.OOO
/// O..O.O.O.O..O
/// ...OO...OO...
/// ..OO.....OO..
/// ```
spec fn pulsar_2() -> Seq<(usize, usize)> {
    seq![
        (2, 0), (3, 0), (9, 0), (10, 0), (3, 1), (4, 1), (8, 1), (9, 1), (0, 2), (3, 2), (5, 2),
        (7, 2), (9, 2), (12, 2), (0, 3), (1, 3), (2, 3), (4, 3), (5, 3), (7, 3), (8, 3), (10, 3),
        (11, 3), (12, 3), (1, 4), (3, 4), (5, 4), (7, 4), (9, 4), (11, 4), (2, 5), (3, 5), (4, 5),
        (8, 5), (9, 5), (10, 5), (2, 7), (3, 7), (4, 7), (8, 7), (9, 7), (10, 7), (1, 8), (3, 8),
        (5, 8), (7, 8), (9, 8), (11, 8), (0, 9), (1, 9), (2, 9), (4, 9), (5, 9), (7, 9), (8, 9),
        (10, 9), (11, 9), (12, 9), (0, 10), (3, 10), (5, 10), (7, 10), (9, 10), (12, 10), (3, 11),
        (4, 11), (8, 11), (9, 11), (2, 12), (3, 12), (9, 12), (10, 12),
    ]
}

/// The offsets that the pulsar lists.
proof fn lemma_pulsar_offsets()
    ensures
        fits(PULSAR@),
        forall|u: int, v: int|
            #[trigger] lists(PULSAR@, u, v) <==> (
                (v == 0 || v == 5 || v == 7 || v == 12) && (2 <= u <= 4 || 8 <= u <= 10)
                || (2 <= v <= 4 || 8 <= v <= 10) && (u == 0 || u == 5 || u == 7 || u == 12)
            ),
{
    let p = PULSAR@;
    assert(p[0] == (2usize, 0usize));
    assert(p[1] == (3usize, 0usize));
    assert(p[2] == (4usize, 0usize));
    assert(p[3] == (8usize, 0usize));
    assert(p[4] == (9usize, 0usize));
    assert(p[5] == (10usize, 0usize));
    assert(p[6] == (0usize, 2usize));
    assert(p[7] == (5usize, 2usize));
    assert(p[8] == (7usize, 2usize));
    assert(p[9] == (12usize, 2usize));
    assert(p[10] == (0usize, 3usize));
    assert(p[11] == (5usize, 3usize));
    assert(p[12] == (7usize, 3usize));
    assert(p[13] == (12usize, 3usize));
    assert(p[14] == (0usize, 4usize));
    assert(p[15] == (5usize, 4usize));
    assert(p[16] == (7usize, 4usize));
    assert(p[17] == (12usize, 4usize));
    assert(p[18] == (2usize, 5usize));
    assert(p[19] == (3usize, 5usize));
    assert(p[20] == (4usize, 5usize));
    assert(p[21] == (8usize, 5usize));
    assert(p[22] == (9usize, 5usize));
    assert(p[23] == (10usize, 5usize));
    assert(p[24] == (2usize, 7usize));
    assert(p[25] == (3usize, 7usize));
    assert(p[26] == (4usize, 7usize));
    assert(p[27] == (8usize, 7usize));
    assert(p[28] == (9usize, 7usize));
    assert(p[29] == (10usize, 7usize));
    assert(p[30] == (0usize, 8usize));
    assert(p[31] == (5usize, 8usize));
    assert(p[32] == (7usize, 8usize));
    assert(p[33] == (12usize, 8usize));
    assert(p[34] == (0usize, 9usize));
    assert(p[35] == (5usize, 9usize));
    assert(p[36] == (7usize, 9usize));
    assert(p[37] == (12usize, 9usize));
    assert(p[38] == (0usize, 10usize));
    assert(p[39] == (5usize, 10usize));
    assert(p[40] == (7usize, 10usize));
    assert(p[41] == (12usize, 10usize));
    assert(p[42] == (2usize, 12usize));
    assert(p[43] == (3usize, 12usize));
    assert(p[44] == (4usize, 12usize));
    assert(p[45] == (8usize, 12usize));
    assert(p[46] == (9usize, 12usize));
    assert(p[47] == (10usize, 12usize));
}

/// The offsets that the pulsar, one generation on, lists.
proof fn lemma_pulsar_1_offsets()
    ensures
        fits(pulsar_1()),
        forall|u: int, v: int|
            #[trigger] lists(pulsar_1(), u, v) <==> (
                (v == 0 || 12 <= v <= 13 || v == 99) && (u == 3 || u == 9)
                || (v == 1 || v == 5 || v == 7 || v == 11) && (3 <= u <= 4 || 8 <= u <= 9)
                || (v == 3 || v == 9) && (0 <= u <= 1 || 4 <= u <= 5 || 7 <= u <= 8
                    || 11 <= u <= 13 || u == 99)
                || (v == 4 || v == 8) && (u == 1 || u == 3 || u == 5 || u == 7 || u == 9 || u == 11)
            ),
{
    let p = pulsar_1();
    assert(p[0] == (3usize, 99usize));
    assert(p[1] == (9usize, 99usize));
    assert(p[2] == (3usize, 0usize));
    assert(p[3] == (9usize, 0usize));
    assert(p[4] == (3usize, 1usize));
    assert(p[5] == (4usize, 1usize));
    assert(p[6] == (8usize, 1usize));
    assert(p[7] == (9usize, 1usize));
    assert(p[8] == (99usize, 3usize));
    assert(p[9] == (0usize, 3usize));
    assert(p[10] == (1usize, 3usize));
    assert(p[11] == (4usize, 3usize));
    assert(p[12] == (5usize, 3usize));
    assert(p[13] == (7usize, 3usize));
    assert(p[14] == (8usize, 3usize));
    assert(p[15] == (11usize, 3usize));
    assert(p[16] == (12usize, 3usize));
    assert(p[17] == (13usize, 3usize));
    assert(p[18] == (1usize, 4usize));
    assert(p[19] == (3usize, 4usize));
    assert(p[20] == (5usize, 4usize));
    assert(p[21] == (7usize, 4usize));
    assert(p[22] == (9usize, 4usize));
    assert(p[23] == (11usize, 4usize));
    assert(p[24] == (3usize, 5usize));
    assert(p[25] == (4usize, 5usize));
    assert(p[26] == (8usize, 5usize));
    assert(p[27] == (9usize, 5usize));
    assert(p[28] == (3usize, 7usize));
    assert(p[29] == (4usize, 7usize));
    assert(p[30] == (8usize, 7usize));
    assert(p[31] == (9usize, 7usize));
    assert(p[32] == (1usize, 8usize));
    assert(p[33] == (3usize, 8usize));
    assert(p[34] == (5usize, 8usize));
    assert(p[35] == (7usize, 8usize));
    assert(p[36] == (9usize, 8usize));
    assert(p[37] == (11usize, 8usize));
    assert(p[38] == (99usize, 9usize));
    assert(p[39] == (0usize, 9usize));
    assert(p[40] == (1usize, 9usize));
    assert(p[41] == (4usize, 9usize));
    assert(p[42] == (5usize, 9usize));
    assert(p[43] == (7usize, 9usize));
    assert(p[44] == (8usize, 9usize));
    assert(p[45] == (11usize, 9usize));
    assert(p[46] == (12usize, 9usize));
    assert(p[47] == (13usize, 9usize));
    assert(p[48] == (3usize, 11usize));
    assert(p[49] == (4usize, 11usize));
    assert(p[50] == (8usize, 11usize));
    assert(p[51] == (9usize, 11usize));
    assert(p[52] == (3usize, 12usize));
    assert(p[53] == (9usize, 12usize));
    assert(p[54] == (3usize, 13usize));
    assert(p[55] == (9usize, 13usize));
}

/// The offsets that the pulsar, two generations on, lists.
proof fn lemma_pulsar_2_offsets()
    ensures
        fits(pulsar_2()),
        forall|u: int, v: int|
            #[trigger] lists(pulsar_2(), u, v) <==> (
                (v == 0 || v == 12) && (2 <= u <= 3 || 9 <= u <= 10)
                || (v == 1 || v == 11) && (3 <= u <= 4 || 8 <= u <= 9)
                || (v == 2 || v == 10) && (u == 0 || u == 3 || u == 5 || u == 7 || u == 9
                    || u == 12)
                || (v == 3 || v == 9) && (0 <= u <= 2 || 4 <= u <= 5 || 7 <= u <= 8
                    || 10 <= u <= 12)
                || (v == 4 || v == 8) && (u == 1 || u == 3 || u == 5 || u == 7 || u == 9 || u == 11)
                || (v == 5 || v == 7) && (2 <= u <= 4 || 8 <= u <= 10)
            ),
{
    let p = pulsar_2();
    assert(p[0] == (2usize, 0usize));
    assert(p[1] == (3usize, 0usize));
    assert(p[2] == (9usize, 0usize));
    assert(p[3] == (10usize, 0usize));
    assert(p[4] == (3usize, 1usize));
    assert(p[5] == (4usize, 1usize));
    assert(p[6] == (8usize, 1usize));
    assert(p[7] == (9usize, 1usize));
    assert(p[8] == (0usize, 2usize));
    assert(p[9] == (3usize, 2usize));
    assert(p[10] == (5usize, 2usize));
    assert(p[11] == (7usize, 2usize));
    assert(p[12] == (9usize, 2usize));
    assert(p[13] == (12usize, 2usize));
    assert(p[14] == (0usize, 3usize));
    assert(p[15] == (1usize, 3usize));
    assert(p[16] == (2usize, 3usize));
    assert(p[17] == (4usize, 3usize));
    assert(p[18] == (5usize, 3usize));
    assert(p[19] == (7usize, 3usize));
    assert(p[20] == (8usize, 3usize));
    assert(p[21] == (10usize, 3usize));
    assert(p[22] == (11usize, 3usize));
    assert(p[23] == (12usize, 3usize));
    assert(p[24] == (1usize, 4usize));
    assert(p[25] == (3usize, 4usize));
    assert(p[26] == (5usize, 4usize));
    assert(p[27] == (7usize, 4usize));
    assert(p[28] == (9usize, 4usize));
    assert(p[29] == (11usize, 4usize));
    assert(p[30] == (2usize, 5usize));
    assert(p[31] == (3usize, 5usize));
    assert(p[32] == (4usize, 5usize));
    assert(p[33] == (8usize, 5usize));
    assert(p[34] == (9usize, 5usize));
    assert(p[35] == (10usize, 5usize));
    assert(p[36] == (2usize, 7usize));
    assert(p[37] == (3usize, 7usize));
    assert(p[38] == (4usize, 7usize));
    assert(p[39] == (8usize, 7usize));
    assert(p[40] == (9usize, 7usize));
    assert(p[41] == (10usize, 7usize));
    assert(p[42] == (1usize, 8usize));
    assert(p[43] == (3usize, 8usize));
    assert(p[44] == (5usize, 8usize));
    assert(p[45] == (7usize, 8usize));
    assert(p[46] == (9usize, 8usize));
    assert(p[47] == (11usize, 8usize));
    assert(p[48] == (0usize, 9usize));
    assert(p[49] == (1usize, 9usize));
    assert(p[50] == (2usize, 9usize));
    assert(p[51] == (4usize, 9usize));
    assert(p[52] == (5usize, 9usize));
    assert(p[53] == (7usize, 9usize));
    assert(p[54] == (8usize, 9usize));
    assert(p[55] == (10usize, 9usize));
    assert(p[56] == (11usize, 9usize));
    assert(p[57] == (12usize, 9usize));
    assert(p[58] == (0usize, 10usize));
    assert(p[59] == (3usize, 10usize));
    assert(p[60] == (5usize, 10usize));
    assert(p[61] == (7usize, 10usize));
    assert(p[62] == (9usize, 10usize));
    assert(p[63] == (12usize, 10usize));
    assert(p[64] == (3usize, 11usize));
    assert(p[65] == (4usize, 11usize));
    assert(p[66] == (8usize, 11usize));
    assert(p[67] == (9usize, 11usize));
    assert(p[68] == (2usize, 12usize));
    assert(p[69] == (3usize, 12usize));
    assert(p[70] == (9usize, 12usize));
    assert(p[71] == (10usize, 12usize));
}

/// The first generation of the pulsar.
proof fn lemma_pulsar_generation_1()
    ensures
        fits(PULSAR@),
        fits(pulsar_1()),
        evolves(PULSAR@, pulsar_1()),
{
    lemma_pulsar_offsets();
    lemma_pulsar_1_offsets();
}

/// The second generation of the pulsar.
proof fn lemma_pulsar_generation_2()
    ensures
        fits(pulsar_1()),
        fits(pulsar_2()),
        evolves(pulsar_1(), pulsar_2()),
{
    lemma_pulsar_1_offsets();
    lemma_pulsar_2_offsets();
}

/// The third generation of the pulsar.
proof fn lemma_pulsar_generation_3()
    ensures
        fits(pulsar_2()),
        fits(PULSAR@),
        evolves(pulsar_2(), PULSAR@),
{
    lemma_pulsar_2_offsets();
    lemma_pulsar_offsets();
}

/// What the pulsar, placed alone, has become after each generation of one
/// round.
proof fn lemma_pulsar_generations(ox: int, oy: int)
    ensures
        generations(alone(PULSAR@, ox, oy), 1) == alone(pulsar_1(), ox, oy),
        generations(alone(PULSAR@, ox, oy), 2) == alone(pulsar_2(), ox, oy),
        generations(alone(PULSAR@, ox, oy), 3) == alone(PULSAR@, ox, oy),
{
    let start = alone(PULSAR@, ox, oy);
    lemma_pulsar_generation_1();
    evolution_holds_at_every_origin(PULSAR@, pulsar_1(), ox, oy);
    assert(generations(start, 1) == next_generation(generations(start, 0)));
    lemma_pulsar_generation_2();
    evolution_holds_at_every_origin(pulsar_1(), pulsar_2(), ox, oy);
    assert(generations(start, 2) == next_generation(generations(start, 1)));
    lemma_pulsar_generation_3();
    evolution_holds_at_every_origin(pulsar_2(), PULSAR@, ox, oy);
    assert(generations(start, 3) == next_generation(generations(start, 2)));
}

/// One generation on, the pulsar is not what it was at first.
proof fn lemma_pulsar_1_differs(ox: int, oy: int)
    ensures
        alone(pulsar_1(), ox, oy) != alone(PULSAR@, ox, oy),
{
    lemma_pulsar_offsets();
    lemma_pulsar_1_offsets();
    different_patterns_are_different_grids(pulsar_1(), PULSAR@, 3, 99, ox, oy);
}

/// Two generations on, the pulsar is not what it was at first.
proof fn lemma_pulsar_2_differs(ox: int, oy: int)
    ensures
        alone(pulsar_2(), ox, oy) != alone(PULSAR@, ox, oy),
{
    lemma_pulsar_offsets();
    lemma_pulsar_2_offsets();
    different_patterns_are_different_grids(pulsar_2(), PULSAR@, 4, 0, ox, oy);
}

/// The pulsar placed alone anywhere on the grid, across an edge or not, is
/// back to its first cells after three generations, and not before.
pub proof fn pulsar_has_period_three(ox: int, oy: int)
    ensures
        generations(alone(PULSAR@, ox, oy), 3) == alone(PULSAR@, ox, oy),
        forall|n: nat|
            0 < n < 3 ==> #[trigger] generations(alone(PULSAR@, ox, oy), n) != alone(
                PULSAR@,
                ox,
                oy,
            ),
{
    lemma_pulsar_generations(ox, oy);
    lemma_pulsar_1_differs(ox, oy);
    lemma_pulsar_2_differs(ox, oy);
}

/// The pentadecathlon one generation on.
///
/// ```text
/// ...
/// OOO
/// O.O
/// OOO
/// OOO
/// OOO
/// OOO
/// O.O
/// OOO
/// ```
spec fn pentadecathlon_1() -> Seq<(usize, usize)> {
    seq![
        (0, 1), (1, 1), (2, 1), (0, 2), (2, 2), (0, 3), (1, 3), (2, 3), (0, 4), (1, 4), (2, 4),
        (0, 5), (1, 5), (2, 5), (0, 6), (1, 6), (2, 6), (0, 7), (2, 7), (0, 8), (1, 8), (2, 8),
    ]
}

/// The pentadecathlon two generations on.
///
/// ```text
/// ..O..
/// .O.O.
/// O...O
/// O...O
/// O...O
/// O...O
/// O...O
/// O...O
/// .O.O.
/// ..O..
/// ```
///
/// The picture starts one column left of the origin, where the offsets count
/// down from `99`.
spec fn pentadecathlon_2() -> Seq<(usize, usize)> {
    seq![
        (1, 0), (0, 1), (2, 1), (99, 2), (3, 2), (99, 3), (3, 3), (99, 4), (3, 4), (99, 5), (3, 5),
        (99, 6), (3, 6), (99, 7), (3, 7), (0, 8), (2, 8), (1, 9),
    ]
}

/// The pentadecathlon three generations on.
///
/// ```text
/// ...O...
/// ..OOO..
/// .OO.OO.
/// OOO.OOO
/// OOO.OOO
/// OOO.OOO
/// OOO.OOO
/// .OO.OO.
/// ..OOO..
/// ...O...
/// ```
///
/// The picture starts two columns left of the origin, where the offsets count
/// down from `99`.
spec fn pentadecathlon_3() -> Seq<(usize, usize)> {
    seq![
        (1, 0), (0, 1), (1, 1), (2, 1), (99, 2), (0, 2), (2, 2), (3, 2), (98, 3), (99, 3), (0, 3),
        (2, 3), (3, 3), (4, 3), (98, 4), (99, 4), (0, 4), (2, 4), (3, 4), (4, 4), (98, 5), (99, 5),
        (0, 5), (2, 5), (3, 5), (4, 5), (98, 6), (99, 6), (0, 6), (2, 6), (3, 6), (4, 6), (99, 7),
        (0, 7), (2, 7), (3, 7), (0, 8), (1, 8), (2, 8), (1, 9),
    ]
}

/// The pentadecathlon four generations on.
///
/// ```text
/// ...OOO...
/// ..O...O..
/// .O.....O.
/// .........
/// O.......O
/// O.......O
/// .........
/// .O.....O.
/// ..O...O..
/// ...OOO...
/// ```
///
/// The picture starts three columns left of the origin, where the offsets
/// count down from `99`.
spec fn pentadecathlon_4() -> Seq<(usize, usize)> {
    seq![
        (0, 0), (1, 0), (2, 0), (99, 1), (3, 1), (98, 2), (4, 2), (97, 4), (5, 4), (97, 5), (5, 5),
        (98, 7), (4, 7), (99, 8), (3, 8), (0, 9), (1, 9), (2, 9),
    ]
}

/// The pentadecathlon five generations on.
///
/// ```text
/// ..O..
/// .OOO.
/// OOOOO
/// .....
/// .....
/// .....
/// .....
/// .....
/// .....
/// OOOOO
/// .OOO.
/// ..O..
/// ```
///
/// The picture starts one column left of and one row above the origin, where
/// the offsets count down from `99`.
spec fn pentadecathlon_5() -> Seq<(usize, usize)> {
    seq![
        (1, 99), (0, 0), (1, 0), (2, 0), (99, 1), (0, 1), (1, 1), (2, 1), (3, 1), (99, 8), (0, 8),
        (1, 8), (2, 8), (3, 8), (0, 9), (1, 9), (2, 9), (1, 10),
    ]
}

/// The pentadecathlon six generations on.
///
/// ```text
/// .OOO.
/// O...O
/// O...O
/// .OOO.
/// .....
/// .....
/// .....
/// .....
/// .OOO.
/// O...O
/// O...O
/// .OOO.
/// ```
///
/// The picture starts one column left of and one row above the origin, where
/// the offsets count down from `99`.
spec fn pentadecathlon_6() -> Seq<(usize, usize)> {
    seq![
        (0, 99), (1, 99), (2, 99), (99, 0), (3, 0), (99, 1), (3, 1), (0, 2), (1, 2), (2, 2), (0, 7),
        (1, 7), (2, 7), (99, 8), (3, 8), (99, 9), (3, 9), (0, 10), (1, 10), (2, 10),
    ]
}

/// The pentadecathlon seven generations on.
///
/// ```text
/// ..O..
/// .OOO.
/// O.O.O
/// O.O.O
/// .OOO.
/// ..O..
/// .....
/// .....
/// ..O..
/// .OOO.
/// O.O.O
/// O.O.O
/// .OOO.
/// ..O..
/// ```
///
/// The picture starts one column left of and two rows above the origin, where
/// the offsets count down from `99`.
spec fn pentadecathlon_7() -> Seq<(usize, usize)> {
    seq![
        (1, 98), (0, 99), (1, 99), (2, 99), (99, 0), (1, 0), (3, 0), (99, 1), (1, 1), (3, 1),
        (0, 2), (1, 2), (2, 2), (1, 3), (1, 6), (0, 7), (1, 7), (2, 7), (99, 8), (1, 8), (3, 8),
        (99, 9), (1, 9), (3, 9), (0, 10), (1, 10), (2, 10), (1, 11),
    ]
}

/// The pentadecathlon eight generations on.
///
/// ```text
/// .OOO.
/// .....
/// O...O
/// O...O
/// .....
/// .OOO.
/// .....
/// .....
/// .OOO.
/// .....
/// O...O
/// O...O
/// .....
/// .OOO.
/// ```
///
/// The picture starts one column left of and two rows above the origin, where
/// the offsets count down from `99`.
spec fn pentadecathlon_8() -> Seq<(usize, usize)> {
    seq![
        (0, 98), (1, 98), (2, 98), (99, 0), (3, 0), (99, 1), (3, 1), (0, 3), (1, 3), (2, 3), (0, 6),
        (1, 6), (2, 6), (99, 8), (3, 8), (99, 9), (3, 9), (0, 11), (1, 11), (2, 11),
    ]
}

/// The pentadecathlon nine generations on.
///
/// ```text
/// .O.
/// .O.
/// OOO
/// ...
/// ...
/// OOO
/// .O.
/// .O.
/// .O.
/// .O.
/// OOO
/// ...
/// ...
/// OOO
/// .O.
/// .O.
/// ```
///
/// The picture starts three rows above the origin, where the offsets count
/// down from `99`.
spec fn pentadecathlon_9() -> Seq<(usize, usize)> {
    seq![
        (1, 97), (1, 98), (0, 99), (1, 99), (2, 99), (0, 2), (1, 2), (2, 2), (1, 3), (1, 4), (1, 5),
        (1, 6), (0, 7), (1, 7), (2, 7), (0, 10), (1, 10), (2, 10), (1, 11), (1, 12),
    ]
}

/// The pentadecathlon ten generations on.
///
/// ```text
/// OOO
/// .O.
/// .O.
/// OOO
/// ...
/// OOO
/// OOO
/// ...
/// OOO
/// .O.
/// .O.
/// OOO
/// ```
///
/// The picture starts one row above the origin, where the offsets count down
/// from `99`.
spec fn pentadecathlon_10() -> Seq<(usize, usize)> {
    seq![
        (0, 99), (1, 99), (2, 99), (1, 0), (1, 1), (0, 2), (1, 2), (2, 2), (0, 4), (1, 4), (2, 4),
        (0, 5), (1, 5), (2, 5), (0, 7), (1, 7), (2, 7), (1, 8), (1, 9), (0, 10), (1, 10), (2, 10),
    ]
}

/// The pentadecathlon eleven generations on.
///
/// ```text
/// .O.
/// OOO
/// ...
/// ...
/// OOO
/// ...
/// O.O
/// O.O
/// ...
/// OOO
/// ...
/// ...
/// OOO
/// .O.
/// ```
///
/// The picture starts two rows above the origin, where the offsets count down
/// from `99`.
spec fn pentadecathlon_11() -> Seq<(usize, usize)> {
    seq![
        (1, 98), (0, 99), (1, 99), (2, 99), (0, 2), (1, 2), (2, 2), (0, 4), (2, 4), (0, 5), (2, 5),
        (0, 7), (1, 7), (2, 7), (0, 10), (1, 10), (2, 10), (1, 11),
    ]
}

/// The pentadecathlon twelve generations on.
///
/// ```text
/// OOO
/// OOO
/// .O.
/// .O.
/// .O.
/// O.O
/// ...
/// ...
/// O.O
/// .O.
/// .O.
/// .O.
/// OOO
/// OOO
/// ```
///
/// The picture starts two rows above the origin, where the offsets count down
/// from `99`.
spec fn pentadecathlon_12() -> Seq<(usize, usize)> {
    seq![
        (0, 98), (1, 98), (2, 98), (0, 99), (1, 99), (2, 99), (1, 0), (1, 1), (1, 2), (0, 3),
        (2, 3), (0, 6), (2, 6), (1, 7), (1, 8), (1, 9), (0, 10), (1, 10), (2, 10), (0, 11), (1, 11),
        (2, 11),
    ]
}

/// The pentadecathlon thirteen generations on.
///
/// ```text
/// .O.
/// O.O
/// ...
/// ...
/// OOO
/// OOO
/// .O.
/// ...
/// ...
/// .O.
/// OOO
/// OOO
/// ...
/// ...
/// O.O
/// .O.
/// ```
///
/// The picture starts three rows above the origin, where the offsets count
/// down from `99`.
spec fn pentadecathlon_13() -> Seq<(usize, usize)> {
    seq![
        (1, 97), (0, 98), (2, 98), (0, 1), (1, 1), (2, 1), (0, 2), (1, 2), (2, 2), (1, 3), (1, 6),
        (0, 7), (1, 7), (2, 7), (0, 8), (1, 8), (2, 8), (0, 11), (2, 11), (1, 12),
    ]
}

/// The pentadecathlon fourteen generations on.
///
/// ```text
/// .O.
/// .O.
/// ...
/// .O.
/// O.O
/// ...
/// OOO
/// ...
/// ...
/// OOO
/// ...
/// O.O
/// .O.
/// ...
/// .O.
/// .O.
/// ```
///
/// The picture starts three rows above the origin, where the offsets count
/// down from `99`.
spec fn pentadecathlon_14() -> Seq<(usize, usize)> {
    seq![
        (1, 97), (1, 98), (1, 0), (0, 1), (2, 1), (0, 3), (1, 3), (2, 3), (0, 6), (1, 6), (2, 6),
        (0, 8), (2, 8), (1, 9), (1, 11), (1, 12),
    ]
}

/// The offsets that the pentadecathlon lists.
proof fn lemma_pentadecathlon_offsets()
    ensures
        fits(PENTA_DECATHLON@),
        forall|u: int, v: int|
            #[trigger] lists(PENTA_DECATHLON@, u, v) <==> (
                (0 <= v <= 1 || 3 <= v <= 6 || 8 <= v <= 9) && u == 1
                || (v == 2 || v == 7) && (u == 0 || u == 2)
            ),
{
    let p = PENTA_DECATHLON@;
    assert(p[0] == (1usize, 0usize));
    assert(p[1] == (1usize, 1usize));
    assert(p[2] == (0usize, 2usize));
    assert(p[3] == (2usize, 2usize));
    assert(p[4] == (1usize, 3usize));
    assert(p[5] == (1usize, 4usize));
    assert(p[6] == (1usize, 5usize));
    assert(p[7] == (1usize, 6usize));
    assert(p[8] == (0usize, 7usize));
    assert(p[9] == (2usize, 7usize));
    assert(p[10] == (1usize, 8usize));
    assert(p[11] == (1usize, 9usize));
}

/// The offsets that the pentadecathlon, one generation on, lists.
proof fn lemma_pentadecathlon_1_offsets()
    ensures
        fits(pentadecathlon_1()),
        forall|u: int, v: int|
            #[trigger] lists(pentadecathlon_1(), u, v) <==> (
                (v == 1 || 3 <= v <= 6 || v == 8) && 0 <= u <= 2
                || (v == 2 || v == 7) && (u == 0 || u == 2)
            ),
{
    let p = pentadecathlon_1();
    assert(p[0] == (0usize, 1usize));
    assert(p[1] == (1usize, 1usize));
    assert(p[2] == (2usize, 1usize));
    assert(p[3] == (0usize, 2usize));
    assert(p[4] == (2usize, 2usize));
    assert(p[5] == (0usize, 3usize));
    assert(p[6] == (1usize, 3usize));
    assert(p[7] == (2usize, 3usize));
    assert(p[8] == (0usize, 4usize));
    assert(p[9] == (1usize, 4usize));
    assert(p[10] == (2usize, 4usize));
    assert(p[11] == (0usize, 5usize));
    assert(p[12] == (1usize, 5usize));
    assert(p[13] == (2usize, 5usize));
    assert(p[14] == (0usize, 6usize));
    assert(p[15] == (1usize, 6usize));
    assert(p[16] == (2usize, 6usize));
    assert(p[17] == (0usize, 7usize));
    assert(p[18] == (2usize, 7usize));
    assert(p[19] == (0usize, 8usize));
    assert(p[20] == (1usize, 8usize));
    assert(p[21] == (2usize, 8usize));
}

/// The offsets that the pentadecathlon, two generations on, lists.
proof fn lemma_pentadecathlon_2_offsets()
    ensures
        fits(pentadecathlon_2()),
        forall|u: int, v: int|
            #[trigger] lists(pentadecathlon_2(), u, v) <==> (
                (v == 0 || v == 9) && u == 1
                || (v == 1 || v == 8) && (u == 0 || u == 2)
                || 2 <= v <= 7 && (u == 3 || u == 99)
            ),
{
    let p = pentadecathlon_2();
    assert(p[0] == (1usize, 0usize));
    assert(p[1] == (0usize, 1usize));
    assert(p[2] == (2usize, 1usize));
    assert(p[3] == (99usize, 2usize));
    assert(p[4] == (3usize, 2usize));
    assert(p[5] == (99usize, 3usize));
    assert(p[6] == (3usize, 3usize));
    assert(p[7] == (99usize, 4usize));
    assert(p[8] == (3usize, 4usize));
    assert(p[9] == (99usize, 5usize));
    assert(p[10] == (3usize, 5usize));
    assert(p[11] == (99usize, 6usize));
    assert(p[12] == (3usize, 6usize));
    assert(p[13] == (99usize, 7usize));
    assert(p[14] == (3usize, 7usize));
    assert(p[15] == (0usize, 8usize));
    assert(p[16] == (2usize, 8usize));
    assert(p[17] == (1usize, 9usize));
}

/// The offsets that the pentadecathlon, three generations on, lists.
proof fn lemma_pentadecathlon_3_offsets()
    ensures
        fits(pentadecathlon_3()),
        forall|u: int, v: int|
            #[trigger] lists(pentadecathlon_3(), u, v) <==> (
                (v == 0 || v == 9) && u == 1
                || (v == 1 || v == 8) && 0 <= u <= 2
                || (v == 2 || v == 7) && (u == 0 || 2 <= u <= 3 || u == 99)
                || 3 <= v <= 6 && (u == 0 || 2 <= u <= 4 || 98 <= u <= 99)
            ),
{
    let p = pentadecathlon_3();
    assert(p[0] == (1usize, 0usize));
    assert(p[1] == (0usize, 1usize));
    assert(p[2] == (1usize, 1usize));
    assert(p[3] == (2usize, 1usize));
    assert(p[4] == (99usize, 2usize));
    assert(p[5] == (0usize, 2usize));
    assert(p[6] == (2usize, 2usize));
    assert(p[7] == (3usize, 2usize));
    assert(p[8] == (98usize, 3usize));
    assert(p[9] == (99usize, 3usize));
    assert(p[10] == (0usize, 3usize));
    assert(p[11] == (2usize, 3usize));
    assert(p[12] == (3usize, 3usize));
    assert(p[13] == (4usize, 3usize));
    assert(p[14] == (98usize, 4usize));
    assert(p[15] == (99usize, 4usize));
    assert(p[16] == (0usize, 4usize));
    assert(p[17] == (2usize, 4usize));
    assert(p[18] == (3usize, 4usize));
    assert(p[19] == (4usize, 4usize));
    assert(p[20] == (98usize, 5usize));
    assert(p[21] == (99usize, 5usize));
    assert(p[22] == (0usize, 5usize));
    assert(p[23] == (2usize, 5usize));
    assert(p[24] == (3usize, 5usize));
    assert(p[25] == (4usize, 5usize));
    assert(p[26] == (98usize, 6usize));
    assert(p[27] == (99usize, 6usize));
    assert(p[28] == (0usize, 6usize));
    assert(p[29] == (2usize, 6usize));
    assert(p[30] == (3usize, 6usize));
    assert(p[31] == (4usize, 6usize));
    assert(p[32] == (99usize, 7usize));
    assert(p[33] == (0usize, 7usize));
    assert(p[34] == (2usize, 7usize));
    assert(p[35] == (3usize, 7usize));
    assert(p[36] == (0usize, 8usize));
    assert(p[37] == (1usize, 8usize));
    assert(p[38] == (2usize, 8usize));
    assert(p[39] == (1usize, 9usize));
}

/// The offsets that the pentadecathlon, four generations on, lists.
proof fn lemma_pentadecathlon_4_offsets()
    ensures
        fits(pentadecathlon_4()),
        forall|u: int, v: int|
            #[trigger] lists(pentadecathlon_4(), u, v) <==> (
                (v == 0 || v == 9) && 0 <= u <= 2
                || (v == 1 || v == 8) && (u == 3 || u == 99)
                || (v == 2 || v == 7) && (u == 4 || u == 98)
                || 4 <= v <= 5 && (u == 5 || u == 97)
            ),
{
    let p = pentadecathlon_4();
    assert(p[0] == (0usize, 0usize));
    assert(p[1] == (1usize, 0usize));
    assert(p[2] == (2usize, 0usize));
    assert(p[3] == (99usize, 1usize));
    assert(p[4] == (3usize, 1usize));
    assert(p[5] == (98usize, 2usize));
    assert(p[6] == (4usize, 2usize));
    assert(p[7] == (97usize, 4usize));
    assert(p[8] == (5usize, 4usize));
    assert(p[9] == (97usize, 5usize));
    assert(p[10] == (5usize, 5usize));
    assert(p[11] == (98usize, 7usize));
    assert(p[12] == (4usize, 7usize));
    assert(p[13] == (99usize, 8usize));
    assert(p[14] == (3usize, 8usize));
    assert(p[15] == (0usize, 9usize));
    assert(p[16] == (1usize, 9usize));
    assert(p[17] == (2usize, 9usize));
}

/// The offsets that the pentadecathlon, five generations on, lists.
proof fn lemma_pentadecathlon_5_offsets()
    ensures
        fits(pentadecathlon_5()),
        forall|u: int, v: int|
            #[trigger] lists(pentadecathlon_5(), u, v) <==> (
                (v == 10 || v == 99) && u == 1
                || (v == 0 || v == 9) && 0 <= u <= 2
                || (v == 1 || v == 8) && (0 <= u <= 3 || u == 99)
            ),
{
    let p = pentadecathlon_5();
    assert(p[0] == (1usize, 99usize));
    assert(p[1] == (0usize, 0usize));
    assert(p[2] == (1usize, 0usize));
    assert(p[3] == (2usize, 0usize));
    assert(p[4] == (99usize, 1usize));
    assert(p[5] == (0usize, 1usize));
    assert(p[6] == (1usize, 1usize));
    assert(p[7] == (2usize, 1usize));
    assert(p[8] == (3usize, 1usize));
    assert(p[9] == (99usize, 8usize));
    assert(p[10] == (0usize, 8usize));
    assert(p[11] == (1usize, 8usize));
    assert(p[12] == (2usize, 8usize));
    assert(p[13] == (3usize, 8usize));
    assert(p[14] == (0usize, 9usize));
    assert(p[15] == (1usize, 9usize));
    assert(p[16] == (2usize, 9usize));
    assert(p[17] == (1usize, 10usize));
}

/// The offsets that the pentadecathlon, six generations on, lists.
proof fn lemma_pentadecathlon_6_offsets()
    ensures
        fits(pentadecathlon_6()),
        forall|u: int, v: int|
            #[trigger] lists(pentadecathlon_6(), u, v) <==> (
                (v == 2 || v == 7 || v == 10 || v == 99) && 0 <= u <= 2
                || (0 <= v <= 1 || 8 <= v <= 9) && (u == 3 || u == 99)
            ),
{
    let p = pentadecathlon_6();
    assert(p[0] == (0usize, 99usize));
    assert(p[1] == (1usize, 99usize));
    assert(p[2] == (2usize, 99usize));
    assert(p[3] == (99usize, 0usize));
    assert(p[4] == (3usize, 0usize));
    assert(p[5] == (99usize, 1usize));
    assert(p[6] == (3usize, 1usize));
    assert(p[7] == (0usize, 2usize));
    assert(p[8] == (1usize, 2usize));
    assert(p[9] == (2usize, 2usize));
    assert(p[10] == (0usize, 7usize));
    assert(p[11] == (1usize, 7usize));
    assert(p[12] == (2usize, 7usize));
    assert(p[13] == (99usize, 8usize));
    assert(p[14] == (3usize, 8usize));
    assert(p[15] == (99usize, 9usize));
    assert(p[16] == (3usize, 9usize));
    assert(p[17] == (0usize, 10usize));
    assert(p[18] == (1usize, 10usize));
    assert(p[19] == (2usize, 10usize));
}

/// The offsets that the pentadecathlon, seven generations on, lists.
proof fn lemma_pentadecathlon_7_offsets()
    ensures
        fits(pentadecathlon_7()),
        forall|u: int, v: int|
            #[trigger] lists(pentadecathlon_7(), u, v) <==> (
                (v == 3 || v == 6 || v == 11 || v == 98) && u == 1
                || (v == 2 || v == 7 || v == 10 || v == 99) && 0 <= u <= 2
                || (0 <= v <= 1 || 8 <= v <= 9) && (u == 1 || u == 3 || u == 99)
            ),
{
    let p = pentadecathlon_7();
    assert(p[0] == (1usize, 98usize));
    assert(p[1] == (0usize, 99usize));
    assert(p[2] == (1usize, 99usize));
    assert(p[3] == (2usize, 99usize));
    assert(p[4] == (99usize, 0usize));
    assert(p[5] == (1usize, 0usize));
    assert(p[6] == (3usize, 0usize));
    assert(p[7] == (99usize, 1usize));
    assert(p[8] == (1usize, 1usize));
    assert(p[9] == (3usize, 1usize));
    assert(p[10] == (0usize, 2usize));
    assert(p[11] == (1usize, 2usize));
    assert(p[12] == (2usize, 2usize));
    assert(p[13] == (1usize, 3usize));
    assert(p[14] == (1usize, 6usize));
    assert(p[15] == (0usize, 7usize));
    assert(p[16] == (1usize, 7usize));
    assert(p[17] == (2usize, 7usize));
    assert(p[18] == (99usize, 8usize));
    assert(p[19] == (1usize, 8usize));
    assert(p[20] == (3usize, 8usize));
    assert(p[21] == (99usize, 9usize));
    assert(p[22] == (1usize, 9usize));
    assert(p[23] == (3usize, 9usize));
    assert(p[24] == (0usize, 10usize));
    assert(p[25] == (1usize, 10usize));
    assert(p[26] == (2usize, 10usize));
    assert(p[27] == (1usize, 11usize));
}

/// The offsets that the pentadecathlon, eight generations on, lists.
proof fn lemma_pentadecathlon_8_offsets()
    ensures
        fits(pentadecathlon_8()),
        forall|u: int, v: int|
            #[trigger] lists(pentadecathlon_8(), u, v) <==> (
                (v == 3 || v == 6 || v == 11 || v == 98) && 0 <= u <= 2
                || (0 <= v <= 1 || 8 <= v <= 9) && (u == 3 || u == 99)
            ),
{
    let p = pentadecathlon_8();
    assert(p[0] == (0usize, 98usize));
    assert(p[1] == (1usize, 98usize));
    assert(p[2] == (2usize, 98usize));
    assert(p[3] == (99usize, 0usize));
    assert(p[4] == (3usize, 0usize));
    assert(p[5] == (99usize, 1usize));
    assert(p[6] == (3usize, 1usize));
    assert(p[7] == (0usize, 3usize));
    assert(p[8] == (1usize, 3usize));
    assert(p[9] == (2usize, 3usize));
    assert(p[10] == (0usize, 6usize));
    assert(p[11] == (1usize, 6usize));
    assert(p[12] == (2usize, 6usize));
    assert(p[13] == (99usize, 8usize));
    assert(p[14] == (3usize, 8usize));
    assert(p[15] == (99usize, 9usize));
    assert(p[16] == (3usize, 9usize));
    assert(p[17] == (0usize, 11usize));
    assert(p[18] == (1usize, 11usize));
    assert(p[19] == (2usize, 11usize));
}

/// The offsets that the pentadecathlon, nine generations on, lists.
proof fn lemma_pentadecathlon_9_offsets()
    ensures
        fits(pentadecathlon_9()),
        forall|u: int, v: int|
            #[trigger] lists(pentadecathlon_9(), u, v) <==> (
                (3 <= v <= 6 || 11 <= v <= 12 || 97 <= v <= 98) && u == 1
                || (v == 2 || v == 7 || v == 10 || v == 99) && 0 <= u <= 2
            ),
{
    let p = pentadecathlon_9();
    assert(p[0] == (1usize, 97usize));
    assert(p[1] == (1usize, 98usize));
    assert(p[2] == (0usize, 99usize));
    assert(p[3] == (1usize, 99usize));
    assert(p[4] == (2usize, 99usize));
    assert(p[5] == (0usize, 2usize));
    assert(p[6] == (1usize, 2usize));
    assert(p[7] == (2usize, 2usize));
    assert(p[8] == (1usize, 3usize));
    assert(p[9] == (1usize, 4usize));
    assert(p[10] == (1usize, 5usize));
    assert(p[11] == (1usize, 6usize));
    assert(p[12] == (0usize, 7usize));
    assert(p[13] == (1usize, 7usize));
    assert(p[14] == (2usize, 7usize));
    assert(p[15] == (0usize, 10usize));
    assert(p[16] == (1usize, 10usize));
    assert(p[17] == (2usize, 10usize));
    assert(p[18] == (1usize, 11usize));
    assert(p[19] == (1usize, 12usize));
}

/// The offsets that the pentadecathlon, ten generations on, lists.
proof fn lemma_pentadecathlon_10_offsets()
    ensures
        fits(pentadecathlon_10()),
        forall|u: int, v: int|
            #[trigger] lists(pentadecathlon_10(), u, v) <==> (
                (v == 2 || 4 <= v <= 5 || v == 7 || v == 10 || v == 99) && 0 <= u <= 2
                || (0 <= v <= 1 || 8 <= v <= 9) && u == 1
            ),
{
    let p = pentadecathlon_10();
    assert(p[0] == (0usize, 99usize));
    assert(p[1] == (1usize, 99usize));
    assert(p[2] == (2usize, 99usize));
    assert(p[3] == (1usize, 0usize));
    assert(p[4] == (1usize, 1usize));
    assert(p[5] == (0usize, 2usize));
    assert(p[6] == (1usize, 2usize));
    assert(p[7] == (2usize, 2usize));
    assert(p[8] == (0usize, 4usize));
    assert(p[9] == (1usize, 4usize));
    assert(p[10] == (2usize, 4usize));
    assert(p[11] == (0usize, 5usize));
    assert(p[12] == (1usize, 5usize));
    assert(p[13] == (2usize, 5usize));
    assert(p[14] == (0usize, 7usize));
    assert(p[15] == (1usize, 7usize));
    assert(p[16] == (2usize, 7usize));
    assert(p[17] == (1usize, 8usize));
    assert(p[18] == (1usize, 9usize));
    assert(p[19] == (0usize, 10usize));
    assert(p[20] == (1usize, 10usize));
    assert(p[21] == (2usize, 10usize));
}

/// The offsets that the pentadecathlon, eleven generations on, lists.
proof fn lemma_pentadecathlon_11_offsets()
    ensures
        fits(pentadecathlon_11()),
        forall|u: int, v: int|
            #[trigger] lists(pentadecathlon_11(), u, v) <==> (
                (v == 11 || v == 98) && u == 1
                || (v == 2 || v == 7 || v == 10 || v == 99) && 0 <= u <= 2
                || 4 <= v <= 5 && (u == 0 || u == 2)
            ),
{
    let p = pentadecathlon_11();
    assert(p[0] == (1usize, 98usize));
    assert(p[1] == (0usize, 99usize));
    assert(p[2] == (1usize, 99usize));
    assert(p[3] == (2usize, 99usize));
    assert(p[4] == (0usize, 2usize));
    assert(p[5] == (1usize, 2usize));
    assert(p[6] == (2usize, 2usize));
    assert(p[7] == (0usize, 4usize));
    assert(p[8] == (2usize, 4usize));
    assert(p[9] == (0usize, 5usize));
    assert(p[10] == (2usize, 5usize));
    assert(p[11] == (0usize, 7usize));
    assert(p[12] == (1usize, 7usize));
    assert(p[13] == (2usize, 7usize));
    assert(p[14] == (0usize, 10usize));
    assert(p[15] == (1usize, 10usize));
    assert(p[16] == (2usize, 10usize));
    assert(p[17] == (1usize, 11usize));
}

/// The offsets that the pentadecathlon, twelve generations on, lists.
proof fn lemma_pentadecathlon_12_offsets()
    ensures
        fits(pentadecathlon_12()),
        forall|u: int, v: int|
            #[trigger] lists(pentadecathlon_12(), u, v) <==> (
                (10 <= v <= 11 || 98 <= v <= 99) && 0 <= u <= 2
                || (0 <= v <= 2 || 7 <= v <= 9) && u == 1
                || (v == 3 || v == 6) && (u == 0 || u == 2)
            ),
{
    let p = pentadecathlon_12();
    assert(p[0] == (0usize, 98usize));
    assert(p[1] == (1usize, 98usize));
    assert(p[2] == (2usize, 98usize));
    assert(p[3] == (0usize, 99usize));
    assert(p[4] == (1usize, 99usize));
    assert(p[5] == (2usize, 99usize));
    assert(p[6] == (1usize, 0usize));
    assert(p[7] == (1usize, 1usize));
    assert(p[8] == (1usize, 2usize));
    assert(p[9] == (0usize, 3usize));
    assert(p[10] == (2usize, 3usize));
    assert(p[11] == (0usize, 6usize));
    assert(p[12] == (2usize, 6usize));
    assert(p[13] == (1usize, 7usize));
    assert(p[14] == (1usize, 8usize));
    assert(p[15] == (1usize, 9usize));
    assert(p[16] == (0usize, 10usize));
    assert(p[17] == (1usize, 10usize));
    assert(p[18] == (2usize, 10usize));
    assert(p[19] == (0usize, 11usize));
    assert(p[20] == (1usize, 11usize));
    assert(p[21] == (2usize, 11usize));
}

/// The offsets that the pentadecathlon, thirteen generations on, lists.
proof fn lemma_pentadecathlon_13_offsets()
    ensures
        fits(pentadecathlon_13()),
        forall|u: int, v: int|
            #[trigger] lists(pentadecathlon_13(), u, v) <==> (
                (v == 3 || v == 6 || v == 12 || v == 97) && u == 1
                || (v == 11 || v == 98) && (u == 0 || u == 2)
                || (1 <= v <= 2 || 7 <= v <= 8) && 0 <= u <= 2
            ),
{
    let p = pentadecathlon_13();
    assert(p[0] == (1usize, 97usize));
    assert(p[1] == (0usize, 98usize));
    assert(p[2] == (2usize, 98usize));
    assert(p[3] == (0usize, 1usize));
    assert(p[4] == (1usize, 1usize));
    assert(p[5] == (2usize, 1usize));
    assert(p[6] == (0usize, 2usize));
    assert(p[7] == (1usize, 2usize));
    assert(p[8] == (2usize, 2usize));
    assert(p[9] == (1usize, 3usize));
    assert(p[10] == (1usize, 6usize));
    assert(p[11] == (0usize, 7usize));
    assert(p[12] == (1usize, 7usize));
    assert(p[13] == (2usize, 7usize));
    assert(p[14] == (0usize, 8usize));
    assert(p[15] == (1usize, 8usize));
    assert(p[16] == (2usize, 8usize));
    assert(p[17] == (0usize, 11usize));
    assert(p[18] == (2usize, 11usize));
    assert(p[19] == (1usize, 12usize));
}

/// The offsets that the pentadecathlon, fourteen generations on, lists.
proof fn lemma_pentadecathlon_14_offsets()
    ensures
        fits(pentadecathlon_14()),
        forall|u: int, v: int|
            #[trigger] lists(pentadecathlon_14(), u, v) <==> (
                (v == 0 || v == 9 || 11 <= v <= 12 || 97 <= v <= 98) && u == 1
                || (v == 1 || v == 8) && (u == 0 || u == 2)
                || (v == 3 || v == 6) && 0 <= u <= 2
            ),
{
    let p = pentadecathlon_14();
    assert(p[0] == (1usize, 97usize));
    assert(p[1] == (1usize, 98usize));
    assert(p[2] == (1usize, 0usize));
    assert(p[3] == (0usize, 1usize));
    assert(p[4] == (2usize, 1usize));
    assert(p[5] == (0usize, 3usize));
    assert(p[6] == (1usize, 3usize));
    assert(p[7] == (2usize, 3usize));
    assert(p[8] == (0usize, 6usize));
    assert(p[9] == (1usize, 6usize));
    assert(p[10] == (2usize, 6usize));
    assert(p[11] == (0usize, 8usize));
    assert(p[12] == (2usize, 8usize));
    assert(p[13] == (1usize, 9usize));
    assert(p[14] == (1usize, 11usize));
    assert(p[15] == (1usize, 12usize));
}

/// The first generation of the pentadecathlon.
proof fn lemma_pentadecathlon_generation_1()
    ensures
        fits(PENTA_DECATHLON@),
        fits(pentadecathlon_1()),
        evolves(PENTA_DECATHLON@, pentadecathlon_1()),
{
    lemma_pentadecathlon_offsets();
    lemma_pentadecathlon_1_offsets();
}

/// The second generation of the pentadecathlon.
proof fn lemma_pentadecathlon_generation_2()
    ensures
        fits(pentadecathlon_1()),
        fits(pentadecathlon_2()),
        evolves(pentadecathlon_1(), pentadecathlon_2()),
{
    lemma_pentadecathlon_1_offsets();
    lemma_pentadecathlon_2_offsets();
}

/// The third generation of the pentadecathlon.
proof fn lemma_pentadecathlon_generation_3()
    ensures
        fits(pentadecathlon_2()),
        fits(pentadecathlon_3()),
        evolves(pentadecathlon_2(), pentadecathlon_3()),
{
    lemma_pentadecathlon_2_offsets();
    lemma_pentadecathlon_3_offsets();
}

/// The fourth generation of the pentadecathlon.
proof fn lemma_pentadecathlon_generation_4()
    ensures
        fits(pentadecathlon_3()),
        fits(pentadecathlon_4()),
        evolves(pentadecathlon_3(), pentadecathlon_4()),
{
    lemma_pentadecathlon_3_offsets();
    lemma_pentadecathlon_4_offsets();
}

/// The fifth generation of the pentadecathlon.
proof fn lemma_pentadecathlon_generation_5()
    ensures
        fits(pentadecathlon_4()),
        fits(pentadecathlon_5()),
        evolves(pentadecathlon_4(), pentadecathlon_5()),
{
    lemma_pentadecathlon_4_offsets();
    lemma_pentadecathlon_5_offsets();
}

/// The sixth generation of the pentadecathlon.
proof fn lemma_pentadecathlon_generation_6()
    ensures
        fits(pentadecathlon_5()),
        fits(pentadecathlon_6()),
        evolves(pentadecathlon_5(), pentadecathlon_6()),
{
    lemma_pentadecathlon_5_offsets();
    lemma_pentadecathlon_6_offsets();
}

/// The seventh generation of the pentadecathlon.
proof fn lemma_pentadecathlon_generation_7()
    ensures
        fits(pentadecathlon_6()),
        fits(pentadecathlon_7()),
        evolves(pentadecathlon_6(), pentadecathlon_7()),
{
    lemma_pentadecathlon_6_offsets();
    lemma_pentadecathlon_7_offsets();
}

/// The eighth generation of the pentadecathlon.
proof fn lemma_pentadecathlon_generation_8()
    ensures
        fits(pentadecathlon_7()),
        fits(pentadecathlon_8()),
        evolves(pentadecathlon_7(), pentadecathlon_8()),
{
    lemma_pentadecathlon_7_offsets();
    lemma_pentadecathlon_8_offsets();
}

/// The ninth generation of the pentadecathlon.
proof fn lemma_pentadecathlon_generation_9()
    ensures
        fits(pentadecathlon_8()),
        fits(pentadecathlon_9()),
        evolves(pentadecathlon_8(), pentadecathlon_9()),
{
    lemma_pentadecathlon_8_offsets();
    lemma_pentadecathlon_9_offsets();
}

/// The tenth generation of the pentadecathlon.
proof fn lemma_pentadecathlon_generation_10()
    ensures
        fits(pentadecathlon_9()),
        fits(pentadecathlon_10()),
        evolves(pentadecathlon_9(), pentadecathlon_10()),
{
    lemma_pentadecathlon_9_offsets();
    lemma_pentadecathlon_10_offsets();
}

/// The eleventh generation of the pentadecathlon.
proof fn lemma_pentadecathlon_generation_11()
    ensures
        fits(pentadecathlon_10()),
        fits(pentadecathlon_11()),
        evolves(pentadecathlon_10(), pentadecathlon_11()),
{
    lemma_pentadecathlon_10_offsets();
    lemma_pentadecathlon_11_offsets();
}

/// The twelfth generation of the pentadecathlon.
proof fn lemma_pentadecathlon_generation_12()
    ensures
        fits(pentadecathlon_11()),
        fits(pentadecathlon_12()),
        evolves(pentadecathlon_11(), pentadecathlon_12()),
{
    lemma_pentadecathlon_11_offsets();
    lemma_pentadecathlon_12_offsets();
}

/// The thirteenth generation of the pentadecathlon.
proof fn lemma_pentadecathlon_generation_13()
    ensures
        fits(pentadecathlon_12()),
        fits(pentadecathlon_13()),
        evolves(pentadecathlon_12(), pentadecathlon_13()),
{
    lemma_pentadecathlon_12_offsets();
    lemma_pentadecathlon_13_offsets();
}

/// The fourteenth generation of the pentadecathlon.
proof fn lemma_pentadecathlon_generation_14()
    ensures
        fits(pentadecathlon_13()),
        fits(pentadecathlon_14()),
        evolves(pentadecathlon_13(), pentadecathlon_14()),
{
    lemma_pentadecathlon_13_offsets();
    lemma_pentadecathlon_14_offsets();
}

/// The fifteenth generation of the pentadecathlon.
proof fn lemma_pentadecathlon_generation_15()
    ensures
        fits(pentadecathlon_14()),
        fits(PENTA_DECATHLON@),
        evolves(pentadecathlon_14(), PENTA_DECATHLON@),
{
    lemma_pentadecathlon_14_offsets();
    lemma_pentadecathlon_offsets();
}

/// What the pentadecathlon, placed alone, has become after each generation of
/// one round.
proof fn lemma_pentadecathlon_generations(ox: int, oy: int)
    ensures
        generations(alone(PENTA_DECATHLON@, ox, oy), 1) == alone(pentadecathlon_1(), ox, oy),
        generations(alone(PENTA_DECATHLON@, ox, oy), 2) == alone(pentadecathlon_2(), ox, oy),
        generations(alone(PENTA_DECATHLON@, ox, oy), 3) == alone(pentadecathlon_3(), ox, oy),
        generations(alone(PENTA_DECATHLON@, ox, oy), 4) == alone(pentadecathlon_4(), ox, oy),
        generations(alone(PENTA_DECATHLON@, ox, oy), 5) == alone(pentadecathlon_5(), ox, oy),
        generations(alone(PENTA_DECATHLON@, ox, oy), 6) == alone(pentadecathlon_6(), ox, oy),
        generations(alone(PENTA_DECATHLON@, ox, oy), 7) == alone(pentadecathlon_7(), ox, oy),
        generations(alone(PENTA_DECATHLON@, ox, oy), 8) == alone(pentadecathlon_8(), ox, oy),
        generations(alone(PENTA_DECATHLON@, ox, oy), 9) == alone(pentadecathlon_9(), ox, oy),
        generations(alone(PENTA_DECATHLON@, ox, oy), 10) == alone(pentadecathlon_10(), ox, oy),
        generations(alone(PENTA_DECATHLON@, ox, oy), 11) == alone(pentadecathlon_11(), ox, oy),
        generations(alone(PENTA_DECATHLON@, ox, oy), 12) == alone(pentadecathlon_12(), ox, oy),
        generations(alone(PENTA_DECATHLON@, ox, oy), 13) == alone(pentadecathlon_13(), ox, oy),
        generations(alone(PENTA_DECATHLON@, ox, oy), 14) == alone(pentadecathlon_14(), ox, oy),
        generations(alone(PENTA_DECATHLON@, ox, oy), 15) == alone(PENTA_DECATHLON@, ox, oy),
{
    let start = alone(PENTA_DECATHLON@, ox, oy);
    lemma_pentadecathlon_generation_1();
    evolution_holds_at_every_origin(PENTA_DECATHLON@, pentadecathlon_1(), ox, oy);
    assert(generations(start, 1) == next_generation(generations(start, 0)));
    lemma_pentadecathlon_generation_2();
    evolution_holds_at_every_origin(pentadecathlon_1(), pentadecathlon_2(), ox, oy);
    assert(generations(start, 2) == next_generation(generations(start, 1)));
    lemma_pentadecathlon_generation_3();
    evolution_holds_at_every_origin(pentadecathlon_2(), pentadecathlon_3(), ox, oy);
    assert(generations(start, 3) == next_generation(generations(start, 2)));
    lemma_pentadecathlon_generation_4();
    evolution_holds_at_every_origin(pentadecathlon_3(), pentadecathlon_4(), ox, oy);
    assert(generations(start, 4) == next_generation(generations(start, 3)));
    lemma_pentadecathlon_generation_5();
    evolution_holds_at_every_origin(pentadecathlon_4(), pentadecathlon_5(), ox, oy);
    assert(generations(start, 5) == next_generation(generations(start, 4)));
    lemma_pentadecathlon_generation_6();
    evolution_holds_at_every_origin(pentadecathlon_5(), pentadecathlon_6(), ox, oy);
    assert(generations(start, 6) == next_generation(generations(start, 5)));
    lemma_pentadecathlon_generation_7();
    evolution_holds_at_every_origin(pentadecathlon_6(), pentadecathlon_7(), ox, oy);
    assert(generations(start, 7) == next_generation(generations(start, 6)));
    lemma_pentadecathlon_generation_8();
    evolution_holds_at_every_origin(pentadecathlon_7(), pentadecathlon_8(), ox, oy);
    assert(generations(start, 8) == next_generation(generations(start, 7)));
    lemma_pentadecathlon_generation_9();
    evolution_holds_at_every_origin(pentadecathlon_8(), pentadecathlon_9(), ox, oy);
    assert(generations(start, 9) == next_generation(generations(start, 8)));
    lemma_pentadecathlon_generation_10();
    evolution_holds_at_every_origin(pentadecathlon_9(), pentadecathlon_10(), ox, oy);
    assert(generations(start, 10) == next_generation(generations(start, 9)));
    lemma_pentadecathlon_generation_11();
    evolution_holds_at_every_origin(pentadecathlon_10(), pentadecathlon_11(), ox, oy);
    assert(generations(start, 11) == next_generation(generations(start, 10)));
    lemma_pentadecathlon_generation_12();
    evolution_holds_at_every_origin(pentadecathlon_11(), pentadecathlon_12(), ox, oy);
    assert(generations(start, 12) == next_generation(generations(start, 11)));
    lemma_pentadecathlon_generation_13();
    evolution_holds_at_every_origin(pentadecathlon_12(), pentadecathlon_13(), ox, oy);
    assert(generations(start, 13) == next_generation(generations(start, 12)));
    lemma_pentadecathlon_generation_14();
    evolution_holds_at_every_origin(pentadecathlon_13(), pentadecathlon_14(), ox, oy);
    assert(generations(start, 14) == next_generation(generations(start, 13)));
    lemma_pentadecathlon_generation_15();
    evolution_holds_at_every_origin(pentadecathlon_14(), PENTA_DECATHLON@, ox, oy);
    assert(generations(start, 15) == next_generation(generations(start, 14)));
}

/// One generation on, the pentadecathlon is not what it was at first.
proof fn lemma_pentadecathlon_1_differs(ox: int, oy: int)
    ensures
        alone(pentadecathlon_1(), ox, oy) != alone(PENTA_DECATHLON@, ox, oy),
{
    lemma_pentadecathlon_offsets();
    lemma_pentadecathlon_1_offsets();
    different_patterns_are_different_grids(pentadecathlon_1(), PENTA_DECATHLON@, 1, 0, ox, oy);
}

/// Two generations on, the pentadecathlon is not what it was at first.
proof fn lemma_pentadecathlon_2_differs(ox: int, oy: int)
    ensures
        alone(pentadecathlon_2(), ox, oy) != alone(PENTA_DECATHLON@, ox, oy),
{
    lemma_pentadecathlon_offsets();
    lemma_pentadecathlon_2_offsets();
    different_patterns_are_different_grids(pentadecathlon_2(), PENTA_DECATHLON@, 0, 1, ox, oy);
}

/// Three generations on, the pentadecathlon is not what it was at first.
proof fn lemma_pentadecathlon_3_differs(ox: int, oy: int)
    ensures
        alone(pentadecathlon_3(), ox, oy) != alone(PENTA_DECATHLON@, ox, oy),
{
    lemma_pentadecathlon_offsets();
    lemma_pentadecathlon_3_offsets();
    different_patterns_are_different_grids(pentadecathlon_3(), PENTA_DECATHLON@, 0, 1, ox, oy);
}

/// Four generations on, the pentadecathlon is not what it was at first.
proof fn lemma_pentadecathlon_4_differs(ox: int, oy: int)
    ensures
        alone(pentadecathlon_4(), ox, oy) != alone(PENTA_DECATHLON@, ox, oy),
{
    lemma_pentadecathlon_offsets();
    lemma_pentadecathlon_4_offsets();
    different_patterns_are_different_grids(pentadecathlon_4(), PENTA_DECATHLON@, 0, 0, ox, oy);
}

/// Five generations on, the pentadecathlon is not what it was at first.
proof fn lemma_pentadecathlon_5_differs(ox: int, oy: int)
    ensures
        alone(pentadecathlon_5(), ox, oy) != alone(PENTA_DECATHLON@, ox, oy),
{
    lemma_pentadecathlon_offsets();
    lemma_pentadecathlon_5_offsets();
    different_patterns_are_different_grids(pentadecathlon_5(), PENTA_DECATHLON@, 1, 99, ox, oy);
}

/// Six generations on, the pentadecathlon is not what it was at first.
proof fn lemma_pentadecathlon_6_differs(ox: int, oy: int)
    ensures
        alone(pentadecathlon_6(), ox, oy) != alone(PENTA_DECATHLON@, ox, oy),
{
    lemma_pentadecathlon_offsets();
    lemma_pentadecathlon_6_offsets();
    different_patterns_are_different_grids(pentadecathlon_6(), PENTA_DECATHLON@, 0, 99, ox, oy);
}

/// Seven generations on, the pentadecathlon is not what it was at first.
proof fn lemma_pentadecathlon_7_differs(ox: int, oy: int)
    ensures
        alone(pentadecathlon_7(), ox, oy) != alone(PENTA_DECATHLON@, ox, oy),
{
    lemma_pentadecathlon_offsets();
    lemma_pentadecathlon_7_offsets();
    different_patterns_are_different_grids(pentadecathlon_7(), PENTA_DECATHLON@, 1, 98, ox, oy);
}

/// Eight generations on, the pentadecathlon is not what it was at first.
proof fn lemma_pentadecathlon_8_differs(ox: int, oy: int)
    ensures
        alone(pentadecathlon_8(), ox, oy) != alone(PENTA_DECATHLON@, ox, oy),
{
    lemma_pentadecathlon_offsets();
    lemma_pentadecathlon_8_offsets();
    different_patterns_are_different_grids(pentadecathlon_8(), PENTA_DECATHLON@, 0, 98, ox, oy);
}

/// Nine generations on, the pentadecathlon is not what it was at first.
proof fn lemma_pentadecathlon_9_differs(ox: int, oy: int)
    ensures
        alone(pentadecathlon_9(), ox, oy) != alone(PENTA_DECATHLON@, ox, oy),
{
    lemma_pentadecathlon_offsets();
    lemma_pentadecathlon_9_offsets();
    different_patterns_are_different_grids(pentadecathlon_9(), PENTA_DECATHLON@, 1, 97, ox, oy);
}

/// Ten generations on, the pentadecathlon is not what it was at first.
proof fn lemma_pentadecathlon_10_differs(ox: int, oy: int)
    ensures
        alone(pentadecathlon_10(), ox, oy) != alone(PENTA_DECATHLON@, ox, oy),
{
    lemma_pentadecathlon_offsets();
    lemma_pentadecathlon_10_offsets();
    different_patterns_are_different_grids(pentadecathlon_10(), PENTA_DECATHLON@, 0, 99, ox, oy);
}

/// Eleven generations on, the pentadecathlon is not what it was at first.
proof fn lemma_pentadecathlon_11_differs(ox: int, oy: int)
    ensures
        alone(pentadecathlon_11(), ox, oy) != alone(PENTA_DECATHLON@, ox, oy),
{
    lemma_pentadecathlon_offsets();
    lemma_pentadecathlon_11_offsets();
    different_patterns_are_different_grids(pentadecathlon_11(), PENTA_DECATHLON@, 1, 98, ox, oy);
}

/// Twelve generations on, the pentadecathlon is not what it was at first.
proof fn lemma_pentadecathlon_12_differs(ox: int, oy: int)
    ensures
        alone(pentadecathlon_12(), ox, oy) != alone(PENTA_DECATHLON@, ox, oy),
{
    lemma_pentadecathlon_offsets();
    lemma_pentadecathlon_12_offsets();
    different_patterns_are_different_grids(pentadecathlon_12(), PENTA_DECATHLON@, 0, 98, ox, oy);
}

/// Thirteen generations on, the pentadecathlon is not what it was at first.
proof fn lemma_pentadecathlon_13_differs(ox: int, oy: int)
    ensures
        alone(pentadecathlon_13(), ox, oy) != alone(PENTA_DECATHLON@, ox, oy),
{
    lemma_pentadecathlon_offsets();
    lemma_pentadecathlon_13_offsets();
    different_patterns_are_different_grids(pentadecathlon_13(), PENTA_DECATHLON@, 1, 97, ox, oy);
}

/// Fourteen generations on, the pentadecathlon is not what it was at first.
proof fn lemma_pentadecathlon_14_differs(ox: int, oy: int)
    ensures
        alone(pentadecathlon_14(), ox, oy) != alone(PENTA_DECATHLON@, ox, oy),
{
    lemma_pentadecathlon_offsets();
    lemma_pentadecathlon_14_offsets();
    different_patterns_are_different_grids(pentadecathlon_14(), PENTA_DECATHLON@, 1, 97, ox, oy);
}

/// The pentadecathlon placed alone anywhere on the grid, across an edge or
/// not, is back to its first cells after fifteen generations, and not before.
pub proof fn pentadecathlon_has_period_fifteen(ox: int, oy: int)
    ensures
        generations(alone(PENTA_DECATHLON@, ox, oy), 15) == alone(PENTA_DECATHLON@, ox, oy),
        forall|n: nat|
            0 < n < 15 ==> #[trigger] generations(alone(PENTA_DECATHLON@, ox, oy), n) != alone(
                PENTA_DECATHLON@,
                ox,
                oy,
            ),
{
    lemma_pentadecathlon_generations(ox, oy);
    lemma_pentadecathlon_1_differs(ox, oy);
    lemma_pentadecathlon_2_differs(ox, oy);
    lemma_pentadecathlon_3_differs(ox, oy);
    lemma_pentadecathlon_4_differs(ox, oy);
    lemma_pentadecathlon_5_differs(ox, oy);
    lemma_pentadecathlon_6_differs(ox, oy);
    lemma_pentadecathlon_7_differs(ox, oy);
    lemma_pentadecathlon_8_differs(ox, oy);
    lemma_pentadecathlon_9_differs(ox, oy);
    lemma_pentadecathlon_10_differs(ox, oy);
    lemma_pentadecathlon_11_differs(ox, oy);
    lemma_pentadecathlon_12_differs(ox, oy);
    lemma_pentadecathlon_13_differs(ox, oy);
    lemma_pentadecathlon_14_differs(ox, oy);
}

} // verus!
