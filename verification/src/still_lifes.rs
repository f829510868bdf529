//! Still lifes: patterns that the next generation leaves as they are.

use vstd::prelude::*;
use crate::engine::next_generation;
use crate::evolution::{alone, evolution_holds_at_every_origin, evolves, fits, lists};
use crate::patterns::{BEEHIVE, BLOCK, BOAT, LOAF, TUB};

verus! {

/// The offsets that the block lists.
proof fn lemma_block_offsets()
    ensures
        fits(BLOCK@),
        forall|u: int, v: int|
            #[trigger] lists(BLOCK@, u, v) <==> 0 <= v <= 1 && 0 <= u <= 1,
{
    let p = BLOCK@;
    assert(p[0] == (0usize, 0usize));
    assert(p[1] == (1usize, 0usize));
    assert(p[2] == (0usize, 1usize));
    assert(p[3] == (1usize, 1usize));
}

/// The block evolves into itself.
proof fn lemma_block_stays()
    ensures
        fits(BLOCK@),
        evolves(BLOCK@, BLOCK@),
{
    lemma_block_offsets();
}

/// The offsets that the beehive lists.
proof fn lemma_beehive_offsets()
    ensures
        fits(BEEHIVE@),
        forall|u: int, v: int|
            #[trigger] lists(BEEHIVE@, u, v) <==> (
                (v == 0 || v == 2) && 1 <= u <= 2
                || v == 1 && (u == 0 || u == 3)
            ),
{
    let p = BEEHIVE@;
    assert(p[0] == (1usize, 0usize));
    assert(p[1] == (2usize, 0usize));
    assert(p[2] == (0usize, 1usize));
    assert(p[3] == (3usize, 1usize));
    assert(p[4] == (1usize, 2usize));
    assert(p[5] == (2usize, 2usize));
}

/// The beehive evolves into itself.
proof fn lemma_beehive_stays()
    ensures
        fits(BEEHIVE@),
        evolves(BEEHIVE@, BEEHIVE@),
{
    lemma_beehive_offsets();
}

/// The offsets that the loaf lists.
proof fn lemma_loaf_offsets()
    ensures
        fits(LOAF@),
        forall|u: int, v: int|
            #[trigger] lists(LOAF@, u, v) <==> (
                v == 0 && 1 <= u <= 2
                || v == 1 && (u == 0 || u == 3)
                || v == 2 && (u == 1 || u == 3)
                || v == 3 && u == 2
            ),
{
    let p = LOAF@;
    assert(p[0] == (1usize, 0usize));
    assert(p[1] == (2usize, 0usize));
    assert(p[2] == (0usize, 1usize));
    assert(p[3] == (3usize, 1usize));
    assert(p[4] == (1usize, 2usize));
    assert(p[5] == (3usize, 2usize));
    assert(p[6] == (2usize, 3usize));
}

/// The loaf evolves into itself.
proof fn lemma_loaf_stays()
    ensures
        fits(LOAF@),
        evolves(LOAF@, LOAF@),
{
    lemma_loaf_offsets();
}

/// The offsets that the boat lists.
proof fn lemma_boat_offsets()
    ensures
        fits(BOAT@),
        forall|u: int, v: int|
            #[trigger] lists(BOAT@, u, v) <==> (
                v == 0 && 0 <= u <= 1
                || v == 1 && (u == 0 || u == 2)
                || v == 2 && u == 1
            ),
{
    let p = BOAT@;
    assert(p[0] == (0usize, 0usize));
    assert(p[1] == (1usize, 0usize));
    assert(p[2] == (0usize, 1usize));
    assert(p[3] == (2usize, 1usize));
    assert(p[4] == (1usize, 2usize));
}

/// The boat evolves into itself.
proof fn lemma_boat_stays()
    ensures
        fits(BOAT@),
        evolves(BOAT@, BOAT@),
{
    lemma_boat_offsets();
}

/// The offsets that the tub lists.
proof fn lemma_tub_offsets()
    ensures
        fits(TUB@),
        forall|u: int, v: int|
            #[trigger] lists(TUB@, u, v) <==> (
                (v == 0 || v == 2) && u == 1
                || v == 1 && (u == 0 || u == 2)
            ),
{
    let p = TUB@;
    assert(p[0] == (1usize, 0usize));
    assert(p[1] == (0usize, 1usize));
    assert(p[2] == (2usize, 1usize));
    assert(p[3] == (1usize, 2usize));
}

/// The tub evolves into itself.
proof fn lemma_tub_stays()
    ensures
        fits(TUB@),
        evolves(TUB@, TUB@),
{
    lemma_tub_offsets();
}

/// A block placed alone anywhere on the grid, across an edge or not, is the
/// same in the next generation: no cell changes.
pub proof fn block_is_a_still_life(ox: int, oy: int)
    ensures
        next_generation(alone(BLOCK@, ox, oy)) == alone(BLOCK@, ox, oy),
{
    lemma_block_stays();
    evolution_holds_at_every_origin(BLOCK@, BLOCK@, ox, oy);
}

/// A beehive placed alone anywhere on the grid, across an edge or not, is the
/// same in the next generation: no cell changes.
pub proof fn beehive_is_a_still_life(ox: int, oy: int)
    ensures
        next_generation(alone(BEEHIVE@, ox, oy)) == alone(BEEHIVE@, ox, oy),
{
    lemma_beehive_stays();
    evolution_holds_at_every_origin(BEEHIVE@, BEEHIVE@, ox, oy);
}

/// A loaf placed alone anywhere on the grid, across an edge or not, is the
/// same in the next generation: no cell changes.
pub proof fn loaf_is_a_still_life(ox: int, oy: int)
    ensures
        next_generation(alone(LOAF@, ox, oy)) == alone(LOAF@, ox, oy),
{
    lemma_loaf_stays();
    evolution_holds_at_every_origin(LOAF@, LOAF@, ox, oy);
}

/// A boat placed alone anywhere on the grid, across an edge or not, is the
/// same in the next generation: no cell changes.
pub proof fn boat_is_a_still_life(ox: int, oy: int)
    ensures
        next_generation(alone(BOAT@, ox, oy)) == alone(BOAT@, ox, oy),
{
    lemma_boat_stays();
    evolution_holds_at_every_origin(BOAT@, BOAT@, ox, oy);
}

/// A tub placed alone anywhere on the grid, across an edge or not, is the same
/// in the next generation: no cell changes.
pub proof fn tub_is_a_still_life(ox: int, oy: int)
    ensures
        next_generation(alone(TUB@, ox, oy)) == alone(TUB@, ox, oy),
{
    lemma_tub_stays();
    evolution_holds_at_every_origin(TUB@, TUB@, ox, oy);
}

} // verus!
