use game_of_life::engine::step;
use game_of_life::grid::{GRID_H, GRID_W};
use game_of_life::patterns::{
    BEACON, BEEHIVE, BLINKER, BLOCK, BOAT, GLIDER, HWSS, LOAF, LWSS, MWSS, PENTA_DECATHLON, PULSAR,
    TOAD, TUB,
};
use game_of_life::placement::{load_pattern, place};

fn empty() -> Vec<bool> {
    vec![false; GRID_W * GRID_H]
}

fn grid_of(cells: &[(usize, usize)]) -> Vec<bool> {
    let mut g: Vec<bool> = empty();
    for &(x, y) in cells {
        g[y * GRID_W + x] = true;
    }
    g
}

fn population(g: &[bool]) -> usize {
    g.iter().filter(|&&c| c).count()
}

/// Sum of the positions of the live cells.
fn position_sum(g: &[bool]) -> usize {
    g.iter().enumerate().filter(|&(_, &c)| c).map(|(i, _)| i).sum()
}

/// The default scene, laid out by hand.
fn scene_by_hand() -> Vec<bool> {
    let placements: [(&[(usize, usize)], usize, usize); 25] = [
        (&BLOCK, 2, 2),
        (&BEEHIVE, 8, 2),
        (&LOAF, 14, 2),
        (&BOAT, 20, 2),
        (&TUB, 26, 2),
        (&BLINKER, 10, 30),
        (&BLINKER, 90, 90),
        (&TOAD, 20, 30),
        (&TOAD, 10, 10),
        (&TOAD, 50, 30),
        (&TOAD, 50, 60),
        (&BEACON, 30, 28),
        (&PULSAR, 50, 5),
        (&PULSAR, 30, 55),
        (&PENTA_DECATHLON, 70, 20),
        (&PENTA_DECATHLON, 90, 0),
        (&GLIDER, 0, 0),
        (&GLIDER, 80, 90),
        (&GLIDER, 2, 60),
        (&LWSS, 80, 80),
        (&LWSS, 50, 5),
        (&LWSS, 80, 5),
        (&LWSS, 20, 70),
        (&MWSS, 40, 80),
        (&HWSS, 60, 60),
    ];
    let mut g: Vec<bool> = empty();
    for &(pattern, ox, oy) in placements.iter() {
        for &(x, y) in pattern {
            g[((y + oy) % GRID_H) * GRID_W + (x + ox) % GRID_W] = true;
        }
    }
    g
}

#[test]
fn place_sets_each_offset_from_the_origin() {
    let mut g: Vec<bool> = empty();
    place(&mut g, &GLIDER, 10, 20);
    assert_eq!(g, grid_of(&[(11, 20), (12, 21), (10, 22), (11, 22), (12, 22)]));
}

#[test]
fn place_at_the_origin_uses_the_offsets_themselves() {
    let mut g: Vec<bool> = empty();
    place(&mut g, &BLOCK, 0, 0);
    assert_eq!(g, grid_of(&[(0, 0), (1, 0), (0, 1), (1, 1)]));
}

#[test]
fn place_wraps_past_the_right_edge() {
    let mut g: Vec<bool> = empty();
    place(&mut g, &BLINKER, 98, 5);
    assert_eq!(g, grid_of(&[(98, 5), (99, 5), (0, 5)]));
}

#[test]
fn place_wraps_past_the_bottom_edge() {
    let mut g: Vec<bool> = empty();
    place(&mut g, &TUB, 40, 98);
    assert_eq!(g, grid_of(&[(41, 98), (40, 99), (42, 99), (41, 0)]));
}

#[test]
fn place_wraps_an_origin_beyond_the_grid() {
    let mut g: Vec<bool> = empty();
    place(&mut g, &BLOCK, 250, 1099);
    assert_eq!(g, grid_of(&[(50, 99), (51, 99), (50, 0), (51, 0)]));
}

#[test]
fn place_takes_the_largest_origin_and_offsets() {
    let far: usize = (usize::MAX % 100 + 1) % 100;
    let twice: usize = (usize::MAX % 100 + usize::MAX % 100) % 100;
    let mut g: Vec<bool> = empty();
    place(&mut g, &[(1, 0)], usize::MAX, 7);
    assert_eq!(g, grid_of(&[(far, 7)]));
    let mut h: Vec<bool> = empty();
    place(&mut h, &[(usize::MAX, usize::MAX)], usize::MAX, usize::MAX);
    assert_eq!(h, grid_of(&[(twice, twice)]));
}

#[test]
fn place_of_an_empty_pattern_changes_nothing() {
    let mut g: Vec<bool> = grid_of(&[(3, 3), (70, 12)]);
    place(&mut g, &[], 5, 5);
    assert_eq!(g, grid_of(&[(3, 3), (70, 12)]));
}

#[test]
fn place_never_clears_a_cell() {
    let mut g: Vec<bool> = grid_of(&[(0, 0), (10, 20), (11, 21), (99, 99)]);
    place(&mut g, &GLIDER, 10, 20);
    assert_eq!(
        g,
        grid_of(&[(0, 0), (10, 20), (11, 21), (99, 99), (11, 20), (12, 21), (10, 22), (11, 22), (12, 22)])
    );
}

#[test]
fn place_twice_is_place_once() {
    let mut once: Vec<bool> = empty();
    place(&mut once, &PULSAR, 95, 95);
    let mut twice: Vec<bool> = once.clone();
    place(&mut twice, &PULSAR, 95, 95);
    assert_eq!(once, twice);
    assert_eq!(population(&once), 48);
}

#[test]
fn a_repeated_offset_is_set_once() {
    let mut g: Vec<bool> = empty();
    place(&mut g, &[(1, 1), (1, 1), (101, 1)], 0, 0);
    assert_eq!(g, grid_of(&[(1, 1)]));
}

#[test]
fn colliding_placements_leave_the_cell_alive_in_either_order() {
    let mut block_first: Vec<bool> = empty();
    place(&mut block_first, &BLOCK, 2, 2);
    place(&mut block_first, &GLIDER, 0, 0);
    let mut glider_first: Vec<bool> = empty();
    place(&mut glider_first, &GLIDER, 0, 0);
    place(&mut glider_first, &BLOCK, 2, 2);
    assert!(block_first[2 * GRID_W + 2]);
    assert!(glider_first[2 * GRID_W + 2]);
    assert_eq!(block_first, glider_first);
    assert_eq!(population(&block_first), 8);
}

#[test]
fn placements_that_meet_only_through_the_wrap_still_merge() {
    let mut a: Vec<bool> = empty();
    place(&mut a, &BLINKER, 99, 0);
    place(&mut a, &BLOCK, 0, 99);
    let mut b: Vec<bool> = empty();
    place(&mut b, &BLOCK, 0, 99);
    place(&mut b, &BLINKER, 99, 0);
    assert_eq!(a, b);
    assert_eq!(a, grid_of(&[(99, 0), (0, 0), (1, 0), (0, 99), (1, 99)]));
}

#[test]
fn load_pattern_lays_out_the_default_scene() {
    let mut g: Vec<bool> = empty();
    load_pattern(&mut g);
    assert_eq!(g, scene_by_hand());
    assert_eq!(population(&g), 255);
    assert_eq!(position_sum(&g), 936804);
}

#[test]
fn load_pattern_clears_what_was_there() {
    let mut g: Vec<bool> = vec![true; GRID_W * GRID_H];
    load_pattern(&mut g);
    assert_eq!(g, scene_by_hand());
    let mut again: Vec<bool> = g.clone();
    load_pattern(&mut again);
    assert_eq!(again, g);
}

#[test]
fn default_scene_holds_its_first_and_last_placement() {
    let mut g: Vec<bool> = empty();
    load_pattern(&mut g);
    for &(x, y) in &[(2usize, 2usize), (3, 2), (2, 3), (3, 3)] {
        assert!(g[y * GRID_W + x]);
    }
    for &(x, y) in HWSS.iter() {
        assert!(g[(y + 60) * GRID_W + x + 60]);
    }
    assert!(!g[50 * GRID_W + 50]);
}

#[test]
fn default_scene_merges_where_placements_collide() {
    let mut g: Vec<bool> = empty();
    load_pattern(&mut g);
    for &(x, y) in &[(2usize, 2usize), (54, 5), (50, 7), (50, 8)] {
        assert!(g[y * GRID_W + x]);
    }
    let sizes: usize = BLOCK.len()
        + BEEHIVE.len()
        + LOAF.len()
        + BOAT.len()
        + TUB.len()
        + 2 * BLINKER.len()
        + 4 * TOAD.len()
        + BEACON.len()
        + 2 * PULSAR.len()
        + 2 * PENTA_DECATHLON.len()
        + 3 * GLIDER.len()
        + 4 * LWSS.len()
        + MWSS.len()
        + HWSS.len();
    assert_eq!(sizes, 259);
    assert_eq!(population(&g), sizes - 4);
}

#[test]
fn load_pattern_then_step_is_reproducible() {
    let mut first: Vec<bool> = empty();
    load_pattern(&mut first);
    let mut first_next: Vec<bool> = empty();
    step(&first, &mut first_next);

    let mut second: Vec<bool> = vec![true; GRID_W * GRID_H];
    load_pattern(&mut second);
    let mut second_next: Vec<bool> = vec![true; GRID_W * GRID_H];
    step(&second, &mut second_next);

    assert_eq!(first, second);
    assert_eq!(first_next, second_next);
    assert_eq!(population(&first_next), 305);
    assert_eq!(position_sum(&first_next), 1139444);
}

#[test]
fn default_scene_over_four_generations() {
    let mut current: Vec<bool> = empty();
    load_pattern(&mut current);
    let mut next: Vec<bool> = empty();
    let expected: [(usize, usize); 4] = [(305, 1139444), (298, 1123845), (321, 1129517), (270, 1010557)];
    for &(alive, sum) in expected.iter() {
        step(&current, &mut next);
        assert_eq!(population(&next), alive);
        assert_eq!(position_sum(&next), sum);
        std::mem::swap(&mut current, &mut next);
    }
}
