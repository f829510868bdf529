use game_of_life::engine::{live_neighbors, step};
use game_of_life::grid::{idx, GRID_H, GRID_W};
use game_of_life::patterns::{
    BEACON, BEEHIVE, BLINKER, BLOCK, BOAT, GLIDER, HWSS, LOAF, LWSS, MWSS, PENTA_DECATHLON, PULSAR,
    TOAD, TUB,
};
use game_of_life::placement::place;

fn empty() -> Vec<bool> {
    vec![false; GRID_W * GRID_H]
}

/// A grid on which exactly the listed cells are alive.
fn grid_of(cells: &[(usize, usize)]) -> Vec<bool> {
    let mut g: Vec<bool> = empty();
    for &(x, y) in cells {
        g[y * GRID_W + x] = true;
    }
    g
}

/// The pattern alone on the grid, with its origin at `(ox, oy)`.
fn alone(pattern: &[(usize, usize)], ox: usize, oy: usize) -> Vec<bool> {
    let mut g: Vec<bool> = empty();
    place(&mut g, pattern, ox, oy);
    g
}

/// The grid after `n` generations.
fn after(start: &[bool], n: usize) -> Vec<bool> {
    let mut current: Vec<bool> = start.to_vec();
    let mut next: Vec<bool> = empty();
    for _ in 0..n {
        step(&current, &mut next);
        std::mem::swap(&mut current, &mut next);
    }
    current
}

/// The grid moved by `(dx, dy)` on the torus.
fn shifted(g: &[bool], dx: i64, dy: i64) -> Vec<bool> {
    let mut out: Vec<bool> = empty();
    for y in 0..GRID_H {
        for x in 0..GRID_W {
            if g[y * GRID_W + x] {
                let nx: usize = (x as i64 + dx).rem_euclid(GRID_W as i64) as usize;
                let ny: usize = (y as i64 + dy).rem_euclid(GRID_H as i64) as usize;
                out[ny * GRID_W + nx] = true;
            }
        }
    }
    out
}

fn population(g: &[bool]) -> usize {
    g.iter().filter(|&&c| c).count()
}

/// One generation, computed the slow and obvious way.
fn model_step(g: &[bool]) -> Vec<bool> {
    let mut out: Vec<bool> = empty();
    for y in 0..GRID_H as i64 {
        for x in 0..GRID_W as i64 {
            let mut n: u32 = 0;
            for (dx, dy) in [(-1, -1), (0, -1), (1, -1), (-1, 0), (1, 0), (-1, 1), (0, 1), (1, 1)] {
                let nx: usize = (x + dx).rem_euclid(GRID_W as i64) as usize;
                let ny: usize = (y + dy).rem_euclid(GRID_H as i64) as usize;
                if g[ny * GRID_W + nx] {
                    n += 1;
                }
            }
            let here: usize = y as usize * GRID_W + x as usize;
            out[here] = if g[here] { n == 2 || n == 3 } else { n == 3 };
        }
    }
    out
}

/// A cell at (50, 50) in state `alive` with `n` live neighbours, taken in
/// this order: left, right, above, below, then the four diagonals.
fn cell_with_neighbors(alive: bool, n: usize) -> Vec<bool> {
    let around: [(usize, usize); 8] =
        [(49, 50), (51, 50), (50, 49), (50, 51), (49, 49), (51, 49), (49, 51), (51, 51)];
    let mut g: Vec<bool> = grid_of(&around[..n]);
    g[50 * GRID_W + 50] = alive;
    g
}

fn next_state(alive: bool, n: usize) -> bool {
    let g: Vec<bool> = cell_with_neighbors(alive, n);
    assert_eq!(live_neighbors(50, 50, &g) as usize, n);
    after(&g, 1)[50 * GRID_W + 50]
}

#[test]
fn no_neighbors_on_the_empty_grid() {
    let g: Vec<bool> = empty();
    for y in 0..GRID_H {
        for x in 0..GRID_W {
            assert_eq!(live_neighbors(x, y, &g), 0);
        }
    }
}

#[test]
fn eight_neighbors_on_the_full_grid() {
    let g: Vec<bool> = vec![true; GRID_W * GRID_H];
    for y in 0..GRID_H {
        for x in 0..GRID_W {
            assert_eq!(live_neighbors(x, y, &g), 8);
        }
    }
}

#[test]
fn neighbor_count_stays_between_zero_and_eight() {
    let mut g: Vec<bool> = empty();
    for i in 0..g.len() {
        g[i] = (i * 7 + i / 13) % 3 != 0;
    }
    for y in 0..GRID_H {
        for x in 0..GRID_W {
            assert!(live_neighbors(x, y, &g) <= 8);
        }
    }
}

#[test]
fn the_cell_itself_is_not_counted() {
    let g: Vec<bool> = grid_of(&[(10, 10)]);
    assert_eq!(live_neighbors(10, 10, &g), 0);
}

#[test]
fn each_of_the_eight_neighbors_counts_once() {
    for (dx, dy) in [(-1i64, -1i64), (0, -1), (1, -1), (-1, 0), (1, 0), (-1, 1), (0, 1), (1, 1)] {
        let g: Vec<bool> = grid_of(&[((20 + dx) as usize, (30 + dy) as usize)]);
        assert_eq!(live_neighbors(20, 30, &g), 1);
    }
    let far: Vec<bool> = grid_of(&[(22, 30), (20, 32), (18, 28)]);
    assert_eq!(live_neighbors(20, 30, &far), 0);
}

#[test]
fn top_row_has_the_bottom_row_above_it() {
    let g: Vec<bool> = grid_of(&[(4, 99), (5, 99), (6, 99)]);
    assert_eq!(live_neighbors(5, 0, &g), 3);
    assert_eq!(live_neighbors(4, 0, &g), 2);
    assert_eq!(live_neighbors(5, 1, &g), 0);
}

#[test]
fn bottom_row_has_the_top_row_below_it() {
    let g: Vec<bool> = grid_of(&[(4, 0), (5, 0), (6, 0)]);
    assert_eq!(live_neighbors(5, 99, &g), 3);
    assert_eq!(live_neighbors(7, 99, &g), 1);
}

#[test]
fn leftmost_column_has_the_rightmost_column_beside_it() {
    let g: Vec<bool> = grid_of(&[(99, 49), (99, 50), (99, 51)]);
    assert_eq!(live_neighbors(0, 50, &g), 3);
    assert_eq!(live_neighbors(1, 50, &g), 0);
}

#[test]
fn rightmost_column_has_the_leftmost_column_beside_it() {
    let g: Vec<bool> = grid_of(&[(0, 49), (0, 50), (0, 51)]);
    assert_eq!(live_neighbors(99, 50, &g), 3);
    assert_eq!(live_neighbors(98, 50, &g), 0);
}

#[test]
fn corners_touch_all_four_corners() {
    let g: Vec<bool> = grid_of(&[(99, 99), (0, 99), (99, 0)]);
    assert_eq!(live_neighbors(0, 0, &g), 3);
    let h: Vec<bool> = grid_of(&[(0, 0), (0, 99), (99, 0)]);
    assert_eq!(live_neighbors(99, 99, &h), 3);
}

#[test]
fn live_cell_with_two_or_three_neighbors_stays_alive() {
    assert!(next_state(true, 2));
    assert!(next_state(true, 3));
}

#[test]
fn live_cell_with_fewer_than_two_neighbors_dies() {
    assert!(!next_state(true, 0));
    assert!(!next_state(true, 1));
}

#[test]
fn live_cell_with_more_than_three_neighbors_dies() {
    for n in 4..=8 {
        assert!(!next_state(true, n));
    }
}

#[test]
fn dead_cell_with_exactly_three_neighbors_comes_alive() {
    assert!(next_state(false, 3));
}

#[test]
fn dead_cell_with_any_other_count_stays_dead() {
    for n in [0usize, 1, 2, 4, 5, 6, 7, 8] {
        assert!(!next_state(false, n));
    }
}

#[test]
fn empty_grid_stays_empty() {
    assert_eq!(after(&empty(), 1), empty());
}

#[test]
fn full_grid_dies_out() {
    let g: Vec<bool> = vec![true; GRID_W * GRID_H];
    assert_eq!(after(&g, 1), empty());
}

#[test]
fn step_overwrites_whatever_next_held() {
    let current: Vec<bool> = alone(&BLINKER, 10, 10);
    let mut clean: Vec<bool> = empty();
    let mut stale: Vec<bool> = vec![true; GRID_W * GRID_H];
    step(&current, &mut clean);
    step(&current, &mut stale);
    assert_eq!(clean, stale);
}

#[test]
fn step_twice_on_the_same_input_gives_the_same_output() {
    let mut current: Vec<bool> = alone(&PULSAR, 40, 40);
    place(&mut current, &GLIDER, 3, 3);
    let mut first: Vec<bool> = empty();
    let mut second: Vec<bool> = empty();
    step(&current, &mut first);
    step(&current, &mut second);
    assert_eq!(first, second);
    assert_eq!(population(&first), population(&model_step(&current)));
}

#[test]
fn step_agrees_with_the_model_over_many_generations() {
    let mut current: Vec<bool> = empty();
    place(&mut current, &GLIDER, 97, 97);
    place(&mut current, &PULSAR, 93, 40);
    place(&mut current, &HWSS, 1, 20);
    place(&mut current, &PENTA_DECATHLON, 50, 95);
    let mut next: Vec<bool> = empty();
    for _ in 0..40 {
        step(&current, &mut next);
        assert_eq!(next, model_step(&current));
        std::mem::swap(&mut current, &mut next);
    }
}

#[test]
fn block_is_a_still_life() {
    let g: Vec<bool> = alone(&BLOCK, 10, 10);
    assert_eq!(g, grid_of(&[(10, 10), (11, 10), (10, 11), (11, 11)]));
    assert_eq!(after(&g, 1), g);
}

#[test]
fn block_is_a_still_life_across_the_corner() {
    let g: Vec<bool> = alone(&BLOCK, 99, 99);
    assert_eq!(g, grid_of(&[(99, 99), (0, 99), (99, 0), (0, 0)]));
    assert_eq!(after(&g, 1), g);
}

#[test]
fn beehive_loaf_boat_and_tub_are_still_lifes() {
    let all: [&[(usize, usize)]; 4] = [&BEEHIVE, &LOAF, &BOAT, &TUB];
    for pattern in all.iter() {
        let g: Vec<bool> = alone(pattern, 30, 40);
        assert_eq!(population(&g), pattern.len());
        assert_eq!(after(&g, 1), g);
    }
}

#[test]
fn blinker_has_period_two() {
    let g: Vec<bool> = alone(&BLINKER, 10, 10);
    let turned: Vec<bool> = after(&g, 1);
    assert_eq!(turned, grid_of(&[(11, 9), (11, 10), (11, 11)]));
    assert_eq!(after(&g, 2), g);
}

#[test]
fn blinker_has_period_two_across_the_top_edge() {
    let g: Vec<bool> = alone(&BLINKER, 98, 0);
    assert_eq!(g, grid_of(&[(98, 0), (99, 0), (0, 0)]));
    assert_eq!(after(&g, 1), grid_of(&[(99, 99), (99, 0), (99, 1)]));
    assert_eq!(after(&g, 2), g);
}

#[test]
fn toad_has_period_two() {
    let g: Vec<bool> = alone(&TOAD, 20, 30);
    assert_ne!(after(&g, 1), g);
    assert_eq!(after(&g, 2), g);
}

#[test]
fn beacon_has_period_two() {
    let g: Vec<bool> = alone(&BEACON, 30, 28);
    let dimmed: Vec<bool> = after(&g, 1);
    assert_eq!(
        dimmed,
        grid_of(&[(30, 28), (31, 28), (30, 29), (33, 30), (32, 31), (33, 31)])
    );
    assert_eq!(after(&g, 2), g);
}

#[test]
fn pulsar_has_period_three() {
    let g: Vec<bool> = alone(&PULSAR, 50, 5);
    assert_ne!(after(&g, 1), g);
    assert_ne!(after(&g, 2), g);
    assert_eq!(after(&g, 3), g);
}

#[test]
fn pentadecathlon_has_period_fifteen() {
    let g: Vec<bool> = alone(&PENTA_DECATHLON, 70, 20);
    for n in 1..15 {
        assert_ne!(after(&g, n), g);
    }
    assert_eq!(after(&g, 15), g);
}

#[test]
fn glider_moves_one_cell_down_and_right_in_four_generations() {
    let g: Vec<bool> = alone(&GLIDER, 10, 10);
    let moved: Vec<bool> = after(&g, 4);
    assert_eq!(moved, alone(&GLIDER, 11, 11));
    assert_eq!(moved, grid_of(&[(12, 11), (13, 12), (11, 13), (12, 13), (13, 13)]));
    assert_eq!(population(&moved), 5);
}

#[test]
fn glider_is_not_back_in_shape_before_four_generations() {
    let g: Vec<bool> = alone(&GLIDER, 10, 10);
    for n in 1..4 {
        let now: Vec<bool> = after(&g, n);
        assert_eq!(population(&now), 5);
        assert_ne!(now, alone(&GLIDER, 11, 11));
    }
}

#[test]
fn glider_crosses_the_corner_of_the_grid() {
    let g: Vec<bool> = alone(&GLIDER, 97, 97);
    assert_eq!(after(&g, 4), shifted(&g, 1, 1));
    assert_eq!(after(&g, 12), alone(&GLIDER, 0, 0));
}

#[test]
fn glider_comes_home_after_going_round_the_torus() {
    let g: Vec<bool> = alone(&GLIDER, 5, 5);
    assert_eq!(after(&g, 400), g);
}

#[test]
fn spaceships_move_two_cells_left_in_four_generations() {
    let all: [&[(usize, usize)]; 3] = [&LWSS, &MWSS, &HWSS];
    for pattern in all.iter() {
        let g: Vec<bool> = alone(pattern, 40, 40);
        assert_eq!(after(&g, 4), alone(pattern, 38, 40));
        assert_eq!(after(&g, 4), shifted(&g, -2, 0));
    }
}

#[test]
fn spaceship_crosses_the_left_edge() {
    let g: Vec<bool> = alone(&LWSS, 1, 50);
    assert_eq!(after(&g, 4), alone(&LWSS, 99, 50));
}

#[test]
fn step_commutes_with_moving_the_grid() {
    let mut g: Vec<bool> = alone(&PULSAR, 10, 10);
    place(&mut g, &GLIDER, 60, 60);
    place(&mut g, &MWSS, 30, 80);
    assert_eq!(after(&shifted(&g, 37, -12), 5), shifted(&after(&g, 5), 37, -12));
}

#[test]
fn idx_and_neighbors_agree_on_the_cell_read() {
    let mut g: Vec<bool> = empty();
    g[idx(60, 61)] = true;
    assert_eq!(live_neighbors(61, 60, &g), 1);
    assert_eq!(live_neighbors(60, 61, &g), 0);
    assert_eq!(live_neighbors(61, 62, &g), 1);
    assert_eq!(live_neighbors(62, 61, &g), 0);
}
