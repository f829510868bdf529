use game_of_life::grid::{idx, GRID_H, GRID_W};

#[test]
fn grid_is_one_hundred_by_one_hundred() {
    assert_eq!(GRID_W, 100);
    assert_eq!(GRID_H, 100);
}

#[test]
fn idx_of_the_corners() {
    assert_eq!(idx(0, 0), 0);
    assert_eq!(idx(99, 0), 99);
    assert_eq!(idx(0, 99), 9900);
    assert_eq!(idx(99, 99), 9999);
}

#[test]
fn idx_is_row_major() {
    assert_eq!(idx(0, 1), 100);
    assert_eq!(idx(1, 0), 1);
    assert_eq!(idx(7, 3), 307);
    assert_eq!(idx(42, 17), 1742);
}

#[test]
fn idx_reaches_every_position_once() {
    let mut seen: Vec<bool> = vec![false; GRID_W * GRID_H];
    for y in 0..GRID_H {
        for x in 0..GRID_W {
            let i: usize = idx(x, y);
            assert!(i < GRID_W * GRID_H);
            assert!(!seen[i]);
            seen[i] = true;
        }
    }
    assert!(seen.iter().all(|&s| s));
}
