use game_of_life::patterns::{
    BEACON, BEEHIVE, BLINKER, BLOCK, BOAT, GLIDER, HWSS, LOAF, LWSS, MWSS, PENTA_DECATHLON, PULSAR,
    TOAD, TUB,
};

/// Reads a picture, `O` for a live cell, into offsets in row-major order.
fn cells_of(rows: &[&str]) -> Vec<(usize, usize)> {
    let mut cells: Vec<(usize, usize)> = Vec::new();
    for (y, row) in rows.iter().enumerate() {
        for (x, c) in row.chars().enumerate() {
            if c == 'O' {
                cells.push((x, y));
            }
        }
    }
    cells
}

fn sorted(cells: &[(usize, usize)]) -> Vec<(usize, usize)> {
    let mut v: Vec<(usize, usize)> = cells.to_vec();
    v.sort_by_key(|&(x, y)| (y, x));
    v
}

#[test]
fn block_cells() {
    assert_eq!(BLOCK.to_vec(), vec![(0, 0), (1, 0), (0, 1), (1, 1)]);
}

#[test]
fn beehive_cells() {
    assert_eq!(BEEHIVE.to_vec(), vec![(1, 0), (2, 0), (0, 1), (3, 1), (1, 2), (2, 2)]);
}

#[test]
fn loaf_cells() {
    assert_eq!(LOAF.to_vec(), vec![(1, 0), (2, 0), (0, 1), (3, 1), (1, 2), (3, 2), (2, 3)]);
}

#[test]
fn boat_cells() {
    assert_eq!(BOAT.to_vec(), vec![(0, 0), (1, 0), (0, 1), (2, 1), (1, 2)]);
}

#[test]
fn tub_cells() {
    assert_eq!(TUB.to_vec(), vec![(1, 0), (0, 1), (2, 1), (1, 2)]);
}

#[test]
fn blinker_cells() {
    assert_eq!(BLINKER.to_vec(), vec![(0, 0), (1, 0), (2, 0)]);
}

#[test]
fn toad_cells() {
    assert_eq!(TOAD.to_vec(), vec![(1, 0), (2, 0), (3, 0), (0, 1), (1, 1), (2, 1)]);
}

#[test]
fn beacon_cells() {
    assert_eq!(
        BEACON.to_vec(),
        vec![(0, 0), (1, 0), (0, 1), (1, 1), (2, 2), (3, 2), (2, 3), (3, 3)]
    );
}

#[test]
fn pulsar_cells() {
    let picture = [
        "..OOO...OOO..",
        ".............",
        "O....O.O....O",
        "O....O.O....O",
        "O....O.O....O",
        "..OOO...OOO..",
        ".............",
        "..OOO...OOO..",
        "O....O.O....O",
        "O....O.O....O",
        "O....O.O....O",
        ".............",
        "..OOO...OOO..",
    ];
    assert_eq!(PULSAR.len(), 48);
    assert_eq!(PULSAR.to_vec(), cells_of(&picture));
}

#[test]
fn pentadecathlon_cells() {
    let picture = [".O.", ".O.", "O.O", ".O.", ".O.", ".O.", ".O.", "O.O", ".O.", ".O."];
    assert_eq!(PENTA_DECATHLON.len(), 12);
    assert_eq!(PENTA_DECATHLON.to_vec(), cells_of(&picture));
}

#[test]
fn glider_cells() {
    assert_eq!(GLIDER.to_vec(), vec![(1, 0), (2, 1), (0, 2), (1, 2), (2, 2)]);
}

#[test]
fn lwss_cells() {
    let picture = [".O..O", "O....", "O...O", "OOOO."];
    assert_eq!(LWSS.len(), 9);
    assert_eq!(LWSS.to_vec(), cells_of(&picture));
}

#[test]
fn mwss_cells() {
    let picture = ["...O..", ".O...O", "O.....", "O....O", "OOOOO."];
    assert_eq!(MWSS.len(), 11);
    assert_eq!(MWSS.to_vec(), cells_of(&picture));
}

#[test]
fn hwss_cells() {
    let picture = ["...OO..", ".O....O", "O......", "O.....O", "OOOOOO."];
    assert_eq!(HWSS.len(), 13);
    assert_eq!(HWSS.to_vec(), cells_of(&picture));
}

#[test]
fn no_pattern_lists_a_cell_twice() {
    let all: [&[(usize, usize)]; 14] = [
        &BLOCK,
        &BEEHIVE,
        &LOAF,
        &BOAT,
        &TUB,
        &BLINKER,
        &TOAD,
        &BEACON,
        &PULSAR,
        &PENTA_DECATHLON,
        &GLIDER,
        &LWSS,
        &MWSS,
        &HWSS,
    ];
    for pattern in all.iter() {
        let mut cells: Vec<(usize, usize)> = sorted(pattern);
        let before: usize = cells.len();
        cells.dedup();
        assert_eq!(cells.len(), before);
    }
}
