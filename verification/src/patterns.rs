//! The pattern catalog: classic Life patterns as lists of cell offsets.
//!
//! Every pattern is given relative to its own origin `(0, 0)`, as `(x, y)`
//! pairs with `x` growing to the right and `y` growing downwards. A pattern
//! carries no bounding box; its extent is the largest offset it holds. In the
//! pictures below `O` is a live cell and `.` a dead one.

use vstd::prelude::*;

verus! {

/// Block, a still life.
///
/// ```text
/// OO
/// OO
/// ```
pub const BLOCK: [(usize, usize); 4] = [(0, 0), (1, 0), (0, 1), (1, 1)];

/// Beehive, a still life.
///
/// ```text
/// .OO.
/// O..O
/// .OO.
/// ```
pub const BEEHIVE: [(usize, usize); 6] = [(1, 0), (2, 0), (0, 1), (3, 1), (1, 2), (2, 2)];

/// Loaf, a still life.
///
/// ```text
/// .OO.
/// O..O
/// .O.O
/// ..O.
/// ```
pub const LOAF: [(usize, usize); 7] = [(1, 0), (2, 0), (0, 1), (3, 1), (1, 2), (3, 2), (2, 3)];

/// Boat, a still life.
///
/// ```text
/// OO.
/// O.O
/// .O.
/// ```
pub const BOAT: [(usize, usize); 5] = [(0, 0), (1, 0), (0, 1), (2, 1), (1, 2)];

/// Tub, a still life.
///
/// ```text
/// .O.
/// O.O
/// .O.
/// ```
pub const TUB: [(usize, usize); 4] = [(1, 0), (0, 1), (2, 1), (1, 2)];

/// Blinker, an oscillator of period 2.
///
/// ```text
/// OOO
/// ```
pub const BLINKER: [(usize, usize); 3] = [(0, 0), (1, 0), (2, 0)];

/// Toad, an oscillator of period 2.
///
/// ```text
/// .OOO
/// OOO.
/// ```
pub const TOAD: [(usize, usize); 6] = [(1, 0), (2, 0), (3, 0), (0, 1), (1, 1), (2, 1)];

/// Beacon, an oscillator of period 2.
///
/// ```text
/// OO..
/// OO..
/// ..OO
/// ..OO
/// ```
pub const BEACON: [(usize, usize); 8] = [
    (0, 0),
    (1, 0),
    (0, 1),
    (1, 1),
    (2, 2),
    (3, 2),
    (2, 3),
    (3, 3),
];

/// Pulsar, an oscillator of period 3.
///
/// ```text
/// ..OOO...OOO..
/// .............
/// O....O.O....O
/// O....O.O....O
/// O....O.O....O
/// ..OOO...OOO..
/// .............
/// ..OOO...OOO..
/// O....O.O....O
/// O....O.O....O
/// O....O.O....O
/// .............
/// ..OOO...OOO..
/// ```
pub const PULSAR: [(usize, usize); 48] = [
    (2, 0),
    (3, 0),
    (4, 0),
    (8, 0),
    (9, 0),
    (10, 0),
    (0, 2),
    (5, 2),
    (7, 2),
    (12, 2),
    (0, 3),
    (5, 3),
    (7, 3),
    (12, 3),
    (0, 4),
    (5, 4),
    (7, 4),
    (12, 4),
    (2, 5),
    (3, 5),
    (4, 5),
    (8, 5),
    (9, 5),
    (10, 5),
    (2, 7),
    (3, 7),
    (4, 7),
    (8, 7),
    (9, 7),
    (10, 7),
    (0, 8),
    (5, 8),
    (7, 8),
    (12, 8),
    (0, 9),
    (5, 9),
    (7, 9),
    (12, 9),
    (0, 10),
    (5, 10),
    (7, 10),
    (12, 10),
    (2, 12),
    (3, 12),
    (4, 12),
    (8, 12),
    (9, 12),
    (10, 12),
];

/// Pentadecathlon, an oscillator of period 15.
///
/// ```text
/// .O.
/// .O.
/// O.O
/// .O.
/// .O.
/// .O.
/// .O.
/// O.O
/// .O.
/// .O.
/// ```
pub const PENTA_DECATHLON: [(usize, usize); 12] = [
    (1, 0),
    (1, 1),
    (0, 2),
    (2, 2),
    (1, 3),
    (1, 4),
    (1, 5),
    (1, 6),
    (0, 7),
    (2, 7),
    (1, 8),
    (1, 9),
];

/// Glider, a spaceship that moves one cell right and one cell down every
/// four generations.
///
/// ```text
/// .O.
/// ..O
/// OOO
/// ```
pub const GLIDER: [(usize, usize); 5] = [(1, 0), (2, 1), (0, 2), (1, 2), (2, 2)];

/// Lightweight spaceship; it moves two cells to the left every four
/// generations.
///
/// ```text
/// .O..O
/// O....
/// O...O
/// OOOO.
/// ```
pub const LWSS: [(usize, usize); 9] = [
    (1, 0),
    (4, 0),
    (0, 1),
    (0, 2),
    (4, 2),
    (0, 3),
    (1, 3),
    (2, 3),
    (3, 3),
];

/// Middleweight spaceship; it moves two cells to the left every four
/// generations.
///
/// ```text
/// ...O..
/// .O...O
/// O.....
/// O....O
/// OOOOO.
/// ```
pub const MWSS: [(usize, usize); 11] = [
    (3, 0),
    (1, 1),
    (5, 1),
    (0, 2),
    (0, 3),
    (5, 3),
    (0, 4),
    (1, 4),
    (2, 4),
    (3, 4),
    (4, 4),
];

/// Heavyweight spaceship; it moves two cells to the left every four
/// generations.
///
/// ```text
/// ...OO..
/// .O....O
/// O......
/// O.....O
/// OOOOOO.
/// ```
pub const HWSS: [(usize, usize); 13] = [
    (3, 0),
    (4, 0),
    (1, 1),
    (6, 1),
    (0, 2),
    (0, 3),
    (6, 3),
    (0, 4),
    (1, 4),
    (2, 4),
    (3, 4),
    (4, 4),
    (5, 4),
];

} // verus!
