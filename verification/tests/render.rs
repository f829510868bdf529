use game_of_life::framebuffer::{Color, Framebuffer};
use game_of_life::grid::{GRID_H, GRID_W};
use game_of_life::patterns::GLIDER;
use game_of_life::placement::place;
use game_of_life::render::draw_grid;

const RED: Color = Color { r: 230, g: 41, b: 55, a: 255 };
const BLUE: Color = Color { r: 0, g: 121, b: 241, a: 255 };

fn black() -> Color {
    Color { r: 0, g: 0, b: 0, a: 255 }
}

fn white() -> Color {
    Color { r: 255, g: 255, b: 255, a: 255 }
}

fn every_pixel_is(fb: &Framebuffer, color: Color) -> bool {
    for y in 0..fb.height() {
        for x in 0..fb.width() {
            if fb.pixel(x, y) != Some(color) {
                return false;
            }
        }
    }
    true
}

#[test]
fn black_and_white_are_opaque() {
    assert_eq!(Color::black(), black());
    assert_eq!(Color::white(), white());
    assert_ne!(Color::black(), Color::white());
}

#[test]
fn new_surface_is_black_and_draws_in_white() {
    let fb: Framebuffer = Framebuffer::new(7, 5);
    assert_eq!(fb.width(), 7);
    assert_eq!(fb.height(), 5);
    assert_eq!(fb.current_color(), white());
    assert_eq!(fb.background_color(), black());
    assert!(every_pixel_is(&fb, black()));
}

#[test]
fn new_surface_may_have_no_pixels() {
    let mut fb: Framebuffer = Framebuffer::new(0, 9);
    assert_eq!(fb.width(), 0);
    assert_eq!(fb.height(), 9);
    assert_eq!(fb.pixel(0, 0), None);
    fb.point(0, 0);
    fb.clear();
    assert_eq!(fb.pixel(0, 0), None);
}

#[test]
fn pixel_outside_the_surface_is_none() {
    let fb: Framebuffer = Framebuffer::new(4, 3);
    assert_eq!(fb.pixel(3, 2), Some(black()));
    assert_eq!(fb.pixel(4, 2), None);
    assert_eq!(fb.pixel(3, 3), None);
    assert_eq!(fb.pixel(u32::MAX, u32::MAX), None);
}

#[test]
fn point_sets_one_pixel_to_the_current_color() {
    let mut fb: Framebuffer = Framebuffer::new(4, 3);
    fb.point(2, 1);
    for y in 0..3u32 {
        for x in 0..4u32 {
            let expected: Color = if (x, y) == (2, 1) { white() } else { black() };
            assert_eq!(fb.pixel(x, y), Some(expected));
        }
    }
}

#[test]
fn point_tells_columns_from_rows() {
    let mut fb: Framebuffer = Framebuffer::new(5, 2);
    fb.set_current_color(RED);
    fb.point(4, 0);
    fb.set_current_color(BLUE);
    fb.point(0, 1);
    assert_eq!(fb.pixel(4, 0), Some(RED));
    assert_eq!(fb.pixel(0, 1), Some(BLUE));
    assert_eq!(fb.pixel(1, 0), Some(black()));
    assert_eq!(fb.pixel(3, 1), Some(black()));
}

#[test]
fn point_outside_the_surface_is_ignored() {
    let mut fb: Framebuffer = Framebuffer::new(4, 3);
    fb.point(4, 0);
    fb.point(0, 3);
    fb.point(-1, 0);
    fb.point(0, -1);
    fb.point(-1, -1);
    fb.point(i32::MAX, i32::MAX);
    fb.point(i32::MIN, i32::MIN);
    fb.point(5, 1);
    assert!(every_pixel_is(&fb, black()));
}

#[test]
fn point_reaches_the_last_pixel() {
    let mut fb: Framebuffer = Framebuffer::new(4, 3);
    fb.point(3, 2);
    assert_eq!(fb.pixel(3, 2), Some(white()));
    assert_eq!(fb.pixel(2, 2), Some(black()));
    assert_eq!(fb.pixel(3, 1), Some(black()));
}

#[test]
fn set_current_color_changes_what_point_draws() {
    let mut fb: Framebuffer = Framebuffer::new(4, 3);
    fb.set_current_color(RED);
    assert_eq!(fb.current_color(), RED);
    assert_eq!(fb.background_color(), black());
    fb.point(1, 1);
    assert_eq!(fb.pixel(1, 1), Some(RED));
    assert_eq!(fb.pixel(0, 0), Some(black()));
}

#[test]
fn set_background_color_draws_nothing() {
    let mut fb: Framebuffer = Framebuffer::new(4, 3);
    fb.set_background_color(BLUE);
    assert_eq!(fb.background_color(), BLUE);
    assert_eq!(fb.current_color(), white());
    assert!(every_pixel_is(&fb, black()));
}

#[test]
fn clear_fills_the_surface_with_the_background_color() {
    let mut fb: Framebuffer = Framebuffer::new(6, 4);
    fb.point(1, 1);
    fb.point(5, 3);
    fb.set_background_color(BLUE);
    fb.clear();
    assert!(every_pixel_is(&fb, BLUE));
    assert_eq!(fb.current_color(), white());
    assert_eq!(fb.background_color(), BLUE);
    assert_eq!(fb.width(), 6);
    assert_eq!(fb.height(), 4);
}

#[test]
fn draw_grid_paints_live_cells_white_and_dead_cells_black() {
    let mut cells: Vec<bool> = vec![false; GRID_W * GRID_H];
    place(&mut cells, &GLIDER, 98, 98);
    let mut fb: Framebuffer = Framebuffer::new(100, 100);
    fb.set_background_color(BLUE);
    fb.clear();
    fb.set_background_color(RED);
    draw_grid(&mut fb, &cells);
    for y in 0..100u32 {
        for x in 0..100u32 {
            let alive: bool = cells[y as usize * GRID_W + x as usize];
            let expected: Color = if alive { white() } else { black() };
            assert_eq!(fb.pixel(x, y), Some(expected));
        }
    }
    assert_eq!(fb.pixel(99, 98), Some(white()));
    assert_eq!(fb.pixel(0, 99), Some(white()));
    assert_eq!(fb.pixel(98, 0), Some(white()));
    assert_eq!(fb.pixel(50, 50), Some(black()));
    assert_eq!(fb.background_color(), RED);
}

#[test]
fn draw_grid_leaves_the_color_of_the_last_cell() {
    let dead: Vec<bool> = vec![false; GRID_W * GRID_H];
    let mut fb: Framebuffer = Framebuffer::new(100, 100);
    draw_grid(&mut fb, &dead);
    assert_eq!(fb.current_color(), black());

    let mut last_alive: Vec<bool> = vec![false; GRID_W * GRID_H];
    last_alive[GRID_W * GRID_H - 1] = true;
    draw_grid(&mut fb, &last_alive);
    assert_eq!(fb.current_color(), white());
    assert_eq!(fb.pixel(99, 99), Some(white()));
    assert_eq!(fb.pixel(98, 99), Some(black()));
}

#[test]
fn draw_grid_draws_over_the_previous_frame() {
    let mut first: Vec<bool> = vec![false; GRID_W * GRID_H];
    first[3 * GRID_W + 4] = true;
    let mut second: Vec<bool> = vec![false; GRID_W * GRID_H];
    second[4 * GRID_W + 3] = true;
    let mut fb: Framebuffer = Framebuffer::new(100, 100);
    draw_grid(&mut fb, &first);
    assert_eq!(fb.pixel(4, 3), Some(white()));
    assert_eq!(fb.pixel(3, 4), Some(black()));
    draw_grid(&mut fb, &second);
    assert_eq!(fb.pixel(4, 3), Some(black()));
    assert_eq!(fb.pixel(3, 4), Some(white()));
}

#[test]
fn draw_grid_skips_cells_beyond_a_small_surface() {
    let cells: Vec<bool> = vec![true; GRID_W * GRID_H];
    let mut fb: Framebuffer = Framebuffer::new(30, 20);
    draw_grid(&mut fb, &cells);
    assert!(every_pixel_is(&fb, white()));
    assert_eq!(fb.pixel(30, 0), None);
    assert_eq!(fb.current_color(), white());
}

#[test]
fn draw_grid_keeps_pixels_beyond_the_grid() {
    let mut cells: Vec<bool> = vec![false; GRID_W * GRID_H];
    cells[99 * GRID_W + 99] = true;
    cells[0] = true;
    let mut fb: Framebuffer = Framebuffer::new(120, 110);
    fb.set_background_color(BLUE);
    fb.clear();
    draw_grid(&mut fb, &cells);
    for y in 0..110u32 {
        for x in 0..120u32 {
            let expected: Color = if x >= 100 || y >= 100 {
                BLUE
            } else if (x, y) == (0, 0) || (x, y) == (99, 99) {
                white()
            } else {
                black()
            };
            assert_eq!(fb.pixel(x, y), Some(expected));
        }
    }
}
