//! Conway's Game of Life on a fixed-size toroidal grid.
//!
//! A generation is a row-major buffer of `GRID_W * GRID_H` cells. The edges of
//! the grid are glued together: the column left of column `0` is column
//! `GRID_W - 1`, and the row above row `0` is row `GRID_H - 1`.
//!
//! * [`grid`] fixes the dimensions and the mapping from coordinates to buffer
//!   positions.
//! * [`patterns`] is the catalog of classic patterns.
//! * [`placement`] puts patterns onto the grid and lays out the default scene.
//! * [`engine`] counts live neighbours and computes the next generation.
//! * [`framebuffer`] and [`render`] draw a generation onto a pixel surface.
//! * [`evolution`], [`still_lifes`], [`oscillators`] and [`spaceships`] state
//!   and prove how the patterns of the catalog behave, wherever they are
//!   placed.

pub mod engine;
pub mod evolution;
pub mod framebuffer;
pub mod grid;
pub mod oscillators;
pub mod patterns;
pub mod placement;
pub mod render;
pub mod spaceships;
pub mod still_lifes;
