//! Playfield layout for a falling-block puzzle: the grid that a window of a given
//! height is divided into, the background tile of every cell, and the one square
//! piece that starts in the top-left corner.
//!
//! Every length is a whole number of subpixels (see [`layout::SUBPIXELS`]), so the
//! layout of a window whose height is a whole number of pixels is exact.

pub mod geometry;
pub mod layout;
pub mod scene;

pub use layout::{Grid, GridView, COLS, GRID_SPACING, ROWS, SUBPIXELS};
pub use scene::{init_grid, spawn_camera, spawn_tetrimino, startup, Color, Position, Scene, Sprite, Tetrimino};
