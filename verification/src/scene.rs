//! What is put on screen at startup: the camera, the background tiles and the piece.

use vstd::prelude::*;
use crate::layout::{Grid, GridView, COLS, GRID_SPACING, ROWS, SUBPIXELS};

verus! {

/// A point, or an offset from one, in subpixels. `y` grows upwards.
#[derive(Clone, Copy, Debug, PartialEq, Eq, Structural)]
pub struct Position {
    pub x: i64,
    pub y: i64,
    pub z: i64,
}

/// What a sprite is filled with: white for the background, red for the piece.
#[derive(Clone, Copy, Debug, PartialEq, Eq, Structural)]
pub enum Color {
    White,
    Red,
}

/// A filled square, `size` subpixels a side, centred on `position`.
#[derive(Clone, Copy, Debug, PartialEq, Eq, Structural)]
pub struct Sprite {
    pub position: Position,
    pub size: i64,
    pub color: Color,
}

/// The falling piece: where it is, and its four cells, each placed relative to it.
#[derive(Clone, Copy, Debug, PartialEq, Eq)]
pub struct Tetrimino {
    pub position: Position,
    pub cells: [Sprite; 4],
}

/// The centre of the top-left cell.
pub open spec fn is_top_left(position: Position, grid: GridView) -> bool {
    &&& position.x == grid.half_cell()
    &&& position.y == grid.height - grid.half_cell()
    &&& position.z == 0
}

/// `tile` is the background tile of the cell in row `row`, counted from the top,
/// and column `col`, counted from the left.
pub open spec fn is_background_tile(tile: Sprite, grid: GridView, row: int, col: int) -> bool {
    &&& tile.position.x == grid.half_cell() + col * grid.pitch()
    &&& tile.position.y == grid.height - grid.half_cell() - row * grid.pitch()
    &&& tile.position.z == 0
    &&& tile.size == grid.cell_size
    &&& tile.color == Color::White
}

/// `tiles` are background tiles of `grid`, row by row from the top and, within a
/// row, from the left: as many as there are, in that order.
pub open spec fn are_background_tiles(tiles: Seq<Sprite>, grid: GridView) -> bool {
    forall|i: int|
        0 <= i < tiles.len() ==> is_background_tile(#[trigger] tiles[i], grid, i / (COLS as int), i % (COLS as int))
}

/// `cell` is a cell of the piece, offset from the piece by `(x, y)`.
pub open spec fn is_piece_cell(cell: Sprite, grid: GridView, x: int, y: int) -> bool {
    &&& cell.position.x == x
    &&& cell.position.y == y
    &&& cell.position.z == 0
    &&& cell.size == grid.cell_size
    &&& cell.color == Color::Red
}

/// `piece` is the square piece as it starts out on `grid`: in the top-left cell,
/// with one cell there, one to its right, one below, and one below that to the right.
pub open spec fn is_square_piece(piece: Tetrimino, grid: GridView) -> bool {
    &&& is_top_left(piece.position, grid)
    &&& is_piece_cell(piece.cells@[0], grid, 0, 0)
    &&& is_piece_cell(piece.cells@[1], grid, grid.pitch(), 0)
    &&& is_piece_cell(piece.cells@[2], grid, 0, -grid.pitch())
    &&& is_piece_cell(piece.cells@[3], grid, grid.pitch(), -grid.pitch())
}

/// Where the camera looks: the middle of the window.
pub fn spawn_camera(window_width: u32, window_height: u32) -> (camera: Position)
    ensures
        camera.x == window_width * SUBPIXELS / 2,
        camera.y == window_height * SUBPIXELS / 2,
        camera.z == 0,
{
    let width: i64 = window_width as i64 * SUBPIXELS;
    let height: i64 = window_height as i64 * SUBPIXELS;
    Position { x: width / 2, y: height / 2, z: 0 }
}

/// Lays the grid out for a window `window_height` pixels high and returns the
/// background tiles, one for each cell, row by row from the top.
pub fn init_grid(grid: &mut Grid, window_height: u32) -> (tiles: Vec<Sprite>)
    ensures
        final(grid)@ == GridView::of_window(window_height as int),
        final(grid)@.wf(),
        tiles@.len() == ROWS * COLS,
        are_background_tiles(tiles@, final(grid)@),
{
    let grid_height: i64 = window_height as i64 * SUBPIXELS;
    let cell_size: i64 = grid_height / (ROWS as i64) - GRID_SPACING;
    let half_cell_size: i64 = cell_size / 2;
    assert(COLS as i64 == 10);
    assert(-80 <= cell_size <= 2 * u32::MAX);
    let grid_width: i64 = cell_size * (COLS as i64) + (COLS as i64) * GRID_SPACING;

    grid.init(grid_width, grid_height, cell_size);

    let mut tiles: Vec<Sprite> = Vec::new();
    let mut row: i64 = 0;
    while row < ROWS as i64
        invariant
            0 <= row <= ROWS,
            grid@ == GridView::of_window(window_height as int),
            grid_height == grid@.height,
            cell_size == grid@.cell_size,
            half_cell_size == grid@.half_cell(),
            tiles@.len() == row * COLS,
            are_background_tiles(tiles@, grid@),
        decreases ROWS - row,
    {
        let mut col: i64 = 0;
        while col < COLS as i64
            invariant
                0 <= row < ROWS,
                0 <= col <= COLS,
                grid@ == GridView::of_window(window_height as int),
                grid_height == grid@.height,
                cell_size == grid@.cell_size,
                half_cell_size == grid@.half_cell(),
                tiles@.len() == row * COLS + col,
                are_background_tiles(tiles@, grid@),
            decreases COLS - col,
        {
            assert(0 <= col * (cell_size + GRID_SPACING) <= 9 * (cell_size + GRID_SPACING)) by (nonlinear_arith)
                requires
                    0 <= col <= 9,
                    0 <= cell_size + GRID_SPACING,
            ;
            assert(0 <= row * (cell_size + GRID_SPACING) <= 19 * (cell_size + GRID_SPACING)) by (nonlinear_arith)
                requires
                    0 <= row <= 19,
                    0 <= cell_size + GRID_SPACING,
            ;
            let x: i64 = half_cell_size + col * (cell_size + GRID_SPACING);
            let y: i64 = grid_height - half_cell_size - row * (cell_size + GRID_SPACING);
            tiles.push(Sprite { position: Position { x, y, z: 0 }, size: cell_size, color: Color::White });
            col = col + 1;
        }
        row = row + 1;
    }
    tiles
}

/// The piece as it starts out: a two-by-two square in the top-left corner.
pub fn spawn_tetrimino(grid: &Grid) -> (piece: Tetrimino)
    requires
        grid@.wf(),
    ensures
        is_square_piece(piece, grid@),
{
    let cell_size: i64 = grid.get_cell_size();
    let height: i64 = grid.get_height();
    let pitch: i64 = cell_size + GRID_SPACING;
    let position = Position { x: cell_size / 2, y: height - cell_size / 2, z: 0 };
    let cells = [
        Sprite { position: Position { x: 0, y: 0, z: 0 }, size: cell_size, color: Color::Red },
        Sprite { position: Position { x: pitch, y: 0, z: 0 }, size: cell_size, color: Color::Red },
        Sprite { position: Position { x: 0, y: -cell_size - GRID_SPACING, z: 0 }, size: cell_size, color: Color::Red },
        Sprite { position: Position { x: pitch, y: -cell_size - GRID_SPACING, z: 0 }, size: cell_size, color: Color::Red },
    ];
    Tetrimino { position, cells }
}

/// Everything that startup puts on screen.
#[derive(Debug, PartialEq, Eq)]
pub struct Scene {
    pub camera: Position,
    pub tiles: Vec<Sprite>,
    pub piece: Tetrimino,
}

/// The startup sequence: camera, then grid and tiles, then the piece.
pub fn startup(grid: &mut Grid, window_width: u32, window_height: u32) -> (scene: Scene)
    ensures
        final(grid)@ == GridView::of_window(window_height as int),
        scene.camera.x == window_width * SUBPIXELS / 2,
        scene.camera.y == window_height * SUBPIXELS / 2,
        scene.camera.z == 0,
        scene.tiles@.len() == ROWS * COLS,
        are_background_tiles(scene.tiles@, final(grid)@),
        scene.piece.cells@.len() == 4,
        is_square_piece(scene.piece, final(grid)@),
{
    let camera = spawn_camera(window_width, window_height);
    let tiles = init_grid(grid, window_height);
    let piece = spawn_tetrimino(grid);
    Scene { camera, tiles, piece }
}

} // verus!
