use tetris::{
    init_grid, spawn_camera, spawn_tetrimino, startup, Color, Grid, Position, Sprite, COLS, GRID_SPACING, ROWS,
    SUBPIXELS,
};

fn px(length: i64) -> f32 {
    length as f32 / SUBPIXELS as f32
}

fn px3(position: Position) -> (f32, f32, f32) {
    (px(position.x), px(position.y), px(position.z))
}

const HEIGHTS: [u32; 11] = [0, 1, 39, 40, 41, 600, 800, 801, 1080, 65_535, u32::MAX];

#[test]
fn top_left_tile_of_an_800_pixel_window() {
    let mut grid = Grid::default();
    let tiles = init_grid(&mut grid, 800);
    assert_eq!(px3(tiles[0].position), (19.0, 800.0 - 19.0, 0.0));
    assert_eq!(px3(tiles[0].position), (19.0, 781.0, 0.0));
    assert_eq!(
        tiles[0],
        Sprite { position: Position { x: 760, y: 31240, z: 0 }, size: 1520, color: Color::White }
    );
}

#[test]
fn bottom_right_tile_of_an_800_pixel_window() {
    let mut grid = Grid::default();
    let tiles = init_grid(&mut grid, 800);
    let tile = tiles[19 * COLS + 9];
    assert_eq!(px(tile.position.x), 19.0 + 9.0 * 40.0);
    assert_eq!(px(tile.position.x), 379.0);
    assert_eq!(px(tile.position.y), 800.0 - 19.0 - 19.0 * 40.0);
    assert_eq!(px(tile.position.y), 21.0);
    assert_eq!(tile.position, Position { x: 15160, y: 840, z: 0 });
}

#[test]
fn tiles_come_row_by_row_from_the_top() {
    let mut grid = Grid::default();
    let tiles = init_grid(&mut grid, 800);
    assert_eq!(px3(tiles[1].position), (59.0, 781.0, 0.0));
    assert_eq!(px3(tiles[9].position), (379.0, 781.0, 0.0));
    assert_eq!(px3(tiles[10].position), (19.0, 741.0, 0.0));
    assert_eq!(px3(tiles[190].position), (19.0, 21.0, 0.0));
    assert_eq!(px3(tiles[199].position), (379.0, 21.0, 0.0));
}

#[test]
fn every_tile_follows_the_formula() {
    for window_height in HEIGHTS {
        let mut grid = Grid::default();
        let tiles = init_grid(&mut grid, window_height);
        let cell_size = grid.get_cell_size();
        let half = cell_size / 2;
        let pitch = cell_size + GRID_SPACING;
        for row in 0..ROWS {
            for col in 0..COLS {
                let tile = tiles[row * COLS + col];
                assert_eq!(tile.position.x, half + col as i64 * pitch);
                assert_eq!(tile.position.y, grid.get_height() - half - row as i64 * pitch);
                assert_eq!(tile.position.z, 0);
                assert_eq!(tile.size, cell_size);
                assert_eq!(tile.color, Color::White);
            }
        }
    }
}

#[test]
fn two_hundred_tiles_whatever_the_window() {
    for window_height in HEIGHTS {
        let mut grid = Grid::default();
        let tiles = init_grid(&mut grid, window_height);
        assert_eq!(tiles.len(), 200);
        assert_eq!(tiles.len(), ROWS * COLS);
    }
}

#[test]
fn laying_out_twice_gives_the_same_tiles_again() {
    let mut grid = Grid::default();
    let first = init_grid(&mut grid, 800);
    let second = init_grid(&mut grid, 800);
    assert_eq!(first, second);
    assert_eq!(second.len(), 200);
}

#[test]
fn tiles_of_different_cells_are_a_pitch_apart() {
    for window_height in [1u32, 40, 800, u32::MAX] {
        let mut grid = Grid::default();
        let tiles = init_grid(&mut grid, window_height);
        let pitch = grid.get_cell_size() + GRID_SPACING;
        assert!(pitch > 0);
        for a in 0..tiles.len() {
            for b in 0..a {
                let dx = (tiles[a].position.x - tiles[b].position.x).abs();
                let dy = (tiles[a].position.y - tiles[b].position.y).abs();
                assert!(dx >= pitch || dy >= pitch);
            }
        }
    }
}

#[test]
fn tiles_of_a_window_without_height_share_a_centre() {
    let mut grid = Grid::default();
    let tiles = init_grid(&mut grid, 0);
    assert_eq!(tiles.len(), 200);
    for tile in &tiles {
        assert_eq!(px3(tile.position), (-1.0, 1.0, 0.0));
        assert_eq!(px(tile.size), -2.0);
    }
}

#[test]
fn piece_spawns_in_the_top_left_cell() {
    let mut grid = Grid::default();
    init_grid(&mut grid, 800);
    let piece = spawn_tetrimino(&grid);
    assert_eq!(px3(piece.position), (19.0, 781.0, 0.0));
    assert_eq!(piece.position, Position { x: 760, y: 31240, z: 0 });
}

#[test]
fn piece_cells_form_a_square() {
    let mut grid = Grid::default();
    init_grid(&mut grid, 800);
    let piece = spawn_tetrimino(&grid);
    assert_eq!(px3(piece.cells[0].position), (0.0, 0.0, 0.0));
    assert_eq!(px3(piece.cells[1].position), (40.0, 0.0, 0.0));
    assert_eq!(px3(piece.cells[2].position), (0.0, -40.0, 0.0));
    assert_eq!(px3(piece.cells[3].position), (40.0, -40.0, 0.0));
    for cell in piece.cells {
        assert_eq!(px(cell.size), 38.0);
        assert_eq!(cell.color, Color::Red);
    }
}

#[test]
fn piece_keeps_its_shape_whatever_the_window() {
    let footprint: [(i64, i64); 4] = [(0, 0), (1, 0), (0, -1), (1, -1)];
    for window_height in HEIGHTS {
        let mut grid = Grid::default();
        init_grid(&mut grid, window_height);
        let piece = spawn_tetrimino(&grid);
        let pitch = grid.get_cell_size() + GRID_SPACING;
        assert_eq!(piece.cells.len(), 4);
        assert_eq!(piece.position.x, grid.get_cell_size() / 2);
        assert_eq!(piece.position.y, grid.get_height() - grid.get_cell_size() / 2);
        assert_eq!(piece.position.z, 0);
        for k in 0..4 {
            let cell = piece.cells[k];
            assert_eq!(cell.position, Position { x: footprint[k].0 * pitch, y: footprint[k].1 * pitch, z: 0 });
            assert_eq!(cell.size, grid.get_cell_size());
            assert_eq!(cell.color, Color::Red);
        }
    }
}

#[test]
fn piece_of_a_600_pixel_window() {
    let mut grid = Grid::default();
    init_grid(&mut grid, 600);
    let piece = spawn_tetrimino(&grid);
    assert_eq!(px3(piece.position), (14.0, 586.0, 0.0));
    assert_eq!(px3(piece.cells[3].position), (30.0, -30.0, 0.0));
    assert_eq!(px(piece.cells[3].size), 28.0);
}

#[test]
fn piece_cells_lie_over_the_top_left_tiles() {
    for window_height in HEIGHTS {
        let mut grid = Grid::default();
        let tiles = init_grid(&mut grid, window_height);
        let piece = spawn_tetrimino(&grid);
        let under = [tiles[0], tiles[1], tiles[COLS], tiles[COLS + 1]];
        for k in 0..4 {
            let cell = piece.cells[k];
            assert_eq!(piece.position.x + cell.position.x, under[k].position.x);
            assert_eq!(piece.position.y + cell.position.y, under[k].position.y);
            assert_eq!(piece.position.z + cell.position.z, under[k].position.z);
            assert_eq!(cell.size, under[k].size);
        }
    }
}

#[test]
fn camera_looks_at_the_middle_of_the_window() {
    let camera = spawn_camera(600, 800);
    assert_eq!(px3(camera), (300.0, 400.0, 0.0));
    assert_eq!(camera, Position { x: 12000, y: 16000, z: 0 });
    assert_eq!(px3(spawn_camera(601, 1)), (300.5, 0.5, 0.0));
    assert_eq!(spawn_camera(0, 0), Position { x: 0, y: 0, z: 0 });
    assert_eq!(spawn_camera(u32::MAX, u32::MAX).x, 85_899_345_900);
}

#[test]
fn startup_runs_camera_grid_and_piece_in_turn() {
    let mut grid = Grid::default();
    let scene = startup(&mut grid, 600, 800);

    let mut expected_grid = Grid::default();
    let tiles = init_grid(&mut expected_grid, 800);
    assert_eq!(grid, expected_grid);
    assert_eq!(scene.camera, spawn_camera(600, 800));
    assert_eq!(scene.tiles, tiles);
    assert_eq!(scene.piece, spawn_tetrimino(&expected_grid));

    assert_eq!(scene.tiles.len(), 200);
    assert_eq!(scene.piece.cells.len(), 4);
    assert_eq!(px3(scene.piece.position), (19.0, 781.0, 0.0));
}

#[test]
fn startup_populates_any_window() {
    for window_height in HEIGHTS {
        let mut grid = Grid::default();
        let scene = startup(&mut grid, 600, window_height);
        assert_eq!(scene.tiles.len(), 200);
        assert_eq!(scene.piece.cells.len(), 4);
        assert!(grid.is_well_formed());
    }
}
