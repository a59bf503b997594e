//! What holds of the layout and of the scene, whatever the window's size.

use vstd::prelude::*;
use crate::layout::{GridView, COLS, GRID_SPACING, ROWS, SUBPIXELS};
use crate::scene::{is_background_tile, is_square_piece, Sprite, Tetrimino};

verus! {

/// The shape of the piece: for each of its cells, how many cells to the right of
/// the piece's own position it lies, and how many cells above it.
pub open spec fn footprint() -> Seq<(int, int)> {
    seq![(0, 0), (1, 0), (0, -1), (1, -1)]
}

/// The footprint scaled by a pitch: the four offsets, written out.
proof fn lemma_footprint_scaled(pitch: int)
    ensures
        footprint().len() == 4,
        footprint()[0].0 * pitch == 0 && footprint()[0].1 * pitch == 0,
        footprint()[1].0 * pitch == pitch && footprint()[1].1 * pitch == 0,
        footprint()[2].0 * pitch == 0 && footprint()[2].1 * pitch == -pitch,
        footprint()[3].0 * pitch == pitch && footprint()[3].1 * pitch == -pitch,
        -footprint()[0].1 * pitch == 0,
        -footprint()[1].1 * pitch == 0,
        -footprint()[2].1 * pitch == pitch,
        -footprint()[3].1 * pitch == pitch,
{
    assert(footprint()[0] == (0int, 0int));
    assert(footprint()[1] == (1int, 0int));
    assert(footprint()[2] == (0int, -1int));
    assert(footprint()[3] == (1int, -1int));
    assert(forall|unit: int| unit == 0 ==> #[trigger] (unit * pitch) == 0) by (nonlinear_arith);
    assert(forall|unit: int| unit == 1 ==> #[trigger] (unit * pitch) == pitch) by (nonlinear_arith);
    assert(forall|unit: int| unit == -1 ==> #[trigger] (unit * pitch) == -pitch) by (nonlinear_arith);
}

/// In the layout of a window nothing is rounded: the rows, spacing included, fill
/// the height exactly, the columns span the width, and half a cell is whole.
pub proof fn lemma_layout_is_exact(window_height: int)
    requires
        0 <= window_height <= u32::MAX,
    ensures
        GridView::of_window(window_height).wf(),
        ROWS * GridView::of_window(window_height).pitch() == window_height * SUBPIXELS,
        COLS * GridView::of_window(window_height).pitch() == GridView::of_window(window_height).width,
        2 * GridView::of_window(window_height).half_cell() == GridView::of_window(window_height).cell_size,
{
}

/// A well-formed grid is the layout of the window whose height it records.
pub proof fn lemma_wf_is_of_window(grid: GridView)
    requires
        grid.wf(),
    ensures
        grid == GridView::of_window(grid.height / (SUBPIXELS as int)),
        0 <= grid.height / (SUBPIXELS as int) <= u32::MAX,
{
}

/// Whatever the grid's size, the cells of the piece sit on the corners of one
/// square: the offset of each is its entry in the footprint, scaled by the pitch.
pub proof fn lemma_piece_is_scaled_footprint(piece: Tetrimino, grid: GridView)
    requires
        is_square_piece(piece, grid),
    ensures
        piece.cells@.len() == footprint().len() == 4,
        forall|k: int|
            0 <= k < 4 ==> {
                &&& (#[trigger] piece.cells@[k]).position.x == footprint()[k].0 * grid.pitch()
                &&& piece.cells@[k].position.y == footprint()[k].1 * grid.pitch()
                &&& piece.cells@[k].position.z == 0
            },
{
    lemma_footprint_scaled(grid.pitch());
}

/// Each cell of the piece lies exactly over a background tile: moved by the
/// piece's position, cell `k` has the centre and the size of the tile that is as
/// many columns to the right, and as many rows down, as the footprint says.
pub proof fn lemma_piece_covers_tiles(piece: Tetrimino, grid: GridView, k: int, tile: Sprite)
    requires
        is_square_piece(piece, grid),
        0 <= k < 4,
        is_background_tile(tile, grid, -footprint()[k].1, footprint()[k].0),
    ensures
        tile.position.x == piece.position.x + piece.cells@[k].position.x,
        tile.position.y == piece.position.y + piece.cells@[k].position.y,
        tile.position.z == piece.position.z + piece.cells@[k].position.z,
        tile.size == piece.cells@[k].size,
{
    lemma_footprint_scaled(grid.pitch());
}

/// Where cells have a pitch, no two background tiles share a centre: the tiles of
/// two different cells are at least one pitch apart along a row or a column.
pub proof fn lemma_tiles_are_apart(grid: GridView, a: Sprite, row_a: int, col_a: int, b: Sprite, row_b: int, col_b: int)
    requires
        grid.pitch() > 0,
        is_background_tile(a, grid, row_a, col_a),
        is_background_tile(b, grid, row_b, col_b),
        row_a != row_b || col_a != col_b,
    ensures
        a.position.x - b.position.x >= grid.pitch() || b.position.x - a.position.x >= grid.pitch()
            || a.position.y - b.position.y >= grid.pitch() || b.position.y - a.position.y >= grid.pitch(),
{
    let p = grid.pitch();
    assert(a.position.x - b.position.x == (col_a - col_b) * p) by (nonlinear_arith)
        requires
            a.position.x == grid.half_cell() + col_a * p,
            b.position.x == grid.half_cell() + col_b * p,
    ;
    assert(b.position.y - a.position.y == (row_a - row_b) * p) by (nonlinear_arith)
        requires
            a.position.y == grid.height - grid.half_cell() - row_a * p,
            b.position.y == grid.height - grid.half_cell() - row_b * p,
    ;
    assert(forall|d: int| d >= 1 ==> #[trigger] (d * p) >= p) by (nonlinear_arith)
        requires
            p > 0,
    ;
    assert(forall|d: int| d <= -1 ==> #[trigger] (d * p) <= -p) by (nonlinear_arith)
        requires
            p > 0,
    ;
}

} // verus!
