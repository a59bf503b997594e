//! The grid's dimensions and how they follow from the window's height.

use vstd::prelude::*;

verus! {

/// Number of cell rows of the playfield.
pub const ROWS: usize = 20;

/// Number of cell columns of the playfield.
pub const COLS: usize = 10;

/// Subpixels per pixel: the unit of every length. It is twice the row count, so
/// that one row's share of a whole-pixel height, and half of that, are whole.
pub const SUBPIXELS: i64 = 40;

/// Gap between neighbouring cells: two pixels.
pub const GRID_SPACING: i64 = 80;

/// Side of a cell in a playfield of the given height: one row's share of the
/// height, less the spacing.
pub open spec fn cell_size_of(height: int) -> int {
    height / (ROWS as int) - GRID_SPACING
}

/// Width that the columns span, spacing included.
pub open spec fn width_of(cell_size: int) -> int {
    cell_size * COLS + COLS * GRID_SPACING
}

/// Distance from one cell to the next, along a row or a column.
pub open spec fn pitch_of(cell_size: int) -> int {
    cell_size + GRID_SPACING
}

/// What a [`Grid`] holds, as unbounded integers.
pub struct GridView {
    pub width: int,
    pub height: int,
    pub cell_size: int,
}

impl GridView {
    /// The dimensions of the playfield in a window `window_height` pixels high.
    pub open spec fn of_window(window_height: int) -> GridView {
        let height = window_height * SUBPIXELS;
        GridView {
            width: width_of(cell_size_of(height)),
            height,
            cell_size: cell_size_of(height),
        }
    }

    /// The dimensions are those of some window: the height is a whole number of
    /// pixels that a `u32` can hold, and cell size and width follow from it.
    pub open spec fn wf(self) -> bool {
        &&& 0 <= self.height <= u32::MAX * SUBPIXELS
        &&& self.height % (SUBPIXELS as int) == 0
        &&& self.cell_size == cell_size_of(self.height)
        &&& self.width == width_of(self.cell_size)
    }

    /// Half a cell: the distance from a cell's edge to its centre.
    pub open spec fn half_cell(self) -> int {
        self.cell_size / 2
    }

    /// Distance from one cell to the next.
    pub open spec fn pitch(self) -> int {
        pitch_of(self.cell_size)
    }
}

/// Dimensions of the playfield, in subpixels. A fresh grid is all zero; laying it
/// out for a window makes it well formed, and the setters can take it anywhere.
#[derive(Clone, Copy, Debug, PartialEq, Eq)]
pub struct Grid {
    width: i64,
    height: i64,
    cell_size: i64,
}

impl View for Grid {
    type V = GridView;

    closed spec fn view(&self) -> GridView {
        GridView { width: self.width as int, height: self.height as int, cell_size: self.cell_size as int }
    }
}

impl Default for Grid {
    fn default() -> (grid: Grid)
        ensures
            grid@ == (GridView { width: 0, height: 0, cell_size: 0 }),
    {
        Grid { width: 0, height: 0, cell_size: 0 }
    }
}

impl Grid {
    pub fn get_cell_size(&self) -> (cell_size: i64)
        ensures
            cell_size == self@.cell_size,
    {
        self.cell_size
    }

    pub fn get_width(&self) -> (width: i64)
        ensures
            width == self@.width,
    {
        self.width
    }

    pub fn get_height(&self) -> (height: i64)
        ensures
            height == self@.height,
    {
        self.height
    }

    /// Whether the grid is the layout of some window.
    pub fn is_well_formed(&self) -> (ok: bool)
        ensures
            ok == self@.wf(),
    {
        if self.height < 0 || self.height > u32::MAX as i64 * SUBPIXELS || self.height % SUBPIXELS != 0 {
            return false;
        }
        let cell_size: i64 = self.height / (ROWS as i64) - GRID_SPACING;
        assert(COLS as i64 == 10);
        self.cell_size == cell_size && self.width == cell_size * (COLS as i64) + (COLS as i64)
            * GRID_SPACING
    }

    /// Sets all three dimensions at once.
    pub fn init(&mut self, width: i64, height: i64, cell_size: i64)
        ensures
            final(self)@ == (GridView { width: width as int, height: height as int, cell_size: cell_size as int }),
    {
        self.set_width(width);
        self.set_height(height);
        self.set_cell_size(cell_size);
    }

    pub fn set_width(&mut self, width: i64)
        ensures
            final(self)@ == (GridView { width: width as int, ..old(self)@ }),
    {
        self.width = width;
    }

    pub fn set_height(&mut self, height: i64)
        ensures
            final(self)@ == (GridView { height: height as int, ..old(self)@ }),
    {
        self.height = height;
    }

    pub fn set_cell_size(&mut self, cell_size: i64)
        ensures
            final(self)@ == (GridView { cell_size: cell_size as int, ..old(self)@ }),
    {
        self.cell_size = cell_size;
    }
}

} // verus!
