use vstd::prelude::*;

verus! {

/// Number of rows in the life grid.
pub const GRID_ROWS: usize = 10;

/// Number of columns in the life grid.
pub const GRID_COLS: usize = 10;

/// Height of the pixel screen, in pixel rows.
pub const SCREEN_ROWS: usize = 500;

/// Width of the pixel screen, in pixel columns.
pub const SCREEN_COLS: usize = 500;

/// Pixels left unpainted on each side of a cell's rectangle.
pub const PADDING_SIZE: usize = 4;

/// Pixel rows covered by one grid cell.
pub const CELL_ROWS: usize = SCREEN_ROWS / GRID_ROWS;

/// Pixel columns covered by one grid cell.
pub const CELL_COLS: usize = SCREEN_COLS / GRID_COLS;

/// Pixel extent of one grid cell: rows per cell, then columns per cell.
pub fn cell_size() -> (r: (usize, usize))
    ensures
        r.0 == CELL_ROWS,
        r.1 == CELL_COLS,
{
    (SCREEN_ROWS / GRID_ROWS, SCREEN_COLS / GRID_COLS)
}

/// Whether `(r, c)` is a coordinate inside the life grid.
pub open spec fn in_grid(r: int, c: int) -> bool {
    &&& 0 <= r < GRID_ROWS as int
    &&& 0 <= c < GRID_COLS as int
}

/// Row-major position of grid cell `(r, c)`.
pub open spec fn grid_idx(r: int, c: int) -> int {
    r * (GRID_COLS as int) + c
}

/// A grid holds exactly one cell per coordinate, in row-major order.
pub open spec fn grid_wf(g: Seq<bool>) -> bool {
    g.len() == GRID_ROWS as int * GRID_COLS as int
}

/// Whether `(y, x)` is a pixel coordinate inside the screen.
pub open spec fn in_screen(y: int, x: int) -> bool {
    &&& 0 <= y < SCREEN_ROWS as int
    &&& 0 <= x < SCREEN_COLS as int
}

/// Row-major position of pixel `(y, x)`.
pub open spec fn pixel_idx(y: int, x: int) -> int {
    y * (SCREEN_COLS as int) + x
}

/// A screen holds exactly one byte per pixel, in row-major order.
pub open spec fn screen_wf(s: Seq<u8>) -> bool {
    s.len() == SCREEN_ROWS as int * SCREEN_COLS as int
}

/// Whether pixel `(y, x)` lies in the padded interior rectangle of
/// grid cell `(row, col)`: the cell's pixel rectangle inset by
/// `PADDING_SIZE` on all four sides.
pub open spec fn in_cell_interior(row: int, col: int, y: int, x: int) -> bool {
    &&& row * (CELL_ROWS as int) + PADDING_SIZE as int <= y
    &&& y < (row + 1) * (CELL_ROWS as int) - PADDING_SIZE as int
    &&& col * (CELL_COLS as int) + PADDING_SIZE as int <= x
    &&& x < (col + 1) * (CELL_COLS as int) - PADDING_SIZE as int
}

/// Whether pixel `(y, x)` lies in the padded interior of some cell;
/// the only candidate cell is the one the pixel falls in.
pub open spec fn interior_pixel(y: int, x: int) -> bool {
    in_cell_interior(y / (CELL_ROWS as int), x / (CELL_COLS as int), y, x)
}

/// A pixel in the padded interior of a cell determines that cell:
/// the interiors of distinct cells are disjoint.
pub proof fn lemma_interior_cell_unique(row: int, col: int, y: int, x: int)
    requires
        in_cell_interior(row, col, y, x),
    ensures
        y / (CELL_ROWS as int) == row,
        x / (CELL_COLS as int) == col,
        interior_pixel(y, x),
{
    assert((row + 1) * (CELL_ROWS as int) == row * (CELL_ROWS as int) + CELL_ROWS as int)
        by (nonlinear_arith);
    assert((col + 1) * (CELL_COLS as int) == col * (CELL_COLS as int) + CELL_COLS as int)
        by (nonlinear_arith);
    vstd::arithmetic::div_mod::lemma_fundamental_div_mod_converse(
        y,
        CELL_ROWS as int,
        row,
        y - row * (CELL_ROWS as int),
    );
    vstd::arithmetic::div_mod::lemma_fundamental_div_mod_converse(
        x,
        CELL_COLS as int,
        col,
        x - col * (CELL_COLS as int),
    );
}

/// Every screen pixel falls in some grid cell: the cell the pixel's
/// coordinates divide down to.
pub proof fn lemma_pixel_cell_in_grid(y: int, x: int)
    requires
        in_screen(y, x),
    ensures
        in_grid(y / (CELL_ROWS as int), x / (CELL_COLS as int)),
{
    vstd::arithmetic::div_mod::lemma_fundamental_div_mod(y, CELL_ROWS as int);
    vstd::arithmetic::div_mod::lemma_mod_bound(y, CELL_ROWS as int);
    vstd::arithmetic::div_mod::lemma_fundamental_div_mod(x, CELL_COLS as int);
    vstd::arithmetic::div_mod::lemma_mod_bound(x, CELL_COLS as int);
}

/// A row-major grid position splits into the coordinate it encodes.
pub proof fn lemma_grid_pos(i: int)
    requires
        0 <= i < GRID_ROWS as int * GRID_COLS as int,
    ensures
        in_grid(i / (GRID_COLS as int), i % (GRID_COLS as int)),
        grid_idx(i / (GRID_COLS as int), i % (GRID_COLS as int)) == i,
{
    vstd::arithmetic::div_mod::lemma_fundamental_div_mod(i, GRID_COLS as int);
    vstd::arithmetic::div_mod::lemma_mod_bound(i, GRID_COLS as int);
    vstd::arithmetic::div_mod::lemma_div_is_ordered(
        i,
        GRID_ROWS as int * GRID_COLS as int - 1,
        GRID_COLS as int,
    );
}

} // verus!
