use vstd::prelude::*;

use crate::geometry::{
    grid_idx, grid_wf, in_cell_interior, in_grid, in_screen, lemma_interior_cell_unique,
    lemma_pixel_cell_in_grid, pixel_idx, screen_wf, CELL_COLS, CELL_ROWS, GRID_COLS, GRID_ROWS,
    PADDING_SIZE, SCREEN_COLS, SCREEN_ROWS,
};

verus! {

/// Whether coordinate `(r, c)` is on the grid and holds a live cell.
/// Off-grid coordinates count as dead, so the grid does not wrap.
pub open spec fn live_at(g: Seq<bool>, r: int, c: int) -> bool {
    in_grid(r, c) && g[grid_idx(r, c)]
}

/// One for a live cell, zero for a dead one.
pub open spec fn one_if(b: bool) -> int {
    if b {
        1
    } else {
        0
    }
}

/// Live neighbors of `(r, c)` under the 8-direction Moore kernel;
/// neighbors beyond any grid edge are dead.
pub open spec fn spec_neighbor_count(g: Seq<bool>, r: int, c: int) -> int {
    one_if(live_at(g, r + 1, c)) + one_if(live_at(g, r + 1, c + 1)) + one_if(
        live_at(g, r, c + 1),
    ) + one_if(live_at(g, r - 1, c + 1)) + one_if(live_at(g, r - 1, c)) + one_if(
        live_at(g, r - 1, c - 1),
    ) + one_if(live_at(g, r, c - 1)) + one_if(live_at(g, r + 1, c - 1))
}

/// The Game-of-Life rule: a live cell survives on 2 or 3 live
/// neighbors; a dead cell becomes alive on exactly 3.
pub open spec fn spec_next_cell(g: Seq<bool>, r: int, c: int) -> bool {
    if live_at(g, r, c) {
        spec_neighbor_count(g, r, c) == 2 || spec_neighbor_count(g, r, c) == 3
    } else {
        spec_neighbor_count(g, r, c) == 3
    }
}

/// The next generation: every cell's rule outcome against the same
/// unmodified grid, in row-major order.
pub open spec fn spec_next_grid(g: Seq<bool>) -> Seq<bool> {
    Seq::new(
        (GRID_ROWS as int * GRID_COLS as int) as nat,
        |i: int| spec_next_cell(g, i / (GRID_COLS as int), i % (GRID_COLS as int)),
    )
}

/// Every cell of the grid is dead.
pub open spec fn all_dead(g: Seq<bool>) -> bool {
    forall|i: int| 0 <= i < g.len() ==> !g[i]
}

/// Every cell of the grid is alive.
pub open spec fn all_live(g: Seq<bool>) -> bool {
    forall|i: int| 0 <= i < g.len() ==> g[i]
}

/// Whether cell `(r, c)` comes before the position `(row, col)` in a
/// row-major sweep over the grid.
pub open spec fn cell_done(row: int, col: int, r: int, c: int) -> bool {
    r < row || (r == row && c < col)
}

/// The pixel at `(y, x)` after the cells before sweep position
/// `(row, col)` have been rendered over a screen `s`: painted with the
/// owning cell's intensity if it lies in a rendered cell's padded
/// interior, untouched otherwise.
pub open spec fn spec_partial_rendered_pixel(
    g: Seq<bool>,
    s: Seq<u8>,
    row: int,
    col: int,
    y: int,
    x: int,
) -> u8 {
    let r = y / (CELL_ROWS as int);
    let c = x / (CELL_COLS as int);
    if in_cell_interior(r, c, y, x) && cell_done(row, col, r, c) {
        if live_at(g, r, c) {
            255
        } else {
            0
        }
    } else {
        s[pixel_idx(y, x)]
    }
}

/// The pixel at `(y, x)` after the whole grid `g` has been rendered
/// over a screen `s`: 255 over a live cell's padded interior, 0 over a
/// dead cell's, and the previous value outside every interior.
pub open spec fn spec_rendered_pixel(g: Seq<bool>, s: Seq<u8>, y: int, x: int) -> u8 {
    spec_partial_rendered_pixel(g, s, GRID_ROWS as int, 0, y, x)
}

/// The simulation state: a grayscale pixel screen and the life grid,
/// each stored row-major at a fixed size.
pub struct State {
    pub screen_array: Vec<u8>,
    pub grid_array: Vec<bool>,
}

impl State {
    /// Both containers hold exactly their fixed dimensions.
    pub open spec fn wf(self) -> bool {
        grid_wf(self.grid_array@) && screen_wf(self.screen_array@)
    }

    /// A fresh state: every cell dead, every pixel black.
    pub fn new() -> (s: State)
        ensures
            s.wf(),
            all_dead(s.grid_array@),
            forall|i: int| 0 <= i < s.screen_array@.len() ==> s.screen_array@[i] == 0,
    {
        let screen_array: Vec<u8> = vec![0u8; SCREEN_ROWS * SCREEN_COLS];
        let grid_array: Vec<bool> = vec![false; GRID_ROWS * GRID_COLS];
        State { screen_array, grid_array }
    }

    /// Cell lookup checked on both axes: a reference to the cell
    /// exactly when the coordinate is on the grid.
    pub fn get_grid_cell(&self, row: &usize, col: &usize) -> (r: Option<&bool>)
        requires
            self.wf(),
        ensures
            r is Some <==> in_grid(*row as int, *col as int),
            r is Some ==> *r->Some_0 == self.grid_array@[grid_idx(*row as int, *col as int)],
    {
        if *row < GRID_ROWS && *col < GRID_COLS {
            Some(&self.grid_array[*row * GRID_COLS + *col])
        } else {
            None
        }
    }

    /// Seeds one cell of the grid; every other cell and every pixel
    /// keeps its value.
    pub fn set_grid_cell(&mut self, row: usize, col: usize, value: bool)
        requires
            old(self).wf(),
            row < GRID_ROWS,
            col < GRID_COLS,
        ensures
            final(self).wf(),
            final(self).grid_array@ == old(self).grid_array@.update(
                grid_idx(row as int, col as int),
                value,
            ),
            final(self).screen_array == old(self).screen_array,
    {
        self.grid_array[row * GRID_COLS + col] = value;
    }

    /// Whether the neighbor of `(row, col)` at kernel offset
    /// `(dr, dc)` is on the grid and alive. A negative target is
    /// rejected up front; a target past the upper bound fails the
    /// checked lookup.
    fn live_neighbor(&self, row: usize, col: usize, dr: isize, dc: isize) -> (b: bool)
        requires
            self.wf(),
            row < GRID_ROWS,
            col < GRID_COLS,
            -1 <= dr <= 1,
            -1 <= dc <= 1,
        ensures
            b == live_at(self.grid_array@, row as int + dr as int, col as int + dc as int),
    {
        let target_row = row as isize + dr;
        let target_col = col as isize + dc;
        if target_row < 0 || target_col < 0 {
            false
        } else {
            match self.get_grid_cell(&(target_row as usize), &(target_col as usize)) {
                Some(cell) => *cell,
                None => false,
            }
        }
    }

    /// Live neighbors of `(row, col)` under the 8-direction Moore
    /// kernel, without wrapping at the grid edges.
    pub fn count_cell_neighbors(&self, row: &usize, col: &usize) -> (n: usize)
        requires
            self.wf(),
            *row < GRID_ROWS,
            *col < GRID_COLS,
        ensures
            n == spec_neighbor_count(self.grid_array@, *row as int, *col as int),
            n <= 8,
    {
        let mut n: usize = 0;
        if self.live_neighbor(*row, *col, 1, 0) {
            n += 1;
        }
        if self.live_neighbor(*row, *col, 1, 1) {
            n += 1;
        }
        if self.live_neighbor(*row, *col, 0, 1) {
            n += 1;
        }
        if self.live_neighbor(*row, *col, -1, 1) {
            n += 1;
        }
        if self.live_neighbor(*row, *col, -1, 0) {
            n += 1;
        }
        if self.live_neighbor(*row, *col, -1, -1) {
            n += 1;
        }
        if self.live_neighbor(*row, *col, 0, -1) {
            n += 1;
        }
        if self.live_neighbor(*row, *col, 1, -1) {
            n += 1;
        }
        n
    }

    /// The rule outcome for one cell, read against the current grid;
    /// the grid itself is untouched.
    pub fn next_cell_state(&self, row: &usize, col: &usize) -> (b: bool)
        requires
            self.wf(),
            *row < GRID_ROWS,
            *col < GRID_COLS,
        ensures
            b == spec_next_cell(self.grid_array@, *row as int, *col as int),
    {
        let state = self.grid_array[*row * GRID_COLS + *col];
        let num_neighbors = self.count_cell_neighbors(row, col);
        if state {
            if num_neighbors < 2 || num_neighbors > 3 {
                false
            } else {
                true
            }
        } else {
            if num_neighbors == 3 {
                true
            } else {
                false
            }
        }
    }

    /// Computes every cell's next state against the unmodified current
    /// grid, then replaces the grid wholesale with the new generation.
    /// The screen is untouched.
    #[verifier::loop_isolation(false)]
    pub fn update_grid(&mut self)
        requires
            old(self).wf(),
        ensures
            final(self).wf(),
            final(self).grid_array@ == spec_next_grid(old(self).grid_array@),
            final(self).screen_array == old(self).screen_array,
    {
        let ghost g = self.grid_array@;
        let mut new_grid: Vec<bool> = Vec::new();
        for row in 0..GRID_ROWS
            invariant
                new_grid@.len() == row * GRID_COLS,
                forall|i: int|
                    0 <= i < new_grid@.len() ==> #[trigger] new_grid@[i] == spec_next_cell(
                        g,
                        i / (GRID_COLS as int),
                        i % (GRID_COLS as int),
                    ),
        {
            for col in 0..GRID_COLS
                invariant
                    new_grid@.len() == row * GRID_COLS + col,
                    forall|i: int|
                        0 <= i < new_grid@.len() ==> #[trigger] new_grid@[i] == spec_next_cell(
                            g,
                            i / (GRID_COLS as int),
                            i % (GRID_COLS as int),
                        ),
            {
                let b = self.next_cell_state(&row, &col);
                proof {
                    vstd::arithmetic::div_mod::lemma_fundamental_div_mod_converse(
                        row as int * (GRID_COLS as int) + col as int,
                        GRID_COLS as int,
                        row as int,
                        col as int,
                    );
                }
                new_grid.push(b);
            }
        }
        self.grid_array = new_grid;
        proof {
            assert(self.grid_array@ =~= spec_next_grid(g));
        }
    }
    /// Paints the padded interior rectangle of grid cell `(row, col)`
    /// with one intensity; every pixel outside that rectangle keeps
    /// its value. An empty rectangle would simply paint nothing.
    #[verifier::loop_isolation(false)]
    pub fn fill_screen_cell(&mut self, row: &usize, col: &usize, value: &u8)
        requires
            old(self).wf(),
            *row < GRID_ROWS,
            *col < GRID_COLS,
        ensures
            final(self).wf(),
            final(self).grid_array == old(self).grid_array,
            forall|y: int, x: int|
                in_screen(y, x) ==> #[trigger] final(self).screen_array@[pixel_idx(y, x)] == (
                if in_cell_interior(*row as int, *col as int, y, x) {
                    *value
                } else {
                    old(self).screen_array@[pixel_idx(y, x)]
                }),
    {
        proof {
            assert((*row as int + 1) * (CELL_ROWS as int) == *row as int * (CELL_ROWS as int)
                + CELL_ROWS as int) by (nonlinear_arith);
            assert((*col as int + 1) * (CELL_COLS as int) == *col as int * (CELL_COLS as int)
                + CELL_COLS as int) by (nonlinear_arith);
            vstd::arithmetic::mul::lemma_mul_inequality(
                *row as int,
                GRID_ROWS as int - 1,
                CELL_ROWS as int,
            );
            vstd::arithmetic::mul::lemma_mul_inequality(
                *col as int,
                GRID_COLS as int - 1,
                CELL_COLS as int,
            );
        }
        let start_i = *row * CELL_ROWS + PADDING_SIZE;
        let end_i = (*row + 1) * CELL_ROWS - PADDING_SIZE;
        let start_j = *col * CELL_COLS + PADDING_SIZE;
        let end_j = (*col + 1) * CELL_COLS - PADDING_SIZE;
        for y in start_i..end_i
            invariant
                self.wf(),
                self.grid_array == old(self).grid_array,
                forall|y2: int, x2: int|
                    in_screen(y2, x2) ==> #[trigger] self.screen_array@[pixel_idx(y2, x2)] == (
                    if in_cell_interior(*row as int, *col as int, y2, x2) && y2 < y {
                        *value
                    } else {
                        old(self).screen_array@[pixel_idx(y2, x2)]
                    }),
        {
            for x in start_j..end_j
                invariant
                    self.wf(),
                    self.grid_array == old(self).grid_array,
                    forall|y2: int, x2: int|
                        in_screen(y2, x2) ==> #[trigger] self.screen_array@[pixel_idx(y2, x2)] == (
                        if in_cell_interior(*row as int, *col as int, y2, x2) && (y2 < y || (y2 == y
                            && x2 < x)) {
                            *value
                        } else {
                            old(self).screen_array@[pixel_idx(y2, x2)]
                        }),
            {
                proof {
                    vstd::arithmetic::mul::lemma_mul_inequality(
                        y as int,
                        SCREEN_ROWS as int - 1,
                        SCREEN_COLS as int,
                    );
                }
                self.screen_array[y * SCREEN_COLS + x] = *value;
            }
        }
    }

    /// Renders the grid onto the screen: every cell's padded interior
    /// is painted 255 if the cell is alive and 0 if it is dead, while
    /// padding pixels and rounding remainders keep their value.
    #[verifier::loop_isolation(false)]
    pub fn update_screen(&mut self)
        requires
            old(self).wf(),
        ensures
            final(self).wf(),
            final(self).grid_array == old(self).grid_array,
            forall|y: int, x: int|
                in_screen(y, x) ==> #[trigger] final(self).screen_array@[pixel_idx(y, x)]
                    == spec_rendered_pixel(
                    old(self).grid_array@,
                    old(self).screen_array@,
                    y,
                    x,
                ),
    {
        let ghost g = self.grid_array@;
        let ghost s0 = self.screen_array@;
        for row in 0..GRID_ROWS
            invariant
                self.wf(),
                self.grid_array == old(self).grid_array,
                forall|y: int, x: int|
                    in_screen(y, x) ==> #[trigger] self.screen_array@[pixel_idx(y, x)]
                        == spec_partial_rendered_pixel(g, s0, row as int, 0, y, x),
        {
            for col in 0..GRID_COLS
                invariant
                    self.wf(),
                    self.grid_array == old(self).grid_array,
                    forall|y: int, x: int|
                        in_screen(y, x) ==> #[trigger] self.screen_array@[pixel_idx(y, x)]
                            == spec_partial_rendered_pixel(g, s0, row as int, col as int, y, x),
            {
                let cell_state = self.grid_array[row * GRID_COLS + col];
                if cell_state {
                    self.fill_screen_cell(&row, &col, &255);
                } else {
                    self.fill_screen_cell(&row, &col, &0);
                }
                proof {
                    assert forall|y: int, x: int| in_screen(y, x) implies #[trigger] self
                        .screen_array@[pixel_idx(y, x)] == spec_partial_rendered_pixel(
                        g,
                        s0,
                        row as int,
                        col as int + 1,
                        y,
                        x,
                    ) by {
                        if in_cell_interior(row as int, col as int, y, x) {
                            lemma_interior_cell_unique(row as int, col as int, y, x);
                        }
                    }
                }
            }
            proof {
                assert forall|y: int, x: int| in_screen(y, x) implies
                    spec_partial_rendered_pixel(g, s0, row as int, GRID_COLS as int, y, x)
                        == spec_partial_rendered_pixel(g, s0, row as int + 1, 0, y, x) by {
                    lemma_pixel_cell_in_grid(y, x);
                }
            }
        }
    }
}

} // verus!
