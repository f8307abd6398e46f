use vstd::prelude::*;

use crate::geometry::{
    grid_idx, grid_wf, in_grid, in_screen, interior_pixel, lemma_grid_pos,
    lemma_pixel_cell_in_grid, GRID_COLS, GRID_ROWS,
};
use crate::state::{
    all_dead, all_live, live_at, one_if, spec_neighbor_count, spec_next_grid, spec_rendered_pixel,
};

verus! {

/// How many of the 8 kernel offsets land on the grid from `(r, c)`:
/// the candidate positions a neighbor count examines.
pub open spec fn spec_candidate_count(r: int, c: int) -> int {
    one_if(in_grid(r + 1, c)) + one_if(in_grid(r + 1, c + 1)) + one_if(in_grid(r, c + 1)) + one_if(
        in_grid(r - 1, c + 1),
    ) + one_if(in_grid(r - 1, c)) + one_if(in_grid(r - 1, c - 1)) + one_if(in_grid(r, c - 1))
        + one_if(in_grid(r + 1, c - 1))
}

/// A cell strictly in the grid interior has all 8 candidate neighbor
/// positions on the grid.
pub proof fn lemma_interior_examines_eight(r: int, c: int)
    requires
        1 <= r < GRID_ROWS as int - 1,
        1 <= c < GRID_COLS as int - 1,
    ensures
        spec_candidate_count(r, c) == 8,
{
}

/// A cell on an edge or corner has fewer than 8 candidate neighbor
/// positions on the grid: 3 at a corner, 5 on an edge.
pub proof fn lemma_boundary_examines_fewer(r: int, c: int)
    requires
        in_grid(r, c),
        r == 0 || r == GRID_ROWS as int - 1 || c == 0 || c == GRID_COLS as int - 1,
    ensures
        spec_candidate_count(r, c) < 8,
        (r == 0 || r == GRID_ROWS as int - 1) && (c == 0 || c == GRID_COLS as int - 1)
            ==> spec_candidate_count(r, c) == 3,
        !((r == 0 || r == GRID_ROWS as int - 1) && (c == 0 || c == GRID_COLS as int - 1))
            ==> spec_candidate_count(r, c) == 5,
{
}

/// A neighbor count only counts live cells at candidate positions, so
/// it never exceeds their number.
pub proof fn lemma_count_at_most_candidates(g: Seq<bool>, r: int, c: int)
    ensures
        0 <= spec_neighbor_count(g, r, c) <= spec_candidate_count(r, c),
{
}

/// Determinism: advancing two identical grids yields identical next
/// generations; the transition is a function of the grid state alone.
pub proof fn lemma_advance_deterministic(g1: Seq<bool>, g2: Seq<bool>)
    requires
        g1 == g2,
    ensures
        spec_next_grid(g1) == spec_next_grid(g2),
{
}

/// The grid after `n` generations.
pub open spec fn spec_advance_iter(g: Seq<bool>, n: nat) -> Seq<bool>
    decreases n,
{
    if n == 0 {
        g
    } else {
        spec_next_grid(spec_advance_iter(g, (n - 1) as nat))
    }
}

/// One step of a fully dead grid is the same fully dead grid.
pub proof fn lemma_dead_grid_step(g: Seq<bool>)
    requires
        grid_wf(g),
        all_dead(g),
    ensures
        spec_next_grid(g) == g,
{
    assert forall|i: int| 0 <= i < g.len() implies spec_next_grid(g)[i] == g[i] by {
        lemma_grid_pos(i);
    }
    assert(spec_next_grid(g) =~= g);
}

/// Stability law: a fully dead grid is still fully dead after any
/// number of generations.
pub proof fn lemma_dead_grid_stable(g: Seq<bool>, n: nat)
    requires
        grid_wf(g),
        all_dead(g),
    ensures
        spec_advance_iter(g, n) == g,
    decreases n,
{
    if n > 0 {
        lemma_dead_grid_stable(g, (n - 1) as nat);
        lemma_dead_grid_step(g);
    }
}

/// The grid whose live cells are exactly the 2-by-2 block whose upper
/// left corner is `(r0, c0)`.
pub open spec fn is_block_grid(g: Seq<bool>, r0: int, c0: int) -> bool {
    grid_wf(g) && forall|r: int, c: int|
        in_grid(r, c) ==> (#[trigger] g[grid_idx(r, c)] <==> (r0 <= r <= r0 + 1 && c0 <= c <= c0
            + 1))
}

/// Still-life law: an isolated 2-by-2 block of live cells, away from
/// every grid edge, is unchanged by a step.
pub proof fn lemma_block_still_life(g: Seq<bool>, r0: int, c0: int)
    requires
        is_block_grid(g, r0, c0),
        1 <= r0 <= GRID_ROWS as int - 3,
        1 <= c0 <= GRID_COLS as int - 3,
    ensures
        spec_next_grid(g) == g,
{
    assert forall|i: int| 0 <= i < g.len() implies spec_next_grid(g)[i] == g[i] by {
        lemma_grid_pos(i);
    }
    assert(spec_next_grid(g) =~= g);
}

/// The grid whose live cells are exactly the horizontal 3-cell
/// blinker centered at `(rc, cc)`.
pub open spec fn is_horizontal_blinker(g: Seq<bool>, rc: int, cc: int) -> bool {
    grid_wf(g) && forall|r: int, c: int|
        in_grid(r, c) ==> (#[trigger] g[grid_idx(r, c)] <==> (r == rc && cc - 1 <= c <= cc + 1))
}

/// The grid whose live cells are exactly the vertical 3-cell blinker
/// centered at `(rc, cc)`.
pub open spec fn is_vertical_blinker(g: Seq<bool>, rc: int, cc: int) -> bool {
    grid_wf(g) && forall|r: int, c: int|
        in_grid(r, c) ==> (#[trigger] g[grid_idx(r, c)] <==> (c == cc && rc - 1 <= r <= rc + 1))
}

/// Oscillator law, first half: a horizontal blinker away from every
/// grid edge becomes the vertical blinker with the same center.
pub proof fn lemma_blinker_step(g: Seq<bool>, rc: int, cc: int)
    requires
        is_horizontal_blinker(g, rc, cc),
        1 <= rc <= GRID_ROWS as int - 2,
        1 <= cc <= GRID_COLS as int - 2,
    ensures
        is_vertical_blinker(spec_next_grid(g), rc, cc),
{
    assert forall|r: int, c: int| in_grid(r, c) implies (#[trigger] spec_next_grid(g)[grid_idx(
        r,
        c,
    )] <==> (c == cc && rc - 1 <= r <= rc + 1)) by {
        lemma_grid_pos(grid_idx(r, c));
    }
}

/// Oscillator law, second half: a vertical blinker away from every
/// grid edge becomes the horizontal blinker with the same center.
pub proof fn lemma_blinker_step_back(g: Seq<bool>, rc: int, cc: int)
    requires
        is_vertical_blinker(g, rc, cc),
        1 <= rc <= GRID_ROWS as int - 2,
        1 <= cc <= GRID_COLS as int - 2,
    ensures
        is_horizontal_blinker(spec_next_grid(g), rc, cc),
{
    assert forall|r: int, c: int| in_grid(r, c) implies (#[trigger] spec_next_grid(g)[grid_idx(
        r,
        c,
    )] <==> (r == rc && cc - 1 <= c <= cc + 1)) by {
        lemma_grid_pos(grid_idx(r, c));
    }
}

/// Oscillator law: a horizontal blinker away from every grid edge
/// returns to itself after two generations.
pub proof fn lemma_blinker_oscillates(g: Seq<bool>, rc: int, cc: int)
    requires
        is_horizontal_blinker(g, rc, cc),
        1 <= rc <= GRID_ROWS as int - 2,
        1 <= cc <= GRID_COLS as int - 2,
    ensures
        is_horizontal_blinker(spec_advance_iter(g, 2), rc, cc),
{
    lemma_blinker_step(g, rc, cc);
    lemma_blinker_step_back(spec_next_grid(g), rc, cc);
    reveal_with_fuel(spec_advance_iter, 3);
    assert(spec_advance_iter(g, 2) == spec_next_grid(spec_next_grid(g)));
}

/// Rasterization round trip: over a fully dead grid every padded
/// interior pixel renders 0; over a fully live grid, 255.
pub proof fn lemma_render_round_trip(g: Seq<bool>, s: Seq<u8>, y: int, x: int)
    requires
        grid_wf(g),
        in_screen(y, x),
        interior_pixel(y, x),
    ensures
        all_dead(g) ==> spec_rendered_pixel(g, s, y, x) == 0,
        all_live(g) ==> spec_rendered_pixel(g, s, y, x) == 255,
{
    lemma_pixel_cell_in_grid(y, x);
}

} // verus!
