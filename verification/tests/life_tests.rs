use conway_life::frame::{frame_file_name, screen_to_image};
use conway_life::geometry::{
    cell_size, CELL_COLS, CELL_ROWS, GRID_COLS, GRID_ROWS, PADDING_SIZE, SCREEN_COLS, SCREEN_ROWS,
};
use conway_life::state::State;

fn seed(state: &mut State, cells: &[(usize, usize)]) {
    for &(r, c) in cells {
        state.set_grid_cell(r, c, true);
    }
}

fn live_cells(state: &State) -> Vec<(usize, usize)> {
    let mut live = Vec::new();
    for r in 0..GRID_ROWS {
        for c in 0..GRID_COLS {
            if state.grid_array[r * GRID_COLS + c] {
                live.push((r, c));
            }
        }
    }
    live
}

#[test]
fn cell_size_divides_screen_into_grid() {
    assert_eq!(cell_size(), (50, 50));
    assert_eq!(CELL_ROWS * GRID_ROWS, SCREEN_ROWS);
    assert_eq!(CELL_COLS * GRID_COLS, SCREEN_COLS);
}

#[test]
fn new_state_is_dead_and_black() {
    let state = State::new();
    assert_eq!(state.grid_array.len(), GRID_ROWS * GRID_COLS);
    assert_eq!(state.screen_array.len(), SCREEN_ROWS * SCREEN_COLS);
    assert!(state.grid_array.iter().all(|&cell| !cell));
    assert!(state.screen_array.iter().all(|&px| px == 0));
}

#[test]
fn get_grid_cell_checks_both_bounds() {
    let mut state = State::new();
    state.set_grid_cell(2, 7, true);
    assert_eq!(state.get_grid_cell(&2, &7), Some(&true));
    assert_eq!(state.get_grid_cell(&0, &0), Some(&false));
    assert_eq!(state.get_grid_cell(&GRID_ROWS, &0), None);
    assert_eq!(state.get_grid_cell(&0, &GRID_COLS), None);
    assert_eq!(state.get_grid_cell(&GRID_ROWS, &GRID_COLS), None);
}

#[test]
fn interior_cell_sees_all_eight_neighbors() {
    let mut state = State::new();
    // A full ring around (5, 5), which itself stays dead.
    seed(
        &mut state,
        &[
            (4, 4),
            (4, 5),
            (4, 6),
            (5, 4),
            (5, 6),
            (6, 4),
            (6, 5),
            (6, 6),
        ],
    );
    assert_eq!(state.count_cell_neighbors(&5, &5), 8);
}

#[test]
fn corner_cell_sees_three_candidates() {
    let mut state = State::new();
    for r in 0..GRID_ROWS {
        for c in 0..GRID_COLS {
            state.set_grid_cell(r, c, true);
        }
    }
    // On a fully live grid the count equals the number of candidate
    // positions examined: 3 at the corners, 5 on the edges, 8 inside.
    assert_eq!(state.count_cell_neighbors(&0, &0), 3);
    assert_eq!(state.count_cell_neighbors(&0, &(GRID_COLS - 1)), 3);
    assert_eq!(state.count_cell_neighbors(&(GRID_ROWS - 1), &0), 3);
    assert_eq!(
        state.count_cell_neighbors(&(GRID_ROWS - 1), &(GRID_COLS - 1)),
        3
    );
}

#[test]
fn edge_cell_sees_five_candidates() {
    let mut state = State::new();
    for r in 0..GRID_ROWS {
        for c in 0..GRID_COLS {
            state.set_grid_cell(r, c, true);
        }
    }
    assert_eq!(state.count_cell_neighbors(&0, &4), 5);
    assert_eq!(state.count_cell_neighbors(&4, &0), 5);
    assert_eq!(state.count_cell_neighbors(&(GRID_ROWS - 1), &4), 5);
    assert_eq!(state.count_cell_neighbors(&4, &(GRID_COLS - 1)), 5);
    assert_eq!(state.count_cell_neighbors(&4, &4), 8);
}

#[test]
fn advance_is_deterministic() {
    let mut first = State::new();
    let mut second = State::new();
    seed(&mut first, &[(3, 3), (3, 4), (3, 5), (7, 2), (6, 8)]);
    seed(&mut second, &[(3, 3), (3, 4), (3, 5), (7, 2), (6, 8)]);
    first.update_grid();
    second.update_grid();
    assert_eq!(first.grid_array, second.grid_array);
}

#[test]
fn dead_grid_stays_dead() {
    let mut state = State::new();
    for _ in 0..5 {
        state.update_grid();
        assert!(state.grid_array.iter().all(|&cell| !cell));
    }
}

#[test]
fn isolated_block_is_a_still_life() {
    let mut state = State::new();
    seed(&mut state, &[(4, 4), (4, 5), (5, 4), (5, 5)]);
    let before = state.grid_array.clone();
    state.update_grid();
    assert_eq!(state.grid_array, before);
}

#[test]
fn blinker_oscillates_with_period_two() {
    let mut state = State::new();
    seed(&mut state, &[(3, 3), (3, 4), (3, 5)]);
    let horizontal = state.grid_array.clone();

    state.update_grid();
    assert_eq!(live_cells(&state), vec![(2, 4), (3, 4), (4, 4)]);

    state.update_grid();
    assert_eq!(state.grid_array, horizontal);
    assert_eq!(live_cells(&state), vec![(3, 3), (3, 4), (3, 5)]);
}

#[test]
fn single_live_cell_dies_of_underpopulation() {
    let mut state = State::new();
    seed(&mut state, &[(5, 5)]);
    state.update_grid();
    assert!(state.grid_array.iter().all(|&cell| !cell));
}

#[test]
fn dead_cell_with_three_neighbors_is_born() {
    let mut state = State::new();
    seed(&mut state, &[(4, 4), (4, 6), (6, 5)]);
    assert_eq!(state.count_cell_neighbors(&5, &5), 3);
    state.update_grid();
    assert!(state.grid_array[5 * GRID_COLS + 5]);
}

#[test]
fn render_dead_grid_paints_interiors_black() {
    let mut state = State::new();
    // Start from a screen filled with a non-zero value so the test
    // sees the rasterizer actually paint the interiors.
    for px in state.screen_array.iter_mut() {
        *px = 7;
    }
    state.update_screen();
    for (r, c) in [(0, 0), (3, 7), (GRID_ROWS - 1, GRID_COLS - 1)] {
        let y = r * CELL_ROWS + PADDING_SIZE;
        let x = c * CELL_COLS + PADDING_SIZE;
        assert_eq!(state.screen_array[y * SCREEN_COLS + x], 0);
        let y_last = (r + 1) * CELL_ROWS - PADDING_SIZE - 1;
        let x_last = (c + 1) * CELL_COLS - PADDING_SIZE - 1;
        assert_eq!(state.screen_array[y_last * SCREEN_COLS + x_last], 0);
    }
    // A padding pixel keeps its previous value.
    assert_eq!(state.screen_array[0], 7);
}

#[test]
fn render_live_grid_paints_interiors_white() {
    let mut state = State::new();
    for r in 0..GRID_ROWS {
        for c in 0..GRID_COLS {
            state.set_grid_cell(r, c, true);
        }
    }
    state.update_screen();
    for (r, c) in [(0, 0), (5, 2), (GRID_ROWS - 1, GRID_COLS - 1)] {
        let y = r * CELL_ROWS + CELL_ROWS / 2;
        let x = c * CELL_COLS + CELL_COLS / 2;
        assert_eq!(state.screen_array[y * SCREEN_COLS + x], 255);
    }
    // The padding margin stays black.
    assert_eq!(state.screen_array[0], 0);
    assert_eq!(state.screen_array[3 * SCREEN_COLS + 3], 0);
}

#[test]
fn render_mixed_grid_separates_live_and_dead_cells() {
    let mut state = State::new();
    seed(&mut state, &[(2, 3)]);
    state.update_screen();
    let y_live = 2 * CELL_ROWS + CELL_ROWS / 2;
    let x_live = 3 * CELL_COLS + CELL_COLS / 2;
    assert_eq!(state.screen_array[y_live * SCREEN_COLS + x_live], 255);
    let y_dead = 4 * CELL_ROWS + CELL_ROWS / 2;
    let x_dead = 4 * CELL_COLS + CELL_COLS / 2;
    assert_eq!(state.screen_array[y_dead * SCREEN_COLS + x_dead], 0);
}

#[test]
fn frame_names_are_zero_padded() {
    assert_eq!(frame_file_name(0), "frame_000.png");
    assert_eq!(frame_file_name(9), "frame_009.png");
    assert_eq!(frame_file_name(42), "frame_042.png");
    assert_eq!(frame_file_name(999), "frame_999.png");
}

#[test]
fn screen_to_image_keeps_dimensions_and_pixels() {
    let mut state = State::new();
    seed(&mut state, &[(0, 0)]);
    state.update_screen();
    let frame = screen_to_image(&state.screen_array);
    assert_eq!(frame.image.width(), SCREEN_COLS as u32);
    assert_eq!(frame.image.height(), SCREEN_ROWS as u32);
    assert_eq!(frame.image.as_raw(), &state.screen_array);
    // The live cell's interior is white in the image, a dead cell's is
    // black, and a padding pixel is black.
    let mid = (CELL_COLS / 2) as u32;
    assert_eq!(frame.image.get_pixel(mid, mid)[0], 255);
    let far = (9 * CELL_COLS + CELL_COLS / 2) as u32;
    assert_eq!(frame.image.get_pixel(far, far)[0], 0);
    assert_eq!(frame.image.get_pixel(0, 0)[0], 0);
}
