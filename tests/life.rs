use game_of_life::grid::Grid;
use game_of_life::neighbours::{count_alive_neighbours, count_left_right};
use game_of_life::step::{next_generation, square_state};

#[test]
fn can_count_left_and_right() {
    assert_eq!(
        count_left_right(1, 4, &vec![false, false, false, true], false),
        0
    );
    assert_eq!(
        count_left_right(1, 4, &vec![false, false, true, false], false),
        1
    );
    assert_eq!(
        count_left_right(1, 4, &vec![false, false, true, false], false),
        1
    );
    assert_eq!(
        count_left_right(1, 4, &vec![true, true, true, true], false),
        2
    );
    assert_eq!(
        count_left_right(2, 4, &vec![true, true, true, true], false),
        2
    );
    assert_eq!(
        count_left_right(4, 4, &vec![true, true, true, true], false),
        0
    );
    assert_eq!(
        count_left_right(0, 4, &vec![true, true, true, true], false),
        1
    );

    assert_eq!(
        count_left_right(0, 4, &vec![true, true, true, true], true),
        2
    );
    assert_eq!(
        count_left_right(1, 4, &vec![true, true, true, true], true),
        3
    );
}

#[test]
fn can_count_neighbours() {
    let row_length = 3;
    let mut matrix = vec![
        // a 3x3 grid
        false, false, false, false, false, false, false, false, false,
    ];
    assert_eq!(count_alive_neighbours(4, row_length, &matrix), 0);

    matrix = vec![true, false, false, false, false, false, false, false, false];
    assert_eq!(count_alive_neighbours(4, row_length, &matrix), 1);

    matrix = vec![true, false, false, false, false, false, false, false, true];
    assert_eq!(count_alive_neighbours(4, row_length, &matrix), 2);

    matrix = vec![true, true, true, true, true, true, true, true, true];
    assert_eq!(count_alive_neighbours(4, row_length, &matrix), 8);

    matrix = vec![true, true, true, true, false, true, true, true, true];
    assert_eq!(count_alive_neighbours(4, row_length, &matrix), 8);

    matrix = vec![false, false, false, false, true, false, false, false, false];
    assert_eq!(count_alive_neighbours(4, row_length, &matrix), 0);

    matrix = vec![true, true, true, false, false, false, false, false, false];
    assert_eq!(count_alive_neighbours(1, row_length, &matrix), 2);

    matrix = vec![true, true, true, false, false, false, false, false, false];
    assert_eq!(count_alive_neighbours(0, row_length, &matrix), 1);
}

#[test]
fn dead_grid_counts_zero_in_every_window() {
    let g = vec![false; 8];
    for i in 0..10 {
        assert_eq!(count_left_right(i, 4, &g, true), 0);
        assert_eq!(count_left_right(i, 4, &g, false), 0);
    }
}

#[test]
fn row_start_does_not_see_previous_row() {
    // index 4 opens the second row; index 3 closes the first
    let mut g = vec![false; 8];
    g[3] = true;
    assert_eq!(count_left_right(4, 4, &g, true), 0);
    assert_eq!(count_left_right(4, 4, &g, false), 0);
    g[5] = true;
    assert_eq!(count_left_right(4, 4, &g, true), 1);
}

#[test]
fn row_end_does_not_see_next_row() {
    let mut g = vec![false; 8];
    g[4] = true;
    assert_eq!(count_left_right(3, 4, &g, true), 0);
    g[2] = true;
    assert_eq!(count_left_right(3, 4, &g, true), 1);
}

#[test]
fn including_the_center_adds_it_when_alive() {
    let g = vec![true, false, true, true, false, true, true, false];
    for i in 0..g.len() {
        let center = if g[i] { 1 } else { 0 };
        assert_eq!(
            count_left_right(i, 4, &g, true),
            count_left_right(i, 4, &g, false) + center
        );
    }
}

#[test]
fn bottom_row_has_no_row_below() {
    let g = vec![true, true, true, true, true, true, true, true, true];
    assert_eq!(count_alive_neighbours(7, 3, &g), 5);
    assert_eq!(count_alive_neighbours(8, 3, &g), 3);
}

#[test]
fn live_cell_survives_with_two_or_three() {
    // centre alive with two live neighbours
    let g = vec![true, false, true, false, true, false, false, false, false];
    assert!(square_state(4, 3, &g));
    // centre alive with three live neighbours
    let g = vec![true, true, true, false, true, false, false, false, false];
    assert!(square_state(4, 3, &g));
}

#[test]
fn live_cell_dies_alone_or_crowded() {
    let g = vec![false, false, false, false, true, false, false, false, false];
    assert!(!square_state(4, 3, &g));
    let g = vec![true, false, false, false, true, false, false, false, false];
    assert!(!square_state(4, 3, &g));
    let g = vec![true, true, true, true, true, false, false, false, false];
    assert!(!square_state(4, 3, &g));
}

#[test]
fn dead_cell_is_born_with_exactly_three() {
    let g = vec![true, true, true, false, false, false, false, false, false];
    assert!(square_state(4, 3, &g));
    let g = vec![true, true, false, false, false, false, false, false, false];
    assert!(!square_state(4, 3, &g));
    let g = vec![true, true, true, true, false, false, false, false, false];
    assert!(!square_state(4, 3, &g));
}

#[test]
fn dead_grid_stays_dead() {
    let g = vec![false; 16];
    assert_eq!(next_generation(&g, 4), vec![false; 16]);
}

#[test]
fn blinker_oscillates() {
    let horizontal = vec![false, false, false, true, true, true, false, false, false];
    let vertical = vec![false, true, false, false, true, false, false, true, false];
    assert_eq!(next_generation(&horizontal, 3), vertical);
    assert_eq!(next_generation(&vertical, 3), horizontal);
}

#[test]
fn block_is_still() {
    let block = vec![
        false, false, false, false, false, true, true, false, false, true, true, false, false,
        false, false, false,
    ];
    assert_eq!(next_generation(&block, 4), block);
}

#[test]
fn empty_grid_has_empty_next_generation() {
    let g: Vec<bool> = Vec::new();
    assert_eq!(next_generation(&g, 5), Vec::<bool>::new());
}

#[test]
fn new_grid_is_square_and_dead() {
    let g = Grid::new(5);
    assert_eq!(g.row_length(), 5);
    assert_eq!(g.read(), &vec![false; 25]);
}

#[test]
fn toggle_flips_one_cell() {
    let mut g = Grid::new(3);
    assert!(g.toggle(4));
    assert_eq!(
        g.read(),
        &vec![false, false, false, false, true, false, false, false, false]
    );
    assert!(g.toggle(4));
    assert_eq!(g.read(), &vec![false; 9]);
}

#[test]
fn toggle_out_of_range_changes_nothing() {
    let mut g = Grid::new(3);
    assert!(g.toggle(0));
    assert!(!g.toggle(9));
    assert_eq!(
        g.read(),
        &vec![true, false, false, false, false, false, false, false, false]
    );
}

#[test]
fn advance_replaces_cells_with_next_generation() {
    let mut g = Grid::new(3);
    g.toggle(3);
    g.toggle(4);
    g.toggle(5);
    g.advance();
    assert_eq!(
        g.read(),
        &vec![false, true, false, false, true, false, false, true, false]
    );
}
