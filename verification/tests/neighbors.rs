use game_of_life::{Cell, Universe};

/// A grid that is dead but for the given positions.
fn with_live_cells(width: u32, height: u32, live: &[(u32, u32)]) -> Universe {
    let mut cells = vec![Cell::Dead; (width * height) as usize];
    for (row, col) in live {
        cells[(row * width + col) as usize] = Cell::Alive;
    }
    Universe::from_cells(width, height, cells).ok().expect("one cell per position")
}

#[test]
fn row_before_the_first_is_the_last() {
    let universe = with_live_cells(5, 4, &[(3, 2)]);
    assert_eq!(universe.live_neighbor_count(0, 2), 1);
    assert_eq!(universe.live_neighbor_count(0, 1), 1);
    assert_eq!(universe.live_neighbor_count(0, 3), 1);
    assert_eq!(universe.live_neighbor_count(0, 0), 0);
    assert_eq!(universe.live_neighbor_count(1, 2), 0);
}

#[test]
fn row_after_the_last_is_the_first() {
    let universe = with_live_cells(5, 4, &[(0, 2)]);
    assert_eq!(universe.live_neighbor_count(3, 2), 1);
    assert_eq!(universe.live_neighbor_count(3, 1), 1);
    assert_eq!(universe.live_neighbor_count(3, 3), 1);
    assert_eq!(universe.live_neighbor_count(2, 2), 0);
}

#[test]
fn column_before_the_first_is_the_last() {
    let universe = with_live_cells(5, 4, &[(1, 4)]);
    assert_eq!(universe.live_neighbor_count(1, 0), 1);
    assert_eq!(universe.live_neighbor_count(0, 0), 1);
    assert_eq!(universe.live_neighbor_count(2, 0), 1);
    assert_eq!(universe.live_neighbor_count(1, 1), 0);
}

#[test]
fn column_after_the_last_is_the_first() {
    let universe = with_live_cells(5, 4, &[(1, 0)]);
    assert_eq!(universe.live_neighbor_count(1, 4), 1);
    assert_eq!(universe.live_neighbor_count(0, 4), 1);
    assert_eq!(universe.live_neighbor_count(2, 4), 1);
    assert_eq!(universe.live_neighbor_count(1, 3), 0);
}

#[test]
fn corners_are_neighbors_of_each_other() {
    let universe = with_live_cells(6, 5, &[(4, 5)]);
    assert_eq!(universe.live_neighbor_count(0, 0), 1);
    let universe = with_live_cells(6, 5, &[(0, 0)]);
    assert_eq!(universe.live_neighbor_count(4, 5), 1);
    let universe = with_live_cells(6, 5, &[(0, 5)]);
    assert_eq!(universe.live_neighbor_count(4, 0), 1);
    let universe = with_live_cells(6, 5, &[(4, 0)]);
    assert_eq!(universe.live_neighbor_count(0, 5), 1);
}

#[test]
fn a_cell_is_not_its_own_neighbor() {
    let universe = with_live_cells(5, 5, &[(2, 2)]);
    assert_eq!(universe.live_neighbor_count(2, 2), 0);
    for (row, col) in [(1, 1), (1, 2), (1, 3), (2, 1), (2, 3), (3, 1), (3, 2), (3, 3)] {
        assert_eq!(universe.live_neighbor_count(row, col), 1);
    }
    for (row, col) in [(0, 0), (0, 2), (2, 0), (2, 4), (4, 2), (4, 4)] {
        assert_eq!(universe.live_neighbor_count(row, col), 0);
    }
}

#[test]
fn all_eight_neighbors_are_counted() {
    let cells = vec![Cell::Alive; 25];
    let universe = Universe::from_cells(5, 5, cells).ok().expect("twenty-five cells");
    for row in 0..5 {
        for col in 0..5 {
            assert_eq!(universe.live_neighbor_count(row, col), 8);
        }
    }
}

#[test]
fn default_pattern_neighbor_counts() {
    let universe = Universe::new(4, 4);
    let expected = [3u8, 6, 3, 7, 3, 6, 3, 6, 3, 6, 3, 7, 2, 6, 2, 6];
    for row in 0..4u32 {
        for col in 0..4u32 {
            assert_eq!(
                universe.live_neighbor_count(row, col),
                expected[(row * 4 + col) as usize]
            );
        }
    }
}

#[test]
fn two_columns_count_the_other_column_twice() {
    let universe = with_live_cells(2, 4, &[(1, 1)]);
    assert_eq!(universe.live_neighbor_count(1, 0), 2);
    assert_eq!(universe.live_neighbor_count(0, 0), 2);
    assert_eq!(universe.live_neighbor_count(0, 1), 1);
    assert_eq!(universe.live_neighbor_count(1, 1), 0);
}

#[test]
fn single_row_counts_each_side_three_times_and_the_cell_once() {
    let universe = with_live_cells(5, 1, &[(0, 2)]);
    assert_eq!(universe.live_neighbor_count(0, 1), 3);
    assert_eq!(universe.live_neighbor_count(0, 3), 3);
    assert_eq!(universe.live_neighbor_count(0, 2), 1);
    assert_eq!(universe.live_neighbor_count(0, 0), 0);
    assert_eq!(universe.live_neighbor_count(0, 4), 0);
}

#[test]
fn single_column_counts_each_side_three_times_and_the_cell_once() {
    let universe = with_live_cells(1, 5, &[(2, 0)]);
    assert_eq!(universe.live_neighbor_count(1, 0), 3);
    assert_eq!(universe.live_neighbor_count(3, 0), 3);
    assert_eq!(universe.live_neighbor_count(2, 0), 1);
    assert_eq!(universe.live_neighbor_count(0, 0), 0);
    assert_eq!(universe.live_neighbor_count(4, 0), 0);
}

#[test]
fn single_cell_counts_itself_five_times() {
    let universe = with_live_cells(1, 1, &[(0, 0)]);
    assert_eq!(universe.live_neighbor_count(0, 0), 5);
    let universe = with_live_cells(1, 1, &[]);
    assert_eq!(universe.live_neighbor_count(0, 0), 0);
}
