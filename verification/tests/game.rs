use game_of_life::cell::Cell;
use game_of_life::coordinates::{Column, Coordinates, Row};
use game_of_life::grid::{Grid, GridError};

/// All populated positions of a `width x height` grid as (column, row)
/// pairs, scanned column by column.
fn populated_positions(grid: &Grid, width: u16, height: u16) -> Vec<(u16, u16)> {
    let mut positions = Vec::new();
    for c in 0..width {
        for r in 0..height {
            let cell = grid.cell(Column::new(c), Row::new(r)).expect("some cell");
            if cell.is_populated() {
                positions.push((c, r));
            }
        }
    }
    positions
}

#[test]
fn default_cell_is_empty() {
    let cell = Cell::default();

    assert!(cell.is_empty());
    assert!(!cell.is_populated());
}

#[test]
fn can_instantiate_populated_cell() {
    let cell = Cell::populated();

    assert!(cell.is_populated());
    assert!(!cell.is_empty());
}

#[test]
fn given_populated_cell_when_it_dies_then_it_is_empty() {
    let mut cell = Cell::populated();
    cell.die();
    assert!(cell.is_empty());
}

#[test]
fn given_empty_cell_when_it_spawns_then_it_is_populated() {
    let mut cell = Cell::default();
    cell.spawn();
    assert!(cell.is_populated());
}

#[test]
fn given_new_grid_when_populate_specific_cells_then_they_are_populated() {
    let mut grid = Grid::new(Column::new(20), Row::new(20));

    let coordinates_1 = (Column::new(2), Row::new(3));
    let coordinates_2 = (Column::new(5), Row::new(12));
    grid.populate(coordinates_1.0, coordinates_1.1).unwrap();
    grid.populate(coordinates_2.0, coordinates_2.1).unwrap();

    let cell_1 = grid
        .cell(coordinates_1.0, coordinates_1.1)
        .expect("some cell");
    let cell_2 = grid
        .cell(coordinates_2.0, coordinates_2.1)
        .expect("some cell");

    assert!(cell_1.is_populated());
    assert!(cell_2.is_populated());
}

#[test]
fn given_coordinate_when_neighbours_requested_return_them() {
    let coordinate = Coordinates::new(Column::new(5), Row::new(3));

    let neighbours = coordinate.neighbours();

    let expected_neighbours = vec![
        Coordinates::new(Column::new(4), Row::new(2)),
        Coordinates::new(Column::new(4), Row::new(3)),
        Coordinates::new(Column::new(4), Row::new(4)),
        Coordinates::new(Column::new(5), Row::new(4)),
        Coordinates::new(Column::new(6), Row::new(4)),
        Coordinates::new(Column::new(6), Row::new(3)),
        Coordinates::new(Column::new(6), Row::new(2)),
        Coordinates::new(Column::new(5), Row::new(2)),
    ];

    assert_eq!(neighbours.len(), expected_neighbours.len());

    for expected in expected_neighbours {
        assert!(neighbours.contains(&expected))
    }
}

#[test]
fn given_new_grid_with_isolated_cells_when_next_they_die() {
    let mut grid = Grid::new(Column::new(20), Row::new(20));

    let coordinates_1 = (Column::new(2), Row::new(3));
    let coordinates_2 = (Column::new(5), Row::new(12));
    grid.populate(coordinates_1.0, coordinates_1.1).unwrap();
    grid.populate(coordinates_2.0, coordinates_2.1).unwrap();

    grid.next();

    let cell_1 = grid
        .cell(coordinates_1.0, coordinates_1.1)
        .expect("some cell");
    let cell_2 = grid
        .cell(coordinates_2.0, coordinates_2.1)
        .expect("some cell");

    assert!(cell_1.is_empty());
    assert!(cell_2.is_empty());
}

#[test]
fn corner_has_exactly_three_neighbours() {
    let corner = Coordinates::new(Column::new(0), Row::new(0));

    let neighbours = corner.neighbours();

    let expected_neighbours = vec![
        Coordinates::new(Column::new(0), Row::new(1)),
        Coordinates::new(Column::new(1), Row::new(1)),
        Coordinates::new(Column::new(1), Row::new(0)),
    ];

    assert_eq!(neighbours.len(), 3);
    for expected in expected_neighbours {
        assert!(neighbours.contains(&expected));
    }
}

#[test]
fn zero_edge_position_has_exactly_five_neighbours() {
    let edge = Coordinates::new(Column::new(0), Row::new(3));

    let neighbours = edge.neighbours();

    let expected_neighbours = vec![
        Coordinates::new(Column::new(0), Row::new(2)),
        Coordinates::new(Column::new(1), Row::new(2)),
        Coordinates::new(Column::new(1), Row::new(3)),
        Coordinates::new(Column::new(1), Row::new(4)),
        Coordinates::new(Column::new(0), Row::new(4)),
    ];

    assert_eq!(neighbours.len(), 5);
    for expected in expected_neighbours {
        assert!(neighbours.contains(&expected));
    }
}

#[test]
fn try_sub_stops_at_zero() {
    assert_eq!(Column::new(0).try_sub(1), None);
    assert_eq!(Column::new(1).try_sub(1), Some(Column::new(0)));
    assert_eq!(Row::new(0).try_sub(1), None);
    assert_eq!(Row::new(1).try_sub(1), Some(Row::new(0)));
}

#[test]
fn cell_reports_none_exactly_outside_the_bounds() {
    let grid = Grid::new(Column::new(4), Row::new(3));

    for c in 0..4 {
        for r in 0..3 {
            let cell = grid.cell(Column::new(c), Row::new(r));
            assert_eq!(cell, Some(Cell::Empty));
        }
    }
    assert_eq!(grid.cell(Column::new(4), Row::new(0)), None);
    assert_eq!(grid.cell(Column::new(0), Row::new(3)), None);
    assert_eq!(grid.cell(Column::new(4), Row::new(3)), None);
    assert_eq!(grid.cell(Column::new(100), Row::new(100)), None);
}

#[test]
fn populate_out_of_bounds_fails_and_leaves_grid_unchanged() {
    let mut grid = Grid::new(Column::new(3), Row::new(3));
    grid.populate(Column::new(0), Row::new(0)).unwrap();

    let result = grid.populate(Column::new(3), Row::new(1));
    assert_eq!(result, Err(GridError::OutOfBounds));
    let result = grid.populate(Column::new(1), Row::new(3));
    assert_eq!(result, Err(GridError::OutOfBounds));

    assert_eq!(populated_positions(&grid, 3, 3), vec![(0, 0)]);
}

#[test]
fn populate_is_idempotent() {
    let mut grid = Grid::new(Column::new(3), Row::new(3));

    grid.populate(Column::new(1), Row::new(2)).unwrap();
    grid.populate(Column::new(1), Row::new(2)).unwrap();

    assert_eq!(populated_positions(&grid, 3, 3), vec![(1, 2)]);
}

#[test]
fn isolated_cells_leave_the_whole_grid_empty_after_one_step() {
    let mut grid = Grid::new(Column::new(20), Row::new(20));
    grid.populate(Column::new(2), Row::new(3)).unwrap();
    grid.populate(Column::new(5), Row::new(12)).unwrap();

    grid.next();

    assert_eq!(populated_positions(&grid, 20, 20), vec![]);
}

#[test]
fn horizontal_blinker_becomes_vertical_after_one_step() {
    let mut grid = Grid::new(Column::new(5), Row::new(5));
    grid.populate(Column::new(1), Row::new(2)).unwrap();
    grid.populate(Column::new(2), Row::new(2)).unwrap();
    grid.populate(Column::new(3), Row::new(2)).unwrap();

    grid.next();

    assert_eq!(
        populated_positions(&grid, 5, 5),
        vec![(2, 1), (2, 2), (2, 3)]
    );
}

#[test]
fn overcrowded_cell_dies() {
    let mut grid = Grid::new(Column::new(3), Row::new(3));
    grid.populate(Column::new(1), Row::new(1)).unwrap();
    grid.populate(Column::new(0), Row::new(0)).unwrap();
    grid.populate(Column::new(0), Row::new(2)).unwrap();
    grid.populate(Column::new(2), Row::new(0)).unwrap();
    grid.populate(Column::new(2), Row::new(2)).unwrap();

    grid.next();

    // The centre had four populated neighbours and died of overpopulation;
    // each corner had one and died of solitude; each edge midpoint had
    // exactly three and was born.
    assert_eq!(
        populated_positions(&grid, 3, 3),
        vec![(0, 1), (1, 0), (1, 2), (2, 1)]
    );
}

#[test]
fn empty_cell_with_two_neighbours_stays_empty() {
    let mut grid = Grid::new(Column::new(5), Row::new(5));
    grid.populate(Column::new(0), Row::new(0)).unwrap();
    grid.populate(Column::new(2), Row::new(0)).unwrap();

    grid.next();

    // (1, 0) had exactly two populated neighbours but was empty, so it
    // stays empty; the two populated cells had one neighbour each and die.
    assert_eq!(populated_positions(&grid, 5, 5), vec![]);
}

#[test]
fn zero_sized_grids_have_no_cells_and_step_without_effect() {
    let mut empty = Grid::new(Column::new(0), Row::new(0));
    assert_eq!(empty.cell(Column::new(0), Row::new(0)), None);
    empty.next();
    assert_eq!(empty.cell(Column::new(0), Row::new(0)), None);

    let mut rows_only = Grid::new(Column::new(0), Row::new(5));
    assert_eq!(rows_only.cell(Column::new(0), Row::new(0)), None);
    rows_only.next();

    let mut columns_only = Grid::new(Column::new(5), Row::new(0));
    assert_eq!(columns_only.cell(Column::new(0), Row::new(0)), None);
    assert_eq!(
        columns_only.populate(Column::new(0), Row::new(0)),
        Err(GridError::OutOfBounds)
    );
    columns_only.next();
}
