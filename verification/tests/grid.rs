use game_of_life::cellul::Coordinate;
use game_of_life::grid::Grid;

fn alive_at(grid: &Grid, row: u32, column: u32) -> bool {
    grid.get_cellul(row, column).map(|c| c.is_alive()).unwrap_or(false)
}

#[test]
fn new_grid_is_all_dead() {
    let grid = Grid::new(4, 3);
    assert_eq!(grid.width, 4);
    assert_eq!(grid.height, 3);
    assert_eq!(grid.cells.len(), 12);
    for row in 0..3 {
        for column in 0..4 {
            assert!(!alive_at(&grid, row, column));
        }
    }
}

#[test]
fn get_cellul_present_within_bounds() {
    let grid = Grid::new(5, 4);
    for row in 0..4 {
        for column in 0..5 {
            let cellul = grid.get_cellul(row, column).expect("valid position");
            assert_eq!(cellul.coordinate, Coordinate::new(row, column));
        }
    }
}

#[test]
fn get_cellul_absent_out_of_bounds() {
    let grid = Grid::new(5, 4);
    assert!(grid.get_cellul(4, 0).is_none());
    assert!(grid.get_cellul(0, 5).is_none());
    assert!(grid.get_cellul(4, 5).is_none());
    assert!(grid.get_cellul(u32::MAX, u32::MAX).is_none());
}

#[test]
fn neighbor_count_center_alive() {
    let mut grid = Grid::new(3, 3);
    grid.seed(&vec![(1, 1)]);
    assert_eq!(grid.count_alive_neighbors(1, 1), 0);
    for row in 0..3 {
        for column in 0..3 {
            if row == 1 && column == 1 {
                continue;
            }
            assert_eq!(grid.count_alive_neighbors(row, column), 1);
        }
    }
}

#[test]
fn seed_revives_valid_and_skips_invalid() {
    let mut grid = Grid::new(3, 3);
    grid.seed(&vec![(0, 0), (2, 2), (3, 0), (0, 3), (9, 9)]);
    assert!(alive_at(&grid, 0, 0));
    assert!(alive_at(&grid, 2, 2));
    let alive_total: usize = (0..3)
        .flat_map(|r| (0..3).map(move |c| (r, c)))
        .filter(|&(r, c)| alive_at(&grid, r, c))
        .count();
    assert_eq!(alive_total, 2);
}

#[test]
fn isolated_cell_dies() {
    let mut grid = Grid::new(5, 5);
    grid.seed(&vec![(2, 2)]);
    grid.update_grid();
    assert!(!alive_at(&grid, 2, 2));
    assert_eq!(grid.render(), "00000\n00000\n00000\n00000\n00000");
}

#[test]
fn overcrowded_cell_dies() {
    let mut grid = Grid::new(3, 3);
    let everything: Vec<(u32, u32)> =
        (0..3).flat_map(|r| (0..3).map(move |c| (r, c))).collect();
    grid.seed(&everything);
    assert_eq!(grid.count_alive_neighbors(1, 1), 8);
    grid.update_grid();
    assert!(!alive_at(&grid, 1, 1));
}

#[test]
fn birth_with_exactly_three_neighbors() {
    let mut grid = Grid::new(4, 4);
    grid.seed(&vec![(0, 0), (0, 1), (1, 0)]);
    assert_eq!(grid.count_alive_neighbors(1, 1), 3);
    grid.update_grid();
    assert!(alive_at(&grid, 1, 1));
}

#[test]
fn no_birth_with_two_neighbors() {
    let mut grid = Grid::new(4, 4);
    grid.seed(&vec![(0, 0), (0, 1)]);
    assert_eq!(grid.count_alive_neighbors(1, 1), 2);
    grid.update_grid();
    assert!(!alive_at(&grid, 1, 1));
}

#[test]
fn no_birth_with_four_neighbors() {
    let mut grid = Grid::new(4, 4);
    grid.seed(&vec![(0, 0), (0, 1), (0, 2), (1, 0)]);
    assert_eq!(grid.count_alive_neighbors(1, 1), 4);
    grid.update_grid();
    assert!(!alive_at(&grid, 1, 1));
}

#[test]
fn block_is_a_still_life() {
    let mut grid = Grid::new(6, 6);
    grid.seed(&vec![(2, 2), (2, 3), (3, 2), (3, 3)]);
    let before = grid.render();
    for _ in 0..5 {
        grid.update_grid();
        assert_eq!(grid.render(), before);
    }
}

#[test]
fn blinker_oscillates_with_period_two() {
    let mut grid = Grid::new(5, 5);
    grid.seed(&vec![(2, 1), (2, 2), (2, 3)]);
    let horizontal = "00000\n00000\n01110\n00000\n00000";
    let vertical = "00000\n00100\n00100\n00100\n00000";
    assert_eq!(grid.render(), horizontal);
    grid.update_grid();
    assert_eq!(grid.render(), vertical);
    grid.update_grid();
    assert_eq!(grid.render(), horizontal);
}

#[test]
fn render_matches_seeded_state_exactly() {
    let mut grid = Grid::new(4, 3);
    grid.seed(&vec![(0, 0), (1, 2), (2, 3)]);
    assert_eq!(grid.render(), "1000\n0010\n0001");
}

#[test]
fn render_of_empty_grids() {
    assert_eq!(Grid::new(0, 0).render(), "");
    assert_eq!(Grid::new(0, 4).render(), "");
    assert_eq!(Grid::new(4, 0).render(), "");
}

#[test]
fn update_of_empty_grid_is_a_noop() {
    let mut grid = Grid::new(0, 0);
    grid.update_grid();
    assert_eq!(grid.cells.len(), 0);
    assert_eq!(grid.render(), "");
}

#[test]
fn seeding_the_same_cell_twice_is_harmless() {
    let mut grid = Grid::new(3, 3);
    grid.seed(&vec![(1, 1), (1, 1), (1, 1)]);
    assert!(alive_at(&grid, 1, 1));
    assert_eq!(grid.render(), "000\n010\n000");
}

#[test]
fn one_by_one_grid() {
    let mut grid = Grid::new(1, 1);
    assert_eq!(grid.render(), "0");
    grid.seed(&vec![(0, 0)]);
    assert_eq!(grid.render(), "1");
    assert_eq!(grid.count_alive_neighbors(0, 0), 0);
    grid.update_grid();
    assert_eq!(grid.render(), "0");
}

#[test]
fn update_is_deterministic() {
    let pattern: Vec<(u32, u32)> = vec![(1, 2), (2, 3), (3, 1), (3, 2), (3, 3)];
    let mut first = Grid::new(8, 8);
    let mut second = Grid::new(8, 8);
    first.seed(&pattern);
    second.seed(&pattern);
    for _ in 0..4 {
        first.update_grid();
        second.update_grid();
        assert_eq!(first.render(), second.render());
    }
}

#[test]
fn glider_moves_diagonally() {
    let mut grid = Grid::new(6, 6);
    grid.seed(&vec![(1, 2), (2, 3), (3, 1), (3, 2), (3, 3)]);
    let start = grid.render();
    for _ in 0..4 {
        grid.update_grid();
    }
    // after four generations a glider reappears shifted one cell down-right
    let mut shifted = Grid::new(6, 6);
    shifted.seed(&vec![(2, 3), (3, 4), (4, 2), (4, 3), (4, 4)]);
    assert_eq!(grid.render(), shifted.render());
    assert_ne!(grid.render(), start);
}
