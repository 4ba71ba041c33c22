use game_of_life::cellul::{Cellul, CellulState, Coordinate};

#[test]
fn coordinate_new_keeps_fields() {
    let coordinate = Coordinate::new(5, 7);
    assert_eq!(coordinate.row, 5);
    assert_eq!(coordinate.column, 7);
}

#[test]
fn coordinate_equality_is_structural() {
    assert_eq!(Coordinate::new(1, 2), Coordinate::new(1, 2));
    assert_ne!(Coordinate::new(1, 2), Coordinate::new(2, 1));
}

#[test]
fn coordinate_from_tuple() {
    let coordinate = Coordinate::from((3, 4));
    assert_eq!(coordinate, Coordinate::new(3, 4));
}

#[test]
fn coordinate_validity() {
    assert!(Coordinate::is_valid(0, 0, 5, 5));
    assert!(Coordinate::is_valid(4, 4, 5, 5));
    assert!(!Coordinate::is_valid(5, 0, 5, 5));
    assert!(!Coordinate::is_valid(0, 5, 5, 5));
    assert!(!Coordinate::is_valid(-1, 0, 5, 5));
    assert!(!Coordinate::is_valid(0, -1, 5, 5));
    assert!(!Coordinate::is_valid(0, 0, 0, 0));
}

#[test]
fn corner_has_three_neighbors_without_wrapping() {
    let corner = Coordinate::new(0, 0);
    let neighbors = corner.get_neighboors_coords(5, 5);
    assert_eq!(neighbors.len(), 3);
    assert!(neighbors.contains(&Coordinate::new(0, 1)));
    assert!(neighbors.contains(&Coordinate::new(1, 0)));
    assert!(neighbors.contains(&Coordinate::new(1, 1)));
    for neighbor in &neighbors {
        assert!(neighbor.row <= 1 && neighbor.column <= 1);
    }
}

#[test]
fn far_corner_has_three_neighbors() {
    let corner = Coordinate::new(4, 4);
    let neighbors = corner.get_neighboors_coords(5, 5);
    assert_eq!(neighbors.len(), 3);
    assert!(neighbors.contains(&Coordinate::new(3, 3)));
    assert!(neighbors.contains(&Coordinate::new(3, 4)));
    assert!(neighbors.contains(&Coordinate::new(4, 3)));
}

#[test]
fn interior_cell_has_eight_neighbors() {
    let center = Coordinate::new(2, 2);
    let neighbors = center.get_neighboors_coords(5, 5);
    assert_eq!(neighbors.len(), 8);
    for dy in -1i64..=1 {
        for dx in -1i64..=1 {
            if dy == 0 && dx == 0 {
                continue;
            }
            let expected = Coordinate::new((2 + dy) as u32, (2 + dx) as u32);
            assert!(neighbors.contains(&expected));
        }
    }
}

#[test]
fn edge_cell_has_five_neighbors() {
    let edge = Coordinate::new(0, 2);
    let neighbors = edge.get_neighboors_coords(5, 5);
    assert_eq!(neighbors.len(), 5);
}

#[test]
fn cellul_from_coordinate_is_dead() {
    let cellul = Cellul::from(Coordinate::new(2, 3));
    assert!(!cellul.is_alive());
    assert_eq!(cellul.coordinate, Coordinate::new(2, 3));
    assert!(matches!(cellul.get_state(), CellulState::DEAD));
}

#[test]
fn cellul_from_tuple_is_dead() {
    let cellul = Cellul::from((1, 4));
    assert!(!cellul.is_alive());
    assert_eq!(cellul.coordinate, Coordinate::new(1, 4));
}

#[test]
fn cellul_state_operations() {
    let mut cellul = Cellul::from(Coordinate::new(0, 0));
    cellul.revive_cellul();
    assert!(cellul.is_alive());
    assert!(matches!(cellul.get_state(), CellulState::ALIVE));
    cellul.kill_cellul();
    assert!(!cellul.is_alive());
    cellul.update_state(CellulState::ALIVE);
    assert!(cellul.is_alive());
    cellul.update_state(CellulState::DEAD);
    assert!(!cellul.is_alive());
    assert_eq!(cellul.coordinate, Coordinate::new(0, 0));
}
