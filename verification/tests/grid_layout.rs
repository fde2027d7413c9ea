use ball_simulation::grid::{grid_slots, GridSlot};

fn slot(row: usize, col: usize) -> GridSlot {
    GridSlot { row, col }
}

#[test]
fn fills_rows_left_to_right() {
    let slots = grid_slots(5, 2, 3);
    assert_eq!(slots, vec![slot(0, 0), slot(0, 1), slot(0, 2), slot(1, 0), slot(1, 1)]);
}

#[test]
fn exact_square_fills_every_cell() {
    let slots = grid_slots(4, 2, 2);
    assert_eq!(slots, vec![slot(0, 0), slot(0, 1), slot(1, 0), slot(1, 1)]);
}

#[test]
fn stops_when_grid_is_full() {
    let slots = grid_slots(10, 2, 2);
    assert_eq!(slots.len(), 4);
    assert_eq!(slots[3], slot(1, 1));
}

#[test]
fn no_balls_no_cells() {
    assert!(grid_slots(0, 3, 3).is_empty());
}

#[test]
fn empty_grid_places_nothing() {
    assert!(grid_slots(7, 0, 5).is_empty());
    assert!(grid_slots(7, 5, 0).is_empty());
}

#[test]
fn thousand_balls_in_the_default_grid() {
    // 1000 balls: 32 columns, 32 rows; the last ball sits in row 31, column 7.
    let slots = grid_slots(1000, 32, 32);
    assert_eq!(slots.len(), 1000);
    assert_eq!(slots[999], slot(31, 7));
    assert_eq!(slots[32], slot(1, 0));
}

#[test]
fn cells_are_distinct() {
    let slots = grid_slots(20, 4, 6);
    for i in 0..slots.len() {
        for j in 0..slots.len() {
            if i != j {
                assert_ne!(slots[i], slots[j]);
            }
        }
    }
}
