use game_field::cell_feature::CellType;
use game_field::circle::Direction;
use game_field::error_handling::{CustomError, GameOverError};
use game_field::field::Field;

fn all_normal(rows: usize, columns: usize) -> Vec<Vec<CellType>> {
    let mut map = Vec::new();
    for _ in 0..rows {
        let mut row = Vec::new();
        for _ in 0..columns {
            row.push(CellType::Normal);
        }
        map.push(row);
    }
    map
}

#[test]
fn probe_east_rounds_column_to_nearest() {
    let mut f = Field::new(all_normal(3, 3)).unwrap();
    f.circle.x = 45;
    f.circle.y = 45;
    f.circle.direction = Direction::East;
    assert_eq!(f.get_next_cell_index(), (1, 2));
    f.circle.x = 40;
    assert_eq!(f.get_next_cell_index(), (1, 1));
}

#[test]
fn probe_west_steps_back_one_column() {
    let mut f = Field::new(all_normal(3, 3)).unwrap();
    f.circle.x = 40;
    f.circle.y = 45;
    f.circle.direction = Direction::West;
    assert_eq!(f.get_next_cell_index(), (1, 0));
    f.circle.x = 50;
    assert_eq!(f.get_next_cell_index(), (1, 1));
}

#[test]
fn probe_south_rounds_row_to_nearest() {
    let mut f = Field::new(all_normal(3, 3)).unwrap();
    f.circle.x = 45;
    f.circle.y = 45;
    f.circle.direction = Direction::South;
    assert_eq!(f.get_next_cell_index(), (2, 1));
    f.circle.y = 40;
    assert_eq!(f.get_next_cell_index(), (1, 1));
}

#[test]
fn probe_north_steps_back_one_row() {
    let mut f = Field::new(all_normal(3, 3)).unwrap();
    f.circle.x = 45;
    f.circle.y = 40;
    f.circle.direction = Direction::North;
    assert_eq!(f.get_next_cell_index(), (0, 1));
    f.circle.y = 50;
    assert_eq!(f.get_next_cell_index(), (1, 1));
}

#[test]
fn probe_is_adjacent_in_each_direction() {
    // from the leading half of cell (1, 1), the probe is the neighbor
    let mut f = Field::new(all_normal(3, 3)).unwrap();
    f.circle.x = 50;
    f.circle.y = 40;
    f.circle.direction = Direction::East;
    assert_eq!(f.get_next_cell_index(), (1, 2));
    f.circle.x = 40;
    f.circle.direction = Direction::West;
    assert_eq!(f.get_next_cell_index(), (1, 0));
    f.circle.x = 40;
    f.circle.y = 50;
    f.circle.direction = Direction::South;
    assert_eq!(f.get_next_cell_index(), (2, 1));
    f.circle.y = 40;
    f.circle.direction = Direction::North;
    assert_eq!(f.get_next_cell_index(), (0, 1));
}

#[test]
fn boundary_probe_east_is_out_of_bounds_signal() {
    let mut f = Field::new(all_normal(3, 3)).unwrap();
    f.circle.x = 80;
    f.circle.y = 45;
    f.circle.direction = Direction::East;
    let (row, column) = f.get_next_cell_index();
    assert!(f.is_outof_frame(row, column));
    assert_eq!(
        f.get_current_cell_type(),
        Err(GameOverError::OtherError("out of the frame"))
    );
    // the tick surfaces the same signal instead of faulting
    assert_eq!(
        f.renew(),
        Err(CustomError::ParseGameOverError(GameOverError::OtherError(
            "out of the frame"
        )))
    );
}

#[test]
fn boundary_probe_west_is_out_of_bounds_signal() {
    let mut f = Field::new(all_normal(3, 3)).unwrap();
    f.circle.x = 10;
    f.circle.y = 45;
    f.circle.direction = Direction::West;
    let (row, column) = f.get_next_cell_index();
    assert_eq!(column, -1);
    assert!(f.is_outof_frame(row, column));
    assert_eq!(
        f.get_current_cell_type(),
        Err(GameOverError::OtherError("out of the frame"))
    );
}

#[test]
fn boundary_probe_north_is_out_of_bounds_signal() {
    let mut f = Field::new(all_normal(3, 3)).unwrap();
    f.circle.x = 45;
    f.circle.y = 10;
    f.circle.direction = Direction::North;
    let (row, column) = f.get_next_cell_index();
    assert_eq!(row, -1);
    assert!(f.is_outof_frame(row, column));
}

#[test]
fn boundary_probe_south_is_out_of_bounds_signal() {
    let mut f = Field::new(all_normal(3, 3)).unwrap();
    f.circle.x = 45;
    f.circle.y = 80;
    f.circle.direction = Direction::South;
    let (row, column) = f.get_next_cell_index();
    assert_eq!(row, 3);
    assert!(f.is_outof_frame(row, column));
}

#[test]
fn in_frame_probe_returns_cell_type() {
    let mut map = all_normal(3, 3);
    map[1][2] = CellType::Wall;
    let mut f = Field::new(map).unwrap();
    f.circle.x = 50;
    f.circle.y = 45;
    f.circle.direction = Direction::East;
    assert_eq!(f.get_current_cell_type(), Ok(CellType::Wall));
}
