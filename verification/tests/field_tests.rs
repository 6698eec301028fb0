use snake_engine::CurrentDirection;
use snake_engine::Direction;
use snake_engine::Field;
use snake_engine::FieldTile;
use snake_engine::Point;
use snake_engine::Snake;
use snake_engine::SnakeBody;

#[test]
fn new_field_is_empty() {
    let f = Field::new(6, 4);
    assert_eq!(f.value.len(), 4);
    for row in &f.value {
        assert_eq!(row.len(), 6);
        for tile in row {
            assert_eq!(*tile, FieldTile::EMPTY);
        }
    }
}

#[test]
fn populate_field_marks_snake_and_food() {
    let f = Field::new(25, 25);
    let body = SnakeBody::new(vec![Point(4, 3), Point(3, 3)]);
    let grid = f.populate_field(&body, &Point(10, 20));
    assert_eq!(grid.len(), 25);
    assert_eq!(grid[0].len(), 25);
    // Rows are indexed by y, columns by x.
    assert_eq!(grid[3][4], FieldTile::SNAKE);
    assert_eq!(grid[3][3], FieldTile::SNAKE);
    assert_eq!(grid[20][10], FieldTile::FOOD);
    assert_eq!(grid[0][0], FieldTile::EMPTY);
    assert_eq!(grid[4][3], FieldTile::EMPTY);
}

#[test]
fn food_marker_wins_over_snake() {
    // The food marker is placed last, so a coinciding cell shows food.
    let f = Field::new(10, 10);
    let body = SnakeBody::new(vec![Point(2, 2)]);
    let grid = f.populate_field(&body, &Point(2, 2));
    assert_eq!(grid[2][2], FieldTile::FOOD);
}

#[test]
fn snapshot_of_fresh_game() {
    let s = Snake::new();
    let grid = s.return_computed_field();
    assert_eq!(grid.len(), 25);
    for row in &grid {
        assert_eq!(row.len(), 25);
    }
    assert_eq!(grid[3][3], FieldTile::SNAKE);
    assert_eq!(grid[3][4], FieldTile::FOOD);
    let mut marked = 0;
    for row in &grid {
        for tile in row {
            if *tile != FieldTile::EMPTY {
                marked += 1;
            }
        }
    }
    assert_eq!(marked, 2);
}

#[test]
fn body_new_and_append() {
    let mut b = SnakeBody::new(vec![Point(1, 1), Point(1, 2)]);
    b.append_to_body(Point(2, 1));
    assert_eq!(b.value, vec![Point(2, 1), Point(1, 1), Point(1, 2)]);
}

#[test]
fn body_contains_point() {
    let b = SnakeBody::new(vec![Point(1, 1), Point(1, 2)]);
    assert!(b.contains_point(Point(1, 2)));
    assert!(!b.contains_point(Point(2, 1)));
}

#[test]
fn direction_from_characters() {
    assert_eq!(Direction::from('w'), Direction::Up);
    assert_eq!(Direction::from('d'), Direction::Right);
    assert_eq!(Direction::from('s'), Direction::Down);
    assert_eq!(Direction::from('a'), Direction::Left);
    assert_eq!(Direction::from('q'), Direction::Right);
}

#[test]
fn current_direction_operations() {
    let mut d = CurrentDirection::new('w');
    assert_eq!(d.current, Direction::Up);
    assert_eq!(d.opposite(), Direction::Down);
    d.change_current_direction('a');
    assert_eq!(d.current, Direction::Left);
    assert_eq!(d.opposite(), Direction::Right);
    d.change_current_direction('s');
    assert_eq!(d.opposite(), Direction::Up);
    d.change_current_direction('d');
    assert_eq!(d.opposite(), Direction::Left);
}
