use snake::geometry::{is_collide, Box2, Direction, Point};
use snake::{CELLS_X_LEN, CELLS_Y_LEN};

fn all_directions() -> Vec<Direction> {
    vec![Direction::Left, Direction::Right, Direction::Up, Direction::Down]
}

#[test]
fn neighbor_then_opposite_returns_home() {
    let corners = vec![
        Point::new(0, 0),
        Point::new(CELLS_X_LEN - 1, 0),
        Point::new(0, CELLS_Y_LEN - 1),
        Point::new(CELLS_X_LEN - 1, CELLS_Y_LEN - 1),
        Point::new(10, 10),
        Point::new(3, 17),
    ];
    for c in corners {
        for d in all_directions() {
            assert_eq!(c.neighbor(d).neighbor(d.opposite()), c);
        }
    }
}

#[test]
fn point_new_normalizes_into_grid() {
    let samples: Vec<(i32, i32)> = vec![
        (-1, -1),
        (21, 20),
        (-50, 1000),
        (1_000_000, -1_000_000),
        (i32::MAX, i32::MIN),
        (0, 0),
    ];
    for (x, y) in samples {
        let p = Point::new(x, y);
        assert!(0 <= p.x && p.x < CELLS_X_LEN);
        assert!(0 <= p.y && p.y < CELLS_Y_LEN);
        assert_eq!((p.x as i64 - x as i64).rem_euclid(CELLS_X_LEN as i64), 0);
        assert_eq!((p.y as i64 - y as i64).rem_euclid(CELLS_Y_LEN as i64), 0);
    }
}

#[test]
fn point_new_exact_values() {
    assert_eq!(Point::new(-1, 0), Point { x: 20, y: 0 });
    assert_eq!(Point::new(21, 5), Point { x: 0, y: 5 });
    assert_eq!(Point::new(10, -1), Point { x: 10, y: 19 });
    assert_eq!(Point::new(10, 20), Point { x: 10, y: 0 });
    assert_eq!(Point::new(-50, 1000), Point { x: 13, y: 0 });
}

#[test]
fn neighbor_moves_one_cell() {
    let p = Point::new(10, 10);
    assert_eq!(p.neighbor(Direction::Up), Point { x: 10, y: 9 });
    assert_eq!(p.neighbor(Direction::Down), Point { x: 10, y: 11 });
    assert_eq!(p.neighbor(Direction::Left), Point { x: 9, y: 10 });
    assert_eq!(p.neighbor(Direction::Right), Point { x: 11, y: 10 });
}

#[test]
fn neighbor_wraps_at_edges() {
    assert_eq!(Point::new(0, 0).neighbor(Direction::Left), Point { x: 20, y: 0 });
    assert_eq!(Point::new(20, 0).neighbor(Direction::Right), Point { x: 0, y: 0 });
    assert_eq!(Point::new(0, 0).neighbor(Direction::Up), Point { x: 0, y: 19 });
    assert_eq!(Point::new(0, 19).neighbor(Direction::Down), Point { x: 0, y: 0 });
}

#[test]
fn opposite_is_an_involution() {
    for d in all_directions() {
        assert_eq!(d.opposite().opposite(), d);
    }
    assert_eq!(Direction::Left.opposite(), Direction::Right);
    assert_eq!(Direction::Up.opposite(), Direction::Down);
}

#[test]
fn default_point_is_origin() {
    assert_eq!(Point::default(), Point { x: 0, y: 0 });
}

#[test]
fn boxes_collide_exactly_when_they_overlap() {
    let a = Box2 { x: 0, y: 0, w: 20, h: 20 };
    let b = Box2 { x: 10, y: 10, w: 20, h: 20 };
    let c = Box2 { x: 20, y: 0, w: 20, h: 20 };
    let d = Box2 { x: 5, y: 25, w: 2, h: 2 };
    assert!(is_collide(&a, &b));
    assert!(is_collide(&b, &a));
    // Touching edges do not overlap.
    assert!(!is_collide(&a, &c));
    assert!(!is_collide(&a, &d));
    assert!(is_collide(&a, &a));
}
