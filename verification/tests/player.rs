use snake::geometry::{Direction, Point};
use snake::player::Player;
use snake::ENERGY_MAX;

#[test]
fn new_player_stands_mid_grid_looking_up() {
    let p = Player::new();
    assert_eq!(p.p, Point { x: 10, y: 10 });
    assert_eq!(p.direction, Direction::Up);
    assert!(p.bodies.is_empty());
    assert_eq!(p.energy, ENERGY_MAX);
}

#[test]
fn growth_extends_the_tail_in_a_straight_line() {
    let mut p = Player::new();
    // No trailing segment: growth goes one cell behind the head.
    p.grow();
    assert_eq!(p.bodies, vec![Point { x: 10, y: 11 }]);
    // One segment: growth continues from the head through it.
    p.grow();
    assert_eq!(p.bodies, vec![Point { x: 10, y: 11 }, Point { x: 10, y: 12 }]);
    // Two or more: growth continues the line of the last two segments.
    p.grow();
    assert_eq!(
        p.bodies,
        vec![Point { x: 10, y: 11 }, Point { x: 10, y: 12 }, Point { x: 10, y: 13 }]
    );
}

#[test]
fn moving_shifts_the_trail_towards_the_head() {
    let mut p = Player::new();
    p.grow();
    p.grow();
    let head_before = p.p;
    let first_before = p.bodies[0];
    p.do_move();
    assert_eq!(p.p, Point { x: 10, y: 9 });
    assert_eq!(p.bodies, vec![head_before, first_before]);
    assert_eq!(p.energy, ENERGY_MAX - 1);
}

#[test]
fn shrink_drops_the_last_segment_and_is_a_no_op_when_empty() {
    let mut p = Player::new();
    p.shrink();
    assert!(p.bodies.is_empty());
    p.grow();
    p.grow();
    p.shrink();
    assert_eq!(p.bodies, vec![Point { x: 10, y: 11 }]);
}

#[test]
fn set_direction_changes_only_the_direction() {
    let mut p = Player::new();
    p.set_direction(Direction::Left);
    assert_eq!(p.direction, Direction::Left);
    assert_eq!(p.p, Point { x: 10, y: 10 });
    assert_eq!(p.energy, ENERGY_MAX);
}

#[test]
fn angle_follows_the_clockwise_convention() {
    let mut p = Player::new();
    assert_eq!(p.get_angle(), 0);
    p.set_direction(Direction::Right);
    assert_eq!(p.get_angle(), 90);
    p.set_direction(Direction::Down);
    assert_eq!(p.get_angle(), 180);
    p.set_direction(Direction::Left);
    assert_eq!(p.get_angle(), 270);
}
