use snake::game::Game;
use snake::geometry::{Direction, Point};
use snake::types::{Command, Food, FoodColor, Poo, Sound};
use snake::{CELLS_X_LEN, ENERGY_MAX, N_CELLS};

fn idx(x: i32, y: i32) -> usize {
    (y * CELLS_X_LEN + x) as usize
}

fn active_foods(game: &Game) -> usize {
    game.foods.iter().filter(|f| f.is_exist).count()
}

fn eaten_total(game: &Game) -> i32 {
    game.ate_counts.iter().sum()
}

#[test]
fn fresh_game_initial_state() {
    let game = Game::new(1);
    assert!(!game.is_over);
    assert_eq!(game.frame, 0);
    assert_eq!(game.score, 0);
    assert_eq!(game.player.p, Point { x: 10, y: 10 });
    assert_eq!(game.player.direction, Direction::Up);
    assert!(game.player.bodies.is_empty());
    assert_eq!(game.player.energy, ENERGY_MAX);
    assert!(game.requested_sounds.is_empty());
    assert_eq!(game.ate_counts, vec![0, 0, 0, 0]);
    assert_eq!(game.foods.len(), N_CELLS);
    assert_eq!(game.poos.len(), N_CELLS);
    assert_eq!(active_foods(&game), 0);
    assert!(game.poos.iter().all(|p| !p.is_exist));
    for x in 0..CELLS_X_LEN {
        let slot = &game.foods[idx(x, 3)];
        assert_eq!(slot.p, Point { x, y: 3 });
    }
    assert_eq!(game.poo_spawn_frame, -1);
    assert_eq!(game.ate_count, 0);
}

#[test]
fn eight_idle_frames_move_once_up() {
    let mut game = Game::new(2);
    for _ in 0..8 {
        game.update(Command::Idle);
    }
    assert_eq!(game.player.p, Point { x: 10, y: 9 });
    assert_eq!(game.player.direction, Direction::Up);
    assert!(game.player.bodies.is_empty());
    assert_eq!(game.player.energy, ENERGY_MAX - 1);
    assert_eq!(game.frame, 8);
}

#[test]
fn directional_command_turns_and_queues_tone() {
    let mut game = Game::new(3);
    game.update(Command::Left);
    assert_eq!(game.player.direction, Direction::Left);
    assert_eq!(game.requested_sounds, vec![Sound::ToneE4]);
    assert_eq!(game.player.get_angle(), 270);

    game.requested_sounds.clear();
    game.update(Command::Right);
    assert_eq!(game.requested_sounds, vec![Sound::ToneD4]);
    assert_eq!(game.player.get_angle(), 90);

    game.requested_sounds.clear();
    game.update(Command::Down);
    assert_eq!(game.requested_sounds, vec![Sound::ToneA4]);
    assert_eq!(game.player.get_angle(), 180);

    game.requested_sounds.clear();
    game.update(Command::Up);
    assert_eq!(game.requested_sounds, vec![Sound::ToneG4]);
    assert_eq!(game.player.get_angle(), 0);
}

#[test]
fn energy_never_rises_without_an_eat() {
    let mut game = Game::new(4);
    let mut last = game.player.energy;
    // No food can be active before the first spawn gate at frame 30.
    for _ in 0..30 {
        game.update(Command::Idle);
        assert!(game.player.energy <= last);
        last = game.player.energy;
    }
    assert_eq!(game.player.energy, ENERGY_MAX - 3);
}

#[test]
fn score_is_frame_over_thirty() {
    let mut game = Game::new(5);
    for _ in 0..29 {
        game.update(Command::Idle);
    }
    assert_eq!(game.score, 0);
    game.update(Command::Idle);
    assert_eq!(game.frame, 30);
    assert_eq!(game.score, 1);
    for _ in 0..30 {
        game.update(Command::Idle);
    }
    assert_eq!(game.score, 2);
}

#[test]
fn eating_feeds_grows_and_counts() {
    let mut game = Game::new(6);
    game.player.energy = 50;
    game.foods[idx(10, 9)] = Food {
        color: FoodColor::Red,
        p: Point { x: 10, y: 9 },
        is_exist: true,
    };
    for _ in 0..8 {
        game.update(Command::Idle);
    }
    assert_eq!(game.player.p, Point { x: 10, y: 9 });
    assert!(!game.foods[idx(10, 9)].is_exist);
    assert_eq!(game.ate_counts[FoodColor::Red.index()], 1);
    assert_eq!(eaten_total(&game), 1);
    assert_eq!(game.player.bodies.len(), 1);
    assert_eq!(game.player.energy, 50 - 1 + 20);
    assert_eq!(game.requested_sounds, vec![Sound::Eat]);
    assert_eq!(game.ate_count, 1);
    assert_eq!(game.poo_spawn_frame, -1);
    assert!(!game.is_over);
}

#[test]
fn eating_clamps_energy_at_the_maximum() {
    let mut game = Game::new(7);
    game.foods[idx(10, 9)] = Food {
        color: FoodColor::Red,
        p: Point { x: 10, y: 9 },
        is_exist: true,
    };
    for _ in 0..8 {
        game.update(Command::Idle);
    }
    assert_eq!(game.player.energy, ENERGY_MAX);
}

#[test]
fn neutral_food_shrinks_without_feeding() {
    let mut game = Game::new(8);
    game.foods[idx(10, 9)] = Food {
        color: FoodColor::White,
        p: Point { x: 10, y: 9 },
        is_exist: true,
    };
    for _ in 0..8 {
        game.update(Command::Idle);
    }
    assert_eq!(game.ate_counts[FoodColor::White.index()], 1);
    // Shrinking an empty trail is a no-op; the game goes on.
    assert!(game.player.bodies.is_empty());
    assert_eq!(game.player.energy, ENERGY_MAX - 1);
    assert_eq!(game.requested_sounds, vec![Sound::Shrink]);
    assert_eq!(game.ate_count, 0);
    assert!(!game.is_over);
}

#[test]
fn hazard_under_head_ends_the_game() {
    let mut game = Game::new(9);
    game.poos[0] = Poo { p: Point { x: 10, y: 10 }, is_exist: true };
    game.update(Command::Idle);
    assert!(game.is_over);
    assert!(!game.poos[0].is_exist);
    assert_eq!(game.requested_sounds, vec![Sound::Crash]);
}

#[test]
fn finished_game_ignores_updates() {
    let mut game = Game::new(10);
    game.poos[0] = Poo { p: Point { x: 10, y: 10 }, is_exist: true };
    game.update(Command::Idle);
    assert!(game.is_over);

    let frame = game.frame;
    let score = game.score;
    let head = game.player.p;
    let bodies = game.player.bodies.clone();
    let energy = game.player.energy;
    let sounds = game.requested_sounds.clone();
    let foods: Vec<bool> = game.foods.iter().map(|f| f.is_exist).collect();
    let poos: Vec<bool> = game.poos.iter().map(|p| p.is_exist).collect();

    for _ in 0..5 {
        game.update(Command::Left);
    }
    assert!(game.is_over);
    assert_eq!(game.frame, frame);
    assert_eq!(game.score, score);
    assert_eq!(game.player.p, head);
    assert_eq!(game.player.bodies, bodies);
    assert_eq!(game.player.energy, energy);
    assert_eq!(game.requested_sounds, sounds);
    let foods_after: Vec<bool> = game.foods.iter().map(|f| f.is_exist).collect();
    let poos_after: Vec<bool> = game.poos.iter().map(|p| p.is_exist).collect();
    assert_eq!(foods_after, foods);
    assert_eq!(poos_after, poos);
}

#[test]
fn hazard_destroys_food_on_its_cell() {
    let mut game = Game::new(11);
    game.poos[5] = Poo { p: Point { x: 3, y: 3 }, is_exist: true };
    game.foods[idx(3, 3)].is_exist = true;
    game.update(Command::Idle);
    assert!(!game.foods[idx(3, 3)].is_exist);
    assert!(game.poos[5].is_exist);
    assert!(!game.is_over);
}

#[test]
fn self_collision_ends_the_game() {
    let mut game = Game::new(12);
    // A trailing segment on the head's cell is a self-collision.
    game.player.bodies.push(Point { x: 10, y: 10 });
    game.update(Command::Idle);
    assert!(game.is_over);
    assert_eq!(game.requested_sounds, vec![Sound::Crash]);
}

#[test]
fn energy_exhaustion_ends_the_game() {
    let mut game = Game::new(13);
    game.player.energy = 0;
    for _ in 0..8 {
        game.update(Command::Idle);
    }
    assert_eq!(game.player.energy, -1);
    assert!(game.is_over);
    assert_eq!(game.requested_sounds, vec![Sound::Crash]);
}

#[test]
fn third_eat_schedules_a_hazard_at_the_tail() {
    let mut game = Game::new(14);
    // Five active foods far from the path keep the spawn gate closed.
    for x in 0..5 {
        game.foods[idx(x, 15)] = Food {
            color: FoodColor::Blue,
            p: Point { x, y: 15 },
            is_exist: true,
        };
    }
    // Three foods on the upward path, eaten on frames 7, 15 and 23.
    for y in vec![9, 8, 7] {
        game.foods[idx(10, y)] = Food {
            color: FoodColor::Red,
            p: Point { x: 10, y },
            is_exist: true,
        };
    }
    for _ in 0..24 {
        game.update(Command::Idle);
    }
    assert_eq!(game.ate_count, 3);
    assert_eq!(game.poo_spawn_frame, 23 + 60);
    assert_eq!(game.player.bodies.len(), 3);
    assert!(game.poos.iter().all(|p| !p.is_exist));

    while game.frame <= 83 {
        game.update(Command::Idle);
    }
    assert!(!game.is_over);
    let tail = *game.player.bodies.last().unwrap();
    assert!(game.poos.iter().any(|p| p.is_exist && p.p == tail));
    assert_eq!(game.poos.iter().filter(|p| p.is_exist).count(), 1);
}

#[test]
fn spawn_gate_activates_one_food() {
    let mut game = Game::new(123);
    for _ in 0..31 {
        game.update(Command::Idle);
    }
    // The only spawn gate so far was at frame 30, on an empty pool: exactly
    // one slot was activated (and at most eaten in the same frame).
    assert_eq!(active_foods(&game) as i32 + eaten_total(&game), 1);
}

#[test]
fn under_spawn_is_accepted_when_the_drawn_slot_is_taken() {
    // Let two spawn gates fire. The second draw may land on the slot the
    // first one activated; the attempt is then skipped, so the second gate
    // adds one food or none — never more.
    let mut game = Game::new(15);
    for _ in 0..31 {
        game.update(Command::Idle);
    }
    let after_first = active_foods(&game) as i32 + eaten_total(&game);
    assert_eq!(after_first, 1);
    for _ in 0..30 {
        game.update(Command::Idle);
    }
    let after_second = active_foods(&game) as i32 + eaten_total(&game);
    assert!(after_second == 1 || after_second == 2);
}
