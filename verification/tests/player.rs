use backend::cannon_shot::CannonShot;
use backend::config::Config;
use backend::geometry::{ControllerPoint, Point};
use backend::input::InputSet;
use backend::player::Player;
use backend::status::PlayerInGameStatus;

const UP: i32 = 1;
const RIGHT: i32 = 2;
const DOWN: i32 = 4;
const LEFT: i32 = 8;
const AIM_POSITIVE: i32 = 16;
const AIM_NEGATIVE: i32 = 32;
const LOAD: i32 = 64;
const FIRE: i32 = 128;

fn alive_at(x: i32, y: i32) -> Player {
    Player {
        id: 1,
        position: ControllerPoint::from_pixels(x, y),
        cannon_angle: 0,
        is_loading_cannon: false,
        power_loaded: 0,
        cannon_shot: None,
        input: InputSet::empty(),
        delta_x: 0,
        delta_y: 0,
        delta_a: 0,
        cooldown: 0,
        player_in_game_status: PlayerInGameStatus::Alive,
    }
}

fn elsewhere() -> ControllerPoint {
    ControllerPoint::from_pixels(700, 300)
}

#[test]
fn a_new_player_is_on_its_way_into_the_arena() {
    for _ in 0..100 {
        let player = Player::new(7, 800, 1200);
        assert_eq!(player.id, 7);
        assert_eq!(player.cooldown, 1);
        assert_eq!(player.player_in_game_status, PlayerInGameStatus::Respawning);
        assert_eq!((player.delta_x, player.delta_y, player.delta_a), (0, 0, 0));
        assert_eq!(player.cannon_angle, 0);
        assert_eq!(player.power_loaded, 0);
        assert!(!player.is_loading_cannon);
        assert!(player.cannon_shot.is_none());
        assert!(player.input.is_empty());
        assert!(player.position.x >= 0 && player.position.x <= 1_175_000);
        assert!(player.position.y >= 0 && player.position.y <= 775_000);
    }
}

#[test]
fn a_new_player_in_an_arena_of_its_own_size_is_at_the_origin() {
    let player = Player::new(7, 25, 25);
    assert_eq!(player.position, ControllerPoint { x: 0, y: 0 });
}

#[test]
fn a_placed_player_is_alive_after_one_tick() {
    let config = Config::standard();
    let mut player = Player::spawn(4, ControllerPoint::from_pixels(100, 100));
    assert!(player.should_tick());
    player.tick_at(&config, elsewhere());
    assert_eq!(player.player_in_game_status, PlayerInGameStatus::Alive);
    assert_eq!(player.cooldown, 0);
    assert_eq!(player.position, ControllerPoint::from_pixels(100, 100));
    assert!(!player.should_tick());
}

#[test]
fn up_for_one_tick_moves_the_player_up_by_one() {
    let config = Config::standard();
    let mut player = Player::spawn(1, ControllerPoint::from_pixels(100, 100));
    player.tick_at(&config, elsewhere());
    player.input(UP);
    player.tick_at(&config, elsewhere());
    assert_eq!(player.position.to_buffer_point(), Point { x: 100, y: 99 });
    assert_eq!((player.delta_x, player.delta_y), (0, -1));
}

#[test]
fn each_direction_speeds_the_player_up_along_its_axis() {
    let config = Config::standard();
    for (bits, dx, dy) in [(UP, 0, -1), (DOWN, 0, 1), (LEFT, -1, 0), (RIGHT, 1, 0)] {
        let mut player = alive_at(100, 100);
        player.input(bits);
        player.tick(&config);
        assert_eq!((player.delta_x, player.delta_y), (dx, dy));
        assert_eq!(player.position, ControllerPoint::from_pixels(100 + dx, 100 + dy));
        player.tick(&config);
        assert_eq!((player.delta_x, player.delta_y), (2 * dx, 2 * dy));
        assert_eq!(player.position, ControllerPoint::from_pixels(100 + 3 * dx, 100 + 3 * dy));
    }
}

#[test]
fn opposite_directions_cancel() {
    let config = Config::standard();
    let mut player = alive_at(100, 100);
    player.input(UP + DOWN + LEFT + RIGHT);
    player.tick(&config);
    assert_eq!((player.delta_x, player.delta_y), (0, 0));
    assert_eq!(player.position, ControllerPoint::from_pixels(100, 100));
}

#[test]
fn a_held_direction_speeds_the_player_up_to_the_top_speed() {
    let config = Config::standard();
    let mut player = alive_at(100, 100);
    player.input(RIGHT);
    let mut speeds = vec![];
    for _ in 0..19 {
        player.tick(&config);
        speeds.push(player.delta_x);
    }
    assert_eq!(speeds, vec![1, 2, 3, 4, 5, 6, 7, 8, 9, 10, 11, 12, 13, 14, 15, 14, 15, 14, 15]);
}

#[test]
fn the_opposite_direction_brakes_twice_as_hard() {
    let config = Config::standard();
    let mut player = alive_at(600, 100);
    player.delta_x = 6;
    player.input(LEFT);
    let mut speeds = vec![];
    for _ in 0..5 {
        player.tick(&config);
        speeds.push(player.delta_x);
    }
    assert_eq!(speeds, vec![4, 2, 0, -1, -2]);
}

#[test]
fn a_player_left_alone_comes_to_rest() {
    let config = Config::standard();
    let mut player = alive_at(600, 400);
    player.delta_x = 15;
    player.delta_y = -7;
    let mut speeds = vec![];
    for _ in 0..17 {
        assert!(player.should_tick() || (player.delta_x == 0 && player.delta_y == 0));
        player.tick(&config);
        speeds.push((player.delta_x, player.delta_y));
    }
    assert_eq!(
        speeds,
        vec![
            (14, -6), (13, -5), (12, -4), (11, -3), (10, -2), (9, -1), (8, 0), (7, 0), (6, 0),
            (5, 0), (4, 0), (3, 0), (2, 0), (1, 0), (0, 0), (0, 0), (0, 0)
        ]
    );
    // 14 + 13 + ... + 1 to the right, 6 + 5 + ... + 1 up.
    assert_eq!(player.position, ControllerPoint::from_pixels(600 + 105, 400 - 21));
    assert!(!player.should_tick());
}

#[test]
fn a_player_bounces_off_the_left_wall() {
    let config = Config::standard();
    let mut player = alive_at(0, 400);
    player.delta_x = -5;
    player.tick(&config);
    assert_eq!(player.delta_x, 4);
    assert_eq!(player.position, ControllerPoint::from_pixels(4, 400));
}

#[test]
fn a_player_bounces_off_the_right_wall() {
    let config = Config::standard();
    let mut player = alive_at(1175, 400);
    player.delta_x = 3;
    player.tick(&config);
    assert_eq!(player.delta_x, -2);
    assert_eq!(player.position, ControllerPoint::from_pixels(1173, 400));
}

#[test]
fn a_player_bounces_off_the_floor_and_the_ceiling() {
    let config = Config::standard();
    let mut player = alive_at(400, 770);
    player.delta_y = 10;
    player.tick(&config);
    assert_eq!(player.delta_y, -9);
    assert_eq!(player.position, ControllerPoint::from_pixels(400, 761));
    let mut player = alive_at(400, 3);
    player.delta_y = -10;
    player.tick(&config);
    assert_eq!(player.delta_y, 9);
    assert_eq!(player.position, ControllerPoint::from_pixels(400, 12));
}

#[test]
fn a_player_reaches_a_wall_without_bouncing() {
    let config = Config::standard();
    let mut player = alive_at(1170, 5);
    player.delta_x = 6;
    player.delta_y = -6;
    player.tick(&config);
    assert_eq!((player.delta_x, player.delta_y), (5, -5));
    assert_eq!(player.position, ControllerPoint::from_pixels(1175, 0));
}

#[test]
fn a_player_stays_in_the_arena_whatever_it_does() {
    let config = Config::standard();
    let mut player = alive_at(1170, 770);
    let inputs = [RIGHT + DOWN, RIGHT, DOWN + LEFT, UP, LEFT + UP, 0, RIGHT + UP, DOWN];
    for round in 0..400 {
        player.input(inputs[(round / 13) % inputs.len()]);
        player.tick(&config);
        assert!(player.position.x >= 0 && player.position.x <= 1_175_000);
        assert!(player.position.y >= 0 && player.position.y <= 775_000);
        assert!(player.delta_x.abs() <= 15 && player.delta_y.abs() <= 15);
        assert!(player.is_valid(&config));
    }
}

#[test]
fn a_player_outside_the_arena_or_too_fast_is_not_valid() {
    let config = Config::standard();
    assert!(alive_at(0, 0).is_valid(&config));
    assert!(alive_at(1175, 775).is_valid(&config));
    assert!(!alive_at(1176, 775).is_valid(&config));
    assert!(!alive_at(1175, 776).is_valid(&config));
    assert!(!alive_at(-1, 0).is_valid(&config));
    let mut player = alive_at(100, 100);
    player.delta_x = 16;
    assert!(!player.is_valid(&config));
    player.delta_x = -15;
    assert!(player.is_valid(&config));
    player.cannon_angle = 360;
    assert!(!player.is_valid(&config));
    player.cannon_angle = 359;
    player.power_loaded = 101;
    assert!(!player.is_valid(&config));
    player.power_loaded = 100;
    player.cooldown = -1;
    assert!(!player.is_valid(&config));
    assert!(config.has_room_at(ControllerPoint { x: 1_175_000, y: 0 }));
    assert!(!config.has_room_at(ControllerPoint { x: 1_175_001, y: 0 }));
}

#[test]
fn a_held_aim_turns_the_cannon_faster_and_faster() {
    let config = Config::standard();
    let mut player = alive_at(100, 100);
    player.input(AIM_POSITIVE);
    let mut seen = vec![];
    for _ in 0..4 {
        player.tick(&config);
        seen.push((player.delta_a, player.cannon_angle));
    }
    assert_eq!(seen, vec![(1, 1), (2, 3), (3, 6), (4, 10)]);
    player.input(0);
    player.tick(&config);
    assert_eq!((player.delta_a, player.cannon_angle), (0, 10));
}

#[test]
fn the_angle_of_the_cannon_stays_within_one_turn() {
    let config = Config::standard();
    let mut player = alive_at(100, 100);
    player.input(AIM_NEGATIVE);
    player.tick(&config);
    assert_eq!((player.delta_a, player.cannon_angle), (-1, 359));
    player.tick(&config);
    assert_eq!((player.delta_a, player.cannon_angle), (-2, 357));
    let mut player = alive_at(100, 100);
    player.cannon_angle = 350;
    player.delta_a = 9;
    player.input(AIM_POSITIVE);
    player.tick(&config);
    assert_eq!((player.delta_a, player.cannon_angle), (10, 0));
    player.tick(&config);
    assert_eq!((player.delta_a, player.cannon_angle), (11, 11));
}

#[test]
fn the_turn_of_the_cannon_has_a_limit() {
    let config = Config::standard();
    let mut player = alive_at(100, 100);
    player.delta_a = 16_777_215;
    player.input(AIM_POSITIVE);
    player.tick(&config);
    assert_eq!(player.delta_a, 16_777_216);
    player.tick(&config);
    assert_eq!(player.delta_a, 16_777_216);
    assert!(player.cannon_angle >= 0 && player.cannon_angle < 360);
    player.input(AIM_NEGATIVE);
    player.tick(&config);
    assert_eq!(player.delta_a, -1);
}

#[test]
fn both_aims_cancel() {
    let config = Config::standard();
    let mut player = alive_at(100, 100);
    player.input(AIM_POSITIVE + AIM_NEGATIVE);
    player.tick(&config);
    assert_eq!((player.delta_a, player.cannon_angle), (0, 0));
}

#[test]
fn the_muzzle_lies_a_cannon_length_from_the_centre() {
    let mut player = alive_at(100, 100);
    assert_eq!(player.get_cannon_position(), ControllerPoint { x: 137_500, y: 112_500 });
    player.cannon_angle = 90;
    assert_eq!(player.get_cannon_position(), ControllerPoint { x: 112_500, y: 137_500 });
    player.cannon_angle = 180;
    assert_eq!(player.get_cannon_position(), ControllerPoint { x: 87_500, y: 112_500 });
    player.cannon_angle = 270;
    assert_eq!(player.get_cannon_position(), ControllerPoint { x: 112_500, y: 87_500 });
    player.cannon_angle = 30;
    assert_eq!(player.get_cannon_position(), ControllerPoint { x: 134_150, y: 125_000 });
    assert_eq!(player.get_cannon_position().to_buffer_point(), Point { x: 134, y: 125 });
}

#[test]
fn loading_gathers_power_up_to_a_hundred() {
    let config = Config::standard();
    let mut player = alive_at(100, 100);
    player.input(LOAD);
    player.tick(&config);
    assert!(player.is_loading_cannon);
    assert_eq!(player.power_loaded, 1);
    for _ in 0..48 {
        player.tick(&config);
    }
    assert_eq!(player.power_loaded, 49);
    for _ in 0..100 {
        player.tick(&config);
    }
    assert_eq!(player.power_loaded, 100);
    assert!(player.cannon_shot.is_none());
}

#[test]
fn fire_without_loading_fires_nothing() {
    let config = Config::standard();
    let mut player = alive_at(100, 100);
    player.input(FIRE);
    for _ in 0..5 {
        player.tick(&config);
        assert!(player.cannon_shot.is_none());
        assert!(!player.is_loading_cannon);
        assert!(player.input.fire);
    }
}

#[test]
fn load_then_fire_fires_one_shot() {
    let config = Config::standard();
    let mut player = alive_at(100, 100);
    player.input(LOAD);
    player.tick(&config);
    assert!(player.cannon_shot.is_none());
    assert!(player.is_loading_cannon);
    player.input(FIRE);
    player.tick(&config);
    let shot = player.cannon_shot.take().unwrap();
    assert_eq!(shot.from_player_id, 1);
    assert_eq!(shot.trajectory.len(), 1);
    assert_eq!(shot.trajectory[0], ControllerPoint { x: 137_500, y: 112_500 });
    assert!(!player.is_loading_cannon);
    assert_eq!(player.power_loaded, 0);
    assert!(!player.input.fire);
    player.input(FIRE);
    for _ in 0..5 {
        player.tick(&config);
        assert!(player.cannon_shot.is_none());
    }
}

#[test]
fn a_shot_is_fired_with_the_power_loaded_at_the_angle_aimed() {
    let config = Config::standard();
    let mut player = alive_at(600, 400);
    player.cannon_angle = 90;
    player.input(LOAD);
    for _ in 0..50 {
        player.tick(&config);
    }
    assert_eq!(player.power_loaded, 50);
    player.input(FIRE);
    player.tick(&config);
    let shot = player.cannon_shot.take().unwrap();
    let expected =
        CannonShot::new(1, ControllerPoint { x: 612_500, y: 437_500 }, 90, 50, &config);
    assert_eq!(shot.trajectory, expected.trajectory);
    assert_eq!(shot.trajectory.len(), 5);
    assert_eq!(shot.distance_to_travel, 5);
}

#[test]
fn load_and_fire_together_only_load() {
    let config = Config::standard();
    let mut player = alive_at(100, 100);
    player.input(LOAD + FIRE);
    player.tick(&config);
    assert!(player.is_loading_cannon);
    assert!(player.cannon_shot.is_none());
    player.tick(&config);
    assert!(player.cannon_shot.is_some());
    assert!(!player.is_loading_cannon);
    assert!(!player.input.fire);
    assert!(player.input.load_cannon);
}

#[test]
fn a_value_that_is_no_bitmask_is_ignored() {
    let mut player = alive_at(100, 100);
    player.input(UP + FIRE);
    let held = player.input;
    player.input(256);
    assert_eq!(player.input, held);
    player.input(-1);
    assert_eq!(player.input, held);
    player.input(0);
    assert!(player.input.is_empty());
}

#[test]
fn a_killed_player_is_dead_for_the_death_cooldown() {
    let config = Config::standard();
    let mut player = alive_at(100, 100);
    player.die(&config);
    assert_eq!(player.player_in_game_status, PlayerInGameStatus::Dead);
    assert_eq!(player.cooldown, 120);
}

#[test]
fn a_second_hit_does_not_keep_a_player_dead_for_longer() {
    let config = Config::standard();
    let mut player = alive_at(100, 100);
    player.die(&config);
    for _ in 0..20 {
        player.tick_at(&config, elsewhere());
    }
    assert_eq!(player.cooldown, 100);
    player.die(&config);
    assert_eq!(player.cooldown, 100);
    assert_eq!(player.player_in_game_status, PlayerInGameStatus::Dead);
}

#[test]
fn a_dead_player_comes_back_elsewhere_and_is_alive_after_the_grace() {
    let config = Config::standard();
    let mut player = alive_at(100, 100);
    player.delta_x = 3;
    player.input(RIGHT);
    player.die(&config);
    for _ in 0..119 {
        player.tick_at(&config, elsewhere());
        assert_eq!(player.player_in_game_status, PlayerInGameStatus::Dead);
        assert_eq!(player.position, ControllerPoint::from_pixels(100, 100));
        assert_eq!(player.delta_x, 3);
    }
    assert_eq!(player.cooldown, 1);
    player.tick_at(&config, elsewhere());
    assert_eq!(player.player_in_game_status, PlayerInGameStatus::Respawning);
    assert_eq!(player.position, elsewhere());
    assert_eq!(player.cooldown, 120);
    for _ in 0..119 {
        player.tick_at(&config, ControllerPoint::from_pixels(1, 1));
        assert_eq!(player.player_in_game_status, PlayerInGameStatus::Respawning);
        assert_eq!(player.position, elsewhere());
    }
    player.tick_at(&config, ControllerPoint::from_pixels(1, 1));
    assert_eq!(player.player_in_game_status, PlayerInGameStatus::Alive);
    assert_eq!(player.cooldown, 0);
    assert_eq!(player.position, elsewhere());
    player.tick_at(&config, ControllerPoint::from_pixels(1, 1));
    assert_eq!(player.delta_x, 4);
    assert_eq!(player.position, ControllerPoint::from_pixels(704, 300));
}

#[test]
fn a_dead_player_comes_back_inside_the_arena() {
    let config = Config::standard();
    for _ in 0..50 {
        let mut player = alive_at(100, 100);
        player.die(&config);
        for _ in 0..120 {
            player.tick(&config);
        }
        assert_eq!(player.player_in_game_status, PlayerInGameStatus::Respawning);
        assert!(player.position.x >= 0 && player.position.x <= 1_175_000);
        assert!(player.position.y >= 0 && player.position.y <= 775_000);
        assert_eq!(player.position.x % 1000, 0);
        assert_eq!(player.position.y % 1000, 0);
    }
}

#[test]
fn the_cooldowns_are_those_of_the_settings() {
    let config = Config { death_cooldown_ticks: 2, respawn_grace_ticks: 3, ..Config::standard() };
    let mut player = alive_at(100, 100);
    player.die(&config);
    let mut seen = vec![];
    for _ in 0..6 {
        player.tick_at(&config, elsewhere());
        seen.push((player.player_in_game_status, player.cooldown));
    }
    assert_eq!(
        seen,
        vec![
            (PlayerInGameStatus::Dead, 1),
            (PlayerInGameStatus::Respawning, 3),
            (PlayerInGameStatus::Respawning, 2),
            (PlayerInGameStatus::Respawning, 1),
            (PlayerInGameStatus::Alive, 0),
            (PlayerInGameStatus::Alive, 0),
        ]
    );
}

#[test]
fn a_player_needs_its_tick_when_something_is_going_on() {
    let config = Config::standard();
    let idle = alive_at(100, 100);
    assert!(!idle.should_tick());
    let mut player = alive_at(100, 100);
    player.cooldown = 1;
    assert!(player.should_tick());
    let mut player = alive_at(100, 100);
    player.input(AIM_POSITIVE);
    assert!(player.should_tick());
    let mut player = alive_at(100, 100);
    player.delta_x = -1;
    assert!(player.should_tick());
    let mut player = alive_at(100, 100);
    player.delta_y = 1;
    assert!(player.should_tick());
    let mut player = alive_at(100, 100);
    player.cannon_shot =
        Some(CannonShot::new(1, ControllerPoint::from_pixels(100, 100), 0, 10, &config));
    assert!(player.should_tick());
}

#[test]
fn boxes_that_touch_do_not_overlap() {
    let player = alive_at(100, 100);
    assert!(player.check_player_collision(&alive_at(100, 100)));
    assert!(player.check_player_collision(&alive_at(124, 100)));
    assert!(!player.check_player_collision(&alive_at(125, 100)));
    assert!(player.check_player_collision(&alive_at(76, 124)));
    assert!(!player.check_player_collision(&alive_at(75, 100)));
    assert!(!player.check_player_collision(&alive_at(100, 125)));
    assert!(!player.check_player_collision(&alive_at(100, 75)));
    assert!(player.check_player_collision(&alive_at(124, 124)));
    let mut near = alive_at(125, 100);
    near.position.x -= 1;
    assert!(player.check_player_collision(&near));
    assert!(near.check_player_collision(&player));
}

#[test]
fn speeds_are_turned_round() {
    let mut player = alive_at(100, 100);
    player.delta_x = 5;
    player.delta_y = -3;
    player.reverse_delta_x();
    assert_eq!((player.delta_x, player.delta_y), (-5, -3));
    player.reverse_delta_y();
    assert_eq!((player.delta_x, player.delta_y), (-5, 3));
    assert!(player.is_moving());
    assert!(!alive_at(1, 1).is_moving());
    let config = Config::standard();
    assert!(Player::is_at_top_speed(15, &config));
    assert!(Player::is_at_top_speed(-15, &config));
    assert!(!Player::is_at_top_speed(14, &config));
    assert!(!Player::is_at_top_speed(-14, &config));
}
