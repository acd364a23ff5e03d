use backend::cannon_shot::CannonShot;
use backend::config::Config;
use backend::geometry::ControllerPoint;

fn xs(shot: &CannonShot) -> Vec<i64> {
    shot.trajectory.iter().map(|p| p.x).collect()
}

fn ys(shot: &CannonShot) -> Vec<i64> {
    shot.trajectory.iter().map(|p| p.y).collect()
}

#[test]
fn a_level_shot_at_half_power_has_five_points() {
    let config = Config::standard();
    let shot = CannonShot::new(1, ControllerPoint::from_pixels(100, 100), 0, 50, &config);
    assert_eq!(shot.trajectory.len(), 5);
    assert_eq!(shot.distance_to_travel, 5);
    assert_eq!(xs(&shot), vec![100_000, 130_000, 160_000, 190_000, 220_000]);
    assert_eq!(ys(&shot), vec![100_000; 5]);
    assert_eq!(shot.from_player_id, 1);
    assert_eq!(shot.position, None);
    assert_eq!(shot.last_position, ControllerPoint::from_pixels(100, 100));
}

#[test]
fn the_length_of_a_path_follows_from_the_power() {
    let config = Config::standard();
    let from = ControllerPoint::from_pixels(600, 400);
    let lengths: Vec<usize> = [-5, 0, 1, 10, 11, 20, 50, 99, 100, 101, 200, i32::MAX, i32::MIN]
        .iter()
        .map(|power| CannonShot::new(1, from, 33, *power, &config).trajectory.len())
        .collect();
    assert_eq!(lengths, vec![0, 0, 1, 1, 2, 2, 5, 10, 10, 10, 10, 10, 0]);
}

#[test]
fn the_length_of_a_path_follows_from_the_range() {
    let from = ControllerPoint::from_pixels(600, 400);
    let short = Config { max_range: 29, ..Config::standard() };
    assert_eq!(CannonShot::new(1, from, 0, 100, &short).trajectory.len(), 1);
    let none = Config { max_range: 0, ..Config::standard() };
    assert_eq!(CannonShot::new(1, from, 0, 100, &none).trajectory.len(), 0);
    let long = Config { max_range: 1_000_000, ..Config::standard() };
    assert_eq!(CannonShot::new(1, from, 0, 100, &long).trajectory.len(), 33_334);
}

#[test]
fn shots_fired_alike_fly_alike() {
    let config = Config::standard();
    let from = ControllerPoint { x: 611_500, y: 402_250 };
    for angle in [0, 1, 44, 90, 135, 181, 269, 300, 359] {
        for power in [1, 37, 100] {
            let one = CannonShot::new(1, from, angle, power, &config);
            let other = CannonShot::new(2, from, angle, power, &config);
            assert_eq!(one.trajectory, other.trajectory);
            assert_eq!(one.trajectory.len(), other.trajectory.len());
            let elsewhere =
                CannonShot::new(1, ControllerPoint::from_pixels(3, 790), angle + 77, power, &config);
            assert_eq!(one.trajectory.len(), elsewhere.trajectory.len());
        }
    }
}

#[test]
fn a_shot_at_an_angle_steps_by_sine_and_cosine() {
    let config = Config::standard();
    let shot = CannonShot::new(1, ControllerPoint::from_pixels(100, 100), 45, 20, &config);
    assert_eq!(xs(&shot), vec![100_000, 121_210]);
    assert_eq!(ys(&shot), vec![100_000, 121_210]);
    let shot = CannonShot::new(1, ControllerPoint::from_pixels(100, 100), 30, 30, &config);
    assert_eq!(xs(&shot), vec![100_000, 125_980, 151_960]);
    assert_eq!(ys(&shot), vec![100_000, 115_000, 130_000]);
    let shot = CannonShot::new(1, ControllerPoint::from_pixels(600, 400), 270, 20, &config);
    assert_eq!(xs(&shot), vec![600_000, 600_000]);
    assert_eq!(ys(&shot), vec![400_000, 370_000]);
}

#[test]
fn an_angle_counts_by_its_heading() {
    let config = Config::standard();
    let from = ControllerPoint::from_pixels(600, 400);
    let plain = CannonShot::new(1, from, 123, 100, &config);
    assert_eq!(CannonShot::new(1, from, 123 + 360, 100, &config).trajectory, plain.trajectory);
    assert_eq!(CannonShot::new(1, from, 123 - 720, 100, &config).trajectory, plain.trajectory);
}

#[test]
fn a_shot_turns_round_at_the_right_wall() {
    let config = Config::standard();
    let shot = CannonShot::new(1, ControllerPoint::from_pixels(1190, 100), 0, 100, &config);
    assert_eq!(
        xs(&shot),
        vec![
            1_190_000, 1_160_000, 1_130_000, 1_100_000, 1_070_000, 1_040_000, 1_010_000, 980_000,
            950_000, 920_000
        ]
    );
    assert_eq!(ys(&shot), vec![100_000; 10]);
}

#[test]
fn a_shot_turns_round_at_the_left_wall() {
    let config = Config::standard();
    let shot = CannonShot::new(1, ControllerPoint::from_pixels(40, 100), 180, 40, &config);
    assert_eq!(xs(&shot), vec![40_000, 10_000, 40_000, 70_000]);
}

#[test]
fn a_shot_turns_round_at_the_floor_and_the_ceiling() {
    let config = Config::standard();
    let shot = CannonShot::new(1, ControllerPoint::from_pixels(100, 790), 90, 30, &config);
    assert_eq!(ys(&shot), vec![790_000, 760_000, 730_000]);
    assert_eq!(xs(&shot), vec![100_000; 3]);
    let shot = CannonShot::new(1, ControllerPoint::from_pixels(100, 20), 270, 30, &config);
    assert_eq!(ys(&shot), vec![20_000, 50_000, 80_000]);
}

#[test]
fn a_shot_reaches_a_wall_without_turning() {
    let config = Config::standard();
    let shot = CannonShot::new(1, ControllerPoint::from_pixels(1140, 100), 0, 40, &config);
    assert_eq!(xs(&shot), vec![1_140_000, 1_170_000, 1_200_000, 1_170_000]);
}

#[test]
fn a_shot_fired_outside_the_arena_flies_in() {
    let config = Config::standard();
    let shot = CannonShot::new(1, ControllerPoint::from_pixels(-10, 100), 0, 30, &config);
    assert_eq!(xs(&shot), vec![-10_000, 20_000, 50_000]);
    let shot = CannonShot::new(1, ControllerPoint::from_pixels(-10, 100), 180, 30, &config);
    assert_eq!(xs(&shot), vec![-10_000, 20_000, 50_000]);
}

#[test]
fn a_tick_uses_up_one_point() {
    let config = Config::standard();
    let mut shot = CannonShot::new(1, ControllerPoint::from_pixels(100, 100), 0, 20, &config);
    shot.tick();
    assert_eq!(shot.position, Some(ControllerPoint::from_pixels(100, 100)));
    assert_eq!(shot.last_position, ControllerPoint::from_pixels(100, 100));
    assert_eq!(shot.trajectory.len(), 1);
    shot.tick();
    assert_eq!(shot.position, Some(ControllerPoint::from_pixels(130, 100)));
    assert_eq!(shot.last_position, ControllerPoint::from_pixels(130, 100));
    assert_eq!(shot.trajectory.len(), 0);
    shot.tick();
    assert_eq!(shot.position, None);
    assert_eq!(shot.last_position, ControllerPoint::from_pixels(130, 100));
    shot.tick();
    assert_eq!(shot.position, None);
    assert_eq!(shot.last_position, ControllerPoint::from_pixels(130, 100));
    assert_eq!(shot.distance_to_travel, 2);
}

#[test]
fn a_shot_without_a_path_stays_at_the_muzzle() {
    let config = Config::standard();
    let mut shot = CannonShot::new(1, ControllerPoint::from_pixels(100, 100), 0, 0, &config);
    assert_eq!(shot.count_size(), 20);
    shot.tick();
    assert_eq!(shot.position, None);
    assert_eq!(shot.last_position, ControllerPoint::from_pixels(100, 100));
    assert_eq!(shot.count_size(), 20);
}

#[test]
fn the_size_of_a_shot_rises_and_falls() {
    let config = Config::standard();
    let mut shot = CannonShot::new(1, ControllerPoint::from_pixels(100, 100), 0, 50, &config);
    let mut sizes = vec![shot.count_size()];
    for _ in 0..5 {
        shot.tick();
        sizes.push(shot.count_size());
    }
    assert_eq!(sizes, vec![20, 40, 80, 80, 40, 20]);
}

#[test]
fn the_size_of_a_shot_peaks_at_a_hundred() {
    let config = Config::standard();
    let mut shot = CannonShot::new(1, ControllerPoint::from_pixels(100, 100), 0, 100, &config);
    let mut sizes = vec![];
    for _ in 0..10 {
        shot.tick();
        sizes.push(shot.count_size());
    }
    assert_eq!(sizes, vec![20, 40, 60, 80, 100, 80, 60, 40, 20, 20]);
}
