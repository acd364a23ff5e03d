use backend::config::Config;
use backend::explosion::Explosion;
use backend::geometry::ControllerPoint;

fn blast_of_size(size: i32, x: i32, y: i32) -> Explosion {
    Explosion {
        position: ControllerPoint::from_pixels(x, y),
        from_player_id: 1,
        size,
        reached_max_size: false,
    }
}

#[test]
fn a_new_blast_is_small_and_growing() {
    let blast = Explosion::new(3, ControllerPoint::from_pixels(10, 20));
    assert_eq!(blast.size, 1);
    assert!(!blast.reached_max_size);
    assert_eq!(blast.from_player_id, 3);
    assert_eq!(blast.position, ControllerPoint { x: 10_000, y: 20_000 });
}

#[test]
fn a_blast_grows_to_the_cap_and_shrinks_to_nothing() {
    let config = Config::standard();
    let mut blast = Explosion::new(1, ControllerPoint::from_pixels(0, 0));
    let mut sizes = vec![blast.size];
    while blast.size > 0 {
        blast.tick(&config);
        sizes.push(blast.size);
    }
    assert_eq!(sizes, vec![1, 11, 21, 31, 41, 51, 61, 71, 81, 91, 101, 81, 61, 41, 21, 1, 0]);
    assert!(blast.reached_max_size);
}

#[test]
fn the_lifetime_of_a_blast_follows_from_the_rates_and_the_cap() {
    let config = Config {
        explosion_grow_rate: 7,
        explosion_shrink_rate: 3,
        explosion_cap: 20,
        ..Config::standard()
    };
    let mut blast = Explosion::new(1, ControllerPoint::from_pixels(0, 0));
    let mut sizes = vec![];
    while blast.size > 0 {
        blast.tick(&config);
        sizes.push(blast.size);
    }
    assert_eq!(sizes, vec![8, 15, 22, 19, 16, 13, 10, 7, 4, 1, 0]);
    assert_eq!(sizes.len(), 3 + 8);
}

#[test]
fn a_blast_with_a_cap_of_one_only_shrinks() {
    let config = Config {
        explosion_grow_rate: 5,
        explosion_shrink_rate: 1,
        explosion_cap: 1,
        ..Config::standard()
    };
    let mut blast = Explosion::new(1, ControllerPoint::from_pixels(0, 0));
    blast.tick(&config);
    assert_eq!(blast.size, 0);
    assert!(blast.reached_max_size);
}

#[test]
fn a_blast_that_is_gone_stays_gone() {
    let config = Config::standard();
    let mut blast = blast_of_size(0, 0, 0);
    blast.reached_max_size = true;
    blast.tick(&config);
    assert_eq!(blast.size, 0);
}

#[test]
fn a_blast_hits_a_player_that_it_lies_in() {
    let player = ControllerPoint::from_pixels(100, 100);
    assert!(blast_of_size(1, 100, 100).check_for_hit(player));
    assert!(blast_of_size(1, 112, 112).check_for_hit(player));
    assert!(blast_of_size(1, 125, 125).check_for_hit(player));
    assert!(blast_of_size(50, 110, 120).check_for_hit(player));
}

#[test]
fn a_blast_without_reach_misses_a_player_that_it_lies_beside() {
    let player = ControllerPoint::from_pixels(100, 100);
    let mut blast = blast_of_size(1, 100, 100);
    blast.position = ControllerPoint { x: 99_999, y: 100_000 };
    assert!(!blast.check_for_hit(player));
    blast.position = ControllerPoint { x: 125_001, y: 100_000 };
    assert!(!blast.check_for_hit(player));
    blast.position = ControllerPoint { x: 125_000, y: 125_000 };
    assert!(blast.check_for_hit(player));
}

#[test]
fn a_blast_reaches_as_far_as_half_its_size() {
    let player = ControllerPoint::from_pixels(100, 100);
    assert!(blast_of_size(50, 150, 112).check_for_hit(player));
    assert!(!blast_of_size(50, 151, 112).check_for_hit(player));
    assert!(blast_of_size(50, 75, 112).check_for_hit(player));
    assert!(!blast_of_size(50, 74, 112).check_for_hit(player));
    assert!(blast_of_size(50, 112, 150).check_for_hit(player));
    assert!(!blast_of_size(50, 112, 151).check_for_hit(player));
    assert!(blast_of_size(51, 150, 112).check_for_hit(player));
    assert!(!blast_of_size(49, 150, 112).check_for_hit(player));
}

#[test]
fn a_blast_reaches_round_a_corner_by_its_distance() {
    let player = ControllerPoint::from_pixels(100, 100);
    // 15 beside and 20 below the corner: 25 away.
    assert!(blast_of_size(50, 140, 145).check_for_hit(player));
    // 20 beside and 20 below: more than 25 away.
    assert!(!blast_of_size(50, 145, 145).check_for_hit(player));
    assert!(blast_of_size(50, 85, 80).check_for_hit(player));
    assert!(!blast_of_size(50, 80, 80).check_for_hit(player));
}

#[test]
fn a_small_blast_hits_the_side_of_a_player() {
    let player = ControllerPoint::from_pixels(100, 100);
    // Reach 5, four pixels beside the middle of the left side.
    assert!(blast_of_size(11, 96, 112).check_for_hit(player));
    assert!(!blast_of_size(11, 94, 112).check_for_hit(player));
}

#[test]
fn a_blast_far_away_misses() {
    let player = ControllerPoint::from_pixels(100, 100);
    let mut blast = blast_of_size(100, 0, 0);
    blast.position = ControllerPoint { x: i64::MIN, y: i64::MAX };
    assert!(!blast.check_for_hit(player));
    assert!(!blast.check_for_hit(ControllerPoint { x: i64::MAX, y: i64::MIN }));
    blast.size = i32::MAX;
    assert!(blast.check_for_hit(ControllerPoint { x: i64::MIN + 1_000_000, y: i64::MAX - 1_000_000 }));
}

#[test]
fn a_blast_is_valid_up_to_one_step_beyond_the_cap() {
    let config = Config::standard();
    assert!(blast_of_size(0, 0, 0).is_valid(&config));
    assert!(blast_of_size(109, 0, 0).is_valid(&config));
    assert!(!blast_of_size(110, 0, 0).is_valid(&config));
    assert!(!blast_of_size(-1, 0, 0).is_valid(&config));
}

#[test]
fn a_blast_beyond_the_cap_shrinks() {
    let config = Config::standard();
    let mut blast = blast_of_size(5000, 0, 0);
    blast.tick(&config);
    assert_eq!(blast.size, 4980);
    assert!(blast.reached_max_size);
    let mut blast = blast_of_size(i32::MAX, 0, 0);
    blast.tick(&config);
    assert_eq!(blast.size, i32::MAX - 20);
    let mut blast = blast_of_size(i32::MIN, 0, 0);
    blast.tick(&config);
    assert_eq!(blast.size, i32::MIN + 10);
    assert!(!blast.reached_max_size);
}
