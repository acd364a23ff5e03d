use backend::geometry::{whole_pixel, ControllerPoint, Point};
use backend::trig::{cosine, normalize_angle, sine};

#[test]
fn from_pixels_scales_by_a_thousand() {
    let p = ControllerPoint::from_pixels(100, 99);
    assert_eq!(p.x, 100_000);
    assert_eq!(p.y, 99_000);
}

#[test]
fn translate_moves_by_whole_pixels() {
    let mut p = ControllerPoint::from_pixels(100, 100);
    p.translate(3, -4);
    assert_eq!(p, ControllerPoint { x: 103_000, y: 96_000 });
    p.translate(0, 0);
    assert_eq!(p, ControllerPoint { x: 103_000, y: 96_000 });
}

#[test]
fn to_buffer_point_counts_towards_zero() {
    assert_eq!(ControllerPoint { x: 1_999, y: 2_000 }.to_buffer_point(), Point { x: 1, y: 2 });
    assert_eq!(ControllerPoint { x: -1_500, y: -999 }.to_buffer_point(), Point { x: -1, y: 0 });
    assert_eq!(ControllerPoint { x: 0, y: -1_000 }.to_buffer_point(), Point { x: 0, y: -1 });
}

#[test]
fn whole_pixel_is_held_to_the_range_of_i32() {
    assert_eq!(whole_pixel(i64::MAX), i32::MAX);
    assert_eq!(whole_pixel(i64::MIN), i32::MIN);
    assert_eq!(whole_pixel(2_147_483_647_999), i32::MAX);
    assert_eq!(whole_pixel(-2_147_483_648_000), i32::MIN);
}

#[test]
fn random_point_lies_on_the_grid_within_the_bounds() {
    for _ in 0..500 {
        let p = ControllerPoint::random_point(7, 13);
        assert!(p.x >= 0 && p.x <= 13_000);
        assert!(p.y >= 0 && p.y <= 7_000);
        assert_eq!(p.x % 1000, 0);
        assert_eq!(p.y % 1000, 0);
    }
}

#[test]
fn random_point_with_no_room_is_the_origin() {
    assert_eq!(ControllerPoint::random_point(0, 0), ControllerPoint { x: 0, y: 0 });
}

#[test]
fn random_point_is_not_always_the_far_corner() {
    let mut below_x = false;
    let mut below_y = false;
    let mut distinct = false;
    let first = ControllerPoint::random_point(1_000_000, 1_000_000);
    for _ in 0..200 {
        let p = ControllerPoint::random_point(1_000_000, 1_000_000);
        below_x = below_x || p.x < 1_000_000_000;
        below_y = below_y || p.y < 1_000_000_000;
        distinct = distinct || p != first;
    }
    assert!(below_x);
    assert!(below_y);
    assert!(distinct);
}

#[test]
fn sine_and_cosine_at_the_axes() {
    assert_eq!(sine(0), 0);
    assert_eq!(cosine(0), 1000);
    assert_eq!(sine(90), 1000);
    assert_eq!(cosine(90), 0);
    assert_eq!(sine(180), 0);
    assert_eq!(cosine(180), -1000);
    assert_eq!(sine(270), -1000);
    assert_eq!(cosine(270), 0);
}

#[test]
fn sine_and_cosine_between_the_axes() {
    assert_eq!(sine(30), 500);
    assert_eq!(cosine(60), 500);
    assert_eq!(sine(45), 707);
    assert_eq!(cosine(45), 707);
    assert_eq!(sine(1), 17);
    assert_eq!(sine(150), 500);
    assert_eq!(sine(210), -500);
    assert_eq!(sine(330), -500);
    assert_eq!(cosine(120), -500);
    assert_eq!(cosine(240), -500);
    assert_eq!(cosine(300), 500);
    assert_eq!(cosine(359), 1000);
    assert_eq!(sine(359), -17);
}

#[test]
fn sine_and_cosine_are_of_unit_length() {
    for degrees in 0..360 {
        let s = sine(degrees) as i64;
        let c = cosine(degrees) as i64;
        let length = s * s + c * c;
        assert!(998_800 <= length && length <= 1_001_200);
    }
}

#[test]
fn normalize_angle_brings_any_angle_into_one_turn() {
    assert_eq!(normalize_angle(0), 0);
    assert_eq!(normalize_angle(359), 359);
    assert_eq!(normalize_angle(360), 0);
    assert_eq!(normalize_angle(725), 5);
    assert_eq!(normalize_angle(-1), 359);
    assert_eq!(normalize_angle(-360), 0);
    assert_eq!(normalize_angle(-725), 355);
    assert_eq!(normalize_angle(i32::MIN), 232);
    assert_eq!(normalize_angle(i32::MAX), 127);
}
