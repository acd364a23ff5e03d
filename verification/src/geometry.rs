//! Points of the arena.

use vstd::prelude::*;
use rand::Rng;
use crate::config::UNITS_PER_PIXEL;

verus! {

/// A point on the pixel grid, as it is reported to the clients.
#[derive(Clone, Copy, Debug, PartialEq, Eq, Structural)]
pub struct Point {
    pub x: i32,
    pub y: i32,
}

/// A point of the arena, in thousandths of a pixel. The origin is the
/// top-left corner; `x` grows to the right and `y` grows downwards.
#[derive(Clone, Copy, Debug, PartialEq, Eq, Structural)]
pub struct ControllerPoint {
    pub x: i64,
    pub y: i64,
}

/// The whole pixel a coordinate lies in, counted towards zero, and held to
/// the range of `i32`.
pub open spec fn pixel_of(units: i64) -> int {
    let whole = if units >= 0 {
        units as int / UNITS_PER_PIXEL as int
    } else {
        -((-(units as int)) / UNITS_PER_PIXEL as int)
    };
    if whole < i32::MIN {
        i32::MIN as int
    } else if whole > i32::MAX {
        i32::MAX as int
    } else {
        whole
    }
}

/// Computes `pixel_of`.
pub fn whole_pixel(units: i64) -> (pixel: i32)
    ensures
        pixel == pixel_of(units),
{
    let whole: i64 = units / UNITS_PER_PIXEL;
    if whole < i32::MIN as i64 {
        i32::MIN
    } else if whole > i32::MAX as i64 {
        i32::MAX
    } else {
        whole as i32
    }
}

/// Draws a whole number between 0 and `bound`, both included: calls
/// `rand::Rng::gen_range` with the range `0..=bound` on the generator that
/// `rand::thread_rng` hands out. This is believed, not proved. Which number
/// comes out is not stated, only that it lies in the range. The range must
/// not be empty, since `gen_range` panics on an empty one.
#[verifier::external_body]
fn random_upto(bound: i32) -> (n: i32)
    requires
        0 <= bound,
    ensures
        0 <= n <= bound,
{
    rand::thread_rng().gen_range(0..=bound)
}

impl ControllerPoint {
    /// The point at the given pixel.
    pub open spec fn at_pixel(x: int, y: int) -> ControllerPoint {
        ControllerPoint { x: (x * UNITS_PER_PIXEL) as i64, y: (y * UNITS_PER_PIXEL) as i64 }
    }

    /// The point at the given pixel.
    pub fn from_pixels(x: i32, y: i32) -> (point: ControllerPoint)
        ensures
            point == ControllerPoint::at_pixel(x as int, y as int),
            point.x == x * UNITS_PER_PIXEL,
            point.y == y * UNITS_PER_PIXEL,
    {
        ControllerPoint { x: x as i64 * UNITS_PER_PIXEL, y: y as i64 * UNITS_PER_PIXEL }
    }

    /// This point moved by `dx` pixels to the right and `dy` pixels down.
    pub open spec fn moved(self, dx: int, dy: int) -> ControllerPoint {
        ControllerPoint {
            x: (self.x + dx * UNITS_PER_PIXEL) as i64,
            y: (self.y + dy * UNITS_PER_PIXEL) as i64,
        }
    }

    /// Whether the point can be moved by that many pixels without leaving
    /// the range of its coordinates.
    pub open spec fn can_move(self, dx: int, dy: int) -> bool {
        &&& i64::MIN <= self.x + dx * UNITS_PER_PIXEL <= i64::MAX
        &&& i64::MIN <= self.y + dy * UNITS_PER_PIXEL <= i64::MAX
    }

    /// Moves the point by `dx` pixels to the right and `dy` pixels down.
    pub fn translate(&mut self, dx: i32, dy: i32)
        requires
            old(self).can_move(dx as int, dy as int),
        ensures
            *final(self) == old(self).moved(dx as int, dy as int),
            final(self).x == old(self).x + dx * UNITS_PER_PIXEL,
            final(self).y == old(self).y + dy * UNITS_PER_PIXEL,
    {
        self.x = self.x + dx as i64 * UNITS_PER_PIXEL;
        self.y = self.y + dy as i64 * UNITS_PER_PIXEL;
    }

    /// Whether the point lies on the pixel grid, at most `width_bounds`
    /// pixels from the left edge and `height_bounds` pixels from the top.
    pub open spec fn on_grid_within(self, height_bounds: int, width_bounds: int) -> bool {
        &&& self.x % UNITS_PER_PIXEL == 0
        &&& self.y % UNITS_PER_PIXEL == 0
        &&& 0 <= self.x <= width_bounds * UNITS_PER_PIXEL
        &&& 0 <= self.y <= height_bounds * UNITS_PER_PIXEL
    }

    /// A point of the pixel grid drawn at random, at most `width_bounds`
    /// pixels from the left edge and `height_bounds` pixels from the top.
    pub fn random_point(height_bounds: i32, width_bounds: i32) -> (point: ControllerPoint)
        requires
            0 <= height_bounds,
            0 <= width_bounds,
        ensures
            point.on_grid_within(height_bounds as int, width_bounds as int),
    {
        ControllerPoint::from_pixels(random_upto(width_bounds), random_upto(height_bounds))
    }

    /// The pixel the point lies in.
    pub open spec fn pixel(self) -> Point {
        Point { x: pixel_of(self.x) as i32, y: pixel_of(self.y) as i32 }
    }

    /// The pixel the point lies in, as it is reported to the clients.
    pub fn to_buffer_point(&self) -> (point: Point)
        ensures
            point == self.pixel(),
    {
        Point { x: whole_pixel(self.x), y: whole_pixel(self.y) }
    }
}

} // verus!
