//! Shots in flight.
//!
//! The whole path of a shot is laid out when it is fired, walls included: a
//! step that would carry the shot through a wall is turned round, and the
//! shot flies on in the new direction. Each tick then uses up one point.

use vstd::prelude::*;
use std::collections::VecDeque;
use crate::config::{
    Config, COORDINATE_LIMIT, MAX_POWER, MIN_SHOT_SIZE, SHOT_STEP, SHOT_STEP_UNITS,
    UNITS_PER_PIXEL,
};
use crate::geometry::ControllerPoint;
use crate::trig::{cos_milli, cosine, normal_angle, normalize_angle, sin_milli, sine};

verus! {

/// A shot in flight.
#[derive(Debug)]
pub struct CannonShot {
    /// The player who fired.
    pub from_player_id: i32,
    /// The number of points the path was laid out with.
    pub distance_to_travel: usize,
    /// The points the shot has yet to pass, next first.
    pub trajectory: VecDeque<ControllerPoint>,
    /// The last point the shot is known to have been at: the muzzle until
    /// the shot has moved.
    pub last_position: ControllerPoint,
    /// Where the shot is; `None` before its first tick and once its path is
    /// used up.
    pub position: Option<ControllerPoint>,
}

/// What a shot is, with its path as a sequence.
pub struct CannonShotView {
    pub from_player_id: i32,
    pub distance_to_travel: usize,
    pub trajectory: Seq<ControllerPoint>,
    pub last_position: ControllerPoint,
    pub position: Option<ControllerPoint>,
}

impl View for CannonShot {
    type V = CannonShotView;

    open spec fn view(&self) -> CannonShotView {
        CannonShotView {
            from_player_id: self.from_player_id,
            distance_to_travel: self.distance_to_travel,
            trajectory: self.trajectory@,
            last_position: self.last_position,
            position: self.position,
        }
    }
}

/// The power a shot is fired with: the loaded power, held to what a cannon
/// can be loaded with.
pub open spec fn effective_power(power: int) -> int {
    if power < 0 {
        0
    } else if power > MAX_POWER {
        MAX_POWER as int
    } else {
        power
    }
}

/// The number of points on the path of a shot fired with that power: the
/// shot travels the part of the full range that its power is of the full
/// power, and the path has one point per step, the last step begun counting
/// as a whole one.
pub open spec fn path_length(config: Config, power: int) -> int {
    (config.max_range * effective_power(power) + MAX_POWER * SHOT_STEP - 1) / (MAX_POWER
        * SHOT_STEP)
}

/// The step along the x axis of a shot fired at that heading.
pub open spec fn step_x(angle: int) -> int {
    SHOT_STEP * cos_milli(normal_angle(angle))
}

/// The step along the y axis of a shot fired at that heading.
pub open spec fn step_y(angle: int) -> int {
    SHOT_STEP * sin_milli(normal_angle(angle))
}

/// Whether taking `step` from `at` would carry a thing out of the interval
/// from 0 to `limit`, through the wall it is moving towards.
pub open spec fn would_exit(at: int, step: int, limit: int) -> bool {
    (step < 0 && at + step < 0) || (step > 0 && at + step > limit)
}

/// The step a thing at `at` takes next along an axis that ends in walls at
/// 0 and `limit`: the step it came with, turned round if it would carry the
/// thing out.
pub open spec fn bounced(at: int, step: int, limit: int) -> int {
    if would_exit(at, step, limit) {
        -step
    } else {
        step
    }
}

/// The path of `points` points that begins at `from` with the steps `dx`
/// and `dy`, in an arena of that width and height in position units.
pub open spec fn path_from(
    width: int,
    height: int,
    from: ControllerPoint,
    dx: int,
    dy: int,
    points: nat,
) -> Seq<ControllerPoint>
    decreases points,
{
    if points == 0 {
        Seq::empty()
    } else {
        let next_dx = bounced(from.x as int, dx, width);
        let next_dy = bounced(from.y as int, dy, height);
        let next = ControllerPoint { x: (from.x + next_dx) as i64, y: (from.y + next_dy) as i64 };
        seq![from] + path_from(width, height, next, next_dx, next_dy, (points - 1) as nat)
    }
}

/// The size a shot is reported with when `remaining` of the `total` points
/// of its path are left: 0 at either end of the path and 100 in the middle,
/// rising and falling evenly between them, but never less than the least
/// size a shot is shown with.
pub open spec fn reported_size(total: int, remaining: int) -> int {
    let progress = total - remaining;
    if total <= 0 || progress <= 0 || progress > total {
        MIN_SHOT_SIZE as int
    } else {
        let rising = (200 * progress) / total;
        let raw = if 2 * progress <= total {
            rising
        } else {
            200 - rising
        };
        if raw < MIN_SHOT_SIZE {
            MIN_SHOT_SIZE as int
        } else {
            raw
        }
    }
}

impl CannonShotView {
    /// The shot that a player fires from `from` at that heading and power.
    pub open spec fn launched(
        from_player_id: i32,
        from: ControllerPoint,
        angle: int,
        power: int,
        config: Config,
    ) -> CannonShotView {
        let points = path_length(config, power);
        CannonShotView {
            from_player_id,
            distance_to_travel: points as usize,
            trajectory: path_from(
                config.arena_width * UNITS_PER_PIXEL,
                config.arena_height * UNITS_PER_PIXEL,
                from,
                step_x(angle),
                step_y(angle),
                points as nat,
            ),
            last_position: from,
            position: None,
        }
    }

    /// The shot one tick later: at the next point of its path, or nowhere
    /// if the path is used up.
    pub open spec fn advanced(self) -> CannonShotView {
        if self.trajectory.len() > 0 {
            CannonShotView {
                position: Some(self.trajectory[0]),
                last_position: self.trajectory[0],
                trajectory: self.trajectory.skip(1),
                ..self
            }
        } else {
            CannonShotView { position: None, ..self }
        }
    }

    /// The size the shot is reported with.
    pub open spec fn size(self) -> int {
        reported_size(self.distance_to_travel as int, self.trajectory.len() as int)
    }
}

/// Computes `bounced` for steps and positions of moderate size.
fn bounce(at: i64, step: i64, limit: i64) -> (next: i64)
    requires
        -2 * COORDINATE_LIMIT <= at <= 2 * COORDINATE_LIMIT,
        -SHOT_STEP_UNITS <= step <= SHOT_STEP_UNITS,
    ensures
        next == bounced(at as int, step as int, limit as int),
        next == step || next == -step,
{
    if (step < 0 && at + step < 0) || (step > 0 && at + step > limit) {
        -step
    } else {
        step
    }
}

impl CannonShot {
    /// Fires a shot for that player from the muzzle at `from`, at that
    /// heading in degrees and with that power. The path of the shot is laid
    /// out at once. It depends on the muzzle, the heading, the power and the
    /// settings alone, and its length on the power and the range alone.
    pub fn new(
        from_player_id: i32,
        from: ControllerPoint,
        angle: i32,
        power: i32,
        config: &Config,
    ) -> (shot: CannonShot)
        requires
            config.wf(),
            -COORDINATE_LIMIT <= from.x <= COORDINATE_LIMIT,
            -COORDINATE_LIMIT <= from.y <= COORDINATE_LIMIT,
        ensures
            shot@ == CannonShotView::launched(
                from_player_id,
                from,
                angle as int,
                power as int,
                *config,
            ),
            shot@.trajectory.len() == path_length(*config, power as int),
    {
        let effective: i64 = if power < 0 {
            0
        } else if power > MAX_POWER {
            MAX_POWER as i64
        } else {
            power as i64
        };
        let per_step: i64 = MAX_POWER as i64 * SHOT_STEP as i64;
        assert(0 <= config.max_range * effective <= 100_000_000) by (nonlinear_arith)
            requires
                0 <= config.max_range <= 1_000_000,
                0 <= effective <= 100,
        ;
        let points: i64 = (config.max_range as i64 * effective + per_step - 1) / per_step;
        let heading = normalize_angle(angle);
        let step: i64 = SHOT_STEP as i64;
        let unit: i64 = UNITS_PER_PIXEL;
        let width: i64 = config.arena_width as i64 * unit;
        let height: i64 = config.arena_height as i64 * unit;
        let mut dx: i64 = step * cosine(heading) as i64;
        let mut dy: i64 = step * sine(heading) as i64;
        let mut trajectory = VecDeque::<ControllerPoint>::new();
        let mut current = from;
        let mut made: i64 = 0;
        let ghost whole = path_from(
            width as int,
            height as int,
            from,
            dx as int,
            dy as int,
            points as nat,
        );
        while made < points
            invariant
                0 <= made <= points <= 40_000,
                -SHOT_STEP_UNITS <= dx <= SHOT_STEP_UNITS,
                -SHOT_STEP_UNITS <= dy <= SHOT_STEP_UNITS,
                -COORDINATE_LIMIT - made * SHOT_STEP_UNITS <= current.x <= COORDINATE_LIMIT + made
                    * SHOT_STEP_UNITS,
                -COORDINATE_LIMIT - made * SHOT_STEP_UNITS <= current.y <= COORDINATE_LIMIT + made
                    * SHOT_STEP_UNITS,
                trajectory@.len() == made,
                whole == trajectory@ + path_from(
                    width as int,
                    height as int,
                    current,
                    dx as int,
                    dy as int,
                    (points - made) as nat,
                ),
            decreases points - made,
        {
            let ghost rest = path_from(
                width as int,
                height as int,
                current,
                dx as int,
                dy as int,
                (points - made) as nat,
            );
            let ghost before = trajectory@;
            let ghost start = current;
            trajectory.push_back(current);
            dx = bounce(current.x, dx, width);
            dy = bounce(current.y, dy, height);
            current = ControllerPoint { x: current.x + dx, y: current.y + dy };
            made = made + 1;
            proof {
                let tail = path_from(
                    width as int,
                    height as int,
                    current,
                    dx as int,
                    dy as int,
                    (points - made) as nat,
                );
                assert(rest == seq![start] + tail);
                assert(trajectory@ + tail =~= before + rest);
            }
        }
        assert(path_from(width as int, height as int, current, dx as int, dy as int, 0)
            =~= Seq::<ControllerPoint>::empty());
        assert(trajectory@ =~= whole);
        CannonShot {
            from_player_id,
            distance_to_travel: trajectory.len(),
            trajectory,
            last_position: from,
            position: None,
        }
    }

    /// Advances the shot by one tick: it moves to the next point of its
    /// path, or is nowhere any more if the path is used up.
    pub fn tick(&mut self)
        ensures
            final(self)@ == old(self)@.advanced(),
    {
        self.position = self.trajectory.pop_front();
        match self.position {
            Some(pos) => {
                self.last_position = pos;
            },
            _ => (),
        }
        assert(self.trajectory@ =~= old(self).trajectory@.skip(1) || old(self).trajectory@.len()
            == 0);
    }

    /// The size the shot is reported with.
    pub fn count_size(&self) -> (size: i32)
        ensures
            size == self@.size(),
            MIN_SHOT_SIZE <= size <= 100,
    {
        let total: u128 = self.distance_to_travel as u128;
        let remaining: u128 = self.trajectory.len() as u128;
        if total == 0 || remaining >= total {
            return MIN_SHOT_SIZE;
        }
        let progress: u128 = total - remaining;
        let rising: u128 = (200 * progress) / total;
        assert(rising <= 200) by (nonlinear_arith)
            requires
                rising == (200 * progress) / (total as int),
                0 < progress <= total,
        ;
        assert(2 * progress <= total ==> rising <= 100) by (nonlinear_arith)
            requires
                rising == (200 * progress) / (total as int),
                0 < progress <= total,
        ;
        assert(2 * progress > total ==> rising >= 100) by (nonlinear_arith)
            requires
                rising == (200 * progress) / (total as int),
                0 < progress <= total,
        ;
        let raw: i32 = if 2 * progress <= total {
            rising as i32
        } else {
            200 - rising as i32
        };
        if raw < MIN_SHOT_SIZE {
            MIN_SHOT_SIZE
        } else {
            raw
        }
    }
}

/// A path has as many points as it was asked for, and begins where the shot
/// was fired.
pub proof fn lemma_path_length(
    width: int,
    height: int,
    from: ControllerPoint,
    dx: int,
    dy: int,
    points: nat,
)
    ensures
        path_from(width, height, from, dx, dy, points).len() == points,
        points > 0 ==> path_from(width, height, from, dx, dy, points)[0] == from,
    decreases points,
{
    if points > 0 {
        let next_dx = bounced(from.x as int, dx, width);
        let next_dy = bounced(from.y as int, dy, height);
        let next = ControllerPoint { x: (from.x + next_dx) as i64, y: (from.y + next_dy) as i64 };
        lemma_path_length(width, height, next, next_dx, next_dy, (points - 1) as nat);
    }
}

/// Two shots fired from the same muzzle at the same heading and with the
/// same power fly the same path, point for point, whoever fired them; and
/// the number of points on a path is that of the power alone, wherever and
/// at whatever heading the shot is fired.
pub proof fn lemma_launch_is_determined(
    first_player: i32,
    second_player: i32,
    from: ControllerPoint,
    other_from: ControllerPoint,
    angle: int,
    other_angle: int,
    power: int,
    config: Config,
)
    requires
        config.wf(),
    ensures
        CannonShotView::launched(first_player, from, angle, power, config).trajectory
            == CannonShotView::launched(second_player, from, angle, power, config).trajectory,
        CannonShotView::launched(first_player, from, angle, power, config).trajectory.len()
            == path_length(config, power),
        CannonShotView::launched(second_player, other_from, other_angle, power, config)
            .trajectory.len() == path_length(config, power),
        0 <= path_length(config, power),
{
    let range = config.max_range as int;
    let effective = effective_power(power);
    assert(0 <= range * effective) by (nonlinear_arith)
        requires
            0 <= range,
            0 <= effective,
    ;
    let points = path_length(config, power);
    assert(points >= 0);
    lemma_path_length(
        config.arena_width * UNITS_PER_PIXEL,
        config.arena_height * UNITS_PER_PIXEL,
        from,
        step_x(angle),
        step_y(angle),
        points as nat,
    );
    lemma_path_length(
        config.arena_width * UNITS_PER_PIXEL,
        config.arena_height * UNITS_PER_PIXEL,
        other_from,
        step_x(other_angle),
        step_y(other_angle),
        points as nat,
    );
}

/// A shot that no wall turns round flies straight: where every step of the
/// path keeps the shot between the walls, the point with index `index` lies
/// that many steps from the muzzle.
pub proof fn lemma_free_flight(
    width: int,
    height: int,
    from: ControllerPoint,
    dx: int,
    dy: int,
    points: nat,
    index: int,
)
    requires
        0 <= index < points,
        0 <= from.x <= width <= i64::MAX,
        0 <= from.y <= height <= i64::MAX,
        0 <= from.x + points * dx <= width,
        0 <= from.y + points * dy <= height,
    ensures
        path_from(width, height, from, dx, dy, points)[index] == (ControllerPoint {
            x: (from.x + index * dx) as i64,
            y: (from.y + index * dy) as i64,
        }),
        0 <= from.x + index * dx <= width,
        0 <= from.y + index * dy <= height,
    decreases points,
{
    lemma_between_ends(from.x as int, dx, points as int, index, width);
    lemma_between_ends(from.y as int, dy, points as int, index, height);
    lemma_path_length(width, height, from, dx, dy, points);
    if index == 0 {
        assert(index * dx == 0 && index * dy == 0) by (nonlinear_arith)
            requires
                index == 0,
        ;
    } else {
        lemma_between_ends(from.x as int, dx, points as int, 1, width);
        lemma_between_ends(from.y as int, dy, points as int, 1, height);
        assert(1 * dx == dx && 1 * dy == dy) by (nonlinear_arith);
        let next = ControllerPoint { x: (from.x + dx) as i64, y: (from.y + dy) as i64 };
        assert(bounced(from.x as int, dx, width) == dx);
        assert(bounced(from.y as int, dy, height) == dy);
        assert(next.x + (points - 1) * dx == from.x + points * dx) by (nonlinear_arith)
            requires
                next.x == from.x + dx,
        ;
        assert(next.y + (points - 1) * dy == from.y + points * dy) by (nonlinear_arith)
            requires
                next.y == from.y + dy,
        ;
        lemma_free_flight(width, height, next, dx, dy, (points - 1) as nat, index - 1);
        let rest = path_from(width, height, next, dx, dy, (points - 1) as nat);
        lemma_path_length(width, height, next, dx, dy, (points - 1) as nat);
        assert(path_from(width, height, from, dx, dy, points) == seq![from] + rest);
        assert((seq![from] + rest)[index] == rest[index - 1]);
        assert(next.x + (index - 1) * dx == from.x + index * dx) by (nonlinear_arith)
            requires
                next.x == from.x + dx,
        ;
        assert(next.y + (index - 1) * dy == from.y + index * dy) by (nonlinear_arith)
            requires
                next.y == from.y + dy,
        ;
    }
}

/// A thing that is between the walls at the start and after `count` equal
/// steps is between them after any smaller number of steps.
pub proof fn lemma_between_ends(from: int, step: int, count: int, index: int, limit: int)
    by (nonlinear_arith)
    requires
        0 <= index <= count,
        0 <= from <= limit,
        0 <= from + count * step <= limit,
    ensures
        0 <= from + index * step <= limit,
{
    if step >= 0 {
        assert(0 <= index * step <= count * step);
    } else {
        assert(count * step <= index * step <= 0);
    }
}

} // verus!
