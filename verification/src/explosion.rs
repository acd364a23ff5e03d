//! The blast a spent shot leaves behind.

use vstd::prelude::*;
use crate::config::{Config, PLAYER_SPAN, UNITS_PER_PIXEL};
use crate::geometry::ControllerPoint;

verus! {

/// A blast. It starts small, grows by a fixed amount per tick until it has
/// reached the cap, then shrinks by a fixed amount per tick until nothing is
/// left of it.
#[derive(Clone, Copy, Debug, PartialEq, Eq, Structural)]
pub struct Explosion {
    /// The centre of the blast.
    pub position: ControllerPoint,
    /// The player whose shot went off.
    pub from_player_id: i32,
    /// The diameter of the blast, in pixels.
    pub size: i32,
    /// Whether the blast has reached the cap and is shrinking.
    pub reached_max_size: bool,
}

/// How far `c` lies outside the interval from `lo` to `hi`; 0 inside it.
pub open spec fn axis_gap(c: int, lo: int, hi: int) -> int {
    if c < lo {
        lo - c
    } else if c > hi {
        c - hi
    } else {
        0
    }
}

/// Whether the point `(x, y)` lies in the bounding box of a player whose
/// top-left corner is at `corner`.
pub open spec fn in_player_box(corner: ControllerPoint, x: int, y: int) -> bool {
    &&& corner.x <= x <= corner.x + PLAYER_SPAN
    &&& corner.y <= y <= corner.y + PLAYER_SPAN
}

impl Config {
    /// The number of ticks for which a new blast grows.
    pub open spec fn growth_ticks(self) -> int {
        (self.explosion_cap - 1 + self.explosion_grow_rate - 1) / self.explosion_grow_rate as int
    }

    /// The size at which a blast stops growing: the first of the sizes
    /// 1, 1 + rate, 1 + 2 rate, ... that is no smaller than the cap.
    pub open spec fn peak_size(self) -> int {
        1 + self.growth_ticks() * self.explosion_grow_rate
    }

    /// The number of ticks for which a blast shrinks.
    pub open spec fn decay_ticks(self) -> int {
        (self.peak_size() + self.explosion_shrink_rate - 1) / self.explosion_shrink_rate as int
    }

    /// The number of ticks after which nothing is left of a new blast.
    pub open spec fn explosion_lifetime(self) -> int {
        self.growth_ticks() + self.decay_ticks()
    }
}

impl Explosion {
    /// The blast a shot of that player leaves at that point.
    pub open spec fn fresh(from_player_id: i32, position: ControllerPoint) -> Explosion {
        Explosion { position, from_player_id, size: 1, reached_max_size: false }
    }

    /// A blast as the game holds it: its size is never negative and never
    /// a full step beyond the cap.
    pub open spec fn wf(self, config: Config) -> bool {
        0 <= self.size < config.explosion_cap + config.explosion_grow_rate
    }

    /// The blast one tick later.
    pub open spec fn advanced(self, config: Config) -> Explosion {
        if self.reached_max_size || self.size >= config.explosion_cap {
            Explosion {
                size: if self.size > config.explosion_shrink_rate {
                    (self.size - config.explosion_shrink_rate) as i32
                } else {
                    0
                },
                reached_max_size: true,
                ..self
            }
        } else {
            Explosion { size: (self.size + config.explosion_grow_rate) as i32, ..self }
        }
    }

    /// The blast `ticks` ticks later.
    pub open spec fn after(self, config: Config, ticks: nat) -> Explosion
        decreases ticks,
    {
        if ticks == 0 {
            self
        } else {
            self.after(config, (ticks - 1) as nat).advanced(config)
        }
    }

    /// Whether nothing is left of the blast.
    pub open spec fn is_spent(self) -> bool {
        self.size <= 0
    }

    /// The reach of the blast from its centre, in position units: half its
    /// size in whole pixels.
    pub open spec fn blast_radius(self) -> int {
        if self.size > 0 {
            (self.size / 2) * UNITS_PER_PIXEL
        } else {
            0
        }
    }

    /// Whether the point `(x, y)` is within the reach of the blast.
    pub open spec fn reaches(self, x: int, y: int) -> bool {
        (x - self.position.x) * (x - self.position.x) + (y - self.position.y) * (y
            - self.position.y) <= self.blast_radius() * self.blast_radius()
    }

    /// Whether the blast hits a player whose top-left corner is at
    /// `player_pos`: whether the point of the player's box that is closest
    /// to the centre of the blast is within its reach.
    pub open spec fn hits(self, player_pos: ControllerPoint) -> bool {
        let gap_x = axis_gap(
            self.position.x as int,
            player_pos.x as int,
            player_pos.x + PLAYER_SPAN,
        );
        let gap_y = axis_gap(
            self.position.y as int,
            player_pos.y as int,
            player_pos.y + PLAYER_SPAN,
        );
        gap_x * gap_x + gap_y * gap_y <= self.blast_radius() * self.blast_radius()
    }

    /// Whether the blast is as the game holds its blasts.
    pub fn is_valid(&self, config: &Config) -> (valid: bool)
        ensures
            valid == self.wf(*config),
    {
        0 <= self.size && (self.size as i64) < config.explosion_cap as i64
            + config.explosion_grow_rate as i64
    }

    /// The blast a shot of that player leaves at that point: of size 1, and
    /// growing.
    pub fn new(from_player_id: i32, position: ControllerPoint) -> (explosion: Explosion)
        ensures
            explosion == Explosion::fresh(from_player_id, position),
    {
        Explosion { from_player_id, position, size: 1, reached_max_size: false }
    }

    /// Advances the blast by one tick. A blast that has not reached the cap
    /// grows by the growth rate; one that has shrinks by the shrink rate,
    /// down to 0 and no further.
    pub fn tick(&mut self, config: &Config)
        requires
            config.wf(),
        ensures
            *final(self) == old(self).advanced(*config),
            old(self).wf(*config) ==> final(self).wf(*config),
            !old(self).reached_max_size && old(self).size < config.explosion_cap
                ==> final(self).size == old(self).size + config.explosion_grow_rate,
            (old(self).reached_max_size || old(self).size >= config.explosion_cap)
                && old(self).size > 0 ==> final(self).size < old(self).size,
    {
        if !self.reached_max_size && self.size >= config.explosion_cap {
            self.reached_max_size = true;
        }
        if self.reached_max_size {
            if self.size > config.explosion_shrink_rate {
                self.size = self.size - config.explosion_shrink_rate;
            } else {
                self.size = 0;
            }
            return;
        }
        self.size = self.size + config.explosion_grow_rate;
    }

    /// Whether the blast hits the player whose top-left corner is at
    /// `player_pos`.
    pub fn check_for_hit(&self, player_pos: ControllerPoint) -> (hit: bool)
        ensures
            hit == self.hits(player_pos),
    {
        let half: i32 = if self.size > 0 {
            self.size / 2
        } else {
            0
        };
        let unit: i128 = UNITS_PER_PIXEL as i128;
        assert(unit == 1000);
        let radius: i128 = half as i128 * unit;
        let side: i128 = PLAYER_SPAN as i128;
        let gap_x = gap_to_interval(
            self.position.x as i128,
            player_pos.x as i128,
            player_pos.x as i128 + side,
        );
        let gap_y = gap_to_interval(
            self.position.y as i128,
            player_pos.y as i128,
            player_pos.y as i128 + side,
        );
        if gap_x > radius || gap_y > radius {
            proof {
                lemma_square_grows(radius as int, gap_x as int);
                lemma_square_grows(radius as int, gap_y as int);
                lemma_square_grows(0, gap_x as int);
                lemma_square_grows(0, gap_y as int);
            }
            return false;
        }
        proof {
            lemma_square_grows(gap_x as int, radius as int);
            lemma_square_grows(gap_y as int, radius as int);
            lemma_square_grows(0, gap_x as int);
            lemma_square_grows(0, gap_y as int);
            lemma_square_grows(radius as int, 0x200_0000_0000);
        }
        gap_x * gap_x + gap_y * gap_y <= radius * radius
    }
}

/// Computes `axis_gap` for an interval that is not empty.
fn gap_to_interval(c: i128, lo: i128, hi: i128) -> (gap: i128)
    requires
        lo <= hi,
        i64::MIN <= c <= i64::MAX,
        i64::MIN <= lo <= i64::MAX,
        hi <= i64::MAX + i64::MAX,
    ensures
        gap == axis_gap(c as int, lo as int, hi as int),
        0 <= gap,
{
    if c < lo {
        lo - c
    } else if c > hi {
        c - hi
    } else {
        0
    }
}

/// Of two numbers that are not negative, the larger has the larger square.
pub proof fn lemma_square_grows(a: int, b: int)
    by (nonlinear_arith)
    requires
        0 <= a,
    ensures
        a <= b ==> a * a <= b * b,
        a < b ==> a * a < b * b,
{
}

/// A blast hits a player exactly when some point of the player's bounding
/// box is within the reach of the blast.
pub proof fn lemma_hit_means_box_in_reach(explosion: Explosion, player_pos: ControllerPoint)
    ensures
        explosion.hits(player_pos) <==> exists|x: int, y: int|
            in_player_box(player_pos, x, y) && #[trigger] explosion.reaches(x, y),
{
    let cx = explosion.position.x as int;
    let cy = explosion.position.y as int;
    let lo_x = player_pos.x as int;
    let hi_x = player_pos.x + PLAYER_SPAN;
    let lo_y = player_pos.y as int;
    let hi_y = player_pos.y + PLAYER_SPAN;
    let gap_x = axis_gap(cx, lo_x, hi_x);
    let gap_y = axis_gap(cy, lo_y, hi_y);
    let r = explosion.blast_radius();
    if explosion.hits(player_pos) {
        // The closest point of the box is the centre, held to the box.
        let near_x = if cx < lo_x {
            lo_x
        } else if cx > hi_x {
            hi_x
        } else {
            cx
        };
        let near_y = if cy < lo_y {
            lo_y
        } else if cy > hi_y {
            hi_y
        } else {
            cy
        };
        assert((near_x - cx) * (near_x - cx) == gap_x * gap_x) by (nonlinear_arith)
            requires
                near_x - cx == gap_x || near_x - cx == -gap_x,
        ;
        assert((near_y - cy) * (near_y - cy) == gap_y * gap_y) by (nonlinear_arith)
            requires
                near_y - cy == gap_y || near_y - cy == -gap_y,
        ;
        assert(in_player_box(player_pos, near_x, near_y));
        assert(explosion.reaches(near_x, near_y));
    }
    assert forall|x: int, y: int|
        in_player_box(player_pos, x, y) && #[trigger] explosion.reaches(x, y) implies explosion.hits(
        player_pos,
    ) by {
        // No point of the box is closer to the centre than the gaps.
        lemma_gap_is_least(cx, lo_x, hi_x, x);
        lemma_gap_is_least(cy, lo_y, hi_y, y);
    }
}

/// No point of an interval is closer to `c` than the gap between `c` and
/// the interval.
pub proof fn lemma_gap_is_least(c: int, lo: int, hi: int, x: int)
    requires
        lo <= x <= hi,
    ensures
        axis_gap(c, lo, hi) * axis_gap(c, lo, hi) <= (x - c) * (x - c),
{
    let gap = axis_gap(c, lo, hi);
    assert(gap * gap <= (x - c) * (x - c)) by (nonlinear_arith)
        requires
            0 <= gap,
            gap <= x - c || gap <= c - x,
    ;
}

/// A blast whose centre lies in a player's bounding box, or that reaches
/// one of its corners, hits the player.
pub proof fn lemma_corner_in_reach_is_hit(explosion: Explosion, player_pos: ControllerPoint)
    ensures
        in_player_box(player_pos, explosion.position.x as int, explosion.position.y as int)
            ==> explosion.hits(player_pos),
        explosion.reaches(player_pos.x as int, player_pos.y as int) ==> explosion.hits(player_pos),
        explosion.reaches(
            player_pos.x + PLAYER_SPAN,
            player_pos.y + PLAYER_SPAN,
        ) ==> explosion.hits(player_pos),
        explosion.reaches(player_pos.x + PLAYER_SPAN, player_pos.y as int)
            ==> explosion.hits(player_pos),
        explosion.reaches(player_pos.x as int, player_pos.y + PLAYER_SPAN)
            ==> explosion.hits(player_pos),
{
    lemma_hit_means_box_in_reach(explosion, player_pos);
    let r = explosion.blast_radius();
    assert(0 <= r * r) by (nonlinear_arith);
    if in_player_box(player_pos, explosion.position.x as int, explosion.position.y as int) {
        assert(explosion.reaches(explosion.position.x as int, explosion.position.y as int));
    }
}

/// The sizes 1, 1 + rate, ... stay below the cap for as many ticks as a
/// blast grows and no longer, and a blast that shrinks from its peak is gone
/// after as many ticks as it shrinks and no sooner.
pub proof fn lemma_lifetime_bounds(config: Config)
    requires
        config.wf(),
    ensures
        0 <= config.growth_ticks(),
        config.explosion_cap <= config.peak_size() < config.explosion_cap
            + config.explosion_grow_rate,
        forall|n: int|
            0 <= n < config.growth_ticks() ==> 1 + #[trigger] (n * config.explosion_grow_rate)
                < config.explosion_cap,
        1 <= config.decay_ticks(),
        forall|n: int|
            0 <= n < config.decay_ticks() ==> #[trigger] (n * config.explosion_shrink_rate)
                < config.peak_size(),
        forall|n: int|
            config.decay_ticks() <= n ==> #[trigger] (n * config.explosion_shrink_rate)
                >= config.peak_size(),
{
    let cap = config.explosion_cap as int;
    let grow = config.explosion_grow_rate as int;
    let shrink = config.explosion_shrink_rate as int;
    let g = config.growth_ticks();
    let peak = config.peak_size();
    let d = config.decay_ticks();
    assert(0 <= g && g * grow <= cap - 1 + grow - 1 < g * grow + grow) by (nonlinear_arith)
        requires
            g == (cap - 1 + grow - 1) / grow,
            grow >= 1,
            cap >= 1,
    ;
    assert forall|n: int| 0 <= n < g implies 1 + #[trigger] (n * grow) < cap by {
        assert(n * grow <= g * grow - grow) by (nonlinear_arith)
            requires
                0 <= n < g,
                grow >= 1,
        ;
    }
    assert(1 <= d && d * shrink <= peak + shrink - 1 < d * shrink + shrink) by (nonlinear_arith)
        requires
            d == (peak + shrink - 1) / shrink,
            shrink >= 1,
            peak >= 1,
    ;
    assert forall|n: int| 0 <= n < d implies #[trigger] (n * shrink) < peak by {
        assert(n * shrink <= d * shrink - shrink) by (nonlinear_arith)
            requires
                0 <= n < d,
                shrink >= 1,
        ;
    }
    assert forall|n: int| d <= n implies #[trigger] (n * shrink) >= peak by {
        assert(n * shrink >= d * shrink) by (nonlinear_arith)
            requires
                d <= n,
                shrink >= 1,
        ;
    }
}

/// The life of a blast. For `growth_ticks` ticks its size goes up by the
/// growth rate per tick, from 1 to the peak; from then on it goes down by
/// the shrink rate per tick, and it is gone after `explosion_lifetime` ticks
/// and no sooner. The lifetime depends on the two rates and the cap alone.
pub proof fn lemma_explosion_lifecycle(
    config: Config,
    from_player_id: i32,
    position: ControllerPoint,
    ticks: nat,
)
    requires
        config.wf(),
    ensures
        ({
            let blast = Explosion::fresh(from_player_id, position).after(config, ticks);
            let grown = config.growth_ticks();
            let shrunk = (ticks - grown) * config.explosion_shrink_rate;
            &&& blast.wf(config)
            &&& blast.position == position
            &&& blast.from_player_id == from_player_id
            &&& ticks <= grown ==> !blast.reached_max_size && blast.size == 1 + ticks
                * config.explosion_grow_rate
            &&& ticks > grown ==> blast.reached_max_size && blast.size == if shrunk
                < config.peak_size() {
                config.peak_size() - shrunk
            } else {
                0
            }
            &&& blast.is_spent() <==> ticks >= config.explosion_lifetime()
        }),
    decreases ticks,
{
    lemma_lifetime_bounds(config);
    let grow = config.explosion_grow_rate as int;
    let shrink = config.explosion_shrink_rate as int;
    let grown = config.growth_ticks();
    let peak = config.peak_size();
    let blast = Explosion::fresh(from_player_id, position).after(config, ticks);
    if ticks == 0 {
        assert(0 * grow == 0);
        assert(blast.size == 1);
    } else {
        let before = Explosion::fresh(from_player_id, position).after(config, (ticks - 1) as nat);
        lemma_explosion_lifecycle(config, from_player_id, position, (ticks - 1) as nat);
        assert(blast == before.advanced(config));
        assert(ticks * grow == (ticks - 1) * grow + grow) by (nonlinear_arith);
        assert((ticks - grown) * shrink == (ticks - 1 - grown) * shrink + shrink)
            by (nonlinear_arith);
        assert((ticks - 1) * grow >= 0 && ticks * grow >= 0) by (nonlinear_arith)
            requires
                ticks >= 1,
                grow >= 1,
        ;
        if ticks <= grown {
            // Still growing: the size before this tick was below the cap.
            assert(1 + (ticks - 1) * grow < config.explosion_cap);
        } else if ticks == grown + 1 {
            // The first tick at or beyond the cap.
            assert(before.size == peak);
            assert((ticks - grown) * shrink == shrink) by (nonlinear_arith)
                requires
                    ticks - grown == 1,
            ;
        } else {
            assert((ticks - 1 - grown) * shrink >= shrink) by (nonlinear_arith)
                requires
                    ticks - 1 - grown >= 1,
                    shrink >= 1,
            ;
        }
    }
    // Gone exactly from the end of the lifetime on.
    let shrunk = (ticks - grown) * shrink;
    if ticks > grown {
        if ticks - grown < config.decay_ticks() {
            assert(shrunk < peak);
        } else {
            assert(shrunk >= peak);
        }
    } else {
        assert(ticks * grow >= 0) by (nonlinear_arith)
            requires
                ticks >= 0,
                grow >= 1,
        ;
    }
}

} // verus!
