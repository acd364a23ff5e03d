//! Tuning of the arena and the fixed sizes of the things in it.

use vstd::prelude::*;

verus! {

/// Side of a player's square bounding box, in pixels.
pub const PLAYER_SIZE: i32 = 25;

/// Distance from a player's centre to the muzzle of its cannon, in pixels.
pub const CANNON_LENGTH: i32 = 25;

/// Distance a shot covers per tick, in pixels.
pub const SHOT_STEP: i32 = 30;

/// Smallest size a shot in flight is ever reported with.
pub const MIN_SHOT_SIZE: i32 = 20;

/// Largest power a cannon can be loaded with.
pub const MAX_POWER: i32 = 100;

/// Mass of a player; all players weigh the same.
pub const PLAYER_MASS: i32 = 1;

/// Number of position units in one pixel.
pub const UNITS_PER_PIXEL: i64 = 1000;

/// Side of a player's square bounding box, in position units.
pub const PLAYER_SPAN: i64 = 25_000;

/// Largest step of a shot along one axis per tick, in position units.
pub const SHOT_STEP_UNITS: i64 = 30_000;

/// Largest distance from the origin, along either axis, at which a shot can
/// be fired.
pub const COORDINATE_LIMIT: i64 = 1_000_000_000_000_000;

/// Distance from a player's top-left corner to its centre along either
/// axis, in position units.
pub const PLAYER_HALF_SPAN: i64 = 12_500;

/// Largest turn of a cannon per tick, in degrees. The turn speeds up by one
/// degree per tick for as long as an aim action is held, up to this.
pub const MAX_AIM_SPEED: i32 = 16_777_216;

/// Largest value accepted for any dimension, range, rate or tick budget.
pub const MAX_SETTING: i32 = 1_000_000;

/// The options a game is set up with.
#[derive(Clone, Copy, Debug, PartialEq, Eq, Structural)]
pub struct Config {
    /// Width of the arena in pixels.
    pub arena_width: i32,
    /// Height of the arena in pixels.
    pub arena_height: i32,
    /// Largest speed of a player along one axis, in pixels per tick.
    pub max_speed: i32,
    /// Distance a shot fired at full power travels, in pixels.
    pub max_range: i32,
    /// Ticks per second the world is meant to be advanced at.
    pub tick_rate: i32,
    /// Ticks between the start of the countdown and the start of the match.
    pub countdown_ticks: i32,
    /// Ticks a killed player stays dead.
    pub death_cooldown_ticks: i32,
    /// Ticks a respawned player stays frozen at its new position.
    pub respawn_grace_ticks: i32,
    /// Growth of a blast per tick until it has reached the cap.
    pub explosion_grow_rate: i32,
    /// Shrinkage of a blast per tick once it has reached the cap.
    pub explosion_shrink_rate: i32,
    /// Size at which a blast stops growing.
    pub explosion_cap: i32,
}

impl Config {
    /// The settings a game can be run with: every value is in range, and the
    /// arena is wide enough for a player at top speed to bounce off a wall
    /// without reaching the opposite one.
    pub open spec fn wf(&self) -> bool {
        &&& 0 <= self.max_speed
        &&& PLAYER_SIZE + 2 * self.max_speed <= self.arena_width <= MAX_SETTING
        &&& PLAYER_SIZE + 2 * self.max_speed <= self.arena_height <= MAX_SETTING
        &&& 0 <= self.max_range <= MAX_SETTING
        &&& 1 <= self.tick_rate <= MAX_SETTING
        &&& 0 <= self.countdown_ticks <= MAX_SETTING
        &&& 1 <= self.death_cooldown_ticks <= MAX_SETTING
        &&& 1 <= self.respawn_grace_ticks <= MAX_SETTING
        &&& 1 <= self.explosion_grow_rate <= MAX_SETTING
        &&& 1 <= self.explosion_shrink_rate <= MAX_SETTING
        &&& 1 <= self.explosion_cap <= MAX_SETTING
    }

    /// The settings of the standard game.
    pub open spec fn standard_spec() -> Config {
        Config {
            arena_width: 1200,
            arena_height: 800,
            max_speed: 15,
            max_range: 300,
            tick_rate: 60,
            countdown_ticks: 240,
            death_cooldown_ticks: 120,
            respawn_grace_ticks: 120,
            explosion_grow_rate: 10,
            explosion_shrink_rate: 20,
            explosion_cap: 100,
        }
    }

    /// The settings of the standard game: a 1200 by 800 arena.
    pub fn standard() -> (config: Config)
        ensures
            config == Config::standard_spec(),
            config.wf(),
    {
        Config {
            arena_width: 1200,
            arena_height: 800,
            max_speed: 15,
            max_range: 300,
            tick_rate: 60,
            countdown_ticks: 240,
            death_cooldown_ticks: 120,
            respawn_grace_ticks: 120,
            explosion_grow_rate: 10,
            explosion_shrink_rate: 20,
            explosion_cap: 100,
        }
    }

    /// Whether a game can be run with these settings.
    pub fn is_valid(&self) -> (ok: bool)
        ensures
            ok == self.wf(),
    {
        0 <= self.max_speed && self.max_speed <= MAX_SETTING
            && self.arena_width <= MAX_SETTING
            && self.arena_height <= MAX_SETTING
            && PLAYER_SIZE + 2 * self.max_speed <= self.arena_width
            && PLAYER_SIZE + 2 * self.max_speed <= self.arena_height
            && 0 <= self.max_range && self.max_range <= MAX_SETTING
            && 1 <= self.tick_rate && self.tick_rate <= MAX_SETTING
            && 0 <= self.countdown_ticks && self.countdown_ticks <= MAX_SETTING
            && 1 <= self.death_cooldown_ticks && self.death_cooldown_ticks <= MAX_SETTING
            && 1 <= self.respawn_grace_ticks && self.respawn_grace_ticks <= MAX_SETTING
            && 1 <= self.explosion_grow_rate && self.explosion_grow_rate <= MAX_SETTING
            && 1 <= self.explosion_shrink_rate && self.explosion_shrink_rate <= MAX_SETTING
            && 1 <= self.explosion_cap && self.explosion_cap <= MAX_SETTING
    }
}

impl Default for Config {
    fn default() -> (config: Config)
        ensures
            config == Config::standard_spec(),
    {
        Config::standard()
    }
}

} // verus!
