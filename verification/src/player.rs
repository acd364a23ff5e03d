//! A player in the match: where it is, how it moves and aims, and how it
//! loads and fires its cannon.

use vstd::prelude::*;
use crate::cannon_shot::{would_exit, CannonShot, CannonShotView};
use crate::config::{
    Config, CANNON_LENGTH, COORDINATE_LIMIT, MAX_AIM_SPEED, MAX_POWER, MAX_SETTING,
    PLAYER_HALF_SPAN, PLAYER_SIZE, PLAYER_SPAN, UNITS_PER_PIXEL,
};
use crate::geometry::ControllerPoint;
use crate::input::{InputSet, PlayerInput};
use crate::status::PlayerInGameStatus;
use crate::trig::{cos_milli, cosine, normal_angle, normalize_angle, sin_milli, sine};

verus! {

/// A player in the match.
#[derive(Debug)]
pub struct Player {
    /// The id of the player, which is that of its client.
    pub id: i32,
    /// The top-left corner of the player's bounding box.
    pub position: ControllerPoint,
    /// The heading of the cannon in degrees, from 0 up to 360.
    pub cannon_angle: i32,
    /// Whether the cannon is being loaded.
    pub is_loading_cannon: bool,
    /// The power loaded so far.
    pub power_loaded: i32,
    /// A shot that was fired and that the game has yet to take over.
    pub cannon_shot: Option<CannonShot>,
    /// The actions that the player holds down.
    pub input: InputSet,
    /// The speed to the right, in pixels per tick.
    pub delta_x: i32,
    /// The speed downwards, in pixels per tick.
    pub delta_y: i32,
    /// The turn of the cannon, in degrees per tick.
    pub delta_a: i32,
    /// The ticks for which the player stays frozen; 0 for a player that acts.
    pub cooldown: i32,
    /// Whether the player is alive, dead or on its way back.
    pub player_in_game_status: PlayerInGameStatus,
}

/// What a player is, with its pending shot as a value.
pub struct PlayerView {
    pub id: i32,
    pub position: ControllerPoint,
    pub cannon_angle: i32,
    pub is_loading_cannon: bool,
    pub power_loaded: i32,
    pub cannon_shot: Option<CannonShotView>,
    pub input: InputSet,
    pub delta_x: i32,
    pub delta_y: i32,
    pub delta_a: i32,
    pub cooldown: i32,
    pub player_in_game_status: PlayerInGameStatus,
}

impl View for Player {
    type V = PlayerView;

    open spec fn view(&self) -> PlayerView {
        PlayerView {
            id: self.id,
            position: self.position,
            cannon_angle: self.cannon_angle,
            is_loading_cannon: self.is_loading_cannon,
            power_loaded: self.power_loaded,
            cannon_shot: match self.cannon_shot {
                Some(shot) => Some(shot@),
                None => None,
            },
            input: self.input,
            delta_x: self.delta_x,
            delta_y: self.delta_y,
            delta_a: self.delta_a,
            cooldown: self.cooldown,
            player_in_game_status: self.player_in_game_status,
        }
    }
}

/// The size of a number.
pub open spec fn magnitude(v: int) -> int {
    if v < 0 {
        -v
    } else {
        v
    }
}

/// The speed along one axis after a tick of steering. A held action speeds
/// the player up by one in its direction unless the player was at top speed
/// along the axis; an action that is not held lets the player slow down by
/// one if it moves in that direction. The action towards the negative end
/// of the axis is looked at first.
pub open spec fn steered(speed: int, negative: bool, positive: bool, max_speed: int) -> int {
    let at_top = magnitude(speed) >= max_speed;
    let first = if negative && !at_top {
        speed - 1
    } else if speed < 0 {
        speed + 1
    } else {
        speed
    };
    if positive && !at_top {
        first + 1
    } else if first > 0 {
        first - 1
    } else {
        first
    }
}

/// The turn of the cannon after a tick of aiming. A held aim action adds
/// one degree per tick in its direction, up to the largest turn; a turn in
/// a direction whose action is not held stops at once.
pub open spec fn aimed(turn: int, positive: bool, negative: bool) -> int {
    let first = if positive {
        if turn < MAX_AIM_SPEED {
            turn + 1
        } else {
            turn
        }
    } else if turn > 0 {
        0
    } else {
        turn
    };
    if negative {
        if first > -MAX_AIM_SPEED {
            first - 1
        } else {
            first
        }
    } else if first < 0 {
        0
    } else {
        first
    }
}

/// The speed, in pixels per tick, with which a thing at `at` goes on along
/// an axis that ends in walls at 0 and `limit`: the speed it came with,
/// turned round if its next step would carry it out.
pub open spec fn turned_at_wall(at: int, speed: int, limit: int) -> int {
    if would_exit(at, speed * UNITS_PER_PIXEL, limit) {
        -speed
    } else {
        speed
    }
}

/// Whether the boxes of two players with those top-left corners overlap.
/// Boxes that only touch do not.
pub open spec fn boxes_overlap(a: ControllerPoint, b: ControllerPoint) -> bool {
    !(a.x + PLAYER_SPAN <= b.x || a.y + PLAYER_SPAN <= b.y || b.x + PLAYER_SPAN <= a.x || b.y
        + PLAYER_SPAN <= a.y)
}

/// The muzzle of the cannon of a player at `position` whose cannon points
/// at `angle`: the centre of the player's box moved by the length of the
/// cannon along the heading.
pub open spec fn muzzle_of(position: ControllerPoint, angle: int) -> ControllerPoint {
    ControllerPoint {
        x: (position.x + PLAYER_HALF_SPAN + CANNON_LENGTH * cos_milli(normal_angle(angle))) as i64,
        y: (position.y + PLAYER_HALF_SPAN + CANNON_LENGTH * sin_milli(normal_angle(angle))) as i64,
    }
}

impl Config {
    /// The largest x of the top-left corner of a player inside the arena.
    pub open spec fn player_limit_x(self) -> int {
        (self.arena_width - PLAYER_SIZE) * UNITS_PER_PIXEL
    }

    /// The largest y of the top-left corner of a player inside the arena.
    pub open spec fn player_limit_y(self) -> int {
        (self.arena_height - PLAYER_SIZE) * UNITS_PER_PIXEL
    }

    /// Whether a player can be placed with its top-left corner at `point`:
    /// whether its box is then inside the arena.
    pub open spec fn can_hold(self, point: ControllerPoint) -> bool {
        &&& 0 <= point.x <= self.player_limit_x()
        &&& 0 <= point.y <= self.player_limit_y()
    }
}

impl PlayerView {
    /// The player that is placed at `position` when a match begins: at
    /// rest, with an empty cannon, and frozen for one tick before it is
    /// alive.
    pub open spec fn placed(id: i32, position: ControllerPoint) -> PlayerView {
        PlayerView {
            id,
            position,
            cannon_angle: 0,
            is_loading_cannon: false,
            power_loaded: 0,
            cannon_shot: None,
            input: InputSet::none(),
            delta_x: 0,
            delta_y: 0,
            delta_a: 0,
            cooldown: 1,
            player_in_game_status: PlayerInGameStatus::Respawning,
        }
    }

    /// A player as the game holds it: inside the arena, no faster than the
    /// top speed, and with every counter in its range.
    pub open spec fn wf(self, config: Config) -> bool {
        &&& config.can_hold(self.position)
        &&& -config.max_speed <= self.delta_x <= config.max_speed
        &&& -config.max_speed <= self.delta_y <= config.max_speed
        &&& -MAX_AIM_SPEED <= self.delta_a <= MAX_AIM_SPEED
        &&& 0 <= self.cannon_angle < 360
        &&& 0 <= self.power_loaded <= MAX_POWER
        &&& 0 <= self.cooldown <= MAX_SETTING
    }

    /// The player after it was hit by a blast. A player that is dead
    /// already stays as it is; any other is dead for the death cooldown.
    pub open spec fn killed(self, config: Config) -> PlayerView {
        if self.player_in_game_status == PlayerInGameStatus::Dead {
            self
        } else {
            PlayerView {
                player_in_game_status: PlayerInGameStatus::Dead,
                cooldown: config.death_cooldown_ticks,
                ..self
            }
        }
    }

    /// The player holding down the actions of `set`.
    pub open spec fn with_input(self, set: InputSet) -> PlayerView {
        PlayerView { input: set, ..self }
    }

    /// The player after the game has taken over its pending shot.
    pub open spec fn without_shot(self) -> PlayerView {
        PlayerView { cannon_shot: None, ..self }
    }

    /// Whether a tick changes anything about the player that the game
    /// looks at: whether it is frozen, has a shot pending, holds an action
    /// down, or moves.
    pub open spec fn is_active(self) -> bool {
        self.cooldown > 0 || self.cannon_shot.is_some() || !self.input.is_none() || self.delta_x
            != 0 || self.delta_y != 0
    }

    /// The player after a tick in which it is frozen. The cooldown runs
    /// down by one. When it runs out, a dead player is placed at `spawn`
    /// and frozen for the grace period, and a player on its way back is
    /// alive.
    pub open spec fn thawed(self, config: Config, spawn: ControllerPoint) -> PlayerView {
        let left = (self.cooldown - 1) as i32;
        if left == 0 && self.player_in_game_status == PlayerInGameStatus::Dead {
            PlayerView {
                player_in_game_status: PlayerInGameStatus::Respawning,
                position: spawn,
                cooldown: config.respawn_grace_ticks,
                ..self
            }
        } else if left == 0 && self.player_in_game_status == PlayerInGameStatus::Respawning {
            PlayerView { player_in_game_status: PlayerInGameStatus::Alive, cooldown: 0, ..self }
        } else {
            PlayerView { cooldown: left, ..self }
        }
    }

    /// The player after steering along the y axis.
    pub open spec fn steered_vertically(self, config: Config) -> PlayerView {
        PlayerView {
            delta_y: steered(
                self.delta_y as int,
                self.input.up,
                self.input.down,
                config.max_speed as int,
            ) as i32,
            ..self
        }
    }

    /// The player after steering along the x axis.
    pub open spec fn steered_horizontally(self, config: Config) -> PlayerView {
        PlayerView {
            delta_x: steered(
                self.delta_x as int,
                self.input.left,
                self.input.right,
                config.max_speed as int,
            ) as i32,
            ..self
        }
    }

    /// The player after aiming.
    pub open spec fn aim_updated(self) -> PlayerView {
        PlayerView {
            delta_a: aimed(self.delta_a as int, self.input.aim_positive, self.input.aim_negative)
                as i32,
            ..self
        }
    }

    /// Whether the player begins to load its cannon in this tick: whether
    /// it holds the load action down and is not loading yet.
    pub open spec fn starts_loading(self) -> bool {
        self.input.load_cannon && !self.is_loading_cannon
    }

    /// Whether the player fires in this tick: whether it holds the fire
    /// action down while its cannon is being loaded.
    pub open spec fn fires(self) -> bool {
        !self.starts_loading() && self.input.fire && self.is_loading_cannon
    }

    /// The muzzle of the player's cannon.
    pub open spec fn muzzle(self) -> ControllerPoint {
        muzzle_of(self.position, self.cannon_angle as int)
    }

    /// The player after loading and firing. A player that begins to load
    /// does nothing else. A player that fires has a shot pending, from its
    /// muzzle and with the power loaded; its cannon is empty again, and the
    /// fire action is used up.
    pub open spec fn shooting_updated(self, config: Config) -> PlayerView {
        if self.starts_loading() {
            PlayerView { is_loading_cannon: true, ..self }
        } else if self.fires() {
            PlayerView {
                cannon_shot: Some(
                    CannonShotView::launched(
                        self.id,
                        self.muzzle(),
                        self.cannon_angle as int,
                        self.power_loaded as int,
                        config,
                    ),
                ),
                input: InputSet { fire: false, ..self.input },
                is_loading_cannon: false,
                power_loaded: 0,
                ..self
            }
        } else {
            self
        }
    }

    /// The player after its speed was turned round along each axis on
    /// which its next step would carry it out of the arena.
    pub open spec fn wall_checked(self, config: Config) -> PlayerView {
        PlayerView {
            delta_x: turned_at_wall(
                self.position.x as int,
                self.delta_x as int,
                config.player_limit_x(),
            ) as i32,
            delta_y: turned_at_wall(
                self.position.y as int,
                self.delta_y as int,
                config.player_limit_y(),
            ) as i32,
            ..self
        }
    }

    /// The player after it has turned its cannon, loaded one more unit of
    /// power if it is loading, and moved by its speed.
    pub open spec fn moved(self) -> PlayerView {
        PlayerView {
            cannon_angle: normal_angle(self.cannon_angle + self.delta_a) as i32,
            power_loaded: if self.is_loading_cannon && self.power_loaded < MAX_POWER {
                (self.power_loaded + 1) as i32
            } else {
                self.power_loaded
            },
            position: self.position.moved(self.delta_x as int, self.delta_y as int),
            ..self
        }
    }

    /// The player after a tick in which it acts: it steers, aims, loads or
    /// fires, turns round at the walls, and moves.
    pub open spec fn acted(self, config: Config) -> PlayerView {
        self.steered_vertically(config).steered_horizontally(config).aim_updated()
            .shooting_updated(config).wall_checked(config).moved()
    }

    /// The player one tick later. `spawn` is where the player is placed if
    /// it comes back from the dead in this tick.
    pub open spec fn ticked(self, config: Config, spawn: ControllerPoint) -> PlayerView {
        if self.cooldown > 0 {
            self.thawed(config, spawn)
        } else {
            self.acted(config)
        }
    }

    /// The player after `ticks` ticks in which nothing is asked of it.
    pub open spec fn coasted(self, config: Config, spawn: ControllerPoint, ticks: nat)
        -> PlayerView
        decreases ticks,
    {
        if ticks == 0 {
            self
        } else {
            self.coasted(config, spawn, (ticks - 1) as nat).ticked(config, spawn)
        }
    }
}

impl Config {
    /// Whether a player can be placed with its top-left corner at `point`.
    pub fn has_room_at(&self, point: ControllerPoint) -> (room: bool)
        ensures
            room == self.can_hold(point),
    {
        let unit: i64 = UNITS_PER_PIXEL;
        let limit_x: i64 = (self.arena_width as i64 - PLAYER_SIZE as i64) * unit;
        let limit_y: i64 = (self.arena_height as i64 - PLAYER_SIZE as i64) * unit;
        0 <= point.x && point.x <= limit_x && 0 <= point.y && point.y <= limit_y
    }
}

impl Player {
    /// Whether the player is as the game holds its players: inside the
    /// arena, no faster than the top speed, and with every counter in its
    /// range.
    pub fn is_valid(&self, config: &Config) -> (valid: bool)
        ensures
            valid == self@.wf(*config),
    {
        let top: i64 = config.max_speed as i64;
        config.has_room_at(self.position) && -top <= self.delta_x as i64 && self.delta_x as i64
            <= top && -top <= self.delta_y as i64 && self.delta_y as i64 <= top
            && -MAX_AIM_SPEED <= self.delta_a && self.delta_a <= MAX_AIM_SPEED
            && 0 <= self.cannon_angle && self.cannon_angle < 360 && 0 <= self.power_loaded
            && self.power_loaded <= MAX_POWER && 0 <= self.cooldown && self.cooldown
            <= MAX_SETTING
    }

    /// A player placed at `position` for the beginning of a match.
    pub fn spawn(id: i32, position: ControllerPoint) -> (player: Player)
        ensures
            player@ == PlayerView::placed(id, position),
    {
        Player {
            id,
            position,
            cannon_angle: 0,
            input: InputSet::empty(),
            delta_x: 0,
            delta_y: 0,
            delta_a: 0,
            is_loading_cannon: false,
            cannon_shot: None,
            power_loaded: 0,
            cooldown: 1,
            player_in_game_status: PlayerInGameStatus::Respawning,
        }
    }

    /// A player placed at a random point of an arena of that height and
    /// width, chosen so that its box is inside the arena.
    pub fn new(id: i32, max_height: i32, max_width: i32) -> (player: Player)
        requires
            PLAYER_SIZE <= max_height,
            PLAYER_SIZE <= max_width,
        ensures
            player@ == PlayerView::placed(id, player.position),
            player.position.on_grid_within(max_height - PLAYER_SIZE, max_width - PLAYER_SIZE),
    {
        Player::spawn(
            id,
            ControllerPoint::random_point(max_height - PLAYER_SIZE, max_width - PLAYER_SIZE),
        )
    }

    /// Kills the player. A dead player stays as it is, so that a second
    /// hit does not keep it dead for longer.
    pub fn die(&mut self, config: &Config)
        ensures
            final(self)@ == old(self)@.killed(*config),
    {
        if self.player_in_game_status == PlayerInGameStatus::Dead {
            return;
        }
        self.player_in_game_status = PlayerInGameStatus::Dead;
        self.cooldown = config.death_cooldown_ticks;
    }

    /// Advances the player by one tick. If the player comes back from the
    /// dead in this tick, it is placed at a random point of the arena.
    pub fn tick(&mut self, config: &Config)
        requires
            config.wf(),
            old(self)@.wf(*config),
        ensures
            final(self)@.wf(*config),
            exists|spawn: ControllerPoint|
                config.can_hold(spawn) && final(self)@ == #[trigger] old(self)@.ticked(
                    *config,
                    spawn,
                ),
    {
        let spawn = if self.cooldown == 1 && self.player_in_game_status
            == PlayerInGameStatus::Dead {
            ControllerPoint::random_point(
                config.arena_height - PLAYER_SIZE,
                config.arena_width - PLAYER_SIZE,
            )
        } else {
            self.position
        };
        self.tick_at(config, spawn);
    }

    /// Advances the player by one tick, placing it at `spawn` if it comes
    /// back from the dead in this tick.
    pub fn tick_at(&mut self, config: &Config, spawn: ControllerPoint)
        requires
            config.wf(),
            old(self)@.wf(*config),
            config.can_hold(spawn),
        ensures
            final(self)@ == old(self)@.ticked(*config, spawn),
            final(self)@.wf(*config),
    {
        if self.cooldown > 0 {
            self.cooldown -= 1;
            if self.cooldown == 0 {
                if self.player_in_game_status == PlayerInGameStatus::Dead {
                    self.player_in_game_status = PlayerInGameStatus::Respawning;
                    self.position = spawn;
                    self.cooldown = config.respawn_grace_ticks;
                    return;
                }
                if self.player_in_game_status == PlayerInGameStatus::Respawning {
                    self.player_in_game_status = PlayerInGameStatus::Alive;
                    return;
                }
            }
            return;
        }
        self.check_vertical(config);
        self.check_horizontal(config);
        self.check_angle();
        self.check_shooting(config);
        if self.is_moving() {
            self.check_wall_collision(config);
        }
        self.translate(config);
    }

    /// Whether the boxes of the two players overlap.
    pub fn check_player_collision(&self, other: &Player) -> (overlap: bool)
        ensures
            overlap == boxes_overlap(self.position, other.position),
    {
        let span: i128 = PLAYER_SPAN as i128;
        !(self.position.x as i128 + span <= other.position.x as i128 || self.position.y as i128
            + span <= other.position.y as i128 || other.position.x as i128 + span
            <= self.position.x as i128 || other.position.y as i128 + span
            <= self.position.y as i128)
    }

    /// Whether the player needs its tick: whether it is frozen, has a shot
    /// pending, holds an action down, or moves.
    pub fn should_tick(&self) -> (active: bool)
        ensures
            active == self@.is_active(),
    {
        self.cooldown > 0 || self.cannon_shot.is_some() || !self.input.is_empty() || self.delta_x
            != 0 || self.delta_y != 0
    }

    /// Takes the actions that the player holds down from a bitmask. A value
    /// that is no bitmask of actions is ignored.
    pub fn input(&mut self, input: i32)
        ensures
            final(self)@ == match InputSet::decode(input as int) {
                Some(set) => old(self)@.with_input(set),
                None => old(self)@,
            },
    {
        match InputSet::from_bits(input) {
            Some(set) => {
                self.input = set;
            },
            None => {},
        }
    }

    /// Turns the speed along the y axis round.
    pub fn reverse_delta_y(&mut self)
        requires
            old(self).delta_y > i32::MIN,
        ensures
            final(self)@ == (PlayerView { delta_y: (-old(self).delta_y) as i32, ..old(self)@ }),
    {
        self.delta_y = -self.delta_y;
    }

    /// Turns the speed along the x axis round.
    pub fn reverse_delta_x(&mut self)
        requires
            old(self).delta_x > i32::MIN,
        ensures
            final(self)@ == (PlayerView { delta_x: (-old(self).delta_x) as i32, ..old(self)@ }),
    {
        self.delta_x = -self.delta_x;
    }

    /// Turns the cannon, loads one more unit of power if the cannon is
    /// being loaded, and moves the player by its speed.
    pub fn translate(&mut self, config: &Config)
        requires
            config.wf(),
            old(self)@.wf(*config),
            config.can_hold(old(self).position.moved(old(self).delta_x as int, old(self).delta_y as int)),
        ensures
            final(self)@ == old(self)@.moved(),
            final(self)@.wf(*config),
    {
        let mut new_angle = (self.cannon_angle + self.delta_a) % 360;
        if new_angle < 0 {
            new_angle += 360;
        }
        if self.is_loading_cannon && self.power_loaded < MAX_POWER {
            self.power_loaded += 1;
        }
        self.cannon_angle = new_angle;
        let dx = self.delta_x;
        let dy = self.delta_y;
        self.position.translate(dx, dy);
    }

    /// Whether the player moves.
    pub fn is_moving(&self) -> (moving: bool)
        ensures
            moving == (self.delta_x != 0 || self.delta_y != 0),
    {
        self.delta_x != 0 || self.delta_y != 0
    }

    /// Whether a speed along one axis is the top speed.
    pub fn is_at_top_speed(delta: i32, config: &Config) -> (at_top: bool)
        ensures
            at_top == (magnitude(delta as int) >= config.max_speed),
    {
        if config.max_speed <= 0 {
            true
        } else {
            delta >= config.max_speed || delta <= -config.max_speed
        }
    }

    /// Steers along the y axis.
    pub fn check_vertical(&mut self, config: &Config)
        requires
            config.wf(),
            old(self)@.wf(*config),
        ensures
            final(self)@ == old(self)@.steered_vertically(*config),
            final(self)@.wf(*config),
    {
        let is_at_top_speed = Player::is_at_top_speed(self.delta_y, config);
        if self.input.contains(PlayerInput::Up) && !is_at_top_speed {
            self.delta_y -= 1;
        } else if self.delta_y < 0 {
            self.delta_y += 1;
        }
        if self.input.contains(PlayerInput::Down) && !is_at_top_speed {
            self.delta_y += 1;
        } else if self.delta_y > 0 {
            self.delta_y -= 1;
        }
    }

    /// Steers along the x axis.
    pub fn check_horizontal(&mut self, config: &Config)
        requires
            config.wf(),
            old(self)@.wf(*config),
        ensures
            final(self)@ == old(self)@.steered_horizontally(*config),
            final(self)@.wf(*config),
    {
        let is_at_top_speed = Player::is_at_top_speed(self.delta_x, config);
        if self.input.contains(PlayerInput::Left) && !is_at_top_speed {
            self.delta_x -= 1;
        } else if self.delta_x < 0 {
            self.delta_x += 1;
        }
        if self.input.contains(PlayerInput::Right) && !is_at_top_speed {
            self.delta_x += 1;
        } else if self.delta_x > 0 {
            self.delta_x -= 1;
        }
    }

    /// Speeds the turn of the cannon up, or stops it.
    pub fn check_angle(&mut self)
        requires
            -MAX_AIM_SPEED <= old(self).delta_a <= MAX_AIM_SPEED,
        ensures
            final(self)@ == old(self)@.aim_updated(),
            -MAX_AIM_SPEED <= final(self).delta_a <= MAX_AIM_SPEED,
    {
        if self.input.contains(PlayerInput::AimPositive) {
            if self.delta_a < MAX_AIM_SPEED {
                self.delta_a += 1;
            }
        } else if self.delta_a > 0 {
            self.delta_a = 0;
        }
        if self.input.contains(PlayerInput::AimNegative) {
            if self.delta_a > -MAX_AIM_SPEED {
                self.delta_a -= 1;
            }
        } else if self.delta_a < 0 {
            self.delta_a = 0;
        }
    }

    /// Begins to load the cannon, or fires it. The load action begins to
    /// load a cannon that is not being loaded, and nothing else happens in
    /// that tick. The fire action fires a cannon that is being loaded, once:
    /// the shot is left pending, the cannon is empty again, and the action
    /// has to be given anew, after loading, to fire again.
    pub fn check_shooting(&mut self, config: &Config)
        requires
            config.wf(),
            old(self)@.wf(*config),
        ensures
            final(self)@ == old(self)@.shooting_updated(*config),
            final(self)@.wf(*config),
    {
        if self.input.contains(PlayerInput::LoadCannon) && !self.is_loading_cannon {
            self.is_loading_cannon = true;
            return;
        }
        if self.input.contains(PlayerInput::Fire) && self.is_loading_cannon {
            let muzzle = self.get_cannon_position();
            self.cannon_shot = Some(
                CannonShot::new(self.id, muzzle, self.cannon_angle, self.power_loaded, config),
            );
            self.input.fire = false;
            self.is_loading_cannon = false;
            self.power_loaded = 0;
        }
    }

    /// Turns the speed round along each axis on which the next step would
    /// carry the player out of the arena.
    pub fn check_wall_collision(&mut self, config: &Config)
        requires
            config.wf(),
            old(self)@.wf(*config),
        ensures
            final(self)@ == old(self)@.wall_checked(*config),
            final(self)@.wf(*config),
    {
        let unit: i64 = UNITS_PER_PIXEL;
        let horizontal_check: i64 = self.position.x + self.delta_x as i64 * unit;
        let vertical_check: i64 = self.position.y + self.delta_y as i64 * unit;
        let limit_x: i64 = (config.arena_width - PLAYER_SIZE) as i64 * unit;
        let limit_y: i64 = (config.arena_height - PLAYER_SIZE) as i64 * unit;
        if vertical_check < 0 || vertical_check > limit_y {
            self.reverse_delta_y()
        }
        if horizontal_check < 0 || horizontal_check > limit_x {
            self.reverse_delta_x()
        }
    }

    /// The muzzle of the player's cannon.
    pub fn get_cannon_position(&self) -> (muzzle: ControllerPoint)
        requires
            -COORDINATE_LIMIT / 2 <= self.position.x <= COORDINATE_LIMIT / 2,
            -COORDINATE_LIMIT / 2 <= self.position.y <= COORDINATE_LIMIT / 2,
        ensures
            muzzle == self@.muzzle(),
            -COORDINATE_LIMIT <= muzzle.x <= COORDINATE_LIMIT,
            -COORDINATE_LIMIT <= muzzle.y <= COORDINATE_LIMIT,
    {
        let heading = normalize_angle(self.cannon_angle);
        let length: i64 = CANNON_LENGTH as i64;
        let dx: i64 = length * cosine(heading) as i64;
        let dy: i64 = length * sine(heading) as i64;
        ControllerPoint {
            x: self.position.x + PLAYER_HALF_SPAN + dx,
            y: self.position.y + PLAYER_HALF_SPAN + dy,
        }
    }
}

/// A tick keeps a player as the game holds it.
pub proof fn lemma_tick_keeps_wf(player: PlayerView, config: Config, spawn: ControllerPoint)
    requires
        config.wf(),
        player.wf(config),
        config.can_hold(spawn),
    ensures
        player.ticked(config, spawn).wf(config),
        player.ticked(config, spawn).id == player.id,
{
    if player.cooldown == 0 {
        let steered = player.steered_vertically(config).steered_horizontally(config);
        let shot = steered.aim_updated().shooting_updated(config);
        let checked = shot.wall_checked(config);
        assert(steered.wf(config));
        assert(shot.wf(config));
        assert(checked.wf(config));
        assert(config.can_hold(checked.position.moved(checked.delta_x as int, checked.delta_y as int)));
    }
}

/// A tick fires a shot exactly when the player acts, its cannon is being
/// loaded and it holds the fire action down. The shot leaves from the
/// muzzle, at the heading of the cannon and with the power loaded. In
/// every other tick the pending shot, if there is one, stays as it is; so
/// the fire action does nothing to a cannon that is not being loaded.
pub proof fn lemma_shot_needs_loaded_cannon(
    player: PlayerView,
    config: Config,
    spawn: ControllerPoint,
)
    requires
        config.wf(),
        player.wf(config),
    ensures
        player.ticked(config, spawn).cannon_shot == if player.cooldown == 0
            && player.is_loading_cannon && player.input.fire {
            Some(
                CannonShotView::launched(
                    player.id,
                    player.muzzle(),
                    player.cannon_angle as int,
                    player.power_loaded as int,
                    config,
                ),
            )
        } else {
            player.cannon_shot
        },
        !player.is_loading_cannon ==> player.ticked(config, spawn).cannon_shot
            == player.cannon_shot,
{
}

/// Firing is triggered by the edge, not by the level. A player that acts
/// and is not loading is given the load action for one tick, then the fire
/// action for the next, then the fire action once more. The first tick
/// fires nothing and leaves the cannon loading; the second fires exactly
/// one shot and leaves the cannon empty; the third, without a load action
/// in between, fires nothing.
pub proof fn lemma_fire_is_edge_triggered(
    player: PlayerView,
    config: Config,
    spawn: ControllerPoint,
    load: InputSet,
    fire: InputSet,
    again: InputSet,
)
    requires
        config.wf(),
        player.wf(config),
        config.can_hold(spawn),
        player.cooldown == 0,
        !player.is_loading_cannon,
        player.cannon_shot.is_none(),
        load.load_cannon,
        fire.fire,
        again.fire,
    ensures
        ({
            let first = player.with_input(load).ticked(config, spawn);
            let second = first.with_input(fire).ticked(config, spawn);
            let third = second.without_shot().with_input(again).ticked(config, spawn);
            &&& first.cannon_shot.is_none()
            &&& first.is_loading_cannon
            &&& second.cannon_shot.is_some()
            &&& !second.is_loading_cannon
            &&& second.power_loaded == 0
            &&& !second.input.fire
            &&& third.cannon_shot.is_none()
        }),
{
    let first = player.with_input(load).ticked(config, spawn);
    lemma_tick_keeps_wf(player.with_input(load), config, spawn);
    lemma_shot_needs_loaded_cannon(player.with_input(load), config, spawn);
    let second = first.with_input(fire).ticked(config, spawn);
    lemma_tick_keeps_wf(first.with_input(fire), config, spawn);
    lemma_shot_needs_loaded_cannon(first.with_input(fire), config, spawn);
    lemma_shot_needs_loaded_cannon(second.without_shot().with_input(again), config, spawn);
}

/// A player that acts and of which nothing is asked comes to rest. With
/// every tick its speed along each axis is one less in size, until it is
/// exactly 0, where it stays: braking never takes the speed past 0. After
/// as many ticks as the top speed the player is at rest.
pub proof fn lemma_convergence_to_rest(
    player: PlayerView,
    config: Config,
    spawn: ControllerPoint,
    ticks: nat,
)
    requires
        config.wf(),
        player.wf(config),
        config.can_hold(spawn),
        player.cooldown == 0,
        player.input.is_none(),
    ensures
        ({
            let after = player.coasted(config, spawn, ticks);
            &&& after.wf(config)
            &&& after.cooldown == 0
            &&& after.input.is_none()
            &&& magnitude(after.delta_x as int) == if magnitude(player.delta_x as int) > ticks {
                magnitude(player.delta_x as int) - ticks
            } else {
                0
            }
            &&& magnitude(after.delta_y as int) == if magnitude(player.delta_y as int) > ticks {
                magnitude(player.delta_y as int) - ticks
            } else {
                0
            }
            &&& ticks >= config.max_speed ==> after.delta_x == 0 && after.delta_y == 0
        }),
    decreases ticks,
{
    if ticks > 0 {
        let before = player.coasted(config, spawn, (ticks - 1) as nat);
        lemma_convergence_to_rest(player, config, spawn, (ticks - 1) as nat);
        lemma_tick_keeps_wf(before, config, spawn);
        let steered = before.steered_vertically(config).steered_horizontally(config);
        assert(magnitude(steered.delta_x as int) == if before.delta_x == 0 {
            0
        } else {
            magnitude(before.delta_x as int) - 1
        });
        assert(magnitude(steered.delta_y as int) == if before.delta_y == 0 {
            0
        } else {
            magnitude(before.delta_y as int) - 1
        });
        let checked = steered.aim_updated().shooting_updated(config).wall_checked(config);
        assert(magnitude(checked.delta_x as int) == magnitude(steered.delta_x as int));
        assert(magnitude(checked.delta_y as int) == magnitude(steered.delta_y as int));
    }
}

impl PlayerView {
    /// The number of ticks for which the player stays frozen: its cooldown,
    /// and for a dead player the grace period on top of it.
    pub open spec fn frozen_ticks(self, config: Config) -> int {
        if self.cooldown > 0 && self.player_in_game_status == PlayerInGameStatus::Dead {
            self.cooldown + config.respawn_grace_ticks
        } else {
            self.cooldown as int
        }
    }
}

/// Coasting for one tick more is ticking once and coasting from there.
pub proof fn lemma_coast_from_next(
    player: PlayerView,
    config: Config,
    spawn: ControllerPoint,
    ticks: nat,
)
    ensures
        player.coasted(config, spawn, ticks + 1) == player.ticked(config, spawn).coasted(
            config,
            spawn,
            ticks,
        ),
    decreases ticks,
{
    if ticks > 0 {
        lemma_coast_from_next(player, config, spawn, (ticks - 1) as nat);
    } else {
        assert(player.coasted(config, spawn, 1) == player.coasted(config, spawn, 0).ticked(
            config,
            spawn,
        ));
    }
}

/// Any player of which nothing is asked comes to rest within a bounded
/// number of ticks: once it is no longer frozen, and as many ticks later as
/// the top speed, its speed is exactly 0.
pub proof fn lemma_rest_in_bounded_time(
    player: PlayerView,
    config: Config,
    spawn: ControllerPoint,
    ticks: nat,
)
    requires
        config.wf(),
        player.wf(config),
        config.can_hold(spawn),
        player.input.is_none(),
        ticks >= player.frozen_ticks(config) + config.max_speed,
    ensures
        player.coasted(config, spawn, ticks).delta_x == 0,
        player.coasted(config, spawn, ticks).delta_y == 0,
    decreases ticks,
{
    if player.cooldown == 0 {
        lemma_convergence_to_rest(player, config, spawn, ticks);
    } else {
        let next = player.ticked(config, spawn);
        lemma_tick_keeps_wf(player, config, spawn);
        assert(next.frozen_ticks(config) == player.frozen_ticks(config) - 1);
        lemma_coast_from_next(player, config, spawn, (ticks - 1) as nat);
        lemma_rest_in_bounded_time(next, config, spawn, (ticks - 1) as nat);
    }
}

/// What passing over the tick of a player that is not active leaves out.
/// Such a player is at rest, acts, and holds no action down: its tick would
/// not move it, turn its cannon, fire, or change its condition. It would
/// only stop a turn that is left over and, if the cannon is being loaded,
/// load one more unit of power.
pub proof fn lemma_tick_of_idle_player(player: PlayerView, config: Config, spawn: ControllerPoint)
    requires
        config.wf(),
        player.wf(config),
        !player.is_active(),
    ensures
        player.ticked(config, spawn) == (PlayerView {
            delta_a: 0,
            power_loaded: if player.is_loading_cannon && player.power_loaded < MAX_POWER {
                (player.power_loaded + 1) as i32
            } else {
                player.power_loaded
            },
            ..player
        }),
{
}

} // verus!
