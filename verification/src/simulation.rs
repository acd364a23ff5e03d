//! One tick of the match.
//!
//! A tick of a match with two clients or more in the game resolves the
//! collisions that were queued, moves the shots, grows the blasts and kills
//! the players they reach, lets the players act, and queues the collisions
//! of the players that overlap now. A tick of a match with fewer clients in
//! the game ends the match.

use vstd::prelude::*;
use crate::config::Config;
use crate::explosion::Explosion;
use crate::geometry::ControllerPoint;
use crate::player::{boxes_overlap, PlayerView};
use crate::registry::first_index;
use crate::world::{mentions, player_ids, ExplosionEntry, GameView, ShotEntryView};

verus! {

/// The speed of a player along one axis after it has collided with
/// another. The players weigh the same, so they exchange their speeds.
pub open spec fn collided(own: int, other: int) -> int {
    other
}

/// The players after the collision of `first` with `second` was resolved:
/// the two have exchanged their speeds. Ids that do not both belong to
/// players change nothing.
pub open spec fn exchanged(players: Seq<PlayerView>, first: i32, second: i32) -> Seq<PlayerView> {
    let i = first_index(player_ids(players), first);
    let j = first_index(player_ids(players), second);
    if i < players.len() && j < players.len() {
        players.update(
            i,
            PlayerView {
                delta_x: collided(players[i].delta_x as int, players[j].delta_x as int) as i32,
                delta_y: collided(players[i].delta_y as int, players[j].delta_y as int) as i32,
                ..players[i]
            },
        ).update(
            j,
            PlayerView {
                delta_x: collided(players[j].delta_x as int, players[i].delta_x as int) as i32,
                delta_y: collided(players[j].delta_y as int, players[i].delta_y as int) as i32,
                ..players[j]
            },
        )
    } else {
        players
    }
}

/// The players after the first `count` collisions of the queue were
/// resolved, one after the other.
pub open spec fn resolved_upto(players: Seq<PlayerView>, queue: Seq<(i32, i32)>, count: int) -> Seq<
    PlayerView,
>
    decreases count,
{
    if count <= 0 {
        players
    } else {
        exchanged(
            resolved_upto(players, queue, count - 1),
            queue[count - 1].0,
            queue[count - 1].1,
        )
    }
}

/// The players after a blast has gone over them: those it hits are
/// killed.
pub open spec fn blasted(players: Seq<PlayerView>, explosion: Explosion, config: Config) -> Seq<
    PlayerView,
> {
    Seq::new(
        players.len(),
        |i: int|
            if explosion.hits(players[i].position) {
                players[i].killed(config)
            } else {
                players[i]
            },
    )
}

/// The queue after the players with the indices `i` and `j` were looked
/// at: if their boxes overlap and neither of them is queued for a
/// collision, their pair is queued.
pub open spec fn pair_queued(players: Seq<PlayerView>, queue: Seq<(i32, i32)>, i: int, j: int)
    -> Seq<(i32, i32)> {
    if boxes_overlap(players[i].position, players[j].position) && !mentions(queue, players[i].id)
        && !mentions(queue, players[j].id) {
        queue.push((players[i].id, players[j].id))
    } else {
        queue
    }
}

/// The queue after the player with the index `i` was looked at together
/// with each player after it and before the index `upto`.
pub open spec fn row_queued(players: Seq<PlayerView>, queue: Seq<(i32, i32)>, i: int, upto: int)
    -> Seq<(i32, i32)>
    decreases upto - i,
{
    if upto <= i + 1 {
        queue
    } else {
        pair_queued(players, row_queued(players, queue, i, upto - 1), i, upto - 1)
    }
}

/// The queue after each of the first `rows` players was looked at together
/// with each player after it.
pub open spec fn rows_queued(players: Seq<PlayerView>, queue: Seq<(i32, i32)>, rows: int) -> Seq<
    (i32, i32),
>
    decreases rows,
{
    if rows <= 0 {
        queue
    } else {
        row_queued(
            players,
            rows_queued(players, queue, rows - 1),
            rows - 1,
            players.len() as int,
        )
    }
}

impl GameView {
    /// Whether ids are left for every shot and every blast that one tick
    /// can bring.
    pub open spec fn ids_left(self) -> bool {
        self.internal_id_count + self.cannon_shots.len() + self.players.len() <= i32::MAX
    }

    /// The world after the queued collisions were resolved.
    pub open spec fn collisions_resolved(self) -> GameView {
        GameView {
            players: resolved_upto(
                self.players,
                self.handle_collisions,
                self.handle_collisions.len() as int,
            ),
            handle_collisions: Seq::empty(),
            ..self
        }
    }

    /// The world after the first `count` shots have moved. A shot whose
    /// path is used up is gone, and a blast is left where it was last; the
    /// shots that fly on are kept, and only those.
    pub open spec fn shots_advanced_upto(self, count: int) -> GameView
        decreases count,
    {
        if count <= 0 {
            GameView { cannon_shots: Seq::empty(), ..self }
        } else {
            let before = self.shots_advanced_upto(count - 1);
            let entry = self.cannon_shots[count - 1];
            let moved = entry.shot.advanced();
            if moved.position.is_none() {
                let id = (before.internal_id_count + 1) as i32;
                GameView {
                    internal_id_count: id,
                    explosions: before.explosions.push(
                        ExplosionEntry {
                            id,
                            explosion: Explosion::fresh(moved.from_player_id, moved.last_position),
                        },
                    ),
                    ..before
                }
            } else {
                GameView {
                    cannon_shots: before.cannon_shots.push(
                        ShotEntryView { id: entry.id, shot: moved },
                    ),
                    ..before
                }
            }
        }
    }

    /// The world after the shots have moved.
    pub open spec fn shots_advanced(self) -> GameView {
        self.shots_advanced_upto(self.cannon_shots.len() as int)
    }

    /// The world after the first `count` blasts have grown or shrunk. A
    /// blast of which nothing is left is gone; every other kills the
    /// players it hits.
    pub open spec fn explosions_advanced_upto(self, count: int) -> GameView
        decreases count,
    {
        if count <= 0 {
            GameView { explosions: Seq::empty(), ..self }
        } else {
            let before = self.explosions_advanced_upto(count - 1);
            let entry = self.explosions[count - 1];
            let grown = entry.explosion.advanced(self.config);
            if grown.is_spent() {
                before
            } else {
                GameView {
                    explosions: before.explosions.push(
                        ExplosionEntry { id: entry.id, explosion: grown },
                    ),
                    players: blasted(before.players, grown, self.config),
                    ..before
                }
            }
        }
    }

    /// The world after the blasts have grown or shrunk.
    pub open spec fn explosions_advanced(self) -> GameView {
        self.explosions_advanced_upto(self.explosions.len() as int)
    }

    /// The world after the first `count` players have had their tick. A
    /// player that is not active is passed over. The shot of a player that
    /// has fired is taken over by the game under a new id.
    pub open spec fn players_advanced_upto(self, spawns: Seq<ControllerPoint>, count: int)
        -> GameView
        decreases count,
    {
        if count <= 0 {
            self
        } else {
            let before = self.players_advanced_upto(spawns, count - 1);
            let player = self.players[count - 1];
            if !player.is_active() {
                before
            } else {
                let ticked = player.ticked(self.config, spawns[count - 1]);
                match ticked.cannon_shot {
                    Some(shot) => {
                        let id = (before.internal_id_count + 1) as i32;
                        GameView {
                            players: before.players.update(count - 1, ticked.without_shot()),
                            internal_id_count: id,
                            cannon_shots: before.cannon_shots.push(ShotEntryView { id, shot }),
                            ..before
                        }
                    },
                    None => GameView {
                        players: before.players.update(count - 1, ticked),
                        ..before
                    },
                }
            }
        }
    }

    /// The world after the players have had their tick.
    pub open spec fn players_advanced(self, spawns: Seq<ControllerPoint>) -> GameView {
        self.players_advanced_upto(spawns, self.players.len() as int)
    }

    /// The world after the collisions of the players that overlap were
    /// queued.
    pub open spec fn collisions_detected(self) -> GameView {
        GameView {
            handle_collisions: rows_queued(
                self.players,
                self.handle_collisions,
                self.players.len() as int,
            ),
            ..self
        }
    }

    /// The world after a tick of a match that goes on.
    pub open spec fn simulated(self, spawns: Seq<ControllerPoint>) -> GameView {
        self.collisions_resolved().shots_advanced().explosions_advanced().players_advanced(
            spawns,
        ).collisions_detected()
    }

    /// The world one tick later. With fewer than two clients in the game
    /// the match ends; else the match goes on. `spawns` holds, for each
    /// player, the point at which it is placed if it comes back from the
    /// dead in this tick.
    pub open spec fn stepped(self, spawns: Seq<ControllerPoint>) -> GameView {
        if self.in_game_clients() < 2 {
            self.stopped()
        } else {
            self.simulated(spawns)
        }
    }
}

} // verus!
