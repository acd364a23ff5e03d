//! Advancing the game by one tick.

use vstd::prelude::*;
use std::collections::VecDeque;
use crate::config::{Config, PLAYER_MASS};
use crate::controller::{draw_spawns, find_player, players_view, GameController};
use crate::explosion::Explosion;
use crate::geometry::ControllerPoint;
use crate::invariants::{
    lemma_collisions_detected_wf, lemma_collisions_resolved_wf, lemma_explosions_advanced_upto,
    lemma_explosions_advanced_wf, lemma_players_advanced_upto, lemma_players_advanced_wf,
    lemma_resolved_upto, lemma_same_ids, lemma_shots_advanced_upto, lemma_shots_advanced_wf,
    lemma_stepped_wf,
};
use crate::player::{Player, PlayerView};
use crate::registry::lemma_first_index;
use crate::simulation::{
    blasted, collided, exchanged, pair_queued, resolved_upto, row_queued, rows_queued,
};
use crate::world::{
    first_mention_from, mentions, player_ids, valid_spawns, ExplosionEntry, GameView, ShotEntry,
    ShotEntryView,
};

verus! {

/// Whether one of the pairs of the queue holds `id`.
pub fn is_queued(queue: &VecDeque<(i32, i32)>, id: i32) -> (queued: bool)
    ensures
        queued == mentions(queue@, id),
{
    let mut at: usize = 0;
    while at < queue.len() && queue[at].0 != id && queue[at].1 != id
        invariant
            at <= queue.len(),
            first_mention_from(queue@, id, 0) == first_mention_from(queue@, id, at as int),
        decreases queue.len() - at,
    {
        at = at + 1;
    }
    at < queue.len()
}

/// Kills the players that the blast hits.
pub fn blast_players(players: &mut Vec<Player>, explosion: &Explosion, config: &Config)
    ensures
        players_view(final(players)@) == blasted(players_view(old(players)@), *explosion, *config),
{
    let mut at: usize = 0;
    while at < players.len()
        invariant
            at <= players.len(),
            players.len() == old(players).len(),
            forall|k: int|
                0 <= k < at ==> (#[trigger] players[k])@ == blasted(
                    players_view(old(players)@),
                    *explosion,
                    *config,
                )[k],
            forall|k: int| at <= k < players.len() ==> players[k] == old(players)[k],
        decreases players.len() - at,
    {
        if explosion.check_for_hit(players[at].position) {
            players[at].die(config);
        }
        at = at + 1;
    }
    assert(players_view(players@) =~= blasted(players_view(old(players)@), *explosion, *config));
}

/// Queues the collisions of the players that overlap. The players are
/// looked at pair by pair, in their order; a pair whose boxes overlap is
/// queued unless one of the two is queued for a collision already.
pub fn queue_collisions(players: &Vec<Player>, queue: &mut VecDeque<(i32, i32)>)
    ensures
        final(queue)@ == rows_queued(players_view(players@), old(queue)@, players.len() as int),
{
    let ghost all = players_view(players@);
    let mut i: usize = 0;
    while i < players.len()
        invariant
            i <= players.len(),
            all == players_view(players@),
            queue@ == rows_queued(all, old(queue)@, i as int),
        decreases players.len() - i,
    {
        let ghost row_start = queue@;
        let mut j: usize = i + 1;
        while j < players.len()
            invariant
                i < players.len(),
                i + 1 <= j <= players.len(),
                all == players_view(players@),
                queue@ == row_queued(all, row_start, i as int, j as int),
            decreases players.len() - j,
        {
            if players[i].check_player_collision(&players[j]) && !is_queued(queue, players[i].id)
                && !is_queued(queue, players[j].id) {
                queue.push_back((players[i].id, players[j].id));
            }
            j = j + 1;
            assert(queue@ == pair_queued(
                all,
                row_queued(all, row_start, i as int, j - 1),
                i as int,
                j - 1,
            ));
        }
        i = i + 1;
    }
}

impl GameController {
    /// The speed of a player along one axis after it has collided with
    /// another player: with equal masses, the speed of the other.
    pub fn elastic_collision(delta_1: i32, delta_2: i32) -> (after: i32)
        ensures
            after == collided(delta_1 as int, delta_2 as int),
    {
        let mass: i64 = PLAYER_MASS as i64;
        let own: i64 = delta_1 as i64;
        let other: i64 = delta_2 as i64;
        assert((mass - mass) * own == 0 && 2 * mass * other == 2 * other) by (nonlinear_arith)
            requires
                mass == 1,
        ;
        (((mass - mass) * own + 2 * mass * other) / (mass + mass)) as i32
    }

    /// Resolves the collision of two players: they exchange their speeds.
    pub fn handle_collision(first: &mut Player, second: &mut Player)
        ensures
            final(first)@ == (PlayerView {
                delta_x: old(second).delta_x,
                delta_y: old(second).delta_y,
                ..old(first)@
            }),
            final(second)@ == (PlayerView {
                delta_x: old(first).delta_x,
                delta_y: old(first).delta_y,
                ..old(second)@
            }),
    {
        let first_calculated_x = GameController::elastic_collision(first.delta_x, second.delta_x);
        let first_calculated_y = GameController::elastic_collision(first.delta_y, second.delta_y);
        let second_calculated_x = GameController::elastic_collision(second.delta_x, first.delta_x);
        let second_calculated_y = GameController::elastic_collision(second.delta_y, first.delta_y);
        first.delta_x = first_calculated_x;
        first.delta_y = first_calculated_y;
        second.delta_x = second_calculated_x;
        second.delta_y = second_calculated_y;
    }

    /// Whether ids are left for every shot and every blast that one tick
    /// can bring.
    pub fn ids_left(&self) -> (left: bool)
        ensures
            left == self@.ids_left(),
    {
        let used: i128 = self.internal_id_count as i128;
        used + self.cannon_shots.len() as i128 + self.players.len() as i128 <= i32::MAX as i128
    }

    /// Resolves the queued collisions, first queued first. Every queued
    /// pair is of two players of the match, so both are found.
    pub fn resolve_collisions(&mut self)
        requires
            old(self).wf(),
        ensures
            final(self)@ == old(self)@.collisions_resolved(),
            final(self).wf(),
    {
        let ghost start = self@;
        let ghost mut done: int = 0;
        assert(start.handle_collisions.skip(0) =~= start.handle_collisions);
        while self.handle_collisions.len() > 0
            invariant
                start.wf(),
                0 <= done <= start.handle_collisions.len(),
                self@ == (GameView {
                    players: resolved_upto(start.players, start.handle_collisions, done),
                    handle_collisions: start.handle_collisions.skip(done),
                    ..start
                }),
            decreases self.handle_collisions.len(),
        {
            proof {
                lemma_resolved_upto(start.players, start.config, start.handle_collisions, done);
                lemma_same_ids(start.players, self@.players);
                assert(self.handle_collisions@[0] == start.handle_collisions[done]);
                lemma_first_index(player_ids(start.players), start.handle_collisions[done].0);
                lemma_first_index(player_ids(start.players), start.handle_collisions[done].1);
            }
            let ghost before = self@;
            let pair = self.handle_collisions.pop_front().unwrap();
            let i = find_player(&self.players, pair.0);
            let j = find_player(&self.players, pair.1);
            let first_x = GameController::elastic_collision(
                self.players[i].delta_x,
                self.players[j].delta_x,
            );
            let first_y = GameController::elastic_collision(
                self.players[i].delta_y,
                self.players[j].delta_y,
            );
            let second_x = GameController::elastic_collision(
                self.players[j].delta_x,
                self.players[i].delta_x,
            );
            let second_y = GameController::elastic_collision(
                self.players[j].delta_y,
                self.players[i].delta_y,
            );
            self.players[i].delta_x = first_x;
            self.players[i].delta_y = first_y;
            self.players[j].delta_x = second_x;
            self.players[j].delta_y = second_y;
            proof {
                done = done + 1;
                assert(self@.players =~= exchanged(before.players, pair.0, pair.1));
                assert(self@.handle_collisions =~= start.handle_collisions.skip(done));
            }
        }
        proof {
            assert(self@.handle_collisions =~= Seq::empty());
            lemma_collisions_resolved_wf(start);
        }
    }
    /// Moves every shot to the next point of its path. A shot whose path
    /// is used up is removed, and a blast is left where it was last, under
    /// a new id and owned by the player who fired.
    pub fn advance_shots(&mut self)
        requires
            old(self).wf(),
            old(self)@.ids_left(),
        ensures
            final(self)@ == old(self)@.shots_advanced(),
            final(self).wf(),
    {
        proof {
            lemma_shots_advanced_wf(old(self)@);
        }
        let ghost start = self@;
        let total = self.cannon_shots.len();
        let mut seen: usize = 0;
        let mut at: usize = 0;
        assert(self@.cannon_shots =~= Seq::<ShotEntryView>::empty() + start.cannon_shots.skip(0));
        while seen < total
            invariant
                start.wf(),
                start.ids_left(),
                total == start.cannon_shots.len(),
                seen <= total,
                at == start.shots_advanced_upto(seen as int).cannon_shots.len(),
                self.cannon_shots.len() == at + (total - seen),
                self@ == (GameView {
                    cannon_shots: start.shots_advanced_upto(seen as int).cannon_shots
                        + start.cannon_shots.skip(seen as int),
                    ..start.shots_advanced_upto(seen as int)
                }),
            decreases total - seen,
        {
            let ghost before = start.shots_advanced_upto(seen as int);
            proof {
                lemma_shots_advanced_upto(start, seen as int);
                lemma_shots_advanced_upto(start, seen + 1);
                assert(self@.cannon_shots[at as int] == start.cannon_shots[seen as int]);
            }
            let ghost held = self@.cannon_shots;
            self.cannon_shots[at].shot.tick();
            if self.cannon_shots[at].shot.position.is_none() {
                let entry = self.cannon_shots.remove(at);
                self.internal_id_count += 1;
                self.explosions.push(
                    ExplosionEntry {
                        id: self.internal_id_count,
                        explosion: Explosion::new(
                            entry.shot.from_player_id,
                            entry.shot.last_position,
                        ),
                    },
                );
            } else {
                at = at + 1;
            }
            seen = seen + 1;
            proof {
                let after = start.shots_advanced_upto(seen as int);
                let rest = start.cannon_shots.skip(seen as int);
                let target = after.cannon_shots + rest;
                assert(self@.cannon_shots.len() == target.len());
                assert forall|k: int| 0 <= k < target.len() implies self@.cannon_shots[k]
                    == target[k] by {
                    if k < before.cannon_shots.len() {
                        assert(held[k] == before.cannon_shots[k]);
                    } else if k < after.cannon_shots.len() {
                        assert(held[k] == start.cannon_shots[seen - 1]);
                    } else {
                        let m = k - after.cannon_shots.len();
                        assert(rest[m] == start.cannon_shots[seen + m]);
                        assert(held[before.cannon_shots.len() + 1 + m] == start.cannon_shots[seen
                            + m]);
                    }
                }
                assert(self@.cannon_shots =~= target);
                assert(self@.explosions =~= after.explosions);
            }
        }
        assert(self@.cannon_shots =~= start.shots_advanced().cannon_shots);
    }

    /// Grows or shrinks every blast. A blast of which nothing is left is
    /// removed; every other kills the players it hits.
    pub fn advance_explosions(&mut self)
        requires
            old(self).wf(),
        ensures
            final(self)@ == old(self)@.explosions_advanced(),
            final(self).wf(),
    {
        proof {
            lemma_explosions_advanced_wf(old(self)@);
        }
        let ghost start = self@;
        let config = self.config;
        let total = self.explosions.len();
        let mut seen: usize = 0;
        let mut at: usize = 0;
        assert(self@.explosions =~= Seq::<ExplosionEntry>::empty() + start.explosions.skip(0));
        while seen < total
            invariant
                start.wf(),
                config == start.config,
                total == start.explosions.len(),
                seen <= total,
                at == start.explosions_advanced_upto(seen as int).explosions.len(),
                self.explosions.len() == at + (total - seen),
                self@ == (GameView {
                    explosions: start.explosions_advanced_upto(seen as int).explosions
                        + start.explosions.skip(seen as int),
                    ..start.explosions_advanced_upto(seen as int)
                }),
            decreases total - seen,
        {
            proof {
                lemma_explosions_advanced_upto(start, seen as int);
                assert(self@.explosions[at as int] == start.explosions[seen as int]);
                assert(start.explosions[seen as int].explosion.wf(config));
            }
            self.explosions[at].explosion.tick(&config);
            if self.explosions[at].explosion.size <= 0 {
                self.explosions.remove(at);
            } else {
                let explosion = self.explosions[at].explosion;
                blast_players(&mut self.players, &explosion, &config);
                at = at + 1;
            }
            seen = seen + 1;
            proof {
                let after = start.explosions_advanced_upto(seen as int);
                assert(self@.explosions =~= after.explosions + start.explosions.skip(seen as int));
            }
        }
        assert(self@.explosions =~= start.explosions_advanced().explosions);
    }

    /// Gives every active player its tick, and takes over the shot of
    /// every player that has fired: the shot flies on under a new id. A
    /// player that comes back from the dead is placed at the spawn point
    /// with its index.
    pub fn advance_players(&mut self, spawns: &Vec<ControllerPoint>)
        requires
            old(self).wf(),
            old(self)@.internal_id_count + old(self)@.players.len() <= i32::MAX,
            valid_spawns(old(self)@.config, spawns@, old(self)@.players.len() as int),
        ensures
            final(self)@ == old(self)@.players_advanced(spawns@),
            final(self).wf(),
    {
        proof {
            lemma_players_advanced_wf(old(self)@, spawns@);
        }
        let ghost start = self@;
        let config = self.config;
        let mut at: usize = 0;
        while at < self.players.len()
            invariant
                start.wf(),
                start.internal_id_count + start.players.len() <= i32::MAX,
                valid_spawns(start.config, spawns@, start.players.len() as int),
                config == start.config,
                at <= self.players.len(),
                self.players.len() == start.players.len(),
                self@ == start.players_advanced_upto(spawns@, at as int),
            decreases self.players.len() - at,
        {
            proof {
                lemma_players_advanced_upto(start, spawns@, at as int);
                assert(self@.players[at as int] == start.players[at as int]);
                assert(start.players[at as int].wf(config));
            }
            if self.players[at].should_tick() {
                self.players[at].tick_at(&config, spawns[at]);
                match self.players[at].cannon_shot.take() {
                    Some(shot) => {
                        self.internal_id_count += 1;
                        self.cannon_shots.push(ShotEntry { id: self.internal_id_count, shot });
                    },
                    None => {},
                }
            }
            at = at + 1;
            proof {
                let after = start.players_advanced_upto(spawns@, at as int);
                assert(self@.players =~= after.players);
                assert(self@.cannon_shots =~= after.cannon_shots);
            }
        }
    }

    /// Queues the collisions of the players that overlap. A pair is queued
    /// only if neither of its players is queued for a collision already, so
    /// that no collision is resolved twice.
    pub fn check_player_collisions(&mut self)
        requires
            old(self).wf(),
        ensures
            final(self)@ == old(self)@.collisions_detected(),
            final(self).wf(),
    {
        queue_collisions(&self.players, &mut self.handle_collisions);
        proof {
            lemma_collisions_detected_wf(old(self)@);
        }
    }

    /// Advances the world by one tick, with the given spawn points. With
    /// fewer than two clients in the game the match ends; this is the one
    /// case in which something is returned. In every other case the queued
    /// collisions are resolved, the shots move, the blasts grow and kill,
    /// the players act, and the collisions of the players that overlap now
    /// are queued.
    pub fn step(&mut self, spawns: &Vec<ControllerPoint>) -> (ended: Option<()>)
        requires
            old(self).wf(),
            old(self)@.ids_left(),
            valid_spawns(old(self)@.config, spawns@, old(self)@.players.len() as int),
        ensures
            final(self)@ == old(self)@.stepped(spawns@),
            final(self).wf(),
            ended.is_some() <==> old(self)@.in_game_clients() < 2,
    {
        proof {
            lemma_stepped_wf(old(self)@, spawns@);
        }
        if self.in_game_clients() < 2 {
            self.stop();
            return Some(());
        }
        self.resolve_collisions();
        proof {
            lemma_collisions_resolved_wf(old(self)@);
        }
        self.advance_shots();
        proof {
            lemma_shots_advanced_wf(old(self)@.collisions_resolved());
        }
        self.advance_explosions();
        proof {
            lemma_explosions_advanced_wf(old(self)@.collisions_resolved().shots_advanced());
        }
        self.advance_players(spawns);
        self.check_player_collisions();
        None
    }

    /// Advances the world by one tick. A player that comes back from the
    /// dead in this tick is placed at a random point of the arena.
    pub fn tick(&mut self) -> (ended: Option<()>)
        requires
            old(self).wf(),
            old(self)@.ids_left(),
        ensures
            final(self).wf(),
            ended.is_some() <==> old(self)@.in_game_clients() < 2,
            exists|spawns: Seq<ControllerPoint>|
                valid_spawns(old(self)@.config, spawns, old(self)@.players.len() as int)
                    && final(self)@ == #[trigger] old(self)@.stepped(spawns),
    {
        let spawns = draw_spawns(&self.config, self.players.len());
        self.step(&spawns)
    }
}

} // verus!
