//! What every tick keeps true of the world.

use vstd::prelude::*;
use crate::config::Config;
use crate::explosion::Explosion;
use crate::geometry::ControllerPoint;
use crate::player::{lemma_tick_keeps_wf, PlayerView};
use crate::registry::{distinct, has_id, increasing, lemma_distinct_index, lemma_first_index};
use crate::simulation::{blasted, exchanged, pair_queued, resolved_upto, row_queued, rows_queued};
use crate::world::{
    explosion_ids, lemma_mentions, lemma_phase_changes_keep_wf, player_ids, queue_wf,
    shot_ids, valid_spawns, GameView,
};

verus! {

/// Whether the players are the players of a well-formed world: no two of
/// them share an id, each is inside the arena, and none holds a shot.
pub open spec fn players_wf(players: Seq<PlayerView>, config: Config) -> bool {
    &&& distinct(player_ids(players))
    &&& forall|i: int|
        0 <= i < players.len() ==> (#[trigger] players[i]).wf(config)
            && players[i].cannon_shot.is_none()
}

/// Whether two sequences of players hold the same ids in the same order.
pub open spec fn same_ids(before: Seq<PlayerView>, after: Seq<PlayerView>) -> bool {
    &&& before.len() == after.len()
    &&& forall|i: int| 0 <= i < before.len() ==> (#[trigger] after[i]).id == before[i].id
}

/// Players that hold the same ids in the same order have the same ids.
pub proof fn lemma_same_ids(before: Seq<PlayerView>, after: Seq<PlayerView>)
    requires
        same_ids(before, after),
    ensures
        player_ids(before) == player_ids(after),
{
    assert(player_ids(before) =~= player_ids(after));
}

/// Resolving a collision keeps the players well-formed and their ids in
/// place.
pub proof fn lemma_exchanged(players: Seq<PlayerView>, config: Config, first: i32, second: i32)
    requires
        config.wf(),
        players_wf(players, config),
    ensures
        players_wf(exchanged(players, first, second), config),
        same_ids(players, exchanged(players, first, second)),
{
    let ids = player_ids(players);
    lemma_first_index(ids, first);
    lemma_first_index(ids, second);
    let after = exchanged(players, first, second);
    assert(same_ids(players, after));
    lemma_same_ids(players, after);
}

/// Resolving the queued collisions keeps the players well-formed and their
/// ids in place.
pub proof fn lemma_resolved_upto(
    players: Seq<PlayerView>,
    config: Config,
    queue: Seq<(i32, i32)>,
    count: int,
)
    requires
        config.wf(),
        players_wf(players, config),
    ensures
        players_wf(resolved_upto(players, queue, count), config),
        same_ids(players, resolved_upto(players, queue, count)),
    decreases count,
{
    if count > 0 {
        lemma_resolved_upto(players, config, queue, count - 1);
        lemma_exchanged(
            resolved_upto(players, queue, count - 1),
            config,
            queue[count - 1].0,
            queue[count - 1].1,
        );
    }
}

/// A blast keeps the players well-formed and their ids in place.
pub proof fn lemma_blasted(players: Seq<PlayerView>, explosion: Explosion, config: Config)
    requires
        config.wf(),
        players_wf(players, config),
    ensures
        players_wf(blasted(players, explosion, config), config),
        same_ids(players, blasted(players, explosion, config)),
{
    let after = blasted(players, explosion, config);
    assert(same_ids(players, after));
    lemma_same_ids(players, after);
    assert forall|i: int| 0 <= i < after.len() implies (#[trigger] after[i]).wf(config)
        && after[i].cannon_shot.is_none() by {
        assert(players[i].wf(config));
    }
}

/// A well-formed world stays well-formed when the queued collisions are
/// resolved.
pub proof fn lemma_collisions_resolved_wf(game: GameView)
    requires
        game.wf(),
    ensures
        game.collisions_resolved().wf(),
        game.collisions_resolved().ids_left() == game.ids_left(),
        game.collisions_resolved().players.len() == game.players.len(),
{
    lemma_resolved_upto(
        game.players,
        game.config,
        game.handle_collisions,
        game.handle_collisions.len() as int,
    );
    lemma_same_ids(game.players, game.collisions_resolved().players);
}

/// Moving the shots changes nothing but the shots, the blasts and the
/// last id given out, and keeps them as a well-formed world has them.
pub proof fn lemma_shots_advanced_upto(game: GameView, count: int)
    requires
        game.wf(),
        game.ids_left(),
        0 <= count <= game.cannon_shots.len(),
    ensures
        ({
            let after = game.shots_advanced_upto(count);
            &&& after == GameView {
                cannon_shots: after.cannon_shots,
                explosions: after.explosions,
                internal_id_count: after.internal_id_count,
                ..game
            }
            &&& game.internal_id_count <= after.internal_id_count <= game.internal_id_count
                + count
            &&& after.cannon_shots.len() <= count
            &&& increasing(shot_ids(after.cannon_shots))
            &&& forall|a: int|
                0 <= a < after.cannon_shots.len() ==> 0 < (#[trigger] after.cannon_shots[a]).id
                    <= game.internal_id_count
            &&& forall|a: int, m: int|
                0 <= a < after.cannon_shots.len() && count <= m < game.cannon_shots.len() ==> (
                #[trigger] after.cannon_shots[a]).id < (#[trigger] game.cannon_shots[m]).id
            &&& increasing(explosion_ids(after.explosions))
            &&& forall|a: int|
                0 <= a < after.explosions.len() ==> 0 < (#[trigger] after.explosions[a]).id
                    <= after.internal_id_count && after.explosions[a].explosion.wf(game.config)
                    && !after.explosions[a].explosion.is_spent()
        }),
    decreases count,
{
    if count > 0 {
        lemma_shots_advanced_upto(game, count - 1);
        let before = game.shots_advanced_upto(count - 1);
        let after = game.shots_advanced_upto(count);
        let entry = game.cannon_shots[count - 1];
        let moved = entry.shot.advanced();
        if moved.position.is_none() {
            let id = (before.internal_id_count + 1) as i32;
            assert(id == before.internal_id_count + 1);
            assert forall|i: int, j: int| 0 <= i < j < after.explosions.len() implies explosion_ids(
                after.explosions,
            )[i] < explosion_ids(after.explosions)[j] by {
                if j < before.explosions.len() {
                    assert(explosion_ids(before.explosions)[i] < explosion_ids(
                        before.explosions,
                    )[j]);
                } else {
                    assert(before.explosions[i].id <= before.internal_id_count);
                }
            }
        } else {
            assert forall|i: int, j: int| 0 <= i < j < after.cannon_shots.len() implies shot_ids(
                after.cannon_shots,
            )[i] < shot_ids(after.cannon_shots)[j] by {
                if j < before.cannon_shots.len() {
                    assert(shot_ids(before.cannon_shots)[i] < shot_ids(before.cannon_shots)[j]);
                } else {
                    assert(before.cannon_shots[i].id < game.cannon_shots[count - 1].id);
                }
            }
            assert forall|a: int, m: int|
                0 <= a < after.cannon_shots.len() && count <= m < game.cannon_shots.len() implies (
            #[trigger] after.cannon_shots[a]).id < (#[trigger] game.cannon_shots[m]).id by {
                if a < before.cannon_shots.len() {
                    assert(before.cannon_shots[a].id < game.cannon_shots[m].id);
                } else {
                    assert(shot_ids(game.cannon_shots)[count - 1] < shot_ids(game.cannon_shots)[m]);
                }
            }
        }
    } else {
        assert(explosion_ids(game.explosions) == explosion_ids(
            game.shots_advanced_upto(count).explosions,
        ));
    }
}

/// A well-formed world stays well-formed when the shots move.
pub proof fn lemma_shots_advanced_wf(game: GameView)
    requires
        game.wf(),
        game.ids_left(),
    ensures
        game.shots_advanced().wf(),
        game.shots_advanced().players == game.players,
        game.shots_advanced().config == game.config,
        game.shots_advanced().internal_id_count + game.players.len() <= i32::MAX,
{
    lemma_shots_advanced_upto(game, game.cannon_shots.len() as int);
}

/// Growing the blasts changes nothing but the blasts and the players, and
/// keeps them as a well-formed world has them.
pub proof fn lemma_explosions_advanced_upto(game: GameView, count: int)
    requires
        game.wf(),
        0 <= count <= game.explosions.len(),
    ensures
        ({
            let after = game.explosions_advanced_upto(count);
            &&& after == GameView { explosions: after.explosions, players: after.players, ..game }
            &&& players_wf(after.players, game.config)
            &&& same_ids(game.players, after.players)
            &&& after.explosions.len() <= count
            &&& increasing(explosion_ids(after.explosions))
            &&& forall|a: int|
                0 <= a < after.explosions.len() ==> 0 < (#[trigger] after.explosions[a]).id
                    <= game.internal_id_count && after.explosions[a].explosion.wf(game.config)
                    && !after.explosions[a].explosion.is_spent()
            &&& forall|a: int, m: int|
                0 <= a < after.explosions.len() && count <= m < game.explosions.len() ==> (
                #[trigger] after.explosions[a]).id < (#[trigger] game.explosions[m]).id
        }),
    decreases count,
{
    if count > 0 {
        lemma_explosions_advanced_upto(game, count - 1);
        let before = game.explosions_advanced_upto(count - 1);
        let after = game.explosions_advanced_upto(count);
        let entry = game.explosions[count - 1];
        let grown = entry.explosion.advanced(game.config);
        assert(entry.explosion.wf(game.config));
        if !grown.is_spent() {
            lemma_blasted(before.players, grown, game.config);
            assert forall|i: int, j: int| 0 <= i < j < after.explosions.len() implies explosion_ids(
                after.explosions,
            )[i] < explosion_ids(after.explosions)[j] by {
                if j < before.explosions.len() {
                    assert(explosion_ids(before.explosions)[i] < explosion_ids(
                        before.explosions,
                    )[j]);
                } else {
                    assert(before.explosions[i].id < game.explosions[count - 1].id);
                }
            }
            assert forall|a: int, m: int|
                0 <= a < after.explosions.len() && count <= m < game.explosions.len() implies (
            #[trigger] after.explosions[a]).id < (#[trigger] game.explosions[m]).id by {
                if a < before.explosions.len() {
                    assert(before.explosions[a].id < game.explosions[m].id);
                } else {
                    assert(explosion_ids(game.explosions)[count - 1] < explosion_ids(
                        game.explosions,
                    )[m]);
                }
            }
        }
    }
}

/// A well-formed world stays well-formed when the blasts grow.
pub proof fn lemma_explosions_advanced_wf(game: GameView)
    requires
        game.wf(),
    ensures
        game.explosions_advanced().wf(),
        game.explosions_advanced().internal_id_count == game.internal_id_count,
        game.explosions_advanced().players.len() == game.players.len(),
        game.explosions_advanced().config == game.config,
{
    lemma_explosions_advanced_upto(game, game.explosions.len() as int);
    lemma_same_ids(game.players, game.explosions_advanced().players);
}

/// The ticks of the players change nothing but the players, the shots and
/// the last id given out, and keep them as a well-formed world has them.
pub proof fn lemma_players_advanced_upto(game: GameView, spawns: Seq<ControllerPoint>, count: int)
    requires
        game.wf(),
        game.internal_id_count + game.players.len() <= i32::MAX,
        valid_spawns(game.config, spawns, game.players.len() as int),
        0 <= count <= game.players.len(),
    ensures
        ({
            let after = game.players_advanced_upto(spawns, count);
            &&& after == GameView {
                players: after.players,
                cannon_shots: after.cannon_shots,
                internal_id_count: after.internal_id_count,
                ..game
            }
            &&& players_wf(after.players, game.config)
            &&& same_ids(game.players, after.players)
            &&& forall|i: int|
                count <= i < game.players.len() ==> #[trigger] after.players[i] == game.players[i]
            &&& game.internal_id_count <= after.internal_id_count <= game.internal_id_count
                + count
            &&& increasing(shot_ids(after.cannon_shots))
            &&& forall|a: int|
                0 <= a < after.cannon_shots.len() ==> 0 < (#[trigger] after.cannon_shots[a]).id
                    <= after.internal_id_count
        }),
    decreases count,
{
    if count > 0 {
        lemma_players_advanced_upto(game, spawns, count - 1);
        let before = game.players_advanced_upto(spawns, count - 1);
        let after = game.players_advanced_upto(spawns, count);
        let player = game.players[count - 1];
        assert(player.wf(game.config));
        if player.is_active() {
            let ticked = player.ticked(game.config, spawns[count - 1]);
            lemma_tick_keeps_wf(player, game.config, spawns[count - 1]);
            assert(same_ids(game.players, after.players));
            lemma_same_ids(game.players, after.players);
            lemma_same_ids(game.players, before.players);
            if ticked.cannon_shot.is_some() {
                let id = (before.internal_id_count + 1) as i32;
                assert(id == before.internal_id_count + 1);
                assert forall|i: int, j: int| 0 <= i < j < after.cannon_shots.len() implies shot_ids(
                    after.cannon_shots,
                )[i] < shot_ids(after.cannon_shots)[j] by {
                    if j < before.cannon_shots.len() {
                        assert(shot_ids(before.cannon_shots)[i] < shot_ids(before.cannon_shots)[j]);
                    } else {
                        assert(before.cannon_shots[i].id <= before.internal_id_count);
                    }
                }
            }
        }
    } else {
        lemma_same_ids(game.players, game.players);
    }
}

/// A well-formed world stays well-formed when the players have their
/// ticks.
pub proof fn lemma_players_advanced_wf(game: GameView, spawns: Seq<ControllerPoint>)
    requires
        game.wf(),
        game.internal_id_count + game.players.len() <= i32::MAX,
        valid_spawns(game.config, spawns, game.players.len() as int),
    ensures
        game.players_advanced(spawns).wf(),
{
    lemma_players_advanced_upto(game, spawns, game.players.len() as int);
    lemma_same_ids(game.players, game.players_advanced(spawns).players);
}

/// Looking at a pair of players keeps the queue well-formed, and the queue
/// it had is the beginning of the queue it has.
pub proof fn lemma_pair_queued(players: Seq<PlayerView>, queue: Seq<(i32, i32)>, i: int, j: int)
    requires
        distinct(player_ids(players)),
        queue_wf(queue, players),
        0 <= i < j < players.len(),
    ensures
        queue_wf(pair_queued(players, queue, i, j), players),
        queue.len() <= pair_queued(players, queue, i, j).len() <= queue.len() + 1,
        pair_queued(players, queue, i, j).subrange(0, queue.len() as int) == queue,
{
    let after = pair_queued(players, queue, i, j);
    assert(after.subrange(0, queue.len() as int) =~= queue);
    if after != queue {
        let ids = player_ids(players);
        lemma_distinct_index(ids, i);
        lemma_distinct_index(ids, j);
        lemma_mentions(queue, players[i].id);
        lemma_mentions(queue, players[j].id);
        assert(ids[i] != ids[j]);
        assert forall|k: int| 0 <= k < after.len() implies (#[trigger] after[k]).0 != after[k].1
            && has_id(ids, after[k].0) && has_id(ids, after[k].1) by {
            if k < queue.len() {
                assert(after[k] == queue[k]);
            }
        }
        assert forall|k: int, l: int| 0 <= k < l < after.len() implies (#[trigger] after[k]).0 != (
        #[trigger] after[l]).0 && after[k].0 != after[l].1 && after[k].1 != after[l].0
            && after[k].1 != after[l].1 by {
            assert(after[k] == queue[k]);
            if l < queue.len() {
                assert(after[l] == queue[l]);
            }
        }
    }
}

/// Looking at one player together with those after it keeps the queue
/// well-formed, and the queue it had is the beginning of the queue it has.
pub proof fn lemma_row_queued(players: Seq<PlayerView>, queue: Seq<(i32, i32)>, i: int, upto: int)
    requires
        distinct(player_ids(players)),
        queue_wf(queue, players),
        0 <= i < players.len(),
        upto <= players.len(),
    ensures
        queue_wf(row_queued(players, queue, i, upto), players),
        queue.len() <= row_queued(players, queue, i, upto).len(),
        row_queued(players, queue, i, upto).subrange(0, queue.len() as int) == queue,
    decreases upto - i,
{
    if upto > i + 1 {
        let before = row_queued(players, queue, i, upto - 1);
        lemma_row_queued(players, queue, i, upto - 1);
        lemma_pair_queued(players, before, i, upto - 1);
        let after = row_queued(players, queue, i, upto);
        assert(after.subrange(0, queue.len() as int) =~= before.subrange(0, queue.len() as int));
    } else {
        assert(queue.subrange(0, queue.len() as int) =~= queue);
    }
}

/// Looking at the players pair by pair keeps the queue well-formed, and
/// the queue it had is the beginning of the queue it has.
pub proof fn lemma_rows_queued(players: Seq<PlayerView>, queue: Seq<(i32, i32)>, rows: int)
    requires
        distinct(player_ids(players)),
        queue_wf(queue, players),
        rows <= players.len(),
    ensures
        queue_wf(rows_queued(players, queue, rows), players),
        queue.len() <= rows_queued(players, queue, rows).len(),
        rows_queued(players, queue, rows).subrange(0, queue.len() as int) == queue,
    decreases rows,
{
    if rows > 0 {
        let before = rows_queued(players, queue, rows - 1);
        lemma_rows_queued(players, queue, rows - 1);
        lemma_row_queued(players, before, rows - 1, players.len() as int);
        let after = rows_queued(players, queue, rows);
        assert(after.subrange(0, queue.len() as int) =~= before.subrange(0, queue.len() as int));
    } else {
        assert(queue.subrange(0, queue.len() as int) =~= queue);
    }
}

/// A well-formed world stays well-formed when the collisions of the
/// players that overlap are queued.
pub proof fn lemma_collisions_detected_wf(game: GameView)
    requires
        game.wf(),
    ensures
        game.collisions_detected().wf(),
{
    lemma_rows_queued(game.players, game.handle_collisions, game.players.len() as int);
}

/// Every tick keeps a well-formed world well-formed. It leaves the
/// settings and the countdown alone, and never takes back an id that was
/// given out. A tick of a match that goes on leaves the clients alone, and
/// the players stay who they are, in their order.
pub proof fn lemma_stepped_wf(game: GameView, spawns: Seq<ControllerPoint>)
    requires
        game.wf(),
        game.ids_left(),
        valid_spawns(game.config, spawns, game.players.len() as int),
    ensures
        game.stepped(spawns).wf(),
        game.stepped(spawns).config == game.config,
        game.stepped(spawns).countdown == game.countdown,
        game.stepped(spawns).internal_id_count >= game.internal_id_count,
        game.in_game_clients() >= 2 ==> game.stepped(spawns).clients == game.clients
            && game.stepped(spawns).status == game.status && same_ids(
            game.players,
            game.stepped(spawns).players,
        ),
{
    if game.in_game_clients() < 2 {
        lemma_phase_changes_keep_wf(game);
    } else {
        let resolved = game.collisions_resolved();
        lemma_collisions_resolved_wf(game);
        lemma_resolved_upto(
            game.players,
            game.config,
            game.handle_collisions,
            game.handle_collisions.len() as int,
        );
        let shot = resolved.shots_advanced();
        lemma_shots_advanced_wf(resolved);
        let burnt = shot.explosions_advanced();
        lemma_explosions_advanced_wf(shot);
        let moved = burnt.players_advanced(spawns);
        lemma_players_advanced_wf(burnt, spawns);
        lemma_collisions_detected_wf(moved);
        lemma_shots_advanced_upto(resolved, resolved.cannon_shots.len() as int);
        lemma_explosions_advanced_upto(shot, shot.explosions.len() as int);
        lemma_players_advanced_upto(burnt, spawns, burnt.players.len() as int);
    }
}

} // verus!
