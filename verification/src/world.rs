//! The world as a value: everything the game holds, and what each command
//! of the lobby makes of it.
//!
//! Clients, players, shots and blasts are kept in the order in which they
//! came, so that what a command or a tick does to the world depends on
//! nothing but the world and the spawn points drawn.

use vstd::prelude::*;
use crate::cannon_shot::{CannonShot, CannonShotView};
use crate::client::Client;
use crate::config::{Config, MAX_SETTING};
use crate::explosion::Explosion;
use crate::geometry::ControllerPoint;
use crate::input::InputSet;
use crate::player::PlayerView;
use crate::registry::{distinct, first_index, has_id, increasing, lemma_first_index};
use crate::status::{ClientLobbyStatus, ClientStatus, GameControllerStatus};

verus! {

/// A client under its id.
#[derive(Clone, Copy, Debug, PartialEq, Eq, Structural)]
pub struct ClientEntry {
    pub id: i32,
    pub client: Client,
}

/// A blast under its id.
#[derive(Clone, Copy, Debug, PartialEq, Eq, Structural)]
pub struct ExplosionEntry {
    pub id: i32,
    pub explosion: Explosion,
}

/// A shot under its id.
#[derive(Debug)]
pub struct ShotEntry {
    pub id: i32,
    pub shot: CannonShot,
}

/// What a shot under its id is, with the path of the shot as a sequence.
pub struct ShotEntryView {
    pub id: i32,
    pub shot: CannonShotView,
}

impl View for ShotEntry {
    type V = ShotEntryView;

    open spec fn view(&self) -> ShotEntryView {
        ShotEntryView { id: self.id, shot: self.shot@ }
    }
}

/// The ids of clients, in their order.
pub open spec fn client_ids(clients: Seq<ClientEntry>) -> Seq<i32> {
    Seq::new(clients.len(), |i: int| clients[i].id)
}

/// The ids of players, in their order.
pub open spec fn player_ids(players: Seq<PlayerView>) -> Seq<i32> {
    Seq::new(players.len(), |i: int| players[i].id)
}

/// The ids of shots, in their order.
pub open spec fn shot_ids(shots: Seq<ShotEntryView>) -> Seq<i32> {
    Seq::new(shots.len(), |i: int| shots[i].id)
}

/// The ids of blasts, in their order.
pub open spec fn explosion_ids(explosions: Seq<ExplosionEntry>) -> Seq<i32> {
    Seq::new(explosions.len(), |i: int| explosions[i].id)
}

/// The index of the first pair of `queue` at or after `start` that holds
/// `id`; the length of `queue` if there is none.
pub open spec fn first_mention_from(queue: Seq<(i32, i32)>, id: i32, start: int) -> int
    decreases queue.len() - start,
{
    if start < 0 || start >= queue.len() {
        queue.len() as int
    } else if queue[start].0 == id || queue[start].1 == id {
        start
    } else {
        first_mention_from(queue, id, start + 1)
    }
}

/// Whether one of the pairs of `queue` holds `id`.
pub open spec fn mentions(queue: Seq<(i32, i32)>, id: i32) -> bool {
    first_mention_from(queue, id, 0) < queue.len()
}

/// The queue without the first pair that holds `id`.
pub open spec fn without_mention(queue: Seq<(i32, i32)>, id: i32) -> Seq<(i32, i32)> {
    let at = first_mention_from(queue, id, 0);
    if at < queue.len() {
        queue.remove(at)
    } else {
        queue
    }
}

/// A queue of collisions as the game holds it: every pair is of two
/// different players of the match, and no player is in two pairs.
pub open spec fn queue_wf(queue: Seq<(i32, i32)>, players: Seq<PlayerView>) -> bool {
    &&& forall|k: int|
        0 <= k < queue.len() ==> (#[trigger] queue[k]).0 != queue[k].1 && has_id(
            player_ids(players),
            queue[k].0,
        ) && has_id(player_ids(players), queue[k].1)
    &&& forall|k: int, l: int|
        0 <= k < l < queue.len() ==> (#[trigger] queue[k]).0 != (#[trigger] queue[l]).0
            && queue[k].0 != queue[l].1 && queue[k].1 != queue[l].0 && queue[k].1 != queue[l].1
}

/// The players with `player` put in: in the place of the player with the
/// same id if there is one, else at the end.
pub open spec fn put_player(players: Seq<PlayerView>, player: PlayerView) -> Seq<PlayerView> {
    let at = first_index(player_ids(players), player.id);
    if at < players.len() {
        players.update(at, player)
    } else {
        players.push(player)
    }
}

/// The number of clients among the first `count` that are in the game.
pub open spec fn in_game_among(clients: Seq<ClientEntry>, count: int) -> int
    decreases count,
{
    if count <= 0 {
        0
    } else {
        in_game_among(clients, count - 1) + if clients[count - 1].client.status
            == ClientStatus::InGame {
            1int
        } else {
            0
        }
    }
}

/// The world.
pub struct GameView {
    pub config: Config,
    pub status: GameControllerStatus,
    /// The ticks left of the countdown.
    pub countdown: i32,
    /// The last id given to a shot or a blast.
    pub internal_id_count: i32,
    pub clients: Seq<ClientEntry>,
    pub players: Seq<PlayerView>,
    pub cannon_shots: Seq<ShotEntryView>,
    pub explosions: Seq<ExplosionEntry>,
    /// The pairs of players whose collision has yet to be resolved.
    pub handle_collisions: Seq<(i32, i32)>,
}

impl GameView {
    /// The world before anyone has connected.
    pub open spec fn initial(config: Config) -> GameView {
        GameView {
            config,
            status: GameControllerStatus::Stopped,
            countdown: 0,
            internal_id_count: 0,
            clients: Seq::empty(),
            players: Seq::empty(),
            cannon_shots: Seq::empty(),
            explosions: Seq::empty(),
            handle_collisions: Seq::empty(),
        }
    }

    /// A world as the game holds it. No two clients and no two players
    /// share an id; every player is inside the arena and has handed its
    /// shot over; shots and blasts carry ids in the order in which they
    /// were given out; every blast is still there; the queue of collisions
    /// holds pairs of players of the match, no player twice; and there are
    /// no players while no match is on.
    pub open spec fn wf(self) -> bool {
        &&& self.config.wf()
        &&& 0 <= self.countdown <= MAX_SETTING
        &&& 0 <= self.internal_id_count
        &&& distinct(client_ids(self.clients))
        &&& distinct(player_ids(self.players))
        &&& forall|i: int|
            0 <= i < self.players.len() ==> (#[trigger] self.players[i]).wf(self.config)
                && self.players[i].cannon_shot.is_none()
        &&& increasing(shot_ids(self.cannon_shots))
        &&& forall|i: int|
            0 <= i < self.cannon_shots.len() ==> 0 < (#[trigger] self.cannon_shots[i]).id
                <= self.internal_id_count
        &&& increasing(explosion_ids(self.explosions))
        &&& forall|i: int|
            0 <= i < self.explosions.len() ==> 0 < (#[trigger] self.explosions[i]).id
                <= self.internal_id_count && self.explosions[i].explosion.wf(self.config)
                && !self.explosions[i].explosion.is_spent()
        &&& queue_wf(self.handle_collisions, self.players)
        &&& self.status == GameControllerStatus::Stopped ==> self.players.len() == 0
    }

    /// Whether the match can begin: whether there are two clients or more
    /// and all of them are ready.
    pub open spec fn all_ready(self) -> bool {
        &&& self.clients.len() > 1
        &&& forall|i: int|
            0 <= i < self.clients.len() ==> (#[trigger] self.clients[i]).client.lobby_status
                == ClientLobbyStatus::Ready
    }

    /// The number of clients that are in the game.
    pub open spec fn in_game_clients(self) -> int {
        in_game_among(self.clients, self.clients.len() as int)
    }

    /// The world after a client has connected under `id`. A client that
    /// was there under that id is replaced by the new one.
    pub open spec fn with_client(self, id: i32) -> GameView {
        let at = first_index(client_ids(self.clients), id);
        let entry = ClientEntry { id, client: Client::fresh() };
        GameView {
            clients: if at < self.clients.len() {
                self.clients.update(at, entry)
            } else {
                self.clients.push(entry)
            },
            ..self
        }
    }

    /// The world after the client `id` has disconnected: without the
    /// client, without its player, and without the collision its player
    /// was queued for. An id that no client has changes nothing.
    pub open spec fn without_client(self, id: i32) -> GameView {
        let at = first_index(client_ids(self.clients), id);
        let player_at = first_index(player_ids(self.players), id);
        if at < self.clients.len() {
            GameView {
                clients: self.clients.remove(at),
                players: if player_at < self.players.len() {
                    self.players.remove(player_at)
                } else {
                    self.players
                },
                handle_collisions: if player_at < self.players.len() {
                    without_mention(self.handle_collisions, id)
                } else {
                    self.handle_collisions
                },
                ..self
            }
        } else {
            self
        }
    }

    /// The world after the client `id` has declared itself ready. An id
    /// that no client has changes nothing.
    pub open spec fn with_ready_client(self, id: i32) -> GameView {
        let at = first_index(client_ids(self.clients), id);
        if at < self.clients.len() {
            GameView {
                clients: self.clients.update(
                    at,
                    ClientEntry {
                        id: self.clients[at].id,
                        client: Client {
                            lobby_status: ClientLobbyStatus::Ready,
                            ..self.clients[at].client
                        },
                    },
                ),
                ..self
            }
        } else {
            self
        }
    }

    /// The world after the first `count` clients were looked at for the
    /// beginning of a match: each of them that is ready is in the game and
    /// has a new player, placed at the spawn point with the client's index.
    pub open spec fn with_players_placed(self, spawns: Seq<ControllerPoint>, count: int)
        -> GameView
        decreases count,
    {
        if count <= 0 {
            self
        } else {
            let before = self.with_players_placed(spawns, count - 1);
            let entry = self.clients[count - 1];
            if entry.client.lobby_status == ClientLobbyStatus::Ready {
                GameView {
                    players: put_player(
                        before.players,
                        PlayerView::placed(entry.id, spawns[count - 1]),
                    ),
                    clients: before.clients.update(
                        count - 1,
                        ClientEntry { id: entry.id, client: entry.client.sent_to_war() },
                    ),
                    ..before
                }
            } else {
                before
            }
        }
    }

    /// The world after the countdown has begun: every ready client is in
    /// the game and has a new player, and the countdown has its full
    /// number of ticks to run.
    pub open spec fn countdown_started(self, spawns: Seq<ControllerPoint>) -> GameView {
        GameView {
            status: GameControllerStatus::Countdown,
            countdown: self.config.countdown_ticks,
            ..self
        }.with_players_placed(spawns, self.clients.len() as int)
    }

    /// The world after the match has begun, if it was counting down;
    /// else the world as it is.
    pub open spec fn started(self) -> GameView {
        if self.status == GameControllerStatus::Countdown {
            GameView { status: GameControllerStatus::Playing, ..self }
        } else {
            self
        }
    }

    /// The world after one tick of the countdown: one tick less is left,
    /// and when none is left the match begins.
    pub open spec fn counted_down(self) -> GameView {
        let left = if self.countdown > 0 {
            (self.countdown - 1) as i32
        } else {
            0
        };
        let counted = GameView { countdown: left, ..self };
        if left <= 0 {
            counted.started()
        } else {
            counted
        }
    }

    /// The world after the match has ended: no player is left, no
    /// collision is queued, and every client is back in the lobby, waiting.
    pub open spec fn stopped(self) -> GameView {
        GameView {
            status: GameControllerStatus::Stopped,
            players: Seq::empty(),
            handle_collisions: Seq::empty(),
            clients: Seq::new(
                self.clients.len(),
                |i: int| ClientEntry { id: self.clients[i].id, client: Client::fresh() },
            ),
            ..self
        }
    }

    /// The world after the player `id` was given the actions of the
    /// bitmask `bits`. An id that no player has, and a value that is no
    /// bitmask of actions, change nothing.
    pub open spec fn with_player_input(self, id: i32, bits: int) -> GameView {
        let at = first_index(player_ids(self.players), id);
        match InputSet::decode(bits) {
            Some(set) => if at < self.players.len() {
                GameView { players: self.players.update(at, self.players[at].with_input(set)), ..self }
            } else {
                self
            },
            None => self,
        }
    }
}

/// The first pair that holds an id holds it, and no pair before it does.
pub proof fn lemma_first_mention_from(queue: Seq<(i32, i32)>, id: i32, start: int)
    requires
        0 <= start <= queue.len(),
    ensures
        start <= first_mention_from(queue, id, start) <= queue.len(),
        first_mention_from(queue, id, start) < queue.len() ==> queue[first_mention_from(
            queue,
            id,
            start,
        )].0 == id || queue[first_mention_from(queue, id, start)].1 == id,
        forall|k: int|
            start <= k < first_mention_from(queue, id, start) ==> (#[trigger] queue[k]).0 != id
                && queue[k].1 != id,
    decreases queue.len() - start,
{
    if start < queue.len() && !(queue[start].0 == id || queue[start].1 == id) {
        lemma_first_mention_from(queue, id, start + 1);
    }
}

/// A queue holds an id exactly if one of its pairs does.
pub proof fn lemma_mentions(queue: Seq<(i32, i32)>, id: i32)
    ensures
        mentions(queue, id) <==> exists|k: int|
            0 <= k < queue.len() && ((#[trigger] queue[k]).0 == id || queue[k].1 == id),
{
    lemma_first_mention_from(queue, id, 0);
    let at = first_mention_from(queue, id, 0);
    if mentions(queue, id) {
        assert(queue[at].0 == id || queue[at].1 == id);
    }
}

/// The ids of a sequence of players after one of them was replaced by a
/// player with the same id are what they were.
pub proof fn lemma_update_keeps_ids(players: Seq<PlayerView>, at: int, player: PlayerView)
    requires
        0 <= at < players.len(),
        player.id == players[at].id,
    ensures
        player_ids(players.update(at, player)) == player_ids(players),
{
    assert(player_ids(players.update(at, player)) =~= player_ids(players));
}

/// A well-formed world stays well-formed when a client connects.
pub proof fn lemma_with_client_wf(game: GameView, id: i32)
    requires
        game.wf(),
    ensures
        game.with_client(id).wf(),
{
    let ids = client_ids(game.clients);
    let after = game.with_client(id);
    lemma_first_index(ids, id);
    let at = first_index(ids, id);
    if at < game.clients.len() {
        assert(client_ids(after.clients) =~= ids);
    } else {
        assert(client_ids(after.clients) =~= ids.push(id));
    }
}

/// A well-formed world stays well-formed when a client declares itself
/// ready.
pub proof fn lemma_with_ready_client_wf(game: GameView, id: i32)
    requires
        game.wf(),
    ensures
        game.with_ready_client(id).wf(),
{
    let ids = client_ids(game.clients);
    lemma_first_index(ids, id);
    assert(client_ids(game.with_ready_client(id).clients) =~= ids);
}

/// A well-formed world stays well-formed when the match begins, when the
/// countdown ticks, and when the match ends.
pub proof fn lemma_phase_changes_keep_wf(game: GameView)
    requires
        game.wf(),
    ensures
        game.started().wf(),
        game.counted_down().wf(),
        game.stopped().wf(),
{
    assert(client_ids(game.stopped().clients) =~= client_ids(game.clients));
}

/// A well-formed world stays well-formed when a player is given its
/// actions.
pub proof fn lemma_with_player_input_wf(game: GameView, id: i32, bits: int)
    requires
        game.wf(),
    ensures
        game.with_player_input(id, bits).wf(),
{
    let ids = player_ids(game.players);
    lemma_first_index(ids, id);
    let at = first_index(ids, id);
    match InputSet::decode(bits) {
        Some(set) => {
            if at < game.players.len() {
                lemma_update_keeps_ids(game.players, at, game.players[at].with_input(set));
            }
        },
        None => {},
    }
}

/// Whether `spawns` holds a spawn point for each of `count` players, each
/// of them a point at which a player is inside the arena.
pub open spec fn valid_spawns(config: Config, spawns: Seq<ControllerPoint>, count: int) -> bool {
    &&& spawns.len() >= count
    &&& forall|i: int| 0 <= i < count ==> config.can_hold(#[trigger] spawns[i])
}

/// Putting a player in keeps the ids of the players that were there, adds
/// that of the new player, and keeps distinct ids distinct.
pub proof fn lemma_put_player(players: Seq<PlayerView>, player: PlayerView)
    requires
        distinct(player_ids(players)),
    ensures
        distinct(player_ids(put_player(players, player))),
        has_id(player_ids(put_player(players, player)), player.id),
        forall|id: i32|
            has_id(player_ids(players), id) ==> has_id(
                player_ids(put_player(players, player)),
                id,
            ),
        forall|i: int|
            0 <= i < put_player(players, player).len() ==> #[trigger] put_player(players, player)[i]
                == player || (i < players.len() && put_player(players, player)[i] == players[i]),
{
    let ids = player_ids(players);
    let after = put_player(players, player);
    let after_ids = player_ids(after);
    lemma_first_index(ids, player.id);
    let at = first_index(ids, player.id);
    if at < players.len() {
        assert(after_ids =~= ids);
    } else {
        assert(after_ids =~= ids.push(player.id));
        assert(after_ids[players.len() as int] == player.id);
    }
    lemma_first_index(after_ids, player.id);
    assert forall|id: i32| has_id(ids, id) implies has_id(after_ids, id) by {
        lemma_first_index(ids, id);
        lemma_first_index(after_ids, id);
        let k = first_index(ids, id);
        assert(after_ids[k] == id);
    }
}

/// A well-formed world stays well-formed while the players of a new match
/// are placed, and the clients keep their ids.
pub proof fn lemma_with_players_placed_wf(game: GameView, spawns: Seq<ControllerPoint>, count: int)
    requires
        game.wf(),
        game.status != GameControllerStatus::Stopped,
        0 <= count <= game.clients.len(),
        valid_spawns(game.config, spawns, count),
    ensures
        game.with_players_placed(spawns, count).wf(),
        game.with_players_placed(spawns, count).clients.len() == game.clients.len(),
        client_ids(game.with_players_placed(spawns, count).clients) == client_ids(game.clients),
        forall|i: int|
            count <= i < game.clients.len() ==> game.with_players_placed(spawns, count).clients[i]
                == game.clients[i],
        game.with_players_placed(spawns, count).config == game.config,
        game.with_players_placed(spawns, count).status == game.status,
        game.with_players_placed(spawns, count).countdown == game.countdown,
    decreases count,
{
    if count > 0 {
        let before = game.with_players_placed(spawns, count - 1);
        let after = game.with_players_placed(spawns, count);
        lemma_with_players_placed_wf(game, spawns, count - 1);
        let entry = game.clients[count - 1];
        if entry.client.lobby_status == ClientLobbyStatus::Ready {
            let player = PlayerView::placed(entry.id, spawns[count - 1]);
            lemma_put_player(before.players, player);
            assert(client_ids(after.clients) =~= client_ids(before.clients));
            assert(player.wf(game.config));
            assert forall|i: int| 0 <= i < after.players.len() implies (#[trigger] after.players[i]).wf(
                after.config,
            ) && after.players[i].cannon_shot.is_none() by {
                if after.players[i] != player {
                    assert(after.players[i] == before.players[i]);
                }
            }
        }
    }
}

/// A well-formed world stays well-formed when the countdown begins.
pub proof fn lemma_countdown_started_wf(game: GameView, spawns: Seq<ControllerPoint>)
    requires
        game.wf(),
        valid_spawns(game.config, spawns, game.clients.len() as int),
    ensures
        game.countdown_started(spawns).wf(),
{
    lemma_with_players_placed_wf(
        GameView {
            status: GameControllerStatus::Countdown,
            countdown: game.config.countdown_ticks,
            ..game
        },
        spawns,
        game.clients.len() as int,
    );
}

/// Without the first pair that holds an id, a queue that holds no player
/// twice holds that id no more; the pairs it keeps are pairs it had.
pub proof fn lemma_without_mention(queue: Seq<(i32, i32)>, players: Seq<PlayerView>, id: i32)
    requires
        queue_wf(queue, players),
    ensures
        !mentions(without_mention(queue, id), id),
        forall|k: int|
            0 <= k < without_mention(queue, id).len() ==> exists|l: int|
                0 <= l < queue.len() && queue[l] == #[trigger] without_mention(queue, id)[k],
        forall|k: int, l: int|
            0 <= k < l < without_mention(queue, id).len() ==> (#[trigger] without_mention(
                queue,
                id,
            )[k]).0 != (#[trigger] without_mention(queue, id)[l]).0 && without_mention(
                queue,
                id,
            )[k].0 != without_mention(queue, id)[l].1 && without_mention(queue, id)[k].1
                != without_mention(queue, id)[l].0 && without_mention(queue, id)[k].1
                != without_mention(queue, id)[l].1,
{
    let after = without_mention(queue, id);
    lemma_first_mention_from(queue, id, 0);
    lemma_mentions(after, id);
    let at = first_mention_from(queue, id, 0);
    if at < queue.len() {
        assert forall|k: int| 0 <= k < after.len() implies (#[trigger] after[k]).0 != id
            && after[k].1 != id by {
            if k < at {
                assert(after[k] == queue[k]);
            } else {
                assert(after[k] == queue[k + 1]);
                assert(queue[at].0 == id || queue[at].1 == id);
            }
        }
        assert forall|k: int| 0 <= k < after.len() implies exists|l: int|
            0 <= l < queue.len() && queue[l] == #[trigger] after[k] by {
            if k < at {
                assert(after[k] == queue[k]);
            } else {
                assert(after[k] == queue[k + 1]);
            }
        }
        assert forall|k: int, l: int| 0 <= k < l < after.len() implies (#[trigger] after[k]).0 != (
        #[trigger] after[l]).0 && after[k].0 != after[l].1 && after[k].1 != after[l].0
            && after[k].1 != after[l].1 by {
            let kk = if k < at { k } else { k + 1 };
            let ll = if l < at { l } else { l + 1 };
            assert(after[k] == queue[kk]);
            assert(after[l] == queue[ll]);
        }
    } else {
        assert forall|k: int| 0 <= k < after.len() implies exists|l: int|
            0 <= l < queue.len() && queue[l] == #[trigger] after[k] by {
            assert(queue[k] == after[k]);
        }
    }
}

/// A well-formed world stays well-formed when a client disconnects.
pub proof fn lemma_without_client_wf(game: GameView, id: i32)
    requires
        game.wf(),
    ensures
        game.without_client(id).wf(),
{
    let ids = client_ids(game.clients);
    let pids = player_ids(game.players);
    let after = game.without_client(id);
    lemma_first_index(ids, id);
    lemma_first_index(pids, id);
    let at = first_index(ids, id);
    let player_at = first_index(pids, id);
    if at < game.clients.len() {
        assert forall|i: int, j: int| 0 <= i < j < after.clients.len() implies client_ids(
            after.clients,
        )[i] != client_ids(after.clients)[j] by {
            let ii = if i < at { i } else { i + 1 };
            let jj = if j < at { j } else { j + 1 };
            assert(after.clients[i] == game.clients[ii]);
            assert(after.clients[j] == game.clients[jj]);
            assert(ids[ii] != ids[jj]);
        }
        if player_at < game.players.len() {
            let after_pids = player_ids(after.players);
            assert forall|i: int| 0 <= i < after.players.len() implies #[trigger] after.players[i]
                == game.players[if i < player_at { i } else { i + 1 }] by {}
            assert forall|i: int, j: int| 0 <= i < j < after.players.len() implies after_pids[i]
                != after_pids[j] by {
                let ii = if i < player_at { i } else { i + 1 };
                let jj = if j < player_at { j } else { j + 1 };
                assert(after.players[i] == game.players[ii]);
                assert(after.players[j] == game.players[jj]);
                assert(pids[ii] != pids[jj]);
            }
            assert forall|i: int| 0 <= i < after.players.len() implies (#[trigger] after.players[i]).wf(
                after.config,
            ) && after.players[i].cannon_shot.is_none() by {
                let ii = if i < player_at { i } else { i + 1 };
                assert(after.players[i] == game.players[ii]);
            }
            lemma_without_mention(game.handle_collisions, game.players, id);
            lemma_mentions(after.handle_collisions, id);
            let queue = after.handle_collisions;
            assert forall|k: int| 0 <= k < queue.len() implies (#[trigger] queue[k]).0 != queue[k].1
                && has_id(after_pids, queue[k].0) && has_id(after_pids, queue[k].1) by {
                let l = choose|l: int|
                    0 <= l < game.handle_collisions.len() && game.handle_collisions[l] == queue[k];
                assert(game.handle_collisions[l] == queue[k]);
                lemma_id_survives_removal(game.players, player_at, queue[k].0);
                lemma_id_survives_removal(game.players, player_at, queue[k].1);
            }
        }
    }
}

/// A player that is not the one removed is still there after the removal.
pub proof fn lemma_id_survives_removal(players: Seq<PlayerView>, at: int, id: i32)
    requires
        0 <= at < players.len(),
        players[at].id != id,
        has_id(player_ids(players), id),
    ensures
        has_id(player_ids(players.remove(at)), id),
{
    let ids = player_ids(players);
    let after_ids = player_ids(players.remove(at));
    lemma_first_index(ids, id);
    lemma_first_index(after_ids, id);
    let k = first_index(ids, id);
    if k < at {
        assert(players.remove(at)[k] == players[k]);
        assert(after_ids[k] == id);
    } else {
        assert(players.remove(at)[k - 1] == players[k]);
        assert(after_ids[k - 1] == id);
    }
}

} // verus!
