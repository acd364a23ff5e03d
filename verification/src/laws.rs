//! What holds of the game as a whole.

use vstd::prelude::*;
use crate::client::Client;
use crate::geometry::ControllerPoint;
use crate::messages::{ClientRequestType, Command, InputRequest, OutboundView};
use crate::player::{boxes_overlap, PlayerView};
use crate::registry::{distinct, first_index, has_id, lemma_first_index, lemma_first_index_is};
use crate::simulation::{pair_queued, row_queued, rows_queued};
use crate::status::{ClientLobbyStatus, ClientStatus, GameControllerStatus};
use crate::world::{
    client_ids, in_game_among, lemma_mentions, mentions, player_ids, ClientEntry, GameView,
};

verus! {

/// Whether nothing is left to queue for the players with the indices `i`
/// and `j`: whether their boxes do not overlap, or one of them is queued
/// for a collision.
pub open spec fn settled(players: Seq<PlayerView>, queue: Seq<(i32, i32)>, i: int, j: int) -> bool {
    !boxes_overlap(players[i].position, players[j].position) || mentions(queue, players[i].id)
        || mentions(queue, players[j].id)
}

/// A player that is queued for a collision stays queued when the queue
/// grows at its end.
pub proof fn lemma_mentions_grow(queue: Seq<(i32, i32)>, longer: Seq<(i32, i32)>, id: i32)
    requires
        queue.len() <= longer.len(),
        longer.subrange(0, queue.len() as int) == queue,
        mentions(queue, id),
    ensures
        mentions(longer, id),
{
    lemma_mentions(queue, id);
    lemma_mentions(longer, id);
    let k = choose|k: int| 0 <= k < queue.len() && ((#[trigger] queue[k]).0 == id || queue[k].1 == id);
    assert(longer.subrange(0, queue.len() as int)[k] == longer[k]);
    assert(longer[k].0 == id || longer[k].1 == id);
}

/// Looking at a pair of players leaves nothing to queue for it, and
/// changes nothing if nothing was left to queue for it.
pub proof fn lemma_pair_settles(players: Seq<PlayerView>, queue: Seq<(i32, i32)>, i: int, j: int)
    ensures
        settled(players, pair_queued(players, queue, i, j), i, j),
        settled(players, queue, i, j) ==> pair_queued(players, queue, i, j) == queue,
        queue.len() <= pair_queued(players, queue, i, j).len(),
        pair_queued(players, queue, i, j).subrange(0, queue.len() as int) == queue,
{
    let after = pair_queued(players, queue, i, j);
    assert(after.subrange(0, queue.len() as int) =~= queue);
    if after != queue {
        lemma_mentions(after, players[i].id);
        assert(after[queue.len() as int].0 == players[i].id);
    }
}

/// Looking at one player together with those after it leaves nothing to
/// queue for any of these pairs, and the queue only grows at its end.
pub proof fn lemma_row_settles(
    players: Seq<PlayerView>,
    queue: Seq<(i32, i32)>,
    i: int,
    upto: int,
)
    ensures
        forall|j: int| i < j < upto ==> settled(players, row_queued(players, queue, i, upto), i, j),
        queue.len() <= row_queued(players, queue, i, upto).len(),
        row_queued(players, queue, i, upto).subrange(0, queue.len() as int) == queue,
    decreases upto - i,
{
    let after = row_queued(players, queue, i, upto);
    if upto > i + 1 {
        let before = row_queued(players, queue, i, upto - 1);
        lemma_row_settles(players, queue, i, upto - 1);
        lemma_pair_settles(players, before, i, upto - 1);
        assert(after.subrange(0, queue.len() as int) =~= before.subrange(0, queue.len() as int));
        assert forall|j: int| i < j < upto implies settled(players, after, i, j) by {
            if j < upto - 1 {
                assert(settled(players, before, i, j));
                if mentions(before, players[i].id) {
                    lemma_mentions_grow(before, after, players[i].id);
                }
                if mentions(before, players[j].id) {
                    lemma_mentions_grow(before, after, players[j].id);
                }
            }
        }
    } else {
        assert(queue.subrange(0, queue.len() as int) =~= queue);
    }
}

/// Looking at the players pair by pair leaves nothing to queue for any
/// pair that was looked at, and the queue only grows at its end.
pub proof fn lemma_rows_settle(players: Seq<PlayerView>, queue: Seq<(i32, i32)>, rows: int)
    ensures
        forall|i: int, j: int|
            0 <= i < rows && i < j < players.len() ==> settled(
                players,
                rows_queued(players, queue, rows),
                i,
                j,
            ),
        queue.len() <= rows_queued(players, queue, rows).len(),
        rows_queued(players, queue, rows).subrange(0, queue.len() as int) == queue,
    decreases rows,
{
    let after = rows_queued(players, queue, rows);
    if rows > 0 {
        let before = rows_queued(players, queue, rows - 1);
        lemma_rows_settle(players, queue, rows - 1);
        lemma_row_settles(players, before, rows - 1, players.len() as int);
        assert(after.subrange(0, queue.len() as int) =~= before.subrange(0, queue.len() as int));
        assert forall|i: int, j: int| 0 <= i < rows && i < j < players.len() implies settled(
            players,
            after,
            i,
            j,
        ) by {
            if i < rows - 1 {
                assert(settled(players, before, i, j));
                if mentions(before, players[i].id) {
                    lemma_mentions_grow(before, after, players[i].id);
                }
                if mentions(before, players[j].id) {
                    lemma_mentions_grow(before, after, players[j].id);
                }
            }
        }
    } else {
        assert(queue.subrange(0, queue.len() as int) =~= queue);
    }
}

/// Where nothing is left to queue for the pairs of one player with those
/// after it, looking at them changes nothing.
pub proof fn lemma_settled_row_stays(
    players: Seq<PlayerView>,
    queue: Seq<(i32, i32)>,
    i: int,
    upto: int,
)
    requires
        forall|j: int| i < j < upto ==> settled(players, queue, i, j),
    ensures
        row_queued(players, queue, i, upto) == queue,
    decreases upto - i,
{
    if upto > i + 1 {
        lemma_settled_row_stays(players, queue, i, upto - 1);
        assert(settled(players, queue, i, upto - 1));
    }
}

/// Where nothing is left to queue for any pair, looking at the players
/// pair by pair changes nothing.
pub proof fn lemma_settled_rows_stay(players: Seq<PlayerView>, queue: Seq<(i32, i32)>, rows: int)
    requires
        forall|i: int, j: int|
            0 <= i < rows && i < j < players.len() ==> settled(players, queue, i, j),
    ensures
        rows_queued(players, queue, rows) == queue,
    decreases rows,
{
    if rows > 0 {
        lemma_settled_rows_stay(players, queue, rows - 1);
        let last = rows - 1;
        assert forall|j: int| last < j < players.len() implies settled(players, queue, last, j) by {}
        lemma_settled_row_stays(players, queue, last, players.len() as int);
    }
}

/// A collision is queued once for as long as it is not resolved. When the
/// collisions of the overlapping players have been queued, every pair of
/// overlapping players has one of its players in the queue; the pairs that
/// were queued before are still queued, in their places; and queueing the
/// collisions again, however often, before the queue is resolved, adds
/// nothing, though the players overlap as before.
pub proof fn lemma_collision_queued_once(game: GameView)
    ensures
        game.collisions_detected().collisions_detected() == game.collisions_detected(),
        game.handle_collisions.len() <= game.collisions_detected().handle_collisions.len(),
        game.collisions_detected().handle_collisions.subrange(
            0,
            game.handle_collisions.len() as int,
        ) == game.handle_collisions,
        forall|i: int, j: int|
            0 <= i < j < game.players.len() && boxes_overlap(
                game.players[i].position,
                game.players[j].position,
            ) ==> mentions(game.collisions_detected().handle_collisions, game.players[i].id)
                || mentions(game.collisions_detected().handle_collisions, game.players[j].id),
{
    let queue = game.collisions_detected().handle_collisions;
    lemma_rows_settle(game.players, game.handle_collisions, game.players.len() as int);
    assert forall|i: int, j: int| 0 <= i < j < game.players.len() && boxes_overlap(
        game.players[i].position,
        game.players[j].position,
    ) implies mentions(queue, game.players[i].id) || mentions(queue, game.players[j].id) by {
        assert(settled(game.players, queue, i, j));
    }
    lemma_settled_rows_stay(game.players, queue, game.players.len() as int);
}

/// Placing the players of clients that are all ready, in a world without
/// players, gives each client a player of its own, in the order of the
/// clients, and puts each client in the game.
pub proof fn lemma_all_ready_placed(game: GameView, spawns: Seq<ControllerPoint>, count: int)
    requires
        distinct(client_ids(game.clients)),
        game.players.len() == 0,
        0 <= count <= game.clients.len(),
        forall|i: int|
            0 <= i < count ==> (#[trigger] game.clients[i]).client.lobby_status
                == ClientLobbyStatus::Ready,
    ensures
        ({
            let after = game.with_players_placed(spawns, count);
            &&& after.players == Seq::new(
                count as nat,
                |i: int| PlayerView::placed(game.clients[i].id, spawns[i]),
            )
            &&& after.clients.len() == game.clients.len()
            &&& forall|i: int|
                0 <= i < count ==> #[trigger] after.clients[i] == (ClientEntry {
                    id: game.clients[i].id,
                    client: Client {
                        status: ClientStatus::InGame,
                        lobby_status: ClientLobbyStatus::Ready,
                    },
                })
            &&& forall|i: int|
                count <= i < game.clients.len() ==> #[trigger] after.clients[i] == game.clients[i]
            &&& after.status == game.status
            &&& after.countdown == game.countdown
        }),
    decreases count,
{
    let after = game.with_players_placed(spawns, count);
    if count > 0 {
        let before = game.with_players_placed(spawns, count - 1);
        lemma_all_ready_placed(game, spawns, count - 1);
        let entry = game.clients[count - 1];
        let ids = player_ids(before.players);
        assert forall|k: int| 0 <= k < ids.len() implies ids[k] != entry.id by {
            assert(client_ids(game.clients)[k] != client_ids(game.clients)[count - 1]);
        }
        lemma_first_index_is(ids, entry.id, ids.len() as int);
        assert(after.players =~= Seq::new(
            count as nat,
            |i: int| PlayerView::placed(game.clients[i].id, spawns[i]),
        ));
    } else {
        assert(after.players =~= Seq::new(
            count as nat,
            |i: int| PlayerView::placed(game.clients[i].id, spawns[i]),
        ));
    }
}

/// From stopped to countdown. When a request in the lobby leaves two or
/// more clients, all of them ready, while no match is on, the countdown
/// begins: it has its full number of ticks to run, every client is in the
/// game, and every client has a new player of its own.
pub proof fn lemma_ready_clients_begin_countdown(
    game: GameView,
    request: InputRequest,
    spawns: Seq<ControllerPoint>,
)
    requires
        game.wf(),
        game.status == GameControllerStatus::Stopped,
        request.field_type == ClientRequestType::LobbyInput,
        game.with_lobby_request(request).all_ready(),
    ensures
        ({
            let after = game.applied(Command::Input(request), spawns);
            &&& after.status == GameControllerStatus::Countdown
            &&& after.countdown == game.config.countdown_ticks
            &&& after.clients.len() == game.clients.len()
            &&& after.players.len() == game.clients.len()
            &&& after.in_game_clients() == game.clients.len()
            &&& forall|i: int|
                0 <= i < after.clients.len() ==> (#[trigger] after.clients[i]).id
                    == game.clients[i].id && after.clients[i].client.status
                    == ClientStatus::InGame && after.players[i] == PlayerView::placed(
                    game.clients[i].id,
                    spawns[i],
                )
        }),
{
    let asked = game.with_lobby_request(request);
    lemma_first_index(client_ids(game.clients), request.player_id);
    assert(client_ids(asked.clients) =~= client_ids(game.clients));
    let begun = GameView {
        status: GameControllerStatus::Countdown,
        countdown: asked.config.countdown_ticks,
        ..asked
    };
    lemma_all_ready_placed(begun, spawns, begun.clients.len() as int);
    let after = game.applied(Command::Input(request), spawns);
    lemma_all_in_game(after.clients, after.clients.len() as int);
}

/// Where each of the first `count` clients is in the game, that many are.
pub proof fn lemma_all_in_game(clients: Seq<ClientEntry>, count: int)
    requires
        0 <= count <= clients.len(),
        forall|i: int|
            0 <= i < count ==> (#[trigger] clients[i]).client.status == ClientStatus::InGame,
    ensures
        in_game_among(clients, count) == count,
    decreases count,
{
    if count > 0 {
        lemma_all_in_game(clients, count - 1);
    }
}

impl GameView {
    /// The world after `ticks` ticks of the clock, each of them with the
    /// same spawn points.
    pub open spec fn clock_ticked_for(self, spawns: Seq<ControllerPoint>, ticks: nat) -> GameView
        decreases ticks,
    {
        if ticks == 0 {
            self
        } else {
            self.clock_ticked_for(spawns, (ticks - 1) as nat).clock_ticked(spawns)
        }
    }

    /// The number of ticks of the clock that a countdown takes: as many as
    /// are left of it, and one at least.
    pub open spec fn countdown_length(self) -> int {
        if self.countdown > 1 {
            self.countdown as int
        } else {
            1
        }
    }
}

/// From countdown to playing. Every tick of the clock during the countdown
/// counts one tick down and leaves clients and players as they are. For as
/// long as ticks are left the countdown goes on; with the tick that leaves
/// none, the match is on.
pub proof fn lemma_countdown_runs_out(game: GameView, spawns: Seq<ControllerPoint>, ticks: nat)
    requires
        game.wf(),
        game.status == GameControllerStatus::Countdown,
        ticks <= game.countdown_length(),
    ensures
        game.applied(Command::Tick, spawns) == game.clock_ticked(spawns),
        ticks < game.countdown_length() ==> game.clock_ticked_for(spawns, ticks).status
            == GameControllerStatus::Countdown && game.clock_ticked_for(spawns, ticks).countdown
            == game.countdown - ticks,
        ticks == game.countdown_length() ==> game.clock_ticked_for(spawns, ticks).status
            == GameControllerStatus::Playing && game.clock_ticked_for(spawns, ticks).countdown
            == 0,
        game.clock_ticked_for(spawns, ticks).players == game.players,
        game.clock_ticked_for(spawns, ticks).clients == game.clients,
    decreases ticks,
{
    if ticks > 0 {
        lemma_countdown_runs_out(game, spawns, (ticks - 1) as nat);
    }
}

/// From playing to stopped. A tick of a match with fewer than two clients
/// in the game ends the match: no player is left, every client is back in
/// the lobby and waits, and the lobby is what the clients are shown.
pub proof fn lemma_too_few_clients_stop_match(game: GameView, spawns: Seq<ControllerPoint>)
    requires
        game.status == GameControllerStatus::Playing,
        game.in_game_clients() < 2,
    ensures
        ({
            let after = game.applied(Command::Tick, spawns);
            &&& after.status == GameControllerStatus::Stopped
            &&& after.players.len() == 0
            &&& after.handle_collisions.len() == 0
            &&& after.clients.len() == game.clients.len()
            &&& forall|i: int|
                0 <= i < after.clients.len() ==> #[trigger] after.clients[i] == (ClientEntry {
                    id: game.clients[i].id,
                    client: Client::fresh(),
                })
            &&& game.replies(Command::Tick, spawns) == seq![
                OutboundView::Lobby(after.lobby_snapshot()),
            ]
        }),
{
}

/// Without one of the first `count` clients, one fewer of them is in the
/// game if the one that is gone was, and as many as before if it was not.
pub proof fn lemma_in_game_without(clients: Seq<ClientEntry>, at: int, count: int)
    requires
        0 <= at < count <= clients.len(),
    ensures
        in_game_among(clients.remove(at), count - 1) == in_game_among(clients, count) - if clients[at].client.status
            == ClientStatus::InGame {
            1int
        } else {
            0
        },
    decreases count,
{
    if count - 1 > at {
        lemma_in_game_without(clients, at, count - 1);
        assert(clients.remove(at)[count - 2] == clients[count - 1]);
    } else {
        lemma_in_game_same_prefix(clients, clients.remove(at), at);
    }
}

/// Clients that agree on their first `count` entries have as many of them
/// in the game.
pub proof fn lemma_in_game_same_prefix(a: Seq<ClientEntry>, b: Seq<ClientEntry>, count: int)
    requires
        0 <= count <= a.len(),
        count <= b.len(),
        forall|i: int| 0 <= i < count ==> a[i] == b[i],
    ensures
        in_game_among(a, count) == in_game_among(b, count),
    decreases count,
{
    if count > 0 {
        lemma_in_game_same_prefix(a, b, count - 1);
    }
}

/// A match that drops to one client in the game stops. When one of
/// exactly two clients in the game disconnects while the match is on, the
/// next tick of the clock ends the match and removes every player.
pub proof fn lemma_dropping_to_one_client_stops_match(
    game: GameView,
    id: i32,
    leave_spawns: Seq<ControllerPoint>,
    tick_spawns: Seq<ControllerPoint>,
)
    requires
        game.wf(),
        game.status == GameControllerStatus::Playing,
        game.in_game_clients() == 2,
        has_id(client_ids(game.clients), id),
        game.clients[first_index(client_ids(game.clients), id)].client.status
            == ClientStatus::InGame,
    ensures
        ({
            let left = game.applied(Command::Disconnect(id), leave_spawns);
            let after = left.applied(Command::Tick, tick_spawns);
            &&& left.status == GameControllerStatus::Playing
            &&& left.in_game_clients() == 1
            &&& after.status == GameControllerStatus::Stopped
            &&& after.players.len() == 0
        }),
{
    let ids = client_ids(game.clients);
    lemma_first_index(ids, id);
    let at = first_index(ids, id);
    lemma_in_game_without(game.clients, at, game.clients.len() as int);
    let left = game.applied(Command::Disconnect(id), leave_spawns);
    assert(left.clients == game.clients.remove(at));
    lemma_too_few_clients_stop_match(left, tick_spawns);
}

} // verus!
