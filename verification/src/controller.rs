//! The game itself: the one owner of the world.

use vstd::prelude::*;
use std::collections::VecDeque;
use crate::client::Client;
use crate::config::Config;
use crate::messages::InputRequest;
use crate::player::{Player, PlayerView};
use crate::registry::{first_index, lemma_first_index_is};
use crate::status::{ClientLobbyStatus, ClientStatus, GameControllerStatus};
use crate::config::PLAYER_SIZE;
use crate::geometry::ControllerPoint;
use crate::world::{
    client_ids, first_mention_from, in_game_among, lemma_countdown_started_wf,
    lemma_phase_changes_keep_wf, lemma_with_client_wf,
    lemma_with_player_input_wf, lemma_with_ready_client_wf,
    lemma_without_client_wf, player_ids, put_player, valid_spawns, without_mention, ClientEntry,
    ExplosionEntry, GameView, ShotEntry, ShotEntryView,
};

pub mod command;
pub mod inspect;
pub mod output;
pub mod tick;

verus! {

/// The game. It holds the clients that are connected and, while a match is
/// on, their players, the shots in flight and the blasts.
pub struct GameController {
    config: Config,
    handle_collisions: VecDeque<(i32, i32)>,
    clients: Vec<ClientEntry>,
    players: Vec<Player>,
    cannon_shots: Vec<ShotEntry>,
    explosions: Vec<ExplosionEntry>,
    internal_id_count: i32,
    status: GameControllerStatus,
    countdown: i32,
}

/// What the players of a list are.
pub open spec fn players_view(players: Seq<Player>) -> Seq<PlayerView> {
    Seq::new(players.len(), |i: int| players[i]@)
}

/// What the shots of a list are.
pub open spec fn shots_view(shots: Seq<ShotEntry>) -> Seq<ShotEntryView> {
    Seq::new(shots.len(), |i: int| shots[i]@)
}

impl View for GameController {
    type V = GameView;

    closed spec fn view(&self) -> GameView {
        GameView {
            config: self.config,
            status: self.status,
            countdown: self.countdown,
            internal_id_count: self.internal_id_count,
            clients: self.clients@,
            players: players_view(self.players@),
            cannon_shots: shots_view(self.cannon_shots@),
            explosions: self.explosions@,
            handle_collisions: self.handle_collisions@,
        }
    }
}

/// The index of the first client with that id; the number of clients if
/// there is none.
pub fn find_client(clients: &Vec<ClientEntry>, id: i32) -> (at: usize)
    ensures
        at == first_index(client_ids(clients@), id),
        at <= clients.len(),
        at < clients.len() ==> clients[at as int].id == id,
{
    let mut at: usize = 0;
    while at < clients.len() && clients[at].id != id
        invariant
            at <= clients.len(),
            forall|k: int| 0 <= k < at ==> clients[k].id != id,
        decreases clients.len() - at,
    {
        at = at + 1;
    }
    proof {
        lemma_first_index_is(client_ids(clients@), id, at as int);
    }
    at
}

/// The index of the first player with that id; the number of players if
/// there is none.
pub fn find_player(players: &Vec<Player>, id: i32) -> (at: usize)
    ensures
        at == first_index(player_ids(players_view(players@)), id),
        at <= players.len(),
        at < players.len() ==> players[at as int].id == id,
{
    let mut at: usize = 0;
    while at < players.len() && players[at].id != id
        invariant
            at <= players.len(),
            forall|k: int| 0 <= k < at ==> players[k].id != id,
        decreases players.len() - at,
    {
        at = at + 1;
    }
    proof {
        lemma_first_index_is(player_ids(players_view(players@)), id, at as int);
    }
    at
}

/// Sends every client back to the lobby, where it waits again.
fn send_all_to_lobby(clients: &mut Vec<ClientEntry>)
    ensures
        final(clients).len() == old(clients).len(),
        forall|k: int|
            0 <= k < old(clients).len() ==> final(clients)[k] == (ClientEntry {
                id: old(clients)[k].id,
                client: Client::fresh(),
            }),
{
    let mut at: usize = 0;
    while at < clients.len()
        invariant
            at <= clients.len(),
            clients.len() == old(clients).len(),
            forall|k: int|
                0 <= k < at ==> clients[k] == (ClientEntry {
                    id: old(clients)[k].id,
                    client: Client::fresh(),
                }),
            forall|k: int| at <= k < clients.len() ==> clients[k] == old(clients)[k],
        decreases clients.len() - at,
    {
        clients[at].client.back_to_lobby_and_wait();
        at = at + 1;
    }
}

/// Puts a player in: in the place of the player with the same id if there
/// is one, else at the end.
pub fn put_player_in(players: &mut Vec<Player>, player: Player)
    ensures
        players_view(final(players)@) == put_player(players_view(old(players)@), player@),
{
    let at = find_player(players, player.id);
    if at < players.len() {
        players[at] = player;
    } else {
        players.push(player);
    }
    assert(players_view(players@) =~= put_player(players_view(old(players)@), player@));
}

/// Removes the first pair that holds `id` from a queue of collisions.
pub fn forget_collision(queue: &mut VecDeque<(i32, i32)>, id: i32)
    ensures
        final(queue)@ == without_mention(old(queue)@, id),
{
    let mut at: usize = 0;
    while at < queue.len() && queue[at].0 != id && queue[at].1 != id
        invariant
            at <= queue.len(),
            first_mention_from(queue@, id, 0) == first_mention_from(queue@, id, at as int),
        decreases queue.len() - at,
    {
        at = at + 1;
    }
    if at < queue.len() {
        queue.remove(at);
    }
}

/// Draws `count` spawn points at random, each of them a point of the pixel
/// grid at which a player is inside the arena.
pub fn draw_spawns(config: &Config, count: usize) -> (spawns: Vec<ControllerPoint>)
    requires
        config.wf(),
    ensures
        spawns.len() == count,
        valid_spawns(*config, spawns@, count as int),
{
    let mut spawns: Vec<ControllerPoint> = Vec::new();
    while spawns.len() < count
        invariant
            config.wf(),
            spawns.len() <= count,
            valid_spawns(*config, spawns@, spawns.len() as int),
        decreases count - spawns.len(),
    {
        let point = ControllerPoint::random_point(
            config.arena_height - PLAYER_SIZE,
            config.arena_width - PLAYER_SIZE,
        );
        spawns.push(point);
    }
    spawns
}

impl GameController {
    /// Whether the game is in a state that it can be in. Every game that
    /// this module hands out is, and stays so under all that can be done
    /// to it.
    pub open spec fn wf(&self) -> bool {
        self@.wf()
    }

    /// A game with the standard settings, before anyone has connected.
    pub fn new() -> (game: GameController)
        ensures
            game@ == GameView::initial(Config::standard_spec()),
            game.wf(),
    {
        let game = GameController {
            status: GameControllerStatus::Stopped,
            countdown: 0,
            internal_id_count: 0,
            config: Config::standard(),
            clients: Vec::new(),
            players: Vec::new(),
            cannon_shots: Vec::new(),
            explosions: Vec::new(),
            handle_collisions: VecDeque::new(),
        };
        assert(game@.players =~= Seq::empty());
        assert(game@.cannon_shots =~= Seq::empty());
        game
    }

    /// A game with the given settings, before anyone has connected; `None`
    /// if no game can be run with them.
    pub fn with_config(config: Config) -> (game: Option<GameController>)
        ensures
            game.is_some() <==> config.wf(),
            game matches Some(g) ==> g@ == GameView::initial(config) && g.wf(),
    {
        if !config.is_valid() {
            return None;
        }
        let game = GameController {
            status: GameControllerStatus::Stopped,
            countdown: 0,
            internal_id_count: 0,
            config,
            clients: Vec::new(),
            players: Vec::new(),
            cannon_shots: Vec::new(),
            explosions: Vec::new(),
            handle_collisions: VecDeque::new(),
        };
        assert(game@.players =~= Seq::empty());
        assert(game@.cannon_shots =~= Seq::empty());
        Some(game)
    }

    /// Whether the match is on.
    pub fn is_playing(&self) -> (playing: bool)
        ensures
            playing == (self@.status == GameControllerStatus::Playing),
    {
        self.status == GameControllerStatus::Playing
    }

    /// Whether the countdown is running.
    pub fn is_counting_down(&self) -> (counting: bool)
        ensures
            counting == (self@.status == GameControllerStatus::Countdown),
    {
        self.status == GameControllerStatus::Countdown
    }

    /// Whether the world is to be advanced on a tick: whether the match
    /// is on.
    pub fn should_tick(&self) -> (playing: bool)
        ensures
            playing == (self@.status == GameControllerStatus::Playing),
    {
        self.status == GameControllerStatus::Playing
    }

    /// Whether the match can begin: whether there are two clients or more
    /// and all of them are ready.
    pub fn clients_ready(&self) -> (ready: bool)
        ensures
            ready == self@.all_ready(),
    {
        if self.clients.len() <= 1 {
            return false;
        }
        let mut at: usize = 0;
        while at < self.clients.len()
            invariant
                at <= self.clients.len(),
                forall|k: int|
                    0 <= k < at ==> (#[trigger] self.clients[k]).client.lobby_status
                        == ClientLobbyStatus::Ready,
            decreases self.clients.len() - at,
        {
            if self.clients[at].client.lobby_status != ClientLobbyStatus::Ready {
                return false;
            }
            at = at + 1;
        }
        true
    }

    /// Marks the client `id` as ready for the match. An id that no client
    /// has is ignored.
    pub fn set_client_ready_for_war(&mut self, id: i32)
        requires
            old(self).wf(),
        ensures
            final(self)@ == old(self)@.with_ready_client(id),
            final(self).wf(),
    {
        let at = find_client(&self.clients, id);
        if at < self.clients.len() {
            self.clients[at].client.set_ready();
            assert(self.clients@ == old(self).clients@.update(at as int, self.clients@[at as int]));
        }
        proof {
            lemma_with_ready_client_wf(old(self)@, id);
        }
    }

    /// Counts one tick of the countdown down. When no tick is left, the
    /// match begins.
    pub fn countdown(&mut self)
        requires
            old(self).wf(),
        ensures
            final(self)@ == old(self)@.counted_down(),
            final(self).wf(),
    {
        if self.countdown > 0 {
            self.countdown -= 1;
        } else {
            self.countdown = 0;
        }
        if self.countdown <= 0 {
            self.start();
        }
        proof {
            lemma_phase_changes_keep_wf(old(self)@);
        }
    }

    /// Begins the match if the countdown is running.
    pub fn start(&mut self)
        ensures
            final(self)@ == old(self)@.started(),
    {
        if self.status != GameControllerStatus::Countdown {
            return;
        }
        self.status = GameControllerStatus::Playing;
    }

    /// Ends the match: removes every player and sends every client back
    /// to the lobby, where it waits again.
    pub fn stop(&mut self)
        requires
            old(self).wf(),
        ensures
            final(self)@ == old(self)@.stopped(),
            final(self).wf(),
    {
        self.status = GameControllerStatus::Stopped;
        self.players.clear();
        self.handle_collisions.clear();
        send_all_to_lobby(&mut self.clients);
        assert(self@.clients =~= old(self)@.stopped().clients);
        assert(self@.players =~= Seq::empty());
        proof {
            lemma_phase_changes_keep_wf(old(self)@);
        }
    }

    /// Takes the actions that a player holds down from a message. A
    /// message for an id that no player has, and one whose input is no
    /// bitmask of actions, is ignored.
    pub fn player_input(&mut self, input: InputRequest)
        requires
            old(self).wf(),
        ensures
            final(self)@ == old(self)@.with_player_input(input.player_id, input.input as int),
            final(self).wf(),
    {
        let at = find_player(&self.players, input.player_id);
        if at < self.players.len() {
            self.players[at].input(input.input);
            assert(self@.players =~= old(self)@.with_player_input(
                input.player_id,
                input.input as int,
            ).players);
        }
        proof {
            lemma_with_player_input_wf(old(self)@, input.player_id, input.input as int);
        }
    }

    /// Takes in a client that has connected under `id`: it is in the
    /// lobby, and waiting.
    pub fn add_client(&mut self, id: i32)
        requires
            old(self).wf(),
        ensures
            final(self)@ == old(self)@.with_client(id),
            final(self).wf(),
    {
        let at = find_client(&self.clients, id);
        let entry = ClientEntry { id, client: Client::new() };
        if at < self.clients.len() {
            self.clients[at] = entry;
        } else {
            self.clients.push(entry);
        }
        proof {
            lemma_with_client_wf(old(self)@, id);
        }
    }

    /// The number of clients that are in the game.
    pub fn in_game_clients(&self) -> (count: usize)
        ensures
            count == self@.in_game_clients(),
    {
        let mut count: usize = 0;
        let mut at: usize = 0;
        while at < self.clients.len()
            invariant
                at <= self.clients.len(),
                count <= at,
                count == in_game_among(self.clients@, at as int),
            decreases self.clients.len() - at,
        {
            if self.clients[at].client.status == ClientStatus::InGame {
                count = count + 1;
            }
            at = at + 1;
        }
        count
    }
    /// Takes out the client `id` and its player, if it has one. An id that
    /// no client has is ignored.
    pub fn drop_client(&mut self, client_id: i32)
        requires
            old(self).wf(),
        ensures
            final(self)@ == old(self)@.without_client(client_id),
            final(self).wf(),
    {
        let at = find_client(&self.clients, client_id);
        if at < self.clients.len() {
            self.clients.remove(at);
            let player_at = find_player(&self.players, client_id);
            if player_at < self.players.len() {
                self.players.remove(player_at);
                forget_collision(&mut self.handle_collisions, client_id);
                assert(self@.players =~= old(self)@.players.remove(player_at as int));
            }
        }
        proof {
            lemma_without_client_wf(old(self)@, client_id);
        }
    }

    /// Begins the countdown to a match. Every client that is ready is in
    /// the game from now on and gets a new player, placed at a random
    /// point of the arena.
    pub fn start_countdown(&mut self)
        requires
            old(self).wf(),
        ensures
            final(self).wf(),
            exists|spawns: Seq<ControllerPoint>|
                valid_spawns(old(self)@.config, spawns, old(self)@.clients.len() as int)
                    && final(self)@ == #[trigger] old(self)@.countdown_started(spawns),
    {
        let spawns = draw_spawns(&self.config, self.clients.len());
        self.start_countdown_at(&spawns);
    }

    /// Begins the countdown to a match, with the players placed at the
    /// given points: the player of the client with index `i` at `spawns[i]`.
    pub fn start_countdown_at(&mut self, spawns: &Vec<ControllerPoint>)
        requires
            old(self).wf(),
            valid_spawns(old(self)@.config, spawns@, old(self)@.clients.len() as int),
        ensures
            final(self)@ == old(self)@.countdown_started(spawns@),
            final(self).wf(),
    {
        self.status = GameControllerStatus::Countdown;
        self.countdown = self.config.countdown_ticks;
        let ghost begun = self@;
        let mut at: usize = 0;
        while at < self.clients.len()
            invariant
                at <= self.clients.len(),
                self.clients.len() == old(self).clients.len(),
                spawns.len() >= self.clients.len(),
                begun.clients == old(self).clients@,
                self@ == begun.with_players_placed(spawns@, at as int),
                forall|k: int| at <= k < self.clients.len() ==> self.clients[k] == old(self).clients[k],
            decreases self.clients.len() - at,
        {
            if self.clients[at].client.lobby_status == ClientLobbyStatus::Ready {
                let player = Player::spawn(self.clients[at].id, spawns[at]);
                put_player_in(&mut self.players, player);
                self.clients[at].client.go_to_war();
            }
            at = at + 1;
            assert(self@.clients =~= begun.with_players_placed(spawns@, at as int).clients);
        }
        proof {
            lemma_countdown_started_wf(old(self)@, spawns@);
        }
    }
}

} // verus!
