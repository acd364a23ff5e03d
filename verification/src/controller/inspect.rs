//! Looking into the game.

use vstd::prelude::*;
use crate::client::Client;
use crate::config::Config;
use crate::controller::{find_client, find_player, GameController};
use crate::registry::first_index;
use crate::status::GameControllerStatus;
use crate::world::{client_ids, player_ids};

verus! {

impl GameController {
    /// The settings of the game.
    pub fn config(&self) -> (config: Config)
        ensures
            config == self@.config,
    {
        self.config
    }

    /// The phase of the match.
    pub fn status(&self) -> (status: GameControllerStatus)
        ensures
            status == self@.status,
    {
        self.status
    }

    /// The ticks left of the countdown.
    pub fn countdown_left(&self) -> (ticks: i32)
        ensures
            ticks == self@.countdown,
    {
        self.countdown
    }

    /// The number of clients.
    pub fn client_count(&self) -> (count: usize)
        ensures
            count == self@.clients.len(),
    {
        self.clients.len()
    }

    /// The number of players.
    pub fn player_count(&self) -> (count: usize)
        ensures
            count == self@.players.len(),
    {
        self.players.len()
    }

    /// The number of shots, those that have not moved yet included.
    pub fn shot_count(&self) -> (count: usize)
        ensures
            count == self@.cannon_shots.len(),
    {
        self.cannon_shots.len()
    }

    /// The number of blasts.
    pub fn explosion_count(&self) -> (count: usize)
        ensures
            count == self@.explosions.len(),
    {
        self.explosions.len()
    }

    /// The client with that id, if there is one.
    pub fn client(&self, id: i32) -> (client: Option<Client>)
        ensures
            client == if first_index(client_ids(self@.clients), id) < self@.clients.len() {
                Some(self@.clients[first_index(client_ids(self@.clients), id)].client)
            } else {
                None
            },
    {
        let at = find_client(&self.clients, id);
        if at < self.clients.len() {
            Some(self.clients[at].client)
        } else {
            None
        }
    }

    /// The speed of the player with that id along the x and the y axis,
    /// if there is such a player.
    pub fn player_velocity(&self, id: i32) -> (velocity: Option<(i32, i32)>)
        ensures
            velocity == if first_index(player_ids(self@.players), id) < self@.players.len() {
                Some(
                    (
                        self@.players[first_index(player_ids(self@.players), id)].delta_x,
                        self@.players[first_index(player_ids(self@.players), id)].delta_y,
                    ),
                )
            } else {
                None
            },
    {
        let at = find_player(&self.players, id);
        if at < self.players.len() {
            Some((self.players[at].delta_x, self.players[at].delta_y))
        } else {
            None
        }
    }

    /// The collisions that have yet to be resolved, first queued first.
    pub fn pending_collisions(&self) -> (pairs: Vec<(i32, i32)>)
        ensures
            pairs@ == self@.handle_collisions,
    {
        let mut pairs: Vec<(i32, i32)> = Vec::new();
        let mut at: usize = 0;
        while at < self.handle_collisions.len()
            invariant
                at <= self.handle_collisions.len(),
                pairs@ == self.handle_collisions@.subrange(0, at as int),
            decreases self.handle_collisions.len() - at,
        {
            pairs.push(self.handle_collisions[at]);
            at = at + 1;
            assert(pairs@ =~= self.handle_collisions@.subrange(0, at as int));
        }
        assert(pairs@ =~= self.handle_collisions@);
        pairs
    }
}

} // verus!
