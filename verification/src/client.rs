//! A connected client and its place in the lobby.

use vstd::prelude::*;
use crate::status::{ClientLobbyStatus, ClientStatus};

verus! {

/// One connection. A client exists from the moment it connects until it
/// disconnects, whether or not it has a player in the match.
#[derive(Clone, Copy, Debug, PartialEq, Eq, Structural)]
pub struct Client {
    pub status: ClientStatus,
    pub lobby_status: ClientLobbyStatus,
}

impl Client {
    /// A client that has just connected.
    pub open spec fn fresh() -> Client {
        Client { status: ClientStatus::Lobby, lobby_status: ClientLobbyStatus::Waiting }
    }

    /// This client after it was sent to the match: a client that is ready
    /// is in the game, one that is still waiting stays where it is.
    pub open spec fn sent_to_war(self) -> Client {
        if self.lobby_status == ClientLobbyStatus::Ready {
            Client { status: ClientStatus::InGame, lobby_status: self.lobby_status }
        } else {
            self
        }
    }

    /// A client that has just connected: in the lobby, and waiting.
    pub fn new() -> (client: Client)
        ensures
            client == Client::fresh(),
    {
        Client { status: ClientStatus::Lobby, lobby_status: ClientLobbyStatus::Waiting }
    }

    /// Marks the client as ready for the match.
    pub fn set_ready(&mut self)
        ensures
            final(self).lobby_status == ClientLobbyStatus::Ready,
            final(self).status == old(self).status,
    {
        self.lobby_status = ClientLobbyStatus::Ready
    }

    /// Sends the client to the match if it is ready, and leaves it alone if
    /// it is not.
    pub fn go_to_war(&mut self)
        ensures
            *final(self) == old(self).sent_to_war(),
    {
        if self.lobby_status == ClientLobbyStatus::Waiting {
            return;
        }
        self.status = ClientStatus::InGame;
    }

    /// Sends the client back to the lobby, where it waits again.
    pub fn back_to_lobby_and_wait(&mut self)
        ensures
            *final(self) == Client::fresh(),
    {
        self.lobby_status = ClientLobbyStatus::Waiting;
        self.status = ClientStatus::Lobby;
    }
}

/// A client is in the game only if it has declared itself ready: sending a
/// waiting client to the match changes nothing.
pub proof fn lemma_only_ready_clients_go_to_war(client: Client)
    ensures
        client.lobby_status == ClientLobbyStatus::Waiting ==> client.sent_to_war() == client,
        client.lobby_status == ClientLobbyStatus::Ready ==> client.sent_to_war().status
            == ClientStatus::InGame,
        client.sent_to_war().lobby_status == client.lobby_status,
{
}

} // verus!
