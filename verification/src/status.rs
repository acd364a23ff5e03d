//! The states that clients, players and the match itself can be in.

use vstd::prelude::*;

verus! {

/// Where a connected client is.
#[derive(Clone, Copy, Debug, PartialEq, Eq, Structural)]
pub enum ClientStatus {
    /// Waiting in the lobby.
    Lobby,
    /// Taking part in the match.
    InGame,
}

/// Whether a client in the lobby has asked for the match to begin.
#[derive(Clone, Copy, Debug, PartialEq, Eq, Structural)]
pub enum ClientLobbyStatus {
    Waiting,
    Ready,
}

/// The phase of the match.
#[derive(Clone, Copy, Debug, PartialEq, Eq, Structural)]
pub enum GameControllerStatus {
    /// No match is on; the clients sit in the lobby.
    Stopped,
    /// The players have been placed and the match is about to begin.
    Countdown,
    /// The match is on.
    Playing,
}

/// The condition of a player in the match.
#[derive(Clone, Copy, Debug, PartialEq, Eq, Structural)]
pub enum PlayerInGameStatus {
    Alive,
    Dead,
    /// Placed at a fresh position and frozen until the grace period is over.
    Respawning,
}

} // verus!
