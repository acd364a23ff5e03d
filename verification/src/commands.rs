//! What each command makes of the world, and what the game answers.
//!
//! The match goes through three phases. While it is stopped, the clients
//! sit in the lobby; as soon as there are two or more and all are ready,
//! the countdown begins. When the countdown has run out, the match is on.
//! When fewer than two clients are left in the game, the match stops.

use vstd::prelude::*;
use crate::geometry::ControllerPoint;
use crate::messages::{
    ClientRequestType, Command, InputRequest, MessageType, OutboundView, PlayerId,
};
use crate::status::{ClientLobbyStatus, GameControllerStatus};
use crate::world::GameView;

verus! {

impl GameView {
    /// Whether the countdown is to begin: whether no match is on or about
    /// to begin, and all clients, two at least, are ready.
    pub open spec fn countdown_due(self) -> bool {
        self.status == GameControllerStatus::Stopped && self.all_ready()
    }

    /// The world with the countdown begun if it is due.
    pub open spec fn countdown_started_if_due(self, spawns: Seq<ControllerPoint>) -> GameView {
        if self.countdown_due() {
            self.countdown_started(spawns)
        } else {
            self
        }
    }

    /// The world after a client has said what it asks for in the lobby.
    /// Only a client that asks to be ready changes anything.
    pub open spec fn with_lobby_request(self, request: InputRequest) -> GameView {
        if request.status == ClientLobbyStatus::Ready {
            self.with_ready_client(request.player_id)
        } else {
            self
        }
    }

    /// The world after a tick of the clock. While the match is on, the
    /// world is advanced; while the countdown runs, it is counted down;
    /// while the match is stopped, nothing happens.
    pub open spec fn clock_ticked(self, spawns: Seq<ControllerPoint>) -> GameView {
        if self.status == GameControllerStatus::Playing {
            self.stepped(spawns)
        } else if self.status == GameControllerStatus::Countdown {
            self.counted_down()
        } else {
            self
        }
    }

    /// The world after a command.
    pub open spec fn applied(self, command: Command, spawns: Seq<ControllerPoint>) -> GameView {
        match command {
            Command::Connect(id) => self.with_client(id),
            Command::Input(request) => match request.field_type {
                ClientRequestType::LobbyInput => self.with_lobby_request(
                    request,
                ).countdown_started_if_due(spawns),
                ClientRequestType::InGameInput => self.with_player_input(
                    request.player_id,
                    request.input as int,
                ),
            },
            Command::Disconnect(id) => self.without_client(id).countdown_started_if_due(spawns),
            Command::Tick => self.clock_ticked(spawns),
        }
    }

    /// The messages with which the game answers a command, in the order in
    /// which they are to be sent.
    ///
    /// A client that connects is told its id, is shown a frame if the
    /// countdown runs, and the lobby is shown to all. After a request in
    /// the lobby the lobby is shown to all, and if the countdown begins
    /// with it, the first frame. Input for the match is not answered.
    /// After a client has left, a frame and the lobby are shown to all. A
    /// tick of the match is answered with the new frame, or with the lobby
    /// if the match has stopped; a tick of the countdown with the lobby.
    pub open spec fn replies(self, command: Command, spawns: Seq<ControllerPoint>) -> Seq<
        OutboundView,
    > {
        let after = self.applied(command, spawns);
        match command {
            Command::Connect(id) => {
                let greeting = seq![
                    OutboundView::Id {
                        to: id,
                        message: PlayerId { field_type: MessageType::IdResponse, player_id: id },
                    },
                ];
                let frame = if after.status == GameControllerStatus::Countdown {
                    seq![OutboundView::FrameTo { to: id, frame: after.frame() }]
                } else {
                    Seq::empty()
                };
                greeting + frame + seq![OutboundView::Lobby(after.lobby_snapshot())]
            },
            Command::Input(request) => match request.field_type {
                ClientRequestType::LobbyInput => {
                    let asked = self.with_lobby_request(request);
                    let lobby = seq![OutboundView::Lobby(asked.lobby_snapshot())];
                    if asked.countdown_due() {
                        lobby + seq![OutboundView::Frame(after.frame())]
                    } else {
                        lobby
                    }
                },
                ClientRequestType::InGameInput => Seq::empty(),
            },
            Command::Disconnect(id) => seq![
                OutboundView::Frame(after.frame()),
                OutboundView::Lobby(after.lobby_snapshot()),
            ],
            Command::Tick => if self.status == GameControllerStatus::Playing {
                if self.in_game_clients() < 2 {
                    seq![OutboundView::Lobby(after.lobby_snapshot())]
                } else {
                    seq![OutboundView::Frame(after.frame())]
                }
            } else if self.status == GameControllerStatus::Countdown {
                seq![OutboundView::Lobby(after.lobby_snapshot())]
            } else {
                Seq::empty()
            },
        }
    }

    /// The number of spawn points that a command can need: one for each
    /// client, for the beginning of a match, and one for each player, for
    /// a tick.
    pub open spec fn spawns_needed(self) -> int {
        if self.clients.len() >= self.players.len() {
            self.clients.len() as int
        } else {
            self.players.len() as int
        }
    }
}

} // verus!
