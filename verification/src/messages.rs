//! What the game takes in from its clients and what it reports to them.
//!
//! These are plain values. How they are put on the wire is up to the
//! program that runs the game.

use vstd::prelude::*;
use crate::geometry::Point;
use crate::status::{ClientLobbyStatus, ClientStatus, GameControllerStatus, PlayerInGameStatus};

verus! {

/// The kind of a message to a client.
#[derive(Clone, Copy, Debug, PartialEq, Eq, Structural)]
pub enum MessageType {
    /// The state of the lobby.
    LobbyMessage,
    /// One frame of the match.
    Frame,
    /// The id that a new client was given.
    IdResponse,
}

/// The kind of a message from a client.
#[derive(Clone, Copy, Debug, PartialEq, Eq, Structural)]
pub enum ClientRequestType {
    /// The actions that the client's player holds down.
    InGameInput,
    /// What the client asks for in the lobby.
    LobbyInput,
}

/// A message from a client.
#[derive(Clone, Copy, Debug, PartialEq, Eq, Structural)]
pub struct InputRequest {
    /// The client that sent the message.
    pub player_id: i32,
    /// The bitmask of the actions held down; read for input in the match.
    pub input: i32,
    pub field_type: ClientRequestType,
    /// The lobby status asked for; read for input in the lobby.
    pub status: ClientLobbyStatus,
}

/// The message that tells a new client its id.
#[derive(Clone, Copy, Debug, PartialEq, Eq, Structural)]
pub struct PlayerId {
    pub field_type: MessageType,
    pub player_id: i32,
}

/// One client, as the lobby shows it.
#[derive(Clone, Copy, Debug, PartialEq, Eq, Structural)]
pub struct ClientInfo {
    pub id: i32,
    pub status: ClientStatus,
    pub lobby_status: ClientLobbyStatus,
}

/// One player, as a frame shows it.
#[derive(Clone, Copy, Debug, PartialEq, Eq, Structural)]
pub struct PlayerInGameResponse {
    pub position: Point,
    pub cannon_position: Point,
    pub id: i32,
    pub in_game_status: PlayerInGameStatus,
}

/// One shot or one blast, as a frame shows it.
#[derive(Clone, Copy, Debug, PartialEq, Eq, Structural)]
pub struct CannonEventResponse {
    pub position: Point,
    pub size: i32,
    /// The player whose shot it is.
    pub from_id: i32,
    pub id: i32,
}

/// The state of the lobby: who is connected, the phase of the match, and
/// the ticks left of the countdown.
#[derive(Debug)]
pub struct ServerLobbyResponse {
    pub clients: Vec<ClientInfo>,
    pub game_status: GameControllerStatus,
    pub countdown_amount: i32,
    pub field_type: MessageType,
}

/// What a lobby message says, with its clients as a sequence.
pub struct ServerLobbyResponseView {
    pub clients: Seq<ClientInfo>,
    pub game_status: GameControllerStatus,
    pub countdown_amount: i32,
    pub field_type: MessageType,
}

impl View for ServerLobbyResponse {
    type V = ServerLobbyResponseView;

    open spec fn view(&self) -> ServerLobbyResponseView {
        ServerLobbyResponseView {
            clients: self.clients@,
            game_status: self.game_status,
            countdown_amount: self.countdown_amount,
            field_type: self.field_type,
        }
    }
}

/// One frame of the match: the players, the shots in flight and the blasts.
#[derive(Debug)]
pub struct ServerGameFrameResponse {
    pub players: Vec<PlayerInGameResponse>,
    pub shots: Vec<CannonEventResponse>,
    pub explosions: Vec<CannonEventResponse>,
    pub field_type: MessageType,
}

/// What a frame says, with its lists as sequences.
pub struct ServerGameFrameResponseView {
    pub players: Seq<PlayerInGameResponse>,
    pub shots: Seq<CannonEventResponse>,
    pub explosions: Seq<CannonEventResponse>,
    pub field_type: MessageType,
}

impl View for ServerGameFrameResponse {
    type V = ServerGameFrameResponseView;

    open spec fn view(&self) -> ServerGameFrameResponseView {
        ServerGameFrameResponseView {
            players: self.players@,
            shots: self.shots@,
            explosions: self.explosions@,
            field_type: self.field_type,
        }
    }
}

/// What can happen to the game.
#[derive(Clone, Copy, Debug, PartialEq, Eq, Structural)]
pub enum Command {
    /// A client has connected under the given id.
    Connect(i32),
    /// A client has sent a message.
    Input(InputRequest),
    /// The client with the given id has disconnected.
    Disconnect(i32),
    /// The time of one tick has passed.
    Tick,
}

/// A message that the game wants sent.
#[derive(Debug)]
pub enum Outbound {
    /// Tell one client its id.
    Id { to: i32, message: PlayerId },
    /// Show one client a frame of the match.
    FrameTo { to: i32, frame: ServerGameFrameResponse },
    /// Show every client the lobby.
    Lobby(ServerLobbyResponse),
    /// Show every client a frame of the match.
    Frame(ServerGameFrameResponse),
}

/// What a message that the game wants sent says.
pub enum OutboundView {
    Id { to: i32, message: PlayerId },
    FrameTo { to: i32, frame: ServerGameFrameResponseView },
    Lobby(ServerLobbyResponseView),
    Frame(ServerGameFrameResponseView),
}

impl View for Outbound {
    type V = OutboundView;

    open spec fn view(&self) -> OutboundView {
        match self {
            Outbound::Id { to, message } => OutboundView::Id { to: *to, message: *message },
            Outbound::FrameTo { to, frame } => OutboundView::FrameTo { to: *to, frame: frame@ },
            Outbound::Lobby(lobby) => OutboundView::Lobby(lobby@),
            Outbound::Frame(frame) => OutboundView::Frame(frame@),
        }
    }
}

/// What the messages of a list say.
pub open spec fn outbound_view(messages: Seq<Outbound>) -> Seq<OutboundView> {
    Seq::new(messages.len(), |i: int| messages[i]@)
}

} // verus!
