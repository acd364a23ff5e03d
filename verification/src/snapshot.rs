//! What the world looks like to the clients.

use vstd::prelude::*;
use crate::messages::{
    CannonEventResponse, ClientInfo, MessageType, PlayerInGameResponse,
    ServerGameFrameResponseView, ServerLobbyResponseView,
};
use crate::player::PlayerView;
use crate::world::{ClientEntry, ExplosionEntry, GameView, ShotEntryView};

verus! {

/// A client, as the lobby shows it.
pub open spec fn client_report(entry: ClientEntry) -> ClientInfo {
    ClientInfo {
        id: entry.id,
        status: entry.client.status,
        lobby_status: entry.client.lobby_status,
    }
}

/// A player, as a frame shows it: the pixels of its top-left corner and of
/// the muzzle of its cannon, its id and its condition.
pub open spec fn player_report(player: PlayerView) -> PlayerInGameResponse {
    PlayerInGameResponse {
        position: player.position.pixel(),
        cannon_position: player.muzzle().pixel(),
        id: player.id,
        in_game_status: player.player_in_game_status,
    }
}

/// A blast, as a frame shows it.
pub open spec fn explosion_report(entry: ExplosionEntry) -> CannonEventResponse {
    CannonEventResponse {
        position: entry.explosion.position.pixel(),
        size: entry.explosion.size,
        from_id: entry.explosion.from_player_id,
        id: entry.id,
    }
}

/// The shots among the first `count` that are in flight, as a frame shows
/// them. A shot that has not moved yet is not shown.
pub open spec fn shots_reported(shots: Seq<ShotEntryView>, count: int) -> Seq<CannonEventResponse>
    decreases count,
{
    if count <= 0 {
        Seq::empty()
    } else {
        let before = shots_reported(shots, count - 1);
        let entry = shots[count - 1];
        match entry.shot.position {
            Some(position) => before.push(
                CannonEventResponse {
                    position: position.pixel(),
                    size: entry.shot.size() as i32,
                    from_id: entry.shot.from_player_id,
                    id: entry.id,
                },
            ),
            None => before,
        }
    }
}

impl GameView {
    /// The state of the lobby: every client, the phase of the match, and
    /// the ticks left of the countdown.
    pub open spec fn lobby_snapshot(self) -> ServerLobbyResponseView {
        ServerLobbyResponseView {
            clients: Seq::new(self.clients.len(), |i: int| client_report(self.clients[i])),
            game_status: self.status,
            countdown_amount: self.countdown,
            field_type: MessageType::LobbyMessage,
        }
    }

    /// A frame of the match: every player, every shot in flight and every
    /// blast, each list in the order of the world.
    pub open spec fn frame(self) -> ServerGameFrameResponseView {
        ServerGameFrameResponseView {
            players: Seq::new(self.players.len(), |i: int| player_report(self.players[i])),
            shots: shots_reported(self.cannon_shots, self.cannon_shots.len() as int),
            explosions: Seq::new(
                self.explosions.len(),
                |i: int| explosion_report(self.explosions[i]),
            ),
            field_type: MessageType::Frame,
        }
    }
}

} // verus!
