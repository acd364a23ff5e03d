//! Reporting the world to the clients.

use vstd::prelude::*;
use crate::controller::GameController;
use crate::messages::{
    CannonEventResponse, ClientInfo, MessageType, PlayerInGameResponse, ServerGameFrameResponse,
    ServerLobbyResponse,
};
use crate::snapshot::{client_report, explosion_report, player_report, shots_reported};

verus! {

impl GameController {
    /// The state of the lobby, for all clients.
    pub fn lobby_output(&self) -> (lobby_response: ServerLobbyResponse)
        ensures
            lobby_response@ == self@.lobby_snapshot(),
    {
        let mut clients_in_lobby: Vec<ClientInfo> = Vec::new();
        let mut at: usize = 0;
        while at < self.clients.len()
            invariant
                at <= self.clients.len(),
                clients_in_lobby.len() == at,
                forall|k: int| 0 <= k < at ==> clients_in_lobby[k] == client_report(self.clients[k]),
            decreases self.clients.len() - at,
        {
            clients_in_lobby.push(
                ClientInfo {
                    id: self.clients[at].id,
                    status: self.clients[at].client.status,
                    lobby_status: self.clients[at].client.lobby_status,
                },
            );
            at = at + 1;
        }
        let lobby_response = ServerLobbyResponse {
            clients: clients_in_lobby,
            game_status: self.status,
            countdown_amount: self.countdown,
            field_type: MessageType::LobbyMessage,
        };
        assert(lobby_response@.clients =~= self@.lobby_snapshot().clients);
        lobby_response
    }

    /// A frame of the match, for all clients.
    pub fn in_game_output(&self) -> (server_output: ServerGameFrameResponse)
        requires
            self.wf(),
        ensures
            server_output@ == self@.frame(),
    {
        let mut player_response_vec: Vec<PlayerInGameResponse> = Vec::new();
        let mut cannon_shot_response_vec: Vec<CannonEventResponse> = Vec::new();
        let mut explosion_response_vec: Vec<CannonEventResponse> = Vec::new();
        let mut at: usize = 0;
        while at < self.players.len()
            invariant
                self.wf(),
                at <= self.players.len(),
                player_response_vec.len() == at,
                forall|k: int|
                    0 <= k < at ==> player_response_vec[k] == player_report(self.players[k]@),
            decreases self.players.len() - at,
        {
            assert(self@.players[at as int].wf(self@.config));
            let player = &self.players[at];
            player_response_vec.push(
                PlayerInGameResponse {
                    position: player.position.to_buffer_point(),
                    cannon_position: player.get_cannon_position().to_buffer_point(),
                    id: player.id,
                    in_game_status: player.player_in_game_status,
                },
            );
            at = at + 1;
        }
        let mut at: usize = 0;
        while at < self.explosions.len()
            invariant
                at <= self.explosions.len(),
                explosion_response_vec.len() == at,
                forall|k: int|
                    0 <= k < at ==> explosion_response_vec[k] == explosion_report(
                        self.explosions[k],
                    ),
            decreases self.explosions.len() - at,
        {
            let entry = &self.explosions[at];
            explosion_response_vec.push(
                CannonEventResponse {
                    position: entry.explosion.position.to_buffer_point(),
                    size: entry.explosion.size,
                    from_id: entry.explosion.from_player_id,
                    id: entry.id,
                },
            );
            at = at + 1;
        }
        let mut at: usize = 0;
        while at < self.cannon_shots.len()
            invariant
                at <= self.cannon_shots.len(),
                cannon_shot_response_vec@ == shots_reported(self@.cannon_shots, at as int),
            decreases self.cannon_shots.len() - at,
        {
            let entry = &self.cannon_shots[at];
            match entry.shot.position {
                Some(position) => {
                    cannon_shot_response_vec.push(
                        CannonEventResponse {
                            position: position.to_buffer_point(),
                            size: entry.shot.count_size(),
                            from_id: entry.shot.from_player_id,
                            id: entry.id,
                        },
                    );
                },
                None => {},
            }
            at = at + 1;
        }
        let server_output = ServerGameFrameResponse {
            players: player_response_vec,
            shots: cannon_shot_response_vec,
            explosions: explosion_response_vec,
            field_type: MessageType::Frame,
        };
        assert(server_output@.players =~= self@.frame().players);
        assert(server_output@.explosions =~= self@.frame().explosions);
        server_output
    }
}

} // verus!
