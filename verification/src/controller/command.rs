//! Taking commands.

use vstd::prelude::*;
use crate::controller::{draw_spawns, GameController};
use crate::geometry::ControllerPoint;
use crate::messages::{
    outbound_view, ClientRequestType, Command, MessageType, Outbound, PlayerId,
};
use crate::status::{ClientLobbyStatus, GameControllerStatus};
use crate::registry::lemma_first_index;
use crate::world::{client_ids, valid_spawns};

verus! {

impl GameController {
    /// The number of spawn points that a command can need.
    pub fn spawns_needed(&self) -> (count: usize)
        ensures
            count == self@.spawns_needed(),
    {
        if self.clients.len() >= self.players.len() {
            self.clients.len()
        } else {
            self.players.len()
        }
    }

    /// Begins the countdown if it is due: if no match is on or about to
    /// begin, and all clients, two at least, are ready.
    pub fn start_countdown_if_due(&mut self, spawns: &Vec<ControllerPoint>) -> (begun: bool)
        requires
            old(self).wf(),
            valid_spawns(old(self)@.config, spawns@, old(self)@.clients.len() as int),
        ensures
            final(self)@ == old(self)@.countdown_started_if_due(spawns@),
            final(self).wf(),
            begun == old(self)@.countdown_due(),
    {
        if !self.is_playing() && !self.is_counting_down() && self.clients_ready() {
            self.start_countdown_at(spawns);
            true
        } else {
            false
        }
    }

    /// Applies a command to the world, with the given spawn points, and
    /// returns the messages with which the game answers it, in the order
    /// in which they are to be sent.
    pub fn apply_with(&mut self, command: Command, spawns: &Vec<ControllerPoint>) -> (replies: Vec<
        Outbound,
    >)
        requires
            old(self).wf(),
            command == Command::Tick && old(self)@.status == GameControllerStatus::Playing
                ==> old(self)@.ids_left(),
            valid_spawns(old(self)@.config, spawns@, old(self)@.spawns_needed()),
        ensures
            final(self)@ == old(self)@.applied(command, spawns@),
            final(self).wf(),
            outbound_view(replies@) == old(self)@.replies(command, spawns@),
    {
        let mut replies: Vec<Outbound> = Vec::new();
        match command {
            Command::Connect(id) => {
                self.add_client(id);
                replies.push(
                    Outbound::Id {
                        to: id,
                        message: PlayerId { field_type: MessageType::IdResponse, player_id: id },
                    },
                );
                if self.is_counting_down() {
                    replies.push(Outbound::FrameTo { to: id, frame: self.in_game_output() });
                }
                replies.push(Outbound::Lobby(self.lobby_output()));
            },
            Command::Input(request) => match request.field_type {
                ClientRequestType::LobbyInput => {
                    if request.status == ClientLobbyStatus::Ready {
                        self.set_client_ready_for_war(request.player_id);
                    }
                    proof {
                        lemma_first_index(client_ids(old(self)@.clients), request.player_id);
                    }
                    replies.push(Outbound::Lobby(self.lobby_output()));
                    if self.start_countdown_if_due(spawns) {
                        replies.push(Outbound::Frame(self.in_game_output()));
                    }
                },
                ClientRequestType::InGameInput => {
                    self.player_input(request);
                },
            },
            Command::Disconnect(id) => {
                self.drop_client(id);
                proof {
                    lemma_first_index(client_ids(old(self)@.clients), id);
                }
                self.start_countdown_if_due(spawns);
                replies.push(Outbound::Frame(self.in_game_output()));
                replies.push(Outbound::Lobby(self.lobby_output()));
            },
            Command::Tick => {
                if self.should_tick() {
                    match self.step(spawns) {
                        Some(_) => {
                            replies.push(Outbound::Lobby(self.lobby_output()));
                        },
                        None => {
                            replies.push(Outbound::Frame(self.in_game_output()));
                        },
                    }
                } else if self.is_counting_down() {
                    self.countdown();
                    replies.push(Outbound::Lobby(self.lobby_output()));
                }
            },
        }
        assert(outbound_view(replies@) =~= old(self)@.replies(command, spawns@));
        replies
    }

    /// Applies a command to the world and returns the messages with which
    /// the game answers it. The spawn points that the command needs are
    /// drawn at random.
    pub fn apply(&mut self, command: Command) -> (replies: Vec<Outbound>)
        requires
            old(self).wf(),
            command == Command::Tick && old(self)@.status == GameControllerStatus::Playing
                ==> old(self)@.ids_left(),
        ensures
            final(self).wf(),
            exists|spawns: Seq<ControllerPoint>|
                valid_spawns(old(self)@.config, spawns, old(self)@.spawns_needed())
                    && final(self)@ == #[trigger] old(self)@.applied(command, spawns)
                    && outbound_view(replies@) == old(self)@.replies(command, spawns),
    {
        let spawns = draw_spawns(&self.config, self.spawns_needed());
        self.apply_with(command, &spawns)
    }
}

} // verus!
