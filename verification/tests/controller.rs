use backend::client::Client;
use backend::config::Config;
use backend::controller::GameController;
use backend::geometry::{ControllerPoint, Point};
use backend::input::InputSet;
use backend::messages::{
    CannonEventResponse, ClientInfo, ClientRequestType, InputRequest, MessageType,
    PlayerInGameResponse,
};
use backend::player::Player;
use backend::status::{ClientLobbyStatus, ClientStatus, GameControllerStatus, PlayerInGameStatus};

const RIGHT: i32 = 2;
const LEFT: i32 = 8;
const LOAD: i32 = 64;
const FIRE: i32 = 128;

fn input_of(player_id: i32, input: i32) -> InputRequest {
    InputRequest {
        player_id,
        input,
        field_type: ClientRequestType::InGameInput,
        status: ClientLobbyStatus::Waiting,
    }
}

fn spawns_at(points: &[(i32, i32)]) -> Vec<ControllerPoint> {
    points.iter().map(|(x, y)| ControllerPoint::from_pixels(*x, *y)).collect()
}

/// A match that is on, with one player for each of the given points, the
/// players with the ids 1, 2, ... alive and at rest.
fn match_with_players_at(points: &[(i32, i32)]) -> GameController {
    let mut game = GameController::new();
    for id in 1..=points.len() as i32 {
        game.add_client(id);
        game.set_client_ready_for_war(id);
    }
    game.start_countdown_at(&spawns_at(points));
    for _ in 0..240 {
        game.countdown();
    }
    assert!(game.is_playing());
    assert_eq!(game.step(&spawns_at(points)), None);
    game
}

fn alive_with_speed(id: i32, dx: i32, dy: i32) -> Player {
    Player {
        id,
        position: ControllerPoint::from_pixels(100, 100),
        cannon_angle: 0,
        is_loading_cannon: false,
        power_loaded: 0,
        cannon_shot: None,
        input: InputSet::empty(),
        delta_x: dx,
        delta_y: dy,
        delta_a: 0,
        cooldown: 0,
        player_in_game_status: PlayerInGameStatus::Alive,
    }
}

#[test]
fn a_new_game_is_stopped_and_empty() {
    let game = GameController::new();
    assert!(!game.is_playing());
    assert!(!game.is_counting_down());
    assert!(!game.should_tick());
    assert!(!game.clients_ready());
    assert_eq!(game.status(), GameControllerStatus::Stopped);
    assert_eq!(game.config(), Config::standard());
    assert_eq!(game.client_count(), 0);
    assert_eq!(game.player_count(), 0);
    assert_eq!(game.shot_count(), 0);
    assert_eq!(game.explosion_count(), 0);
    assert_eq!(game.in_game_clients(), 0);
    assert!(game.ids_left());
    let lobby = game.lobby_output();
    assert!(lobby.clients.is_empty());
    assert_eq!(lobby.game_status, GameControllerStatus::Stopped);
    assert_eq!(lobby.countdown_amount, 0);
    assert_eq!(lobby.field_type, MessageType::LobbyMessage);
    let frame = game.in_game_output();
    assert!(frame.players.is_empty() && frame.shots.is_empty() && frame.explosions.is_empty());
    assert_eq!(frame.field_type, MessageType::Frame);
}

#[test]
fn a_game_takes_the_settings_it_can_be_run_with() {
    let config = Config { countdown_ticks: 3, arena_width: 500, ..Config::standard() };
    let game = GameController::with_config(config).unwrap();
    assert_eq!(game.config(), config);
    assert!(GameController::with_config(Config { arena_width: 54, ..config }).is_none());
    assert!(GameController::with_config(Config { arena_width: 55, ..config }).is_some());
    assert!(GameController::with_config(Config { arena_height: 0, ..config }).is_none());
    assert!(GameController::with_config(Config { max_speed: -1, ..config }).is_none());
    assert!(GameController::with_config(Config { death_cooldown_ticks: 0, ..config }).is_none());
    assert!(GameController::with_config(Config { respawn_grace_ticks: 0, ..config }).is_none());
    assert!(GameController::with_config(Config { explosion_grow_rate: 0, ..config }).is_none());
    assert!(GameController::with_config(Config { explosion_shrink_rate: 0, ..config }).is_none());
    assert!(GameController::with_config(Config { explosion_cap: 0, ..config }).is_none());
    assert!(GameController::with_config(Config { tick_rate: 0, ..config }).is_none());
    assert!(GameController::with_config(Config { max_range: -1, ..config }).is_none());
    assert!(GameController::with_config(Config { countdown_ticks: -1, ..config }).is_none());
    assert!(GameController::with_config(Config { max_range: 1_000_001, ..config }).is_none());
    assert!(Config::standard().is_valid());
    assert_eq!(Config::default(), Config::standard());
}

#[test]
fn a_client_that_connects_waits_in_the_lobby() {
    let mut game = GameController::new();
    game.add_client(5);
    assert_eq!(game.client_count(), 1);
    assert_eq!(
        game.client(5),
        Some(Client { status: ClientStatus::Lobby, lobby_status: ClientLobbyStatus::Waiting })
    );
    assert_eq!(game.client(6), None);
    assert_eq!(
        game.lobby_output().clients,
        vec![ClientInfo {
            id: 5,
            status: ClientStatus::Lobby,
            lobby_status: ClientLobbyStatus::Waiting
        }]
    );
}

#[test]
fn a_client_that_connects_again_starts_anew() {
    let mut game = GameController::new();
    game.add_client(5);
    game.add_client(6);
    game.set_client_ready_for_war(5);
    game.add_client(5);
    assert_eq!(game.client_count(), 2);
    assert_eq!(game.client(5), Some(Client::new()));
    let ids: Vec<i32> = game.lobby_output().clients.iter().map(|c| c.id).collect();
    assert_eq!(ids, vec![5, 6]);
}

#[test]
fn two_ready_clients_begin_the_countdown() {
    let mut game = GameController::new();
    game.add_client(1);
    game.add_client(2);
    assert!(!game.clients_ready());
    game.set_client_ready_for_war(1);
    assert!(!game.clients_ready());
    game.set_client_ready_for_war(2);
    assert!(game.clients_ready());
    game.start_countdown();
    assert!(game.is_counting_down());
    assert!(!game.is_playing());
    assert_eq!(game.countdown_left(), 240);
    assert_eq!(game.player_count(), 2);
    assert_eq!(game.in_game_clients(), 2);
    let lobby = game.lobby_output();
    assert_eq!(lobby.game_status, GameControllerStatus::Countdown);
    assert_eq!(lobby.countdown_amount, 240);
    assert_eq!(
        lobby.clients,
        vec![
            ClientInfo { id: 1, status: ClientStatus::InGame, lobby_status: ClientLobbyStatus::Ready },
            ClientInfo { id: 2, status: ClientStatus::InGame, lobby_status: ClientLobbyStatus::Ready },
        ]
    );
    let frame = game.in_game_output();
    assert_eq!(frame.players.len(), 2);
    for (player, id) in frame.players.iter().zip([1, 2]) {
        assert_eq!(player.id, id);
        assert_eq!(player.in_game_status, PlayerInGameStatus::Respawning);
        assert!(player.position.x >= 0 && player.position.x <= 1175);
        assert!(player.position.y >= 0 && player.position.y <= 775);
        assert_eq!(player.cannon_position.x, player.position.x + 37);
        assert_eq!(player.cannon_position.y, player.position.y + 12);
    }
}

#[test]
fn the_players_are_placed_at_the_spawn_points() {
    let mut game = GameController::new();
    game.add_client(1);
    game.add_client(2);
    game.set_client_ready_for_war(1);
    game.set_client_ready_for_war(2);
    game.start_countdown_at(&spawns_at(&[(100, 100), (600, 400)]));
    assert_eq!(
        game.in_game_output().players,
        vec![
            PlayerInGameResponse {
                position: Point { x: 100, y: 100 },
                cannon_position: Point { x: 137, y: 112 },
                id: 1,
                in_game_status: PlayerInGameStatus::Respawning,
            },
            PlayerInGameResponse {
                position: Point { x: 600, y: 400 },
                cannon_position: Point { x: 637, y: 412 },
                id: 2,
                in_game_status: PlayerInGameStatus::Respawning,
            },
        ]
    );
}

#[test]
fn one_ready_client_is_not_enough() {
    let mut game = GameController::new();
    game.add_client(1);
    game.set_client_ready_for_war(1);
    assert!(!game.clients_ready());
    game.add_client(2);
    assert!(!game.clients_ready());
}

#[test]
fn a_waiting_client_does_not_go_to_war() {
    let mut game = GameController::new();
    for id in [1, 2, 3] {
        game.add_client(id);
    }
    game.set_client_ready_for_war(1);
    game.set_client_ready_for_war(3);
    assert!(!game.clients_ready());
    game.start_countdown_at(&spawns_at(&[(10, 10), (20, 20), (30, 30)]));
    assert_eq!(game.player_count(), 2);
    assert_eq!(game.in_game_clients(), 2);
    assert_eq!(game.client(2), Some(Client::new()));
    let frame = game.in_game_output();
    let seen: Vec<(i32, Point)> = frame.players.iter().map(|p| (p.id, p.position)).collect();
    assert_eq!(seen, vec![(1, Point { x: 10, y: 10 }), (3, Point { x: 30, y: 30 })]);
}

#[test]
fn the_countdown_runs_out_and_the_match_begins() {
    let mut game = GameController::new();
    game.add_client(1);
    game.add_client(2);
    game.set_client_ready_for_war(1);
    game.set_client_ready_for_war(2);
    game.start_countdown();
    for left in (1..240).rev() {
        game.countdown();
        assert!(game.is_counting_down());
        assert_eq!(game.countdown_left(), left);
        assert_eq!(game.lobby_output().countdown_amount, left);
    }
    game.countdown();
    assert!(game.is_playing());
    assert!(game.should_tick());
    assert!(!game.is_counting_down());
    assert_eq!(game.countdown_left(), 0);
    game.countdown();
    assert!(game.is_playing());
    assert_eq!(game.countdown_left(), 0);
}

#[test]
fn a_countdown_of_no_ticks_ends_with_the_first_tick() {
    let config = Config { countdown_ticks: 0, ..Config::standard() };
    let mut game = GameController::with_config(config).unwrap();
    game.add_client(1);
    game.add_client(2);
    game.set_client_ready_for_war(1);
    game.set_client_ready_for_war(2);
    game.start_countdown();
    assert!(game.is_counting_down());
    game.countdown();
    assert!(game.is_playing());
}

#[test]
fn start_only_begins_a_match_that_is_counted_down() {
    let mut game = GameController::new();
    game.start();
    assert_eq!(game.status(), GameControllerStatus::Stopped);
    game.countdown();
    assert_eq!(game.status(), GameControllerStatus::Stopped);
    assert_eq!(game.countdown_left(), 0);
    game.add_client(1);
    game.add_client(2);
    game.set_client_ready_for_war(1);
    game.set_client_ready_for_war(2);
    game.start_countdown();
    game.start();
    assert_eq!(game.status(), GameControllerStatus::Playing);
    assert_eq!(game.countdown_left(), 240);
}

#[test]
fn a_match_with_one_client_left_stops() {
    let mut game = match_with_players_at(&[(100, 100), (600, 400)]);
    game.drop_client(2);
    assert!(game.is_playing());
    assert_eq!(game.player_count(), 1);
    assert_eq!(game.in_game_clients(), 1);
    assert_eq!(game.step(&spawns_at(&[(1, 1)])), Some(()));
    assert_eq!(game.status(), GameControllerStatus::Stopped);
    assert_eq!(game.player_count(), 0);
    assert_eq!(game.client(1), Some(Client::new()));
    assert!(game.in_game_output().players.is_empty());
}

#[test]
fn stop_sends_everyone_back_to_the_lobby() {
    let mut game = match_with_players_at(&[(100, 100), (100, 100), (600, 400)]);
    assert_eq!(game.pending_collisions(), vec![(1, 2)]);
    game.stop();
    assert_eq!(game.status(), GameControllerStatus::Stopped);
    assert_eq!(game.player_count(), 0);
    assert_eq!(game.pending_collisions(), vec![]);
    assert_eq!(game.client_count(), 3);
    for id in [1, 2, 3] {
        assert_eq!(game.client(id), Some(Client::new()));
    }
    assert!(!game.clients_ready());
}

#[test]
fn a_tick_with_random_spawn_points_advances_the_match() {
    let mut game = match_with_players_at(&[(100, 100), (600, 400)]);
    game.player_input(input_of(1, RIGHT));
    assert_eq!(game.tick(), None);
    assert_eq!(game.player_velocity(1), Some((1, 0)));
    assert_eq!(game.in_game_output().players[0].position, Point { x: 101, y: 100 });
    game.drop_client(1);
    assert_eq!(game.tick(), Some(()));
    assert_eq!(game.status(), GameControllerStatus::Stopped);
}

#[test]
fn what_no_one_is_known_by_is_ignored() {
    let mut game = match_with_players_at(&[(100, 100), (600, 400)]);
    let before = (game.lobby_output().clients, game.in_game_output().players);
    game.set_client_ready_for_war(99);
    game.drop_client(99);
    game.player_input(input_of(99, RIGHT));
    assert_eq!(game.client_count(), 2);
    assert_eq!(game.player_count(), 2);
    assert_eq!((game.lobby_output().clients, game.in_game_output().players), before);
    assert_eq!(game.player_velocity(99), None);
    assert_eq!(game.step(&spawns_at(&[(1, 1), (1, 1)])), None);
    assert_eq!(game.player_velocity(1), Some((0, 0)));
    assert_eq!(game.player_velocity(2), Some((0, 0)));
}

#[test]
fn input_that_is_no_bitmask_is_ignored() {
    let mut game = match_with_players_at(&[(100, 100), (600, 400)]);
    game.player_input(input_of(1, RIGHT));
    game.player_input(input_of(1, 256 + LEFT));
    game.player_input(input_of(1, -1));
    game.player_input(input_of(2, 1024));
    assert_eq!(game.step(&spawns_at(&[(1, 1), (1, 1)])), None);
    assert_eq!(game.player_velocity(1), Some((1, 0)));
    assert_eq!(game.player_velocity(2), Some((0, 0)));
    game.player_input(input_of(1, LEFT));
    assert_eq!(game.step(&spawns_at(&[(1, 1), (1, 1)])), None);
    assert_eq!(game.player_velocity(1), Some((0, 0)));
}

#[test]
fn players_with_equal_mass_exchange_their_speeds() {
    let mut first = alive_with_speed(1, 5, 0);
    let mut second = alive_with_speed(2, -5, 0);
    GameController::handle_collision(&mut first, &mut second);
    assert_eq!((first.delta_x, first.delta_y), (-5, 0));
    assert_eq!((second.delta_x, second.delta_y), (5, 0));
    let mut first = alive_with_speed(1, 3, -4);
    let mut second = alive_with_speed(2, 0, 15);
    GameController::handle_collision(&mut first, &mut second);
    assert_eq!((first.delta_x, first.delta_y), (0, 15));
    assert_eq!((second.delta_x, second.delta_y), (3, -4));
    assert_eq!(first.id, 1);
    assert_eq!(second.id, 2);
    assert_eq!(first.position, ControllerPoint::from_pixels(100, 100));
}

#[test]
fn an_elastic_collision_hands_over_the_speed_of_the_other() {
    assert_eq!(GameController::elastic_collision(3, -7), -7);
    assert_eq!(GameController::elastic_collision(0, 15), 15);
    assert_eq!(GameController::elastic_collision(-15, 0), 0);
    assert_eq!(GameController::elastic_collision(1_000_000, -1_000_000), -1_000_000);
    assert_eq!(GameController::elastic_collision(i32::MIN, i32::MAX), i32::MAX);
    assert_eq!(GameController::elastic_collision(i32::MAX, i32::MIN), i32::MIN);
}

#[test]
fn overlapping_players_are_queued_once() {
    let mut game = match_with_players_at(&[(100, 100), (110, 110), (600, 400)]);
    assert_eq!(game.pending_collisions(), vec![(1, 2)]);
    game.check_player_collisions();
    assert_eq!(game.pending_collisions(), vec![(1, 2)]);
    game.check_player_collisions();
    game.check_player_collisions();
    assert_eq!(game.pending_collisions(), vec![(1, 2)]);
}

#[test]
fn a_player_is_queued_for_one_collision_at_a_time() {
    let mut game =
        match_with_players_at(&[(100, 100), (110, 100), (120, 100), (130, 100), (600, 400)]);
    // 1 overlaps 2 and 3; 2 overlaps 3 and 4; 3 overlaps 4.
    assert_eq!(game.pending_collisions(), vec![(1, 2), (3, 4)]);
    game.check_player_collisions();
    assert_eq!(game.pending_collisions(), vec![(1, 2), (3, 4)]);
}

#[test]
fn players_apart_are_not_queued() {
    let mut game = match_with_players_at(&[(100, 100), (125, 100), (100, 125), (600, 400)]);
    assert_eq!(game.pending_collisions(), vec![]);
    game.check_player_collisions();
    assert_eq!(game.pending_collisions(), vec![]);
}

#[test]
fn a_queued_collision_is_resolved_by_exchanging_speeds() {
    let mut game = match_with_players_at(&[(100, 100), (100, 100)]);
    let spawns = spawns_at(&[(1, 1), (1, 1)]);
    game.player_input(input_of(1, RIGHT));
    game.player_input(input_of(2, LEFT));
    assert_eq!(game.step(&spawns), None);
    assert_eq!(game.player_velocity(1), Some((1, 0)));
    assert_eq!(game.player_velocity(2), Some((-1, 0)));
    assert_eq!(game.pending_collisions(), vec![(1, 2)]);
    game.resolve_collisions();
    assert_eq!(game.player_velocity(1), Some((-1, 0)));
    assert_eq!(game.player_velocity(2), Some((1, 0)));
    assert_eq!(game.pending_collisions(), vec![]);
    game.resolve_collisions();
    assert_eq!(game.player_velocity(1), Some((-1, 0)));
}

#[test]
fn a_tick_resolves_what_was_queued_and_queues_what_overlaps() {
    let mut game = match_with_players_at(&[(100, 100), (100, 100)]);
    let spawns = spawns_at(&[(1, 1), (1, 1)]);
    game.player_input(input_of(1, RIGHT));
    game.player_input(input_of(2, LEFT));
    assert_eq!(game.step(&spawns), None);
    assert_eq!(game.step(&spawns), None);
    // The speeds 1 and -1 were exchanged. Then player 1 braked from -1 and
    // sped up to the right, and player 2 sped up to the left from 1.
    assert_eq!(game.player_velocity(1), Some((1, 0)));
    assert_eq!(game.player_velocity(2), Some((0, 0)));
    let places: Vec<Point> = game.in_game_output().players.iter().map(|p| p.position).collect();
    assert_eq!(places, vec![Point { x: 102, y: 100 }, Point { x: 99, y: 100 }]);
    assert_eq!(game.pending_collisions(), vec![(1, 2)]);
}

#[test]
fn a_client_that_leaves_takes_its_collision_along() {
    let mut game = match_with_players_at(&[(100, 100), (100, 100), (100, 100), (600, 400)]);
    assert_eq!(game.pending_collisions(), vec![(1, 2)]);
    game.drop_client(2);
    assert_eq!(game.pending_collisions(), vec![]);
    assert_eq!(game.player_count(), 3);
    assert_eq!(game.step(&spawns_at(&[(1, 1), (1, 1), (1, 1)])), None);
    assert_eq!(game.pending_collisions(), vec![(1, 3)]);
    game.drop_client(4);
    assert_eq!(game.pending_collisions(), vec![(1, 3)]);
}

#[test]
fn a_shot_flies_goes_off_and_kills() {
    let mut game = match_with_players_at(&[(100, 100), (600, 400)]);
    let spawns = spawns_at(&[(1000, 700), (1, 1)]);
    game.player_input(input_of(1, LOAD));
    assert_eq!(game.step(&spawns), None);
    game.player_input(input_of(1, FIRE));
    assert_eq!(game.step(&spawns), None);
    // Fired, but not on its way yet.
    assert_eq!(game.shot_count(), 1);
    assert!(game.in_game_output().shots.is_empty());
    assert_eq!(game.step(&spawns), None);
    assert_eq!(
        game.in_game_output().shots,
        vec![CannonEventResponse {
            position: Point { x: 137, y: 112 },
            size: 20,
            from_id: 1,
            id: 1
        }]
    );
    assert_eq!(game.explosion_count(), 0);
    // The path is used up: the shot goes off where it was last.
    assert_eq!(game.step(&spawns), None);
    assert_eq!(game.shot_count(), 0);
    assert_eq!(
        game.in_game_output().explosions,
        vec![CannonEventResponse {
            position: Point { x: 137, y: 112 },
            size: 11,
            from_id: 1,
            id: 2
        }]
    );
    assert_eq!(game.step(&spawns), None);
    assert_eq!(game.in_game_output().explosions[0].size, 21);
    assert_eq!(game.in_game_output().players[0].in_game_status, PlayerInGameStatus::Alive);
    // Half of 31 is 15, and the player is twelve and a half away.
    assert_eq!(game.step(&spawns), None);
    assert_eq!(game.in_game_output().explosions[0].size, 31);
    let frame = game.in_game_output();
    assert_eq!(frame.players[0].in_game_status, PlayerInGameStatus::Dead);
    assert_eq!(frame.players[1].in_game_status, PlayerInGameStatus::Alive);
    let mut sizes = vec![];
    while game.explosion_count() > 0 {
        assert_eq!(game.step(&spawns), None);
        sizes.push(game.in_game_output().explosions.first().map(|e| e.size));
    }
    assert_eq!(
        sizes,
        vec![
            Some(41), Some(51), Some(61), Some(71), Some(81), Some(91), Some(101), Some(81),
            Some(61), Some(41), Some(21), Some(1), None
        ]
    );
    // The player is dead for 120 ticks from the hit: 14 of them are over.
    for _ in 0..105 {
        assert_eq!(game.step(&spawns), None);
        assert_eq!(game.in_game_output().players[0].in_game_status, PlayerInGameStatus::Dead);
        assert_eq!(game.in_game_output().players[0].position, Point { x: 100, y: 100 });
    }
    assert_eq!(game.step(&spawns), None);
    let frame = game.in_game_output();
    assert_eq!(frame.players[0].in_game_status, PlayerInGameStatus::Respawning);
    assert_eq!(frame.players[0].position, Point { x: 1000, y: 700 });
    for _ in 0..119 {
        assert_eq!(game.step(&spawns), None);
        assert_eq!(
            game.in_game_output().players[0].in_game_status,
            PlayerInGameStatus::Respawning
        );
    }
    assert_eq!(game.step(&spawns), None);
    assert_eq!(game.in_game_output().players[0].in_game_status, PlayerInGameStatus::Alive);
}

#[test]
fn shots_and_blasts_get_ids_in_the_order_they_come() {
    let mut game = match_with_players_at(&[(100, 100), (600, 400)]);
    let spawns = spawns_at(&[(1, 1), (1, 1)]);
    game.player_input(input_of(1, LOAD));
    game.player_input(input_of(2, LOAD));
    for _ in 0..20 {
        assert_eq!(game.step(&spawns), None);
    }
    game.player_input(input_of(1, FIRE));
    game.player_input(input_of(2, FIRE));
    assert_eq!(game.step(&spawns), None);
    assert_eq!(game.shot_count(), 2);
    assert_eq!(game.step(&spawns), None);
    let seen: Vec<(i32, i32, Point, i32)> = game
        .in_game_output()
        .shots
        .iter()
        .map(|s| (s.id, s.from_id, s.position, s.size))
        .collect();
    assert_eq!(
        seen,
        vec![(1, 1, Point { x: 137, y: 112 }, 100), (2, 2, Point { x: 637, y: 412 }, 100)]
    );
    assert_eq!(game.step(&spawns), None);
    let seen: Vec<(i32, Point, i32)> =
        game.in_game_output().shots.iter().map(|s| (s.id, s.position, s.size)).collect();
    assert_eq!(
        seen,
        vec![(1, Point { x: 167, y: 112 }, 20), (2, Point { x: 667, y: 412 }, 20)]
    );
    assert_eq!(game.step(&spawns), None);
    assert_eq!(game.shot_count(), 0);
    let seen: Vec<(i32, i32, Point)> =
        game.in_game_output().explosions.iter().map(|e| (e.id, e.from_id, e.position)).collect();
    assert_eq!(
        seen,
        vec![(3, 1, Point { x: 167, y: 112 }), (4, 2, Point { x: 667, y: 412 })]
    );
    assert!(game.ids_left());
}
