use flo_core::game::{Game, GameRegistry, GameStatus, LobbyFrame, RegistryError};

fn game(id: i32, host: i32, players: Vec<i32>, node_id: Option<i32>) -> Game {
    Game {
        id,
        status: GameStatus::Preparing,
        host_player_id: host,
        players,
        node_id,
    }
}

#[test]
fn create_game_registers_and_notifies_host() {
    let mut reg = GameRegistry::new();
    let g = game(10, 42, vec![42, 7], None);
    let outcome = reg.handle_create_game(&g).unwrap();
    // The creating host alone receives the session-update and game-info
    // frames, in that order.
    assert_eq!(outcome.recipients, vec![42]);
    assert_eq!(
        outcome.frames,
        vec![
            LobbyFrame::SessionUpdate { game_id: Some(10) },
            LobbyFrame::GameInfo { game_id: 10 },
        ]
    );
    assert_eq!(reg.entries.len(), 1);
    assert_eq!(reg.entries[0].id, 10);
    assert_eq!(reg.entries[0].status, GameStatus::Preparing);
    assert_eq!(reg.entries[0].node_id, None);
}

#[test]
fn create_as_bot_broadcasts_to_members() {
    let mut reg = GameRegistry::new();
    let g = game(11, 42, vec![42, 7], Some(3));
    let outcome = reg.handle_create_game_as_bot(&g).unwrap();
    // Every member receives the frames; the node comes pre-assigned.
    assert_eq!(outcome.recipients, vec![42, 7]);
    assert_eq!(
        outcome.frames,
        vec![
            LobbyFrame::SessionUpdate { game_id: Some(11) },
            LobbyFrame::GameInfo { game_id: 11 },
        ]
    );
    assert_eq!(reg.entries[0].node_id, Some(3));
}

#[test]
fn second_active_game_for_host_is_refused() {
    let mut reg = GameRegistry::new();
    reg.handle_create_game(&game(1, 42, vec![42], None)).unwrap();
    let err = reg.handle_create_game(&game(2, 42, vec![42, 7], None)).unwrap_err();
    assert_eq!(err, RegistryError::GameExistsForHost);
    assert_eq!(reg.entries.len(), 1);
}

#[test]
fn host_can_create_again_after_dissolve() {
    let mut reg = GameRegistry::new();
    reg.handle_create_game(&game(1, 42, vec![42], None)).unwrap();
    let members = reg.dissolve(1).unwrap();
    assert_eq!(members, vec![42]);
    reg.handle_create_game(&game(2, 42, vec![42], None)).unwrap();
    assert_eq!(reg.entries.len(), 1);
    assert_eq!(reg.entries[0].id, 2);
}

#[test]
fn status_moves_forward_only() {
    let mut reg = GameRegistry::new();
    reg.handle_create_game(&game(1, 42, vec![42], None)).unwrap();
    reg.update_status(1, GameStatus::Created).unwrap();
    // Running demands an assigned node.
    assert_eq!(
        reg.update_status(1, GameStatus::Running).unwrap_err(),
        RegistryError::InvalidTransition
    );
    reg.assign_node(1, 5).unwrap();
    reg.update_status(1, GameStatus::Running).unwrap();
    // Retrograde and repeated moves are refused.
    assert_eq!(
        reg.update_status(1, GameStatus::Preparing).unwrap_err(),
        RegistryError::InvalidTransition
    );
    assert_eq!(
        reg.update_status(1, GameStatus::Running).unwrap_err(),
        RegistryError::InvalidTransition
    );
    reg.update_status(1, GameStatus::Ended).unwrap();
    assert_eq!(reg.entries[0].status, GameStatus::Ended);
}

#[test]
fn status_of_unknown_game() {
    let mut reg = GameRegistry::new();
    assert_eq!(
        reg.update_status(9, GameStatus::Created).unwrap_err(),
        RegistryError::UnknownGame
    );
}

#[test]
fn broadcast_targets_members_until_dissolved() {
    let mut reg = GameRegistry::new();
    reg.handle_create_game_as_bot(&game(1, 42, vec![42, 7], None)).unwrap();
    assert_eq!(reg.broadcast_targets(1).unwrap(), vec![42, 7]);
    let members = reg.dissolve(1).unwrap();
    assert_eq!(members, vec![42, 7]);
    // A dissolved game can never be a broadcast target again.
    assert_eq!(
        reg.broadcast_targets(1).unwrap_err(),
        RegistryError::UnknownGame
    );
}

#[test]
fn create_broadcast_dissolve_lifecycle() {
    // Host 42 creates a game with members {42, 7}: the host's lobby stream
    // receives the session-update frame referencing the new game id and the
    // game-info frame; the game-info broadcast then reaches both members;
    // after the dissolve, both are owed the terminal notification.
    let mut reg = GameRegistry::new();
    let outcome = reg.handle_create_game(&game(55, 42, vec![42, 7], None)).unwrap();
    assert_eq!(outcome.recipients, vec![42]);
    assert_eq!(
        outcome.frames[0],
        LobbyFrame::SessionUpdate { game_id: Some(55) }
    );
    assert_eq!(outcome.frames[1], LobbyFrame::GameInfo { game_id: 55 });
    let targets = reg.broadcast_targets(55).unwrap();
    assert_eq!(targets, vec![42, 7]);
    let notified = reg.dissolve(55).unwrap();
    assert_eq!(notified, vec![42, 7]);
    assert!(reg.entries.is_empty());
}

#[test]
fn ended_game_frees_the_host() {
    let mut reg = GameRegistry::new();
    reg.handle_create_game(&game(1, 42, vec![42], None)).unwrap();
    reg.update_status(1, GameStatus::Ended).unwrap();
    // The ended entry stays registered but no longer blocks its host.
    reg.handle_create_game(&game(2, 42, vec![42], None)).unwrap();
    assert_eq!(reg.entries.len(), 2);
}
