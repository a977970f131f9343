use tictactoe::client_conn::ClientConn;
use tictactoe::game::{Game, EMPTY};
use tictactoe::game_service::GameService;
use tictactoe::messages::{
    Connect, Delivery, Disconnect, GameResult, PlayerMove, ServerGameEvent, StartGame,
    UserConnectionEvent, UserEvent, UserGameEvent,
};

const A: u128 = 1001;
const B: u128 = 2002;

fn service_with_players() -> GameService {
    let mut s = GameService::new();
    s.register_player(A);
    s.register_player(B);
    s
}

fn mv(s: &mut GameService, p: u128, game_id: u128, x: usize, y: usize) {
    s.play_move(p, PlayerMove { x, y, game_id });
}

fn started_for(out: &[Delivery], p: u128) -> Vec<(u128, bool)> {
    out.iter()
        .filter(|d| d.player_id == p)
        .filter_map(|d| match &d.event {
            ServerGameEvent::GameStarted(g) => Some((g.game_id, g.your_turn)),
            _ => None,
        })
        .collect()
}

fn ended_for(out: &[Delivery], p: u128) -> Vec<GameResult> {
    out.iter()
        .filter(|d| d.player_id == p)
        .filter_map(|d| match &d.event {
            ServerGameEvent::GameEnded(e) => Some(e.result),
            _ => None,
        })
        .collect()
}

/// An active match between A (its creator, moving first) and B, with the outbox emptied.
fn active_match(s: &mut GameService) -> u128 {
    s.start_game_with(A, false, 77, 123456, false);
    s.join_private_game_with("123456", B, true);
    s.take_outbox();
    77
}

#[test]
fn public_requests_are_paired() {
    let mut s = service_with_players();
    s.start_game(A, true);
    let out = s.take_outbox();
    assert_eq!(out.len(), 1);
    assert_eq!(out[0].player_id, A);
    let game_id = match &out[0].event {
        ServerGameEvent::GameWaiting(w) => {
            assert!(w.join_code.is_none());
            w.game_id
        }
        other => panic!("expected GameWaiting, got {:?}", other),
    };
    assert_eq!(s.waiting_game(), Some(game_id));

    s.start_game(B, true);
    let out = s.take_outbox();
    let a = started_for(&out, A);
    let b = started_for(&out, B);
    assert_eq!(a.len(), 1);
    assert_eq!(b.len(), 1);
    assert_eq!(a[0].0, game_id);
    assert_eq!(b[0].0, game_id);
    assert!(a[0].1 != b[0].1, "exactly one player moves first");
    assert_eq!(s.waiting_game(), None);
    assert_eq!(s.game_count(), 1);
}

#[test]
fn private_match_joined_by_code() {
    let mut s = service_with_players();
    s.start_game_with(A, false, 500, 123456, false);
    let out = s.take_outbox();
    assert_eq!(out.len(), 1);
    match &out[0].event {
        ServerGameEvent::GameWaiting(w) => {
            assert_eq!(w.game_id, 500);
            assert_eq!(w.join_code.as_deref(), Some("123456"));
        }
        other => panic!("expected GameWaiting, got {:?}", other),
    }
    assert_eq!(s.waiting_game(), None);

    s.join_private_game("123456".to_string(), B);
    let out = s.take_outbox();
    assert_eq!(started_for(&out, A).len(), 1);
    assert_eq!(started_for(&out, B).len(), 1);
    assert!(matches!(s.game(500), Some(Game::Started { players: [A, B], .. })));
}

#[test]
fn drawn_private_code_is_shown_and_joins() {
    let mut s = service_with_players();
    s.start_game(A, false);
    let out = s.take_outbox();
    let code = match &out[0].event {
        ServerGameEvent::GameWaiting(w) => w.join_code.clone().unwrap(),
        other => panic!("expected GameWaiting, got {:?}", other),
    };
    assert_eq!(code.len(), 6);
    assert!(code.chars().all(|c| c.is_ascii_digit()));
    s.join_private_game(code, B);
    let out = s.take_outbox();
    assert_eq!(started_for(&out, B).len(), 1);
}

#[test]
fn unknown_join_code_is_ignored() {
    let mut s = service_with_players();
    s.start_game_with(A, false, 500, 123456, false);
    s.take_outbox();
    s.join_private_game("654321".to_string(), B);
    s.join_private_game("12345".to_string(), B);
    assert!(s.take_outbox().is_empty());
    assert!(matches!(s.game(500), Some(Game::Waiting { .. })));
}

#[test]
fn column_win_ends_the_match() {
    let mut s = service_with_players();
    let g = active_match(&mut s);
    mv(&mut s, A, g, 0, 0);
    mv(&mut s, B, g, 1, 0);
    mv(&mut s, A, g, 0, 1);
    mv(&mut s, B, g, 1, 1);
    let out = s.take_outbox();
    assert!(ended_for(&out, A).is_empty() && ended_for(&out, B).is_empty());
    mv(&mut s, A, g, 0, 2);
    let out = s.take_outbox();
    assert_eq!(ended_for(&out, A), vec![GameResult::Win]);
    assert_eq!(ended_for(&out, B), vec![GameResult::Loss]);
    assert!(s.game(g).is_none());
    mv(&mut s, B, g, 2, 2);
    assert!(s.take_outbox().is_empty());
    assert_eq!(s.game_count(), 0);
}

#[test]
fn opponent_is_told_each_move() {
    let mut s = service_with_players();
    let g = active_match(&mut s);
    mv(&mut s, A, g, 2, 1);
    let out = s.take_outbox();
    assert_eq!(out.len(), 1);
    assert_eq!(out[0].player_id, B);
    match &out[0].event {
        ServerGameEvent::OpponentMove(m) => assert_eq!((m.x, m.y), (2, 1)),
        other => panic!("expected OpponentMove, got {:?}", other),
    }
    match s.game(g) {
        Some(Game::Started { board, first_player_turn, .. }) => {
            assert_eq!(board[1][2], 0);
            assert!(!first_player_turn);
        }
        other => panic!("expected an active match, got {:?}", other),
    }
}

#[test]
fn full_board_ends_in_tie() {
    let mut s = service_with_players();
    let g = active_match(&mut s);
    // fills the grid as  A B A / A B B / B A A  (rows from the top): no line for either
    let moves = [
        (A, 0, 0),
        (B, 1, 0),
        (A, 2, 0),
        (B, 1, 1),
        (A, 0, 1),
        (B, 0, 2),
        (A, 1, 2),
        (B, 2, 1),
        (A, 2, 2),
    ];
    for (p, x, y) in moves {
        mv(&mut s, p, g, x, y);
    }
    let out = s.take_outbox();
    assert_eq!(ended_for(&out, A), vec![GameResult::Tie]);
    assert_eq!(ended_for(&out, B), vec![GameResult::Tie]);
    assert!(s.game(g).is_none());
}

#[test]
fn disconnect_in_active_match_tells_opponent() {
    let mut s = service_with_players();
    let g = active_match(&mut s);
    s.handle_connection_event(UserConnectionEvent::Disconnect(Disconnect {
        player_id: A,
        game_id: Some(g),
    }));
    let out = s.take_outbox();
    assert_eq!(out.len(), 1);
    assert_eq!(ended_for(&out, B), vec![GameResult::OpponentDisconnected]);
    assert!(s.game(g).is_none());
    s.deregister_player(A, Some(g));
    assert!(s.take_outbox().is_empty());
}

#[test]
fn disconnect_of_pending_creator_removes_match_and_code() {
    let mut s = service_with_players();
    s.start_game_with(A, false, 500, 123456, false);
    s.deregister_player(A, Some(500));
    s.take_outbox();
    assert!(s.game(500).is_none());
    s.join_private_game("123456".to_string(), B);
    assert!(s.take_outbox().is_empty());

    s.start_game_with(B, true, 600, 0, false);
    assert_eq!(s.waiting_game(), Some(600));
    s.deregister_player(B, Some(600));
    assert_eq!(s.waiting_game(), None);
    assert_eq!(s.game_count(), 0);
}

#[test]
fn player_in_active_match_cannot_start_another() {
    let mut s = service_with_players();
    let g = active_match(&mut s);
    let mut conn = ClientConn::with_id(A, 0);
    conn.handle(&ServerGameEvent::GameStarted(tictactoe::messages::GameStarted {
        game_id: g,
        your_turn: true,
    }));
    let fwd = conn.forward_event(UserEvent::StartGame(StartGame { public_game: true }));
    assert!(fwd.is_none());
    assert_eq!(s.game_count(), 1);
    assert!(s.take_outbox().is_empty());
}

#[test]
fn move_out_of_turn_changes_nothing() {
    let mut s = service_with_players();
    let g = active_match(&mut s);
    mv(&mut s, B, g, 1, 1);
    assert!(s.take_outbox().is_empty());
    match s.game(g) {
        Some(Game::Started { board, first_player_turn, .. }) => {
            assert_eq!(board, [[EMPTY; 3]; 3]);
            assert!(first_player_turn);
        }
        other => panic!("expected an active match, got {:?}", other),
    }
    mv(&mut s, 9999, g, 1, 1);
    assert!(s.take_outbox().is_empty());
}

#[test]
fn move_off_grid_changes_nothing() {
    let mut s = service_with_players();
    let g = active_match(&mut s);
    mv(&mut s, A, g, 3, 0);
    mv(&mut s, A, g, 0, 3);
    assert!(s.take_outbox().is_empty());
    match s.game(g) {
        Some(Game::Started { board, first_player_turn, .. }) => {
            assert_eq!(board, [[EMPTY; 3]; 3]);
            assert!(first_player_turn);
        }
        other => panic!("expected an active match, got {:?}", other),
    }
}

#[test]
fn events_for_unregistered_players_are_dropped() {
    let mut s = GameService::new();
    s.handle_connection_event(UserConnectionEvent::Connect(Connect { player_id: A }));
    s.start_game_with(B, true, 10, 0, false);
    assert!(s.take_outbox().is_empty());
    s.handle_game_event(UserGameEvent {
        player_id: A,
        event: UserEvent::StartGame(StartGame { public_game: true }),
    });
    let out = s.take_outbox();
    assert_eq!(out.len(), 1);
    assert_eq!(out[0].player_id, A);
    s.handle_connection_event(UserConnectionEvent::NotResponding);
    assert!(s.take_outbox().is_empty());
}

#[test]
fn move_in_pending_match_is_ignored() {
    let mut s = service_with_players();
    s.start_game_with(A, true, 10, 0, false);
    s.take_outbox();
    mv(&mut s, A, 10, 0, 0);
    assert!(s.take_outbox().is_empty());
    assert!(matches!(s.game(10), Some(Game::Waiting { .. })));
}

#[test]
fn creator_cannot_join_own_match() {
    let mut s = service_with_players();
    s.start_game_with(A, false, 500, 123456, false);
    s.take_outbox();
    s.join_private_game("123456".to_string(), A);
    assert!(s.take_outbox().is_empty());
    assert!(matches!(s.game(500), Some(Game::Waiting { player_id: A, .. })));

    s.start_game_with(B, true, 600, 0, false);
    s.take_outbox();
    s.join_game(600, B);
    assert!(s.take_outbox().is_empty());
    assert_eq!(s.waiting_game(), Some(600));
    s.start_game(B, true);
    assert!(s.take_outbox().is_empty());
    assert!(matches!(s.game(600), Some(Game::Waiting { player_id: B, .. })));
    assert_eq!(s.waiting_game(), Some(600));
    s.start_game(A, true);
    assert_eq!(started_for(&s.take_outbox(), A).len(), 1);
    assert_eq!(s.waiting_game(), None);
}

#[test]
fn move_onto_occupied_cell_changes_nothing() {
    let mut s = service_with_players();
    let g = active_match(&mut s);
    mv(&mut s, A, g, 1, 1);
    s.take_outbox();
    mv(&mut s, B, g, 1, 1);
    assert!(s.take_outbox().is_empty());
    match s.game(g) {
        Some(Game::Started { board, first_player_turn, .. }) => {
            assert_eq!(board[1][1], 0);
            assert!(!first_player_turn, "still the second player's turn");
        }
        other => panic!("expected an active match, got {:?}", other),
    }
    mv(&mut s, B, g, 2, 2);
    let out = s.take_outbox();
    assert_eq!(out.len(), 1);
    assert_eq!(out[0].player_id, A);
}
