use tictactoe::game::{Game, GameEndResults, EMPTY};
use tictactoe::join_code::{join_code_text, parse_join_code};

const X_PLAYER: u128 = 11;
const O_PLAYER: u128 = 22;

fn started(board: [[i8; 3]; 3]) -> Game {
    Game::Started { players: [X_PLAYER, O_PLAYER], board, first_player_turn: true }
}

fn lines() -> Vec<[(usize, usize); 3]> {
    let mut v = Vec::new();
    for y in 0..3 {
        v.push([(0, y), (1, y), (2, y)]);
    }
    for x in 0..3 {
        v.push([(x, 0), (x, 1), (x, 2)]);
    }
    v.push([(0, 0), (1, 1), (2, 2)]);
    v.push([(2, 0), (1, 1), (0, 2)]);
    v
}

#[test]
fn every_line_wins_for_either_mark() {
    for line in lines() {
        for p in [0i8, 1i8] {
            let mut board = [[EMPTY; 3]; 3];
            for (x, y) in line {
                board[y][x] = p;
            }
            // one stray mark of the other player somewhere off the line
            let mut placed = false;
            for y in 0..3 {
                for x in 0..3 {
                    if !placed && board[y][x] == EMPTY {
                        board[y][x] = 1 - p;
                        placed = true;
                    }
                }
            }
            match started(board).get_winner() {
                Some(GameEndResults::Win { winner, loser }) => {
                    let (w, l) = if p == 0 { (X_PLAYER, O_PLAYER) } else { (O_PLAYER, X_PLAYER) };
                    assert_eq!(winner, w);
                    assert_eq!(loser, l);
                }
                other => panic!("expected a win, got {:?}", other),
            }
        }
    }
}

#[test]
fn full_board_without_line_is_tie() {
    let board = [[0, 1, 0], [0, 1, 1], [1, 0, 0]];
    assert!(matches!(started(board).get_winner(), Some(GameEndResults::Tie)));
}

#[test]
fn second_player_line_on_full_board_is_a_win_not_a_tie() {
    let board = [[1, 1, 1], [0, 0, 1], [1, 0, 0]];
    match started(board).get_winner() {
        Some(GameEndResults::Win { winner, loser }) => {
            assert_eq!(winner, O_PLAYER);
            assert_eq!(loser, X_PLAYER);
        }
        other => panic!("expected a win, got {:?}", other),
    }
}

#[test]
fn open_board_has_no_result() {
    let board = [[0, 1, EMPTY], [EMPTY, EMPTY, EMPTY], [EMPTY, EMPTY, EMPTY]];
    assert!(started(board).get_winner().is_none());
    let waiting = Game::Waiting { player_id: X_PLAYER, join_code: None };
    assert!(waiting.get_winner().is_none());
}

#[test]
fn turn_follows_first_player_flag() {
    let g = Game::started_with([X_PLAYER, O_PLAYER], true);
    assert!(g.is_current_turn(X_PLAYER));
    assert!(!g.is_current_turn(O_PLAYER));
    let g = Game::started_with([X_PLAYER, O_PLAYER], false);
    assert!(g.is_current_turn(O_PLAYER));
    assert!(!g.is_current_turn(X_PLAYER));
    let waiting = Game::Waiting { player_id: X_PLAYER, join_code: None };
    assert!(!waiting.is_current_turn(X_PLAYER));
}

#[test]
fn first_turn_is_fair_over_many_trials() {
    let trials = 2000;
    let mut first = 0;
    for _ in 0..trials {
        let g = Game::new_started([X_PLAYER, O_PLAYER]);
        match g {
            Game::Started { board, .. } => assert_eq!(board, [[EMPTY; 3]; 3]),
            _ => panic!("not started"),
        }
        if g.is_current_turn(X_PLAYER) {
            first += 1;
        }
    }
    let share = first as f64 / trials as f64;
    assert!(share > 0.4 && share < 0.6, "share of first turns: {}", share);
}

#[test]
fn join_code_text_is_six_zero_padded_digits() {
    assert_eq!(join_code_text(123456), "123456");
    assert_eq!(join_code_text(42), "000042");
    assert_eq!(join_code_text(0), "000000");
    assert_eq!(join_code_text(999999), "999999");
}

#[test]
fn join_code_parses_only_six_digits() {
    assert_eq!(parse_join_code("123456"), Some(123456));
    assert_eq!(parse_join_code("000042"), Some(42));
    assert_eq!(parse_join_code("42"), None);
    assert_eq!(parse_join_code("1234567"), None);
    assert_eq!(parse_join_code("12a456"), None);
    assert_eq!(parse_join_code(""), None);
}
