use vstd::prelude::*;

verus! {

// Events the coordinator sends to a player.
#[derive(Clone, Copy, Debug, PartialEq, Eq, Structural)]
pub enum GameResult {
    Win,
    Loss,
    Tie,
    OpponentDisconnected,
}

#[derive(Debug)]
pub struct GameWaiting {
    pub game_id: u128,
    pub join_code: Option<String>,
}

#[derive(Clone, Copy, Debug)]
pub struct GameStarted {
    pub game_id: u128,
    pub your_turn: bool,
}

#[derive(Clone, Copy, Debug)]
pub struct GameEnded {
    pub result: GameResult,
}

#[derive(Clone, Copy, Debug)]
pub struct OpponentMove {
    pub x: usize,
    pub y: usize,
}

#[derive(Debug)]
pub enum ServerGameEvent {
    GameWaiting(GameWaiting),
    GameStarted(GameStarted),
    GameEnded(GameEnded),
    OpponentMove(OpponentMove),
}

/// What an outbound event says, with the join code as its characters.
pub enum EventView {
    Waiting { game_id: u128, join_code: Option<Seq<char>> },
    Started { game_id: u128, your_turn: bool },
    Ended { result: GameResult },
    Moved { x: usize, y: usize },
}

impl View for ServerGameEvent {
    type V = EventView;

    open spec fn view(&self) -> EventView {
        match self {
            ServerGameEvent::GameWaiting(w) => EventView::Waiting {
                game_id: w.game_id,
                join_code: match w.join_code {
                    Some(c) => Some(c@),
                    None => None,
                },
            },
            ServerGameEvent::GameStarted(s) => EventView::Started {
                game_id: s.game_id,
                your_turn: s.your_turn,
            },
            ServerGameEvent::GameEnded(e) => EventView::Ended { result: e.result },
            ServerGameEvent::OpponentMove(m) => EventView::Moved { x: m.x, y: m.y },
        }
    }
}

/// An event addressed to one player.
#[derive(Debug)]
pub struct Delivery {
    pub player_id: u128,
    pub event: ServerGameEvent,
}

// Events a player sends.
#[derive(Clone, Copy, Debug)]
pub struct StartGame {
    pub public_game: bool,
}

#[derive(Debug)]
pub struct JoinPrivGame {
    pub join_code: String,
}

#[derive(Clone, Copy, Debug)]
pub struct PlayerMove {
    pub x: usize,
    pub y: usize,
    pub game_id: u128,
}

#[derive(Debug)]
pub enum UserEvent {
    StartGame(StartGame),
    JoinPrivGame(JoinPrivGame),
    PlayerMove(PlayerMove),
}

/// A player's event, tagged with the player it came from.
#[derive(Debug)]
pub struct UserGameEvent {
    pub player_id: u128,
    pub event: UserEvent,
}

#[derive(Clone, Copy, Debug)]
pub struct Connect {
    pub player_id: u128,
}

#[derive(Clone, Copy, Debug)]
pub struct Disconnect {
    pub player_id: u128,
    pub game_id: Option<u128>,
}

#[derive(Clone, Copy, Debug)]
pub enum UserConnectionEvent {
    Connect(Connect),
    NotResponding,
    Disconnect(Disconnect),
}

} // verus!
