use vstd::prelude::*;

use crate::draws::coin_flip;

verus! {

/// The mark of an empty cell on the grid.
pub const EMPTY: i8 = -1;

/// A 3x3 grid, indexed `board[y][x]`; a cell holds `EMPTY` or the index (0 or 1) of
/// the player whose mark it carries.
pub type Board = [[i8; 3]; 3];

#[derive(Clone, Copy, Debug)]
pub enum Game {
    Waiting { player_id: u128, join_code: Option<u32> },
    Started { players: [u128; 2], board: Board, first_player_turn: bool },
}

#[derive(Clone, Copy, Debug)]
pub enum GameEndResults {
    Win { winner: u128, loser: u128 },
    Tie,
}

/// The cell at column `x`, row `y`.
pub open spec fn cell(b: Board, x: int, y: int) -> i8 {
    b[y][x]
}

/// Every cell holds `EMPTY`, 0 or 1.
pub open spec fn board_valid(b: Board) -> bool {
    forall|x: int, y: int|
        0 <= x < 3 && 0 <= y < 3 ==> {
            let c = #[trigger] cell(b, x, y);
            c == EMPTY || c == 0 || c == 1
        }
}

/// The grid with no mark on it.
pub open spec fn blank_board() -> Board {
    vstd::array::spec_array_fill_for_copy_type::<[i8; 3], 3>(
        vstd::array::spec_array_fill_for_copy_type::<i8, 3>(EMPTY),
    )
}

/// `b` with mark `p` put at column `x`, row `y`.
pub open spec fn board_set(b: Board, x: int, y: int, p: i8) -> Board {
    vstd::array::spec_array_update(b, y, vstd::array::spec_array_update(b[y], x, p))
}

/// The board on which nobody has played yet.
pub open spec fn empty_board(b: Board) -> bool {
    forall|x: int, y: int| 0 <= x < 3 && 0 <= y < 3 ==> #[trigger] cell(b, x, y) == EMPTY
}

/// Line `l` of the eight winning lines holds mark `p` in all three cells: lines 0..3 are
/// the rows, 3..6 the columns, 6 the diagonal through (0,0) and 7 the one through (2,0).
pub open spec fn line_filled(b: Board, l: int, p: i8) -> bool {
    if 0 <= l < 3 {
        cell(b, 0, l) == p && cell(b, 1, l) == p && cell(b, 2, l) == p
    } else if 3 <= l < 6 {
        cell(b, l - 3, 0) == p && cell(b, l - 3, 1) == p && cell(b, l - 3, 2) == p
    } else if l == 6 {
        cell(b, 0, 0) == p && cell(b, 1, 1) == p && cell(b, 2, 2) == p
    } else if l == 7 {
        cell(b, 2, 0) == p && cell(b, 1, 1) == p && cell(b, 0, 2) == p
    } else {
        false
    }
}

/// Player `p` has three in a row somewhere on the board.
pub open spec fn has_line(b: Board, p: i8) -> bool {
    exists|l: int| 0 <= l < 8 && #[trigger] line_filled(b, l, p)
}

/// No cell is empty.
pub open spec fn board_full(b: Board) -> bool {
    forall|x: int, y: int| 0 <= x < 3 && 0 <= y < 3 ==> #[trigger] cell(b, x, y) != EMPTY
}

/// The outcome of a board: a win for the first player index with a line (player 0 is
/// looked at first), else a tie when the board is full, else none.
pub open spec fn board_outcome(players: [u128; 2], b: Board) -> Option<GameEndResults> {
    if has_line(b, 0) {
        Some(GameEndResults::Win { winner: players[0], loser: players[1] })
    } else if has_line(b, 1) {
        Some(GameEndResults::Win { winner: players[1], loser: players[0] })
    } else if board_full(b) {
        Some(GameEndResults::Tie)
    } else {
        None
    }
}

/// The outcome of a match: none while it waits for a second player.
pub open spec fn game_outcome(g: Game) -> Option<GameEndResults> {
    match g {
        Game::Waiting { .. } => None,
        Game::Started { players, board, .. } => board_outcome(players, board),
    }
}

/// The index of the player whose turn it is.
pub open spec fn turn_index(first_player_turn: bool) -> int {
    if first_player_turn {
        0
    } else {
        1
    }
}

/// `player_id` may play the next move of `g`.
pub open spec fn current_turn(g: Game, player_id: u128) -> bool {
    match g {
        Game::Waiting { .. } => false,
        Game::Started { players, first_player_turn, .. } => players[turn_index(
            first_player_turn,
        )] == player_id,
    }
}

/// Whether the three cells given by their coordinates all hold mark `p`.
fn three_of(b: &Board, p: i8, x0: usize, y0: usize, x1: usize, y1: usize, x2: usize, y2: usize) -> (r:
    bool)
    requires
        x0 < 3 && y0 < 3 && x1 < 3 && y1 < 3 && x2 < 3 && y2 < 3,
    ensures
        r == (cell(*b, x0 as int, y0 as int) == p && cell(*b, x1 as int, y1 as int) == p && cell(
            *b,
            x2 as int,
            y2 as int,
        ) == p),
{
    b[y0][x0] == p && b[y1][x1] == p && b[y2][x2] == p
}

/// Whether player `p` has three in a row on `b`; every line is counted afresh.
pub fn board_has_line(b: &Board, p: i8) -> (r: bool)
    ensures
        r == has_line(*b, p),
{
    let mut i: usize = 0;
    while i < 3
        invariant
            i <= 3,
            forall|l: int| 0 <= l < i ==> !#[trigger] line_filled(*b, l, p),
            forall|l: int| 3 <= l < i + 3 ==> !#[trigger] line_filled(*b, l, p),
        decreases 3 - i,
    {
        if three_of(b, p, 0, i, 1, i, 2, i) {
            assert(line_filled(*b, i as int, p));
            return true;
        }
        if three_of(b, p, i, 0, i, 1, i, 2) {
            assert(line_filled(*b, i + 3, p));
            return true;
        }
        i = i + 1;
    }
    if three_of(b, p, 0, 0, 1, 1, 2, 2) {
        assert(line_filled(*b, 6, p));
        return true;
    }
    if three_of(b, p, 2, 0, 1, 1, 0, 2) {
        assert(line_filled(*b, 7, p));
        return true;
    }
    assert forall|l: int| 0 <= l < 8 implies !line_filled(*b, l, p) by {
    }
    false
}

/// Whether no cell of `b` is empty.
pub fn board_is_full(b: &Board) -> (r: bool)
    ensures
        r == board_full(*b),
{
    let mut y: usize = 0;
    while y < 3
        invariant
            y <= 3,
            forall|xx: int, yy: int| 0 <= xx < 3 && 0 <= yy < y ==> #[trigger] cell(*b, xx, yy) != EMPTY,
        decreases 3 - y,
    {
        let mut x: usize = 0;
        while x < 3
            invariant
                y < 3,
                x <= 3,
                forall|xx: int, yy: int| 0 <= xx < 3 && 0 <= yy < y ==> #[trigger] cell(*b, xx, yy) != EMPTY,
                forall|xx: int| 0 <= xx < x ==> #[trigger] cell(*b, xx, y as int) != EMPTY,
            decreases 3 - x,
        {
            if b[y][x] == EMPTY {
                assert(cell(*b, x as int, y as int) == EMPTY);
                return false;
            }
            x = x + 1;
        }
        y = y + 1;
    }
    true
}

/// The grid with no mark on it.
pub fn new_board() -> (r: Board)
    ensures
        r == blank_board(),
        empty_board(r),
        board_valid(r),
{
    broadcast use vstd::array::group_array_axioms;

    [[EMPTY; 3]; 3]
}

/// `b` with mark `p` put at column `x`, row `y`.
pub fn board_with_move(b: Board, x: usize, y: usize, p: i8) -> (r: Board)
    requires
        x < 3,
        y < 3,
    ensures
        r == board_set(b, x as int, y as int, p),
        forall|xx: int, yy: int|
            0 <= xx < 3 && 0 <= yy < 3 ==> #[trigger] cell(r, xx, yy) == if xx == x && yy == y {
                p
            } else {
                cell(b, xx, yy)
            },
{
    let mut r = b;
    r[y][x] = p;
    proof {
        broadcast use vstd::array::group_array_axioms;

        let s = board_set(b, x as int, y as int, p);
        assert(r[y as int] =~= s[y as int]);
        assert(r =~= s);
    }
    r
}

impl Game {
    /// A started match between `players` on an empty board, where `first_player_turn`
    /// tells whether `players[0]` moves first.
    pub fn started_with(players: [u128; 2], first_player_turn: bool) -> (r: Game)
        ensures
            r == (Game::Started { players, board: blank_board(), first_player_turn }),
    {
        Game::Started { players, board: new_board(), first_player_turn }
    }

    /// A started match between `players` on an empty board; who moves first is drawn at
    /// random.
    pub fn new_started(players: [u128; 2]) -> (r: Game)
        ensures
            r matches Game::Started { players: ps, board, .. } && ps == players && board
                == blank_board(),
    {
        Game::started_with(players, coin_flip())
    }

    /// The end of the match if it has one: the winner and loser when a player has three
    /// in a row, a tie when the board is full without one.
    pub fn get_winner(&self) -> (r: Option<GameEndResults>)
        ensures
            r == game_outcome(*self),
    {
        match self {
            Game::Waiting { .. } => None,
            Game::Started { players, board, .. } => {
                if board_has_line(board, 0) {
                    Some(GameEndResults::Win { winner: players[0], loser: players[1] })
                } else if board_has_line(board, 1) {
                    Some(GameEndResults::Win { winner: players[1], loser: players[0] })
                } else if board_is_full(board) {
                    Some(GameEndResults::Tie)
                } else {
                    None
                }
            },
        }
    }

    /// Whether `player_id` may play the next move: false while the match waits.
    pub fn is_current_turn(&self, player_id: u128) -> (r: bool)
        ensures
            r == current_turn(*self, player_id),
    {
        match self {
            Game::Waiting { .. } => false,
            Game::Started { players, first_player_turn, .. } => {
                if *first_player_turn {
                    players[0] == player_id
                } else {
                    players[1] == player_id
                }
            },
        }
    }
}

/// Whichever of the eight lines it is, and whichever mark: when one player's mark fills
/// a line and the other player has no line, the match is won by the first and lost by
/// the second.
pub proof fn lemma_line_wins(players: [u128; 2], b: Board, turn: bool, l: int, p: i8)
    requires
        0 <= l < 8,
        p == 0 || p == 1,
        line_filled(b, l, p),
        !has_line(b, (1 - p) as i8),
    ensures
        game_outcome(Game::Started { players, board: b, first_player_turn: turn }) == Some(
            GameEndResults::Win { winner: players[p as int], loser: players[1 - p] },
        ),
{
    assert(has_line(b, p));
}

/// A full board on which neither player has a line is a tie.
pub proof fn lemma_full_board_ties(players: [u128; 2], b: Board, turn: bool)
    requires
        board_full(b),
        !has_line(b, 0),
        !has_line(b, 1),
    ensures
        game_outcome(Game::Started { players, board: b, first_player_turn: turn }) == Some(
            GameEndResults::Tie,
        ),
{
}

} // verus!
