use std::collections::HashMap;
use std::collections::HashSet;
use vstd::prelude::*;

use crate::game::{
    blank_board, board_set, board_with_move, cell, current_turn, game_outcome,
    has_line, turn_index, Game, GameEndResults, EMPTY,
};
use crate::draws::{coin_flip, draw_at_most, new_id};
use crate::join_code::{lemma_code_text_round_trip, code_of_text, code_text, join_code_text, parse_join_code, MAX_JOIN_CODE};
use crate::messages::{
    Delivery, EventView, GameEnded, GameResult, GameStarted, GameWaiting, OpponentMove, PlayerMove,
    ServerGameEvent, UserConnectionEvent, UserEvent, UserGameEvent,
};

verus! {

broadcast use vstd::std_specs::hash::group_hash_axioms;

/// The coordinator's state as mathematical values.
pub struct ServiceView {
    /// Players whose connection is registered.
    pub sessions: Set<u128>,
    /// Live matches by id.
    pub games: Map<u128, Game>,
    /// The public match waiting for a second player, if any.
    pub waiting_game: Option<u128>,
    /// Private pending matches by join code.
    pub priv_games: Map<u32, u128>,
    /// Events produced and not yet handed out, in order.
    pub outbox: Seq<(u128, EventView)>,
}

/// The coordinator: owns the registered players, all matches, the public waiting slot and
/// the join-code index. Events for players are queued in an outbox, in the order they are
/// produced, and handed out by `take_outbox`.
pub struct GameService {
    sessions: HashSet<u128>,
    games: HashMap<u128, Game>,
    waiting_game: Option<u128>,
    waiting_priv_games: HashMap<u32, u128>,
    outbox: Vec<Delivery>,
}

/// The addressee and content of each queued event.
pub open spec fn outbox_view(v: Seq<Delivery>) -> Seq<(u128, EventView)> {
    v.map_values(|d: Delivery| (d.player_id, d.event@))
}

/// What sending `e` to `p` queues: the event when `p` is registered, nothing otherwise.
pub open spec fn sent(sessions: Set<u128>, p: u128, e: EventView) -> Seq<(u128, EventView)> {
    if sessions.contains(p) {
        seq![(p, e)]
    } else {
        Seq::empty()
    }
}

/// The registry's invariant: every indexed join code leads to a pending match created
/// with that code, the public waiting slot leads to a pending public match, and the two
/// players of every active match are distinct.
pub open spec fn registry_wf(s: ServiceView) -> bool {
    &&& forall|c: u32| #[trigger]
        s.priv_games.contains_key(c) ==> {
            &&& s.games.contains_key(s.priv_games[c])
            &&& s.games[s.priv_games[c]] matches Game::Waiting { join_code, .. }
            &&& join_code == Some(c)
        }
    &&& s.waiting_game matches Some(g) ==> {
        &&& s.games.contains_key(g)
        &&& s.games[g] matches Game::Waiting { join_code, .. }
        &&& join_code.is_none()
    }
    &&& forall|g: u128| #[trigger]
        s.games.contains_key(g) ==> (s.games[g] matches Game::Started { players, .. }
            ==> players[0] != players[1])
}

/// The join-code index once match `g`, created with `join_code`, leaves it.
pub open spec fn unindex_code(s: ServiceView, g: u128, join_code: Option<u32>) -> Map<u32, u128> {
    match join_code {
        Some(c) => if s.priv_games.contains_key(c) && s.priv_games[c] == g {
            s.priv_games.remove(c)
        } else {
            s.priv_games
        },
        None => s.priv_games,
    }
}

/// The public waiting slot once match `g` leaves it.
pub open spec fn unset_waiting(w: Option<u128>, g: u128) -> Option<u128> {
    if w == Some(g) {
        None
    } else {
        w
    }
}

/// Player `p` joins match `g`: a pending match created by another player becomes active
/// with its creator as the first player, leaves the waiting slot and the code index, and
/// both players are told whether they move first. Anything else, including a creator
/// joining their own match, is left as it is.
pub open spec fn spec_join(s: ServiceView, g: u128, p: u128, turn: bool) -> ServiceView {
    if s.games.contains_key(g) {
        match s.games[g] {
            Game::Waiting { player_id: w, .. } if w == p => s,
            Game::Waiting { player_id: w, join_code } => {
                let started = Game::Started {
                    players: [w, p],
                    board: blank_board(),
                    first_player_turn: turn,
                };
                ServiceView {
                    games: s.games.insert(g, started),
                    waiting_game: unset_waiting(s.waiting_game, g),
                    priv_games: unindex_code(s, g, join_code),
                    outbox: s.outbox + sent(
                        s.sessions,
                        w,
                        EventView::Started { game_id: g, your_turn: current_turn(started, w) },
                    ) + sent(
                        s.sessions,
                        p,
                        EventView::Started { game_id: g, your_turn: current_turn(started, p) },
                    ),
                    ..s
                }
            },
            Game::Started { .. } => s,
        }
    } else {
        s
    }
}

/// Player `p` asks for a match. With a public request and a public match waiting, `p`
/// joins it, which clears the slot (unless `p` is the one waiting). Otherwise a pending match `id` is created for `p`:
/// a public one takes the waiting slot, a private one is indexed under `code`; `p` is told
/// the match id, and for a private match its code.
pub open spec fn spec_start(
    s: ServiceView,
    p: u128,
    public: bool,
    id: u128,
    code: u32,
    turn: bool,
) -> ServiceView {
    if !public || s.waiting_game.is_none() {
        ServiceView {
            games: s.games.insert(
                id,
                Game::Waiting {
                    player_id: p,
                    join_code: if public {
                        None
                    } else {
                        Some(code)
                    },
                },
            ),
            waiting_game: if public {
                Some(id)
            } else {
                s.waiting_game
            },
            priv_games: if public {
                s.priv_games
            } else {
                s.priv_games.insert(code, id)
            },
            outbox: s.outbox + sent(
                s.sessions,
                p,
                EventView::Waiting {
                    game_id: id,
                    join_code: if public {
                        None
                    } else {
                        Some(code_text(code))
                    },
                },
            ),
            ..s
        }
    } else {
        spec_join(s, s.waiting_game.unwrap(), p, turn)
    }
}

/// One way a request for a match by `p` can go, for the drawn match id `id`, join code
/// `code` and first turn `turn`: when a new match is due and `id` is already taken the
/// request is dropped; otherwise it goes as `spec_start` says.
pub open spec fn start_drawn(
    s: ServiceView,
    r: ServiceView,
    p: u128,
    public: bool,
    id: u128,
    code: u32,
    turn: bool,
) -> bool {
    &&& code <= MAX_JOIN_CODE
    &&& if (!public || s.waiting_game.is_none()) && s.games.contains_key(id) {
        r == s
    } else {
        r == spec_start(s, p, public, id, code, turn)
    }
}

/// A request for a match by `p` took `s` to `r` for some drawn match id, join code and
/// first turn.
pub open spec fn start_outcome(s: ServiceView, r: ServiceView, p: u128, public: bool) -> bool {
    exists|id: u128, code: u32, turn: bool| #[trigger] start_drawn(s, r, p, public, id, code, turn)
}

/// Player `p` offers the text `code`: when it names an indexed code, `p` joins that
/// match; otherwise nothing happens.
pub open spec fn spec_join_private(s: ServiceView, code: Seq<char>, p: u128, turn: bool) -> ServiceView {
    match code_of_text(code) {
        Some(c) => if s.priv_games.contains_key(c) {
            spec_join(s, s.priv_games[c], p, turn)
        } else {
            s
        },
        None => s,
    }
}

/// Player `p` leaves. Their registration goes; the match `g` they were in, if it is
/// live, goes too: a pending one leaves the waiting slot and the code index, and in an
/// active one the other player is told that their opponent disconnected.
pub open spec fn spec_deregister(s: ServiceView, p: u128, g: Option<u128>) -> ServiceView {
    let s1 = ServiceView { sessions: s.sessions.remove(p), ..s };
    match g {
        Some(g) => if s.games.contains_key(g) {
            match s.games[g] {
                Game::Waiting { join_code, .. } => ServiceView {
                    games: s.games.remove(g),
                    priv_games: unindex_code(s, g, join_code),
                    waiting_game: unset_waiting(s.waiting_game, g),
                    ..s1
                },
                Game::Started { players, .. } => {
                    let other = if players[0] == p {
                        players[1]
                    } else {
                        players[0]
                    };
                    ServiceView {
                        games: s.games.remove(g),
                        outbox: s.outbox + sent(
                            s1.sessions,
                            other,
                            EventView::Ended { result: GameResult::OpponentDisconnected },
                        ),
                        ..s1
                    }
                },
            }
        } else {
            s1
        },
        None => s1,
    }
}

/// Match `g` has ended: it is live and its board has a winner or is full.
pub open spec fn game_over(s: ServiceView, g: u128) -> bool {
    s.games.contains_key(g) && game_outcome(s.games[g]).is_some()
}

/// Ending match `g` if it is over: the winner is told Win and the loser Loss, or both
/// players Tie, and the match is removed.
pub open spec fn spec_try_end(s: ServiceView, g: u128) -> ServiceView {
    if game_over(s, g) {
        let outbox = match game_outcome(s.games[g]).unwrap() {
            GameEndResults::Win { winner, loser } => s.outbox + sent(
                s.sessions,
                winner,
                EventView::Ended { result: GameResult::Win },
            ) + sent(s.sessions, loser, EventView::Ended { result: GameResult::Loss }),
            GameEndResults::Tie => match s.games[g] {
                Game::Started { players, .. } => s.outbox + sent(
                    s.sessions,
                    players[0],
                    EventView::Ended { result: GameResult::Tie },
                ) + sent(s.sessions, players[1], EventView::Ended { result: GameResult::Tie }),
                Game::Waiting { .. } => s.outbox,
            },
        };
        ServiceView { games: s.games.remove(g), outbox, ..s }
    } else {
        s
    }
}

/// Player `p` plays `m`. It counts only when both coordinates are at most 2, it is `p`'s
/// turn in the active match `m.game_id` and the cell is empty: the cell takes `p`'s mark,
/// the turn passes, the opponent is told the move, and the match ends if it is over.
/// Otherwise nothing changes.
pub open spec fn spec_move(s: ServiceView, p: u128, m: PlayerMove) -> ServiceView {
    if m.x > 2 || m.y > 2 || !s.games.contains_key(m.game_id) {
        s
    } else {
        match s.games[m.game_id] {
            Game::Started { players, board, first_player_turn } => {
                let i = turn_index(first_player_turn);
                if players[i] == p && cell(board, m.x as int, m.y as int) == EMPTY {
                    let moved = Game::Started {
                        players,
                        board: board_set(board, m.x as int, m.y as int, i as i8),
                        first_player_turn: !first_player_turn,
                    };
                    spec_try_end(
                        ServiceView {
                            games: s.games.insert(m.game_id, moved),
                            outbox: s.outbox + sent(
                                s.sessions,
                                players[1 - i],
                                EventView::Moved { x: m.x, y: m.y },
                            ),
                            ..s
                        },
                        m.game_id,
                    )
                } else {
                    s
                }
            },
            Game::Waiting { .. } => s,
        }
    }
}

/// A move by a player whose turn it is not changes nothing: no board is touched and no
/// event is queued for anyone.
pub proof fn lemma_move_out_of_turn_ignored(s: ServiceView, p: u128, m: PlayerMove)
    requires
        s.games.contains_key(m.game_id) ==> !current_turn(s.games[m.game_id], p),
    ensures
        spec_move(s, p, m) == s,
{
}

/// A move with a coordinate above 2 changes nothing.
pub proof fn lemma_move_off_grid_ignored(s: ServiceView, p: u128, m: PlayerMove)
    requires
        m.x > 2 || m.y > 2,
    ensures
        spec_move(s, p, m) == s,
{
}

/// A move in a match that is not live, such as one that has ended, changes nothing.
pub proof fn lemma_move_without_match_ignored(s: ServiceView, p: u128, m: PlayerMove)
    requires
        !s.games.contains_key(m.game_id),
    ensures
        spec_move(s, p, m) == s,
{
}

/// A move onto a cell that already holds a mark changes nothing: no mark is ever
/// overwritten.
pub proof fn lemma_move_on_occupied_cell_ignored(s: ServiceView, p: u128, m: PlayerMove)
    requires
        s.games.contains_key(m.game_id),
        s.games[m.game_id] matches Game::Started { board, .. } && m.x <= 2 && m.y <= 2 && cell(
            board,
            m.x as int,
            m.y as int,
        ) != EMPTY,
    ensures
        spec_move(s, p, m) == s,
{
}

/// A move that completes a line for the player whose turn it is, with the opponent holding
/// no line, ends the match: the opponent is told the move and then that they lost, the
/// mover that they won, and the match leaves the registry while nothing else changes.
pub proof fn lemma_winning_move_ends_match(s: ServiceView, p: u128, m: PlayerMove)
    requires
        m.x <= 2,
        m.y <= 2,
        s.games.contains_key(m.game_id),
        s.games[m.game_id] matches Game::Started { players, board, first_player_turn } && {
            let i = turn_index(first_player_turn);
            let after = board_set(board, m.x as int, m.y as int, i as i8);
            &&& players[i] == p
            &&& cell(board, m.x as int, m.y as int) == EMPTY
            &&& has_line(after, i as i8)
            &&& !has_line(after, (1 - i) as i8)
        },
    ensures
        ({
            let r = spec_move(s, p, m);
            let opponent = match s.games[m.game_id] {
                Game::Started { players, first_player_turn, .. } => players[1 - turn_index(
                    first_player_turn,
                )],
                Game::Waiting { player_id, .. } => player_id,
            };
            &&& r.games == s.games.remove(m.game_id)
            &&& r.sessions == s.sessions
            &&& r.waiting_game == s.waiting_game
            &&& r.priv_games == s.priv_games
            &&& r.outbox == s.outbox + sent(s.sessions, opponent, EventView::Moved { x: m.x, y: m.y })
                + sent(s.sessions, p, EventView::Ended { result: GameResult::Win }) + sent(
                s.sessions,
                opponent,
                EventView::Ended { result: GameResult::Loss },
            )
        }),
{
    assert(s.games.insert(m.game_id, s.games[m.game_id]).remove(m.game_id) =~= s.games.remove(
        m.game_id,
    ));
    match s.games[m.game_id] {
        Game::Started { players, board, first_player_turn } => {
            let i = turn_index(first_player_turn);
            let moved = Game::Started {
                players,
                board: board_set(board, m.x as int, m.y as int, i as i8),
                first_player_turn: !first_player_turn,
            };
            assert(s.games.insert(m.game_id, moved).remove(m.game_id) =~= s.games.remove(
                m.game_id,
            ));
        },
        Game::Waiting { .. } => {},
    }
}

/// A private match can be joined by the code its creator was shown: offering the text
/// of the code under which a pending match is indexed joins that match.
pub proof fn lemma_shown_code_joins(s: ServiceView, code: u32, p: u128, turn: bool)
    requires
        code <= MAX_JOIN_CODE,
        s.priv_games.contains_key(code),
    ensures
        spec_join_private(s, code_text(code), p, turn) == spec_join(s, s.priv_games[code], p, turn),
{
    lemma_code_text_round_trip(code);
}

impl View for GameService {
    type V = ServiceView;

    closed spec fn view(&self) -> ServiceView {
        ServiceView {
            sessions: self.sessions@,
            games: self.games@,
            waiting_game: self.waiting_game,
            priv_games: self.waiting_priv_games@,
            outbox: outbox_view(self.outbox@),
        }
    }
}

impl GameService {
    pub open spec fn wf(&self) -> bool {
        registry_wf(self@)
    }

    /// A coordinator with no players, no matches and nothing to send.
    pub fn new() -> (r: GameService)
        ensures
            r.wf(),
            r@.sessions == Set::<u128>::empty(),
            r@.games == Map::<u128, Game>::empty(),
            r@.waiting_game.is_none(),
            r@.priv_games == Map::<u32, u128>::empty(),
            r@.outbox == Seq::<(u128, EventView)>::empty(),
    {
        let r = GameService {
            sessions: HashSet::new(),
            games: HashMap::new(),
            waiting_game: None,
            waiting_priv_games: HashMap::new(),
            outbox: Vec::new(),
        };
        assert(outbox_view(r.outbox@) =~= Seq::empty());
        r
    }

    /// Hands out the queued events, oldest first, and empties the queue.
    pub fn take_outbox(&mut self) -> (r: Vec<Delivery>)
        requires
            old(self).wf(),
        ensures
            final(self).wf(),
            outbox_view(r@) == old(self)@.outbox,
            final(self)@ == (ServiceView { outbox: Seq::empty(), ..old(self)@ }),
    {
        let mut r: Vec<Delivery> = Vec::new();
        std::mem::swap(&mut r, &mut self.outbox);
        assert(outbox_view(self.outbox@) =~= Seq::empty());
        r
    }

    /// Registers the connection of `player_id`.
    pub fn register_player(&mut self, player_id: u128)
        requires
            old(self).wf(),
        ensures
            final(self).wf(),
            final(self)@ == (ServiceView {
                sessions: old(self)@.sessions.insert(player_id),
                ..old(self)@
            }),
    {
        self.sessions.insert(player_id);
    }

    /// Queues `msg` for `player_id` if that player is registered.
    pub fn send_to_player(&mut self, player_id: u128, msg: ServerGameEvent)
        requires
            old(self).wf(),
        ensures
            final(self).wf(),
            final(self)@ == (ServiceView {
                outbox: old(self)@.outbox + sent(old(self)@.sessions, player_id, msg@),
                ..old(self)@
            }),
    {
        let ghost before = self.outbox@;
        if self.sessions.contains(&player_id) {
            let ghost e = msg@;
            self.outbox.push(Delivery { player_id, event: msg });
            assert(outbox_view(self.outbox@) =~= outbox_view(before) + seq![(player_id, e)]);
        } else {
            assert(outbox_view(self.outbox@) =~= outbox_view(before) + Seq::empty());
        }
    }

    /// Takes match `game_id`, created with `join_code`, out of the code index and the
    /// public waiting slot.
    fn release_waiting(&mut self, game_id: u128, join_code: Option<u32>)
        ensures
            final(self)@ == (ServiceView {
                priv_games: unindex_code(old(self)@, game_id, join_code),
                waiting_game: unset_waiting(old(self)@.waiting_game, game_id),
                ..old(self)@
            }),
    {
        if let Some(code) = join_code {
            let indexed = match self.waiting_priv_games.get(&code) {
                Some(g) => *g == game_id,
                None => false,
            };
            if indexed {
                self.waiting_priv_games.remove(&code);
            }
        }
        let is_waiting = match self.waiting_game {
            Some(g) => g == game_id,
            None => false,
        };
        if is_waiting {
            self.waiting_game = None;
        }
    }

    /// `joining_player_id` joins match `game_id`, where `first_player_turn` tells whether
    /// the match's creator moves first.
    pub fn join_game_with(&mut self, game_id: u128, joining_player_id: u128, first_player_turn: bool)
        requires
            old(self).wf(),
        ensures
            final(self).wf(),
            final(self)@ == spec_join(old(self)@, game_id, joining_player_id, first_player_turn),
    {
        let game = match self.games.get(&game_id) {
            Some(g) => *g,
            None => {
                return;
            },
        };
        match game {
            Game::Started { .. } => {},
            Game::Waiting { player_id: waiting_player_id, join_code } => {
                if waiting_player_id == joining_player_id {
                    return;
                }
                let players = [waiting_player_id, joining_player_id];
                let started = Game::started_with(players, first_player_turn);
                let your_turn = started.is_current_turn(waiting_player_id);
                self.send_to_player(
                    waiting_player_id,
                    ServerGameEvent::GameStarted(GameStarted { game_id, your_turn }),
                );
                let your_turn = started.is_current_turn(joining_player_id);
                self.send_to_player(
                    joining_player_id,
                    ServerGameEvent::GameStarted(GameStarted { game_id, your_turn }),
                );
                self.release_waiting(game_id, join_code);
                self.games.insert(game_id, started);
            },
        }
    }

    /// `joining_player_id` joins match `game_id`; who moves first is drawn at random.
    pub fn join_game(&mut self, game_id: u128, joining_player_id: u128)
        requires
            old(self).wf(),
        ensures
            final(self).wf(),
            exists|turn: bool| final(self)@ == #[trigger] spec_join(old(self)@, game_id, joining_player_id, turn),
    {
        let turn = coin_flip();
        self.join_game_with(game_id, joining_player_id, turn);
    }

    /// `player_id` asks for a public or private match. A new match takes the id
    /// `new_game_id`, and a private one the join code `code`; when `player_id` joins a
    /// waiting public match instead, `first_player_turn` tells whether its creator moves
    /// first.
    pub fn start_game_with(
        &mut self,
        player_id: u128,
        public: bool,
        new_game_id: u128,
        code: u32,
        first_player_turn: bool,
    )
        requires
            old(self).wf(),
            code <= MAX_JOIN_CODE,
            !public || old(self)@.waiting_game.is_none() ==> !old(self)@.games.contains_key(new_game_id),
        ensures
            final(self).wf(),
            final(self)@ == spec_start(old(self)@, player_id, public, new_game_id, code, first_player_turn),
    {
        if !public || self.waiting_game.is_none() {
            let join_code: Option<u32> = if public {
                self.waiting_game = Some(new_game_id);
                None
            } else {
                self.waiting_priv_games.insert(code, new_game_id);
                Some(code)
            };
            self.games.insert(new_game_id, Game::Waiting { player_id, join_code });
            let text = if public {
                None
            } else {
                Some(join_code_text(code))
            };
            self.send_to_player(
                player_id,
                ServerGameEvent::GameWaiting(GameWaiting { game_id: new_game_id, join_code: text }),
            );
        } else {
            let waiting = match self.waiting_game {
                Some(g) => g,
                None => 0,
            };
            self.join_game_with(waiting, player_id, first_player_turn);
        }
    }

    /// `player_id` asks for a public or private match; the new match's id, its join code
    /// and who moves first are drawn at random. In the unlikely case that the drawn id is
    /// already taken, the request is dropped.
    pub fn start_game(&mut self, player_id: u128, public: bool)
        requires
            old(self).wf(),
        ensures
            final(self).wf(),
            start_outcome(old(self)@, final(self)@, player_id, public),
    {
        let ghost s = self@;
        if !public || self.waiting_game.is_none() {
            let id = new_id();
            if self.games.contains_key(&id) {
                assert(start_drawn(s, self@, player_id, public, id, 0, false));
                return;
            }
            let code = if public {
                0
            } else {
                draw_at_most(MAX_JOIN_CODE)
            };
            self.start_game_with(player_id, public, id, code, false);
            assert(start_drawn(s, self@, player_id, public, id, code, false));
        } else {
            let turn = coin_flip();
            self.start_game_with(player_id, public, 0, 0, turn);
            assert(start_drawn(s, self@, player_id, public, 0, 0, turn));
        }
    }

    /// `joining_player_id` offers the join code `join_code`, and joins the match it names,
    /// with `first_player_turn` telling whether the match's creator moves first. A text
    /// that names no pending private match is ignored.
    pub fn join_private_game_with(&mut self, join_code: &str, joining_player_id: u128, first_player_turn: bool)
        requires
            old(self).wf(),
        ensures
            final(self).wf(),
            final(self)@ == spec_join_private(old(self)@, join_code@, joining_player_id, first_player_turn),
    {
        let code = match parse_join_code(join_code) {
            Some(c) => c,
            None => {
                return;
            },
        };
        let game_id = match self.waiting_priv_games.get(&code) {
            Some(g) => *g,
            None => {
                return;
            },
        };
        self.join_game_with(game_id, joining_player_id, first_player_turn);
    }

    /// `joining_player_id` offers the join code `join_code`; who moves first is drawn at
    /// random.
    pub fn join_private_game(&mut self, join_code: String, joining_player_id: u128)
        requires
            old(self).wf(),
        ensures
            final(self).wf(),
            exists|turn: bool| final(self)@ == #[trigger] spec_join_private(old(self)@, join_code@, joining_player_id, turn),
    {
        let turn = coin_flip();
        self.join_private_game_with(join_code.as_str(), joining_player_id, turn);
    }

    /// `player_id` has disconnected, from match `game_id_opt` if it names one.
    pub fn deregister_player(&mut self, player_id: u128, game_id_opt: Option<u128>)
        requires
            old(self).wf(),
        ensures
            final(self).wf(),
            final(self)@ == spec_deregister(old(self)@, player_id, game_id_opt),
    {
        self.sessions.remove(&player_id);
        let game_id = match game_id_opt {
            Some(g) => g,
            None => {
                return;
            },
        };
        let game = match self.games.get(&game_id) {
            Some(g) => *g,
            None => {
                return;
            },
        };
        match game {
            Game::Waiting { join_code, .. } => {
                self.release_waiting(game_id, join_code);
            },
            Game::Started { players, .. } => {
                let other = if players[0] == player_id {
                    players[1]
                } else {
                    players[0]
                };
                self.send_to_player(
                    other,
                    ServerGameEvent::GameEnded(GameEnded { result: GameResult::OpponentDisconnected }),
                );
            },
        }
        self.games.remove(&game_id);
    }

    /// Ends match `game_id` if it is over, telling its players the result; `Err` when
    /// there is no such match or it is not over.
    pub fn try_end_game(&mut self, game_id: u128) -> (r: Result<(), ()>)
        requires
            old(self).wf(),
        ensures
            final(self).wf(),
            r.is_ok() == game_over(old(self)@, game_id),
            final(self)@ == spec_try_end(old(self)@, game_id),
    {
        let game = match self.games.get(&game_id) {
            Some(g) => *g,
            None => {
                return Err(());
            },
        };
        let results = match game.get_winner() {
            Some(res) => res,
            None => {
                return Err(());
            },
        };
        match results {
            GameEndResults::Win { winner, loser } => {
                self.send_to_player(
                    winner,
                    ServerGameEvent::GameEnded(GameEnded { result: GameResult::Win }),
                );
                self.send_to_player(
                    loser,
                    ServerGameEvent::GameEnded(GameEnded { result: GameResult::Loss }),
                );
            },
            GameEndResults::Tie => {
                if let Game::Started { players, .. } = game {
                    self.send_to_player(
                        players[0],
                        ServerGameEvent::GameEnded(GameEnded { result: GameResult::Tie }),
                    );
                    self.send_to_player(
                        players[1],
                        ServerGameEvent::GameEnded(GameEnded { result: GameResult::Tie }),
                    );
                }
            },
        }
        self.games.remove(&game_id);
        Ok(())
    }

    /// `player_id` plays `player_move`; see `spec_move` for when it counts.
    pub fn play_move(&mut self, player_id: u128, player_move: PlayerMove)
        requires
            old(self).wf(),
        ensures
            final(self).wf(),
            final(self)@ == spec_move(old(self)@, player_id, player_move),
            (player_move.x > 2 || player_move.y > 2 || !old(self)@.games.contains_key(
                player_move.game_id,
            ) || !current_turn(old(self)@.games[player_move.game_id], player_id))
                ==> final(self)@ == old(self)@,
    {
        if player_move.x > 2 || player_move.y > 2 {
            return;
        }
        let game_id = player_move.game_id;
        let game = match self.games.get(&game_id) {
            Some(g) => *g,
            None => {
                return;
            },
        };
        match game {
            Game::Waiting { .. } => {},
            Game::Started { players, board, first_player_turn } => {
                let i: usize = if first_player_turn {
                    0
                } else {
                    1
                };
                if players[i] == player_id && board[player_move.y][player_move.x] == EMPTY {
                    let board = board_with_move(board, player_move.x, player_move.y, i as i8);
                    let opponent = players[1 - i];
                    self.games.insert(
                        game_id,
                        Game::Started { players, board, first_player_turn: !first_player_turn },
                    );
                    self.send_to_player(
                        opponent,
                        ServerGameEvent::OpponentMove(
                            OpponentMove { x: player_move.x, y: player_move.y },
                        ),
                    );
                    let _ = self.try_end_game(game_id);
                }
            },
        }
    }

    /// Handles a connection event: a connect registers the player, a disconnect
    /// deregisters them, and a report that a peer is not responding changes nothing.
    pub fn handle_connection_event(&mut self, msg: UserConnectionEvent)
        requires
            old(self).wf(),
        ensures
            final(self).wf(),
            match msg {
                UserConnectionEvent::Connect(c) => final(self)@ == (ServiceView {
                    sessions: old(self)@.sessions.insert(c.player_id),
                    ..old(self)@
                }),
                UserConnectionEvent::NotResponding => final(self)@ == old(self)@,
                UserConnectionEvent::Disconnect(d) => final(self)@ == spec_deregister(
                    old(self)@,
                    d.player_id,
                    d.game_id,
                ),
            },
    {
        match msg {
            UserConnectionEvent::Connect(connect) => self.register_player(connect.player_id),
            UserConnectionEvent::NotResponding => {},
            UserConnectionEvent::Disconnect(disconnect) => {
                self.deregister_player(disconnect.player_id, disconnect.game_id);
            },
        }
    }

    /// Handles a player's event: a request for a match, a join code, or a move.
    pub fn handle_game_event(&mut self, msg: UserGameEvent)
        requires
            old(self).wf(),
        ensures
            final(self).wf(),
            match msg.event {
                UserEvent::StartGame(sg) => start_outcome(
                    old(self)@,
                    final(self)@,
                    msg.player_id,
                    sg.public_game,
                ),
                UserEvent::JoinPrivGame(j) => exists|turn: bool|
                    final(self)@ == #[trigger] spec_join_private(
                        old(self)@,
                        j.join_code@,
                        msg.player_id,
                        turn,
                    ),
                UserEvent::PlayerMove(m) => {
                    &&& final(self)@ == spec_move(old(self)@, msg.player_id, m)
                    &&& (m.x > 2 || m.y > 2 || !old(self)@.games.contains_key(m.game_id)
                        || !current_turn(old(self)@.games[m.game_id], msg.player_id))
                        ==> final(self)@ == old(self)@
                },
            },
    {
        let player_id = msg.player_id;
        match msg.event {
            UserEvent::StartGame(start_game) => self.start_game(player_id, start_game.public_game),
            UserEvent::JoinPrivGame(join_priv_game) => {
                self.join_private_game(join_priv_game.join_code, player_id)
            },
            UserEvent::PlayerMove(player_move) => self.play_move(player_id, player_move),
        }
    }

    /// The live match `game_id`, if there is one.
    pub fn game(&self, game_id: u128) -> (r: Option<Game>)
        ensures
            r == if self@.games.contains_key(game_id) {
                Some(self@.games[game_id])
            } else {
                None
            },
    {
        match self.games.get(&game_id) {
            Some(g) => Some(*g),
            None => None,
        }
    }

    /// The number of live matches.
    pub fn game_count(&self) -> (r: usize)
        ensures
            r == self@.games.len(),
    {
        self.games.len()
    }

    /// The public match waiting for a second player, if any.
    pub fn waiting_game(&self) -> (r: Option<u128>)
        ensures
            r == self@.waiting_game,
    {
        self.waiting_game
    }
}

} // verus!
