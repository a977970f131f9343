use vstd::prelude::*;

use crate::draws::new_id;
use crate::messages::{
    Connect, Disconnect, PlayerMove, ServerGameEvent, UserConnectionEvent, UserEvent, UserGameEvent,
};

verus! {

/// How often a connection is probed, in milliseconds.
pub const PING_INTERVAL_MS: u128 = 5000;

/// Silence after which a connection is closed, in milliseconds: three probe intervals.
pub const CLIENT_TIMEOUT_MS: u128 = 15000;

/// What a heartbeat finds of the peer.
#[derive(Clone, Copy, Debug, PartialEq, Eq, Structural)]
pub enum Liveness {
    /// It answered recently enough.
    Alive,
    /// Silent for more than two probe intervals: the coordinator is told.
    NotResponding,
    /// Silent for more than the timeout: the connection is closed.
    TimedOut,
}

/// The verdict on a peer last heard from `elapsed_ms` milliseconds ago.
pub open spec fn liveness(elapsed_ms: u128) -> Liveness {
    if elapsed_ms > CLIENT_TIMEOUT_MS {
        Liveness::TimedOut
    } else if elapsed_ms > 2 * PING_INTERVAL_MS {
        Liveness::NotResponding
    } else {
        Liveness::Alive
    }
}

/// What a connection passes on to the coordinator of an event from its player: while
/// the connection is in a match only moves pass, scoped to that match; outside a match
/// requests for a match pass and moves, having no match, do not.
pub open spec fn forwarded(player_id: u128, game_id: Option<u128>, event: UserEvent) -> Option<
    UserGameEvent,
> {
    match event {
        UserEvent::PlayerMove(m) => match game_id {
            Some(g) => Some(
                UserGameEvent {
                    player_id,
                    event: UserEvent::PlayerMove(PlayerMove { x: m.x, y: m.y, game_id: g }),
                },
            ),
            None => None,
        },
        _ => if game_id.is_some() {
            None
        } else {
            Some(UserGameEvent { player_id, event })
        },
    }
}

/// The match a connection is in after the coordinator sent it `msg`.
pub open spec fn game_after(game_id: Option<u128>, msg: ServerGameEvent) -> Option<u128> {
    match msg {
        ServerGameEvent::GameWaiting(w) => Some(w.game_id),
        ServerGameEvent::GameStarted(s) => Some(s.game_id),
        ServerGameEvent::GameEnded(_) => None,
        ServerGameEvent::OpponentMove(_) => game_id,
    }
}

/// A frame received on the connection, by kind.
#[derive(Clone, Copy, Debug, PartialEq, Eq, Structural)]
pub enum Frame {
    Text,
    Binary,
    Continuation,
    Ping,
    Pong,
    Close,
    Nop,
}

/// What the connection does with a received frame.
#[derive(Clone, Copy, Debug, PartialEq, Eq, Structural)]
pub enum FrameAction {
    /// Read the text as a player's event.
    ParseText,
    /// Answer the probe.
    Pong,
    /// Acknowledge the peer's close and tear the connection down.
    Close,
    Ignore,
}

/// The action for a frame of kind `f`.
pub open spec fn frame_action(f: Frame) -> FrameAction {
    match f {
        Frame::Text => FrameAction::ParseText,
        Frame::Ping => FrameAction::Pong,
        Frame::Close => FrameAction::Close,
        _ => FrameAction::Ignore,
    }
}

/// A frame of kind `f` shows that the peer is alive.
pub open spec fn shows_liveness(f: Frame) -> bool {
    f == Frame::Ping || f == Frame::Pong
}

/// Milliseconds from `since` to `now`; none when the clock reads earlier than `since`.
pub open spec fn elapsed(since: u128, now: u128) -> u128 {
    if now > since {
        (now - since) as u128
    } else {
        0
    }
}

/// One player's connection: its identifier, the match it is in, if any, and when the
/// peer was last heard from, in milliseconds of a clock that only moves forward.
pub struct ClientConn {
    pub id: u128,
    pub game_id: Option<u128>,
    pub last_ping: u128,
}

impl ClientConn {
    /// A connection opened at `now` with a fresh random identifier, in no match.
    pub fn new(now: u128) -> (r: ClientConn)
        ensures
            r.game_id.is_none(),
            r.last_ping == now,
    {
        ClientConn { id: new_id(), game_id: None, last_ping: now }
    }

    /// A connection opened at `now` with identifier `id`, in no match.
    pub fn with_id(id: u128, now: u128) -> (r: ClientConn)
        ensures
            r.id == id,
            r.game_id.is_none(),
            r.last_ping == now,
    {
        ClientConn { id, game_id: None, last_ping: now }
    }

    /// The heartbeat's verdict at `now` on the peer.
    pub fn hb(&self, now: u128) -> (r: Liveness)
        ensures
            r == liveness(elapsed(self.last_ping, now)),
    {
        let elapsed_ms = if now > self.last_ping {
            now - self.last_ping
        } else {
            0
        };
        if elapsed_ms > CLIENT_TIMEOUT_MS {
            Liveness::TimedOut
        } else if elapsed_ms > 2 * PING_INTERVAL_MS {
            Liveness::NotResponding
        } else {
            Liveness::Alive
        }
    }

    /// Takes in a frame of kind `frame` received at `now`: a probe or an answer to one
    /// shows that the peer is alive.
    pub fn on_frame(&mut self, frame: Frame, now: u128) -> (r: FrameAction)
        ensures
            r == frame_action(frame),
            final(self).id == old(self).id,
            final(self).game_id == old(self).game_id,
            final(self).last_ping == if shows_liveness(frame) {
                now
            } else {
                old(self).last_ping
            },
    {
        match frame {
            Frame::Text => FrameAction::ParseText,
            Frame::Ping => {
                self.last_ping = now;
                FrameAction::Pong
            },
            Frame::Pong => {
                self.last_ping = now;
                FrameAction::Ignore
            },
            Frame::Close => FrameAction::Close,
            Frame::Binary | Frame::Continuation | Frame::Nop => FrameAction::Ignore,
        }
    }

    /// The event announcing this connection to the coordinator.
    pub fn started(&self) -> (r: UserConnectionEvent)
        ensures
            r == UserConnectionEvent::Connect(Connect { player_id: self.id }),
    {
        UserConnectionEvent::Connect(Connect { player_id: self.id })
    }

    /// The event telling the coordinator that this connection is gone, with its match.
    pub fn stopping(&self) -> (r: UserConnectionEvent)
        ensures
            r == UserConnectionEvent::Disconnect(
                Disconnect { player_id: self.id, game_id: self.game_id },
            ),
    {
        UserConnectionEvent::Disconnect(Disconnect { player_id: self.id, game_id: self.game_id })
    }

    /// The event to pass on to the coordinator for `event` from this connection's player,
    /// if any.
    pub fn forward_event(&self, event: UserEvent) -> (r: Option<UserGameEvent>)
        ensures
            r == forwarded(self.id, self.game_id, event),
    {
        match event {
            UserEvent::PlayerMove(m) => match self.game_id {
                Some(g) => Some(
                    UserGameEvent {
                        player_id: self.id,
                        event: UserEvent::PlayerMove(PlayerMove { x: m.x, y: m.y, game_id: g }),
                    },
                ),
                None => None,
            },
            _ => if self.game_id.is_some() {
                None
            } else {
                Some(UserGameEvent { player_id: self.id, event })
            },
        }
    }

    /// Notes the match this connection is in from an event the coordinator sent it.
    pub fn handle(&mut self, msg: &ServerGameEvent)
        ensures
            final(self).id == old(self).id,
            final(self).last_ping == old(self).last_ping,
            final(self).game_id == game_after(old(self).game_id, *msg),
    {
        match msg {
            ServerGameEvent::GameWaiting(w) => {
                self.game_id = Some(w.game_id);
            },
            ServerGameEvent::GameStarted(s) => {
                self.game_id = Some(s.game_id);
            },
            ServerGameEvent::GameEnded(_) => {
                self.game_id = None;
            },
            ServerGameEvent::OpponentMove(_) => {},
        }
    }
}

} // verus!
