use vstd::prelude::*;
use crate::board::{Board, BoardView};
use crate::error::ProtocolError;
use crate::rules::{Game, GameView};

verus! {

/// A read-only copy of what is known of one game: what the code that picks
/// the next move gets to see.
#[derive(Debug, PartialEq, Eq)]
pub struct Snapshot {
    game: Game,
    turn: usize,
    board: Board,
    you: String,
}

/// What a [`Snapshot`] holds.
pub struct SnapshotView {
    pub game: GameView,
    pub turn: usize,
    pub board: BoardView,
    /// The id of the snake that this agent plays.
    pub you: Seq<char>,
}

impl View for Snapshot {
    type V = SnapshotView;

    closed spec fn view(&self) -> SnapshotView {
        SnapshotView { game: self.game@, turn: self.turn, board: self.board@, you: self.you@ }
    }
}

impl Snapshot {
    pub fn game(&self) -> (g: &Game)
        ensures
            g@ == self@.game,
    {
        &self.game
    }

    pub fn turn(&self) -> (t: usize)
        ensures
            t == self@.turn,
    {
        self.turn
    }

    pub fn board(&self) -> (b: &Board)
        ensures
            b@ == self@.board,
    {
        &self.board
    }

    /// The id of the snake that this agent plays.
    pub fn you(&self) -> (s: &str)
        ensures
            s@ == self@.you,
    {
        self.you.as_str()
    }
}

/// The record that the registry keeps of one running game: the game, the last
/// turn and board it has seen, the id of the agent's own snake, and the time
/// of the last message. A session that is kept is active; a game that has not
/// started, or has ended, has none.
#[derive(Debug, PartialEq, Eq)]
pub struct Session {
    game: Game,
    turn: usize,
    board: Board,
    you: String,
    last_seen: u64,
}

/// What a [`Session`] holds.
pub struct SessionView {
    pub game: GameView,
    pub turn: usize,
    pub board: BoardView,
    /// The id of the snake that this agent plays.
    pub you: Seq<char>,
    /// When the last message was taken in, in milliseconds on the caller's
    /// clock.
    pub last_seen: u64,
}

impl SessionView {
    /// The session after a move for `turn` was taken in at time `now`: the
    /// game stays, everything else is replaced.
    pub open spec fn advanced(
        self,
        turn: usize,
        board: BoardView,
        you: Seq<char>,
        now: u64,
    ) -> SessionView {
        SessionView { game: self.game, turn, board, you, last_seen: now }
    }

    /// A move is taken in only if it advances the turn: one for the recorded
    /// turn or an earlier one is stale.
    pub open spec fn accepts(self, turn: usize) -> bool {
        turn > self.turn
    }

    /// What a reader of the session gets to see.
    pub open spec fn snapshot(self) -> SnapshotView {
        SnapshotView { game: self.game, turn: self.turn, board: self.board, you: self.you }
    }

    /// Whether at time `now` the session has been silent for more than
    /// `max_idle`. A clock that reads earlier than the last message counts as
    /// no silence at all.
    pub open spec fn idle(self, now: u64, max_idle: u64) -> bool {
        now - self.last_seen > max_idle
    }
}

impl View for Session {
    type V = SessionView;

    closed spec fn view(&self) -> SessionView {
        SessionView {
            game: self.game@,
            turn: self.turn,
            board: self.board@,
            you: self.you@,
            last_seen: self.last_seen,
        }
    }
}

impl Session {
    /// The session of a game as of its first message, taken in at time `now`.
    pub fn new(game: Game, turn: usize, board: Board, you: String, now: u64) -> (s: Session)
        ensures
            s@ == (SessionView { game: game@, turn, board: board@, you: you@, last_seen: now }),
    {
        Session { game, turn, board, you, last_seen: now }
    }

    pub fn turn(&self) -> (t: usize)
        ensures
            t == self@.turn,
    {
        self.turn
    }

    pub fn last_seen(&self) -> (t: u64)
        ensures
            t == self@.last_seen,
    {
        self.last_seen
    }

    /// Takes in a move at time `now`. A move that advances the turn replaces
    /// turn, board and own snake and notes the time, all or nothing, and a
    /// copy of the new state is returned. A stale move changes nothing.
    pub fn advance(&mut self, turn: usize, board: Board, you: String, now: u64) -> (r: Result<
        Snapshot,
        ProtocolError,
    >)
        ensures
            match r {
                Ok(s) => {
                    &&& old(self)@.accepts(turn)
                    &&& final(self)@ == old(self)@.advanced(turn, board@, you@, now)
                    &&& s@ == final(self)@.snapshot()
                },
                Err(e) => {
                    &&& !old(self)@.accepts(turn)
                    &&& e == ProtocolError::StaleTurn
                    &&& final(self)@ == old(self)@
                },
            },
    {
        if turn <= self.turn {
            return Err(ProtocolError::StaleTurn);
        }
        self.turn = turn;
        self.board = board;
        self.you = you;
        self.last_seen = now;
        Ok(self.snapshot())
    }

    /// A copy of the session's state for a reader.
    pub fn snapshot(&self) -> (s: Snapshot)
        ensures
            s@ == self@.snapshot(),
    {
        Snapshot {
            game: self.game.clone(),
            turn: self.turn,
            board: self.board.clone(),
            you: self.you.clone(),
        }
    }

    /// Whether the session has been silent for more than `max_idle` at time
    /// `now`.
    pub fn is_idle(&self, now: u64, max_idle: u64) -> (r: bool)
        ensures
            r == self@.idle(now, max_idle),
    {
        now > self.last_seen && now - self.last_seen > max_idle
    }

    /// Whether the session is to be kept at time `now`.
    pub fn is_fresh(&self, now: u64, max_idle: u64) -> (r: bool)
        ensures
            r == !self@.idle(now, max_idle),
    {
        !self.is_idle(now, max_idle)
    }
}

} // verus!
