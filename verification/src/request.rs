use vstd::prelude::*;
use crate::board::{Board, BoardView};
use crate::error::ProtocolError;
use crate::rules::{Game, GameView};
use crate::session::{Session, SessionView};
use crate::snake::{Battlesnake, SnakeView};

verus! {

/// The three messages that the game engine sends about a game.
#[derive(Clone, Copy, Debug, PartialEq, Eq, Structural)]
pub enum RequestType {
    Start,
    Move,
    End,
}

/// The body that the three inbound messages share.
#[derive(Debug, PartialEq, Eq)]
pub struct Request {
    /// Game Object describing the game being played.
    pub game: Game,
    /// Turn number of the game being played (0 for new games).
    pub turn: usize,
    /// Board Object describing the game board on this turn
    pub board: Board,
    /// Battlesnake Object describing your Battlesnake.
    pub you: Battlesnake,
}

/// What an inbound message holds.
pub struct RequestView {
    pub game: GameView,
    pub turn: usize,
    pub board: BoardView,
    pub you: SnakeView,
}

impl RequestView {
    /// The session that a game has right after this message opened it at time
    /// `now`.
    pub open spec fn opening(self, now: u64) -> SessionView {
        SessionView {
            game: self.game,
            turn: self.turn,
            board: self.board,
            you: self.you.id,
            last_seen: now,
        }
    }
}

impl View for Request {
    type V = RequestView;

    open spec fn view(&self) -> RequestView {
        RequestView { game: self.game@, turn: self.turn, board: self.board@, you: self.you@ }
    }
}

/// Your Battlesnake will receive this request when it has been entered into
/// a new game. Every game has a unique ID that can be used to allocated
/// resources or data you may need. Your response to this request will be
/// ignored.
#[derive(Debug, PartialEq, Eq)]
pub struct Start {
    /// Game Object describing the game being played.
    game: Game,
    /// Turn number of the game being played: 0, as the game is new.
    turn: usize,
    /// Board Object describing the initial state of the game board.
    board: Board,
    /// Battlesnake Object describing your Battlesnake.
    you: Battlesnake,
}

impl View for Start {
    type V = RequestView;

    closed spec fn view(&self) -> RequestView {
        RequestView { game: self.game@, turn: self.turn, board: self.board@, you: self.you@ }
    }
}

impl Start {
    /// A start is sent for turn 0.
    #[verifier::type_invariant]
    pub open spec fn valid(&self) -> bool {
        self@.turn == 0
    }

    /// Reads a message as a start. One for another turn than 0 is no true
    /// start and is refused.
    pub fn from_request(request: Request) -> (r: Result<Start, ProtocolError>)
        ensures
            match r {
                Ok(s) => s@ == request@ && request.turn == 0,
                Err(e) => e == ProtocolError::MalformedState && request.turn != 0,
            },
    {
        if request.turn != 0 {
            return Err(ProtocolError::MalformedState);
        }
        Ok(Start { game: request.game, turn: request.turn, board: request.board, you: request.you })
    }

    pub fn game(&self) -> (g: &Game)
        ensures
            g@ == self@.game,
    {
        &self.game
    }

    pub fn turn(&self) -> (t: usize)
        ensures
            t == self@.turn,
            t == 0,
    {
        proof {
            use_type_invariant(self);
        }
        self.turn
    }

    pub fn board(&self) -> (b: &Board)
        ensures
            b@ == self@.board,
    {
        &self.board
    }

    pub fn you(&self) -> (s: &Battlesnake)
        ensures
            s@ == self@.you,
    {
        &self.you
    }

    /// The session that this start opens at time `now`.
    pub fn into_session(self, now: u64) -> (s: Session)
        ensures
            s@ == self@.opening(now),
            self@.turn == 0,
    {
        proof {
            use_type_invariant(&self);
        }
        let you = self.you.id().to_owned();
        Session::new(self.game, self.turn, self.board, you, now)
    }
}

/// This request will be sent for every turn of the game. Use the
/// information provided to determine how your Battlesnake will move on
/// that turn, either up, down, left, or right.
#[derive(Debug, PartialEq, Eq)]
pub struct Move {
    /// Game Object describing the game being played.
    pub game: Game,
    /// Turn number of the game being played.
    pub turn: usize,
    /// Board Object describing the game board on this turn.
    pub board: Board,
    /// Battlesnake Object describing your Battlesnake.
    pub you: Battlesnake,
}

impl View for Move {
    type V = RequestView;

    open spec fn view(&self) -> RequestView {
        RequestView { game: self.game@, turn: self.turn, board: self.board@, you: self.you@ }
    }
}

impl Move {
    /// Reads a message as a move.
    pub fn from_request(request: Request) -> (m: Move)
        ensures
            m@ == request@,
    {
        Move { game: request.game, turn: request.turn, board: request.board, you: request.you }
    }
}

/// This request is sent when a game has ended: it carries the final turn and
/// the final board.
#[derive(Debug, PartialEq, Eq)]
pub struct End {
    /// Game Object describing the game that ended.
    pub game: Game,
    /// The final turn of the game.
    pub turn: usize,
    /// Board Object describing the final state of the game board.
    pub board: Board,
    /// Battlesnake Object describing your Battlesnake.
    pub you: Battlesnake,
}

impl View for End {
    type V = RequestView;

    open spec fn view(&self) -> RequestView {
        RequestView { game: self.game@, turn: self.turn, board: self.board@, you: self.you@ }
    }
}

impl End {
    /// Reads a message as an end.
    pub fn from_request(request: Request) -> (e: End)
        ensures
            e@ == request@,
    {
        End { game: request.game, turn: request.turn, board: request.board, you: request.you }
    }
}

} // verus!
