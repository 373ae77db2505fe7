use vstd::prelude::*;
use dashmap::DashMap;
use crate::board::{Board, BoardView};
use crate::error::ProtocolError;
use crate::request::{End, Move, Request, RequestType, RequestView, Start};
use crate::session::{Session, SessionView, Snapshot};
use crate::snake::Battlesnake;
use crate::store::{
    empty_store, fresh_part, sessions_in, store_holds, store_keep_fresh, store_put, store_read,
    store_take, Sessions,
};

verus! {

/// The error with which a start for `id` is refused, if it is.
pub open spec fn start_refusal(m: Sessions, id: Seq<char>) -> Option<ProtocolError> {
    if m.contains_key(id) {
        Some(ProtocolError::DuplicateStart)
    } else {
        None
    }
}

/// The sessions after a start for `id`: a new session where none was running,
/// no change otherwise.
pub open spec fn after_start(m: Sessions, id: Seq<char>, session: SessionView) -> Sessions {
    if m.contains_key(id) {
        m
    } else {
        m.insert(id, session)
    }
}

/// The error with which a move for `id` and `turn` is refused, if it is.
pub open spec fn update_refusal(m: Sessions, id: Seq<char>, turn: usize) -> Option<ProtocolError> {
    if !m.contains_key(id) {
        Some(ProtocolError::UnknownSession)
    } else if !m[id].accepts(turn) {
        Some(ProtocolError::StaleTurn)
    } else {
        None
    }
}

/// The sessions after a move for `id`: the session advanced where the move is
/// accepted, no change otherwise.
pub open spec fn after_update(
    m: Sessions,
    id: Seq<char>,
    turn: usize,
    board: BoardView,
    you: Seq<char>,
    now: u64,
) -> Sessions {
    if update_refusal(m, id, turn) is None {
        m.insert(id, m[id].advanced(turn, board, you, now))
    } else {
        m
    }
}

/// The error with which an end for `id` is refused, if it is.
pub open spec fn end_refusal(m: Sessions, id: Seq<char>) -> Option<ProtocolError> {
    if m.contains_key(id) {
        None
    } else {
        Some(ProtocolError::UnknownSession)
    }
}

/// The sessions after an end for `id`.
pub open spec fn after_end(m: Sessions, id: Seq<char>) -> Sessions {
    m.remove(id)
}

/// The sessions after a sweep at time `now`: those that are not idle.
pub open spec fn after_sweep(m: Sessions, now: u64, max_idle: u64) -> Sessions {
    fresh_part(m, now, max_idle)
}

/// The error with which a message is refused, if it is. A start for another
/// turn than 0 is malformed; everything else is up to the sessions.
pub open spec fn refusal(m: Sessions, kind: RequestType, request: RequestView) -> Option<
    ProtocolError,
> {
    match kind {
        RequestType::Start => if request.turn != 0 {
            Some(ProtocolError::MalformedState)
        } else {
            start_refusal(m, request.game.id)
        },
        RequestType::Move => update_refusal(m, request.game.id, request.turn),
        RequestType::End => end_refusal(m, request.game.id),
    }
}

/// The sessions after a message was taken in at time `now`.
pub open spec fn after_message(
    m: Sessions,
    kind: RequestType,
    request: RequestView,
    now: u64,
) -> Sessions {
    match kind {
        RequestType::Start => if request.turn != 0 {
            m
        } else {
            after_start(m, request.game.id, request.opening(now))
        },
        RequestType::Move => after_update(
            m,
            request.game.id,
            request.turn,
            request.board,
            request.you.id,
            now,
        ),
        RequestType::End => after_end(m, request.game.id),
    }
}

/// A move that does not advance the turn is refused as stale and changes
/// nothing: the recorded turn stays.
pub proof fn law_stale_move_changes_nothing(
    m: Sessions,
    id: Seq<char>,
    turn: usize,
    board: BoardView,
    you: Seq<char>,
    now: u64,
)
    requires
        m.contains_key(id),
        turn <= m[id].turn,
    ensures
        update_refusal(m, id, turn) == Some(ProtocolError::StaleTurn),
        after_update(m, id, turn, board, you, now) == m,
{
}

/// An accepted move records exactly its turn, board and snake, and keeps the
/// game.
pub proof fn law_accepted_move_is_recorded(
    m: Sessions,
    id: Seq<char>,
    turn: usize,
    board: BoardView,
    you: Seq<char>,
    now: u64,
)
    requires
        update_refusal(m, id, turn) is None,
    ensures
        after_update(m, id, turn, board, you, now).contains_key(id),
        after_update(m, id, turn, board, you, now)[id] == (SessionView {
            game: m[id].game,
            turn,
            board,
            you,
            last_seen: now,
        }),
        turn > m[id].turn,
{
}

/// Whatever move arrives for a running game, the turn recorded for it never
/// goes down.
pub proof fn law_turn_never_regresses(
    m: Sessions,
    id: Seq<char>,
    turn: usize,
    board: BoardView,
    you: Seq<char>,
    now: u64,
)
    requires
        m.contains_key(id),
    ensures
        after_update(m, id, turn, board, you, now).contains_key(id),
        after_update(m, id, turn, board, you, now)[id].turn >= m[id].turn,
{
}

/// A message about one game, accepted or refused, leaves every other game as
/// it was: running or not, and with the same session.
pub proof fn law_games_are_isolated(
    m: Sessions,
    kind: RequestType,
    request: RequestView,
    now: u64,
    other: Seq<char>,
)
    requires
        other != request.game.id,
    ensures
        after_message(m, kind, request, now).contains_key(other) == m.contains_key(other),
        m.contains_key(other) ==> after_message(m, kind, request, now)[other] == m[other],
{
}

/// A move or an end for a game that has no session is refused as unknown, and
/// changes nothing.
pub proof fn law_unknown_before_start(
    m: Sessions,
    id: Seq<char>,
    turn: usize,
    board: BoardView,
    you: Seq<char>,
    now: u64,
)
    requires
        !m.contains_key(id),
    ensures
        update_refusal(m, id, turn) == Some(ProtocolError::UnknownSession),
        end_refusal(m, id) == Some(ProtocolError::UnknownSession),
        after_update(m, id, turn, board, you, now) == m,
        after_end(m, id) == m,
{
    assert(m.remove(id) =~= m);
}

/// Once a game has ended, a move or another end for it is refused as unknown.
pub proof fn law_unknown_after_end(m: Sessions, id: Seq<char>, turn: usize)
    ensures
        !after_end(m, id).contains_key(id),
        update_refusal(after_end(m, id), id, turn) == Some(ProtocolError::UnknownSession),
        end_refusal(after_end(m, id), id) == Some(ProtocolError::UnknownSession),
{
}

/// A start for a game that is running is refused, and the running session is
/// kept as it is.
pub proof fn law_duplicate_start_keeps_session(m: Sessions, id: Seq<char>, session: SessionView)
    requires
        m.contains_key(id),
    ensures
        start_refusal(m, id) == Some(ProtocolError::DuplicateStart),
        after_start(m, id, session) == m,
{
}

/// A sweep drops exactly the idle sessions, and keeps the others unchanged.
pub proof fn law_sweep_drops_the_idle(m: Sessions, now: u64, max_idle: u64, id: Seq<char>)
    ensures
        after_sweep(m, now, max_idle).contains_key(id) == (m.contains_key(id) && !m[id].idle(
            now,
            max_idle,
        )),
        after_sweep(m, now, max_idle).contains_key(id) ==> after_sweep(m, now, max_idle)[id]
            == m[id],
{
}

/// The sessions of the games that are running, by game id.
///
/// What changes the registry takes it by `&mut`: while one operation runs,
/// nothing else reads or writes any session, so each operation applies as a
/// whole or not at all, and what it does to the sessions can be stated
/// exactly. No reference to a session is ever handed out: readers get copies.
/// A process that takes in messages on many tasks keeps several registries,
/// each behind a lock of its own, and picks one by the game id.
pub struct SessionRegistry {
    sessions: DashMap<String, Session>,
}

impl View for SessionRegistry {
    type V = Sessions;

    closed spec fn view(&self) -> Sessions {
        sessions_in(self.sessions)
    }
}

impl SessionRegistry {
    /// A registry without sessions.
    pub fn new() -> (r: SessionRegistry)
        ensures
            r@ == Sessions::empty(),
    {
        SessionRegistry { sessions: empty_store() }
    }

    /// Whether a session is running for the game.
    pub fn is_active(&self, game_id: &str) -> (r: bool)
        ensures
            r == self@.contains_key(game_id@),
    {
        store_holds(&self.sessions, game_id)
    }

    /// A copy of the state of the game's session, if one is running.
    pub fn snapshot(&self, game_id: &str) -> (r: Option<Snapshot>)
        ensures
            match r {
                Some(s) => self@.contains_key(game_id@) && s@ == self@[game_id@].snapshot(),
                None => !self@.contains_key(game_id@),
            },
    {
        store_read(&self.sessions, game_id)
    }

    /// Opens the session of a game. Where one is running already, it is kept
    /// and the start is refused.
    pub fn start(&mut self, game_id: String, initial_session: Session) -> (r: Result<
        (),
        ProtocolError,
    >)
        ensures
            final(self)@ == after_start(old(self)@, game_id@, initial_session@),
            match r {
                Ok(_) => start_refusal(old(self)@, game_id@) is None,
                Err(e) => start_refusal(old(self)@, game_id@) == Some(e),
            },
    {
        if store_holds(&self.sessions, game_id.as_str()) {
            return Err(ProtocolError::DuplicateStart);
        }
        let _ = store_put(&mut self.sessions, game_id, initial_session);
        Ok(())
    }

    /// Takes in a move of a running game at time `now`. A move whose turn is
    /// not above the recorded one changes nothing. An accepted move replaces
    /// turn, board and own snake in one step, and a copy of the new state is
    /// returned.
    pub fn update(
        &mut self,
        game_id: &str,
        turn: usize,
        board: Board,
        you: &Battlesnake,
        now: u64,
    ) -> (r: Result<Snapshot, ProtocolError>)
        ensures
            final(self)@ == after_update(old(self)@, game_id@, turn, board@, you@.id, now),
            match r {
                Ok(s) => update_refusal(old(self)@, game_id@, turn) is None
                    && s@ == final(self)@[game_id@].snapshot(),
                Err(e) => update_refusal(old(self)@, game_id@, turn) == Some(e),
            },
    {
        let ghost before = self@;
        match store_take(&mut self.sessions, game_id) {
            None => {
                assert(self@ =~= before);
                Err(ProtocolError::UnknownSession)
            },
            Some((key, mut session)) => {
                let outcome = session.advance(turn, board, you.id().to_owned(), now);
                let _ = store_put(&mut self.sessions, key, session);
                assert(self@ =~= after_update(before, game_id@, turn, board@, you@.id, now));
                outcome
            },
        }
    }

    /// Closes the session of a game.
    pub fn end(&mut self, game_id: &str) -> (r: Result<(), ProtocolError>)
        ensures
            final(self)@ == after_end(old(self)@, game_id@),
            match r {
                Ok(_) => end_refusal(old(self)@, game_id@) is None,
                Err(e) => end_refusal(old(self)@, game_id@) == Some(e),
            },
    {
        match store_take(&mut self.sessions, game_id) {
            None => Err(ProtocolError::UnknownSession),
            Some(_) => Ok(()),
        }
    }

    /// Takes in one message at time `now`: a start opens the session of its
    /// game, a move advances it and gets a copy of the new state, an end
    /// closes it.
    pub fn handle(&mut self, kind: RequestType, request: Request, now: u64) -> (r: Result<
        Option<Snapshot>,
        ProtocolError,
    >)
        ensures
            final(self)@ == after_message(old(self)@, kind, request@, now),
            match r {
                Ok(Some(s)) => refusal(old(self)@, kind, request@) is None && kind
                    == RequestType::Move && s@ == final(self)@[request@.game.id].snapshot(),
                Ok(None) => refusal(old(self)@, kind, request@) is None && kind
                    != RequestType::Move,
                Err(e) => refusal(old(self)@, kind, request@) == Some(e),
            },
    {
        match kind {
            RequestType::Start => {
                match Start::from_request(request) {
                    Err(e) => Err(e),
                    Ok(start) => {
                        let game_id = start.game().id.clone();
                        match self.start(game_id, start.into_session(now)) {
                            Err(e) => Err(e),
                            Ok(_) => Ok(None),
                        }
                    },
                }
            },
            RequestType::Move => {
                let message = Move::from_request(request);
                match self.update(
                    message.game.id.as_str(),
                    message.turn,
                    message.board,
                    &message.you,
                    now,
                ) {
                    Err(e) => Err(e),
                    Ok(copy) => Ok(Some(copy)),
                }
            },
            RequestType::End => {
                let message = End::from_request(request);
                match self.end(message.game.id.as_str()) {
                    Err(e) => Err(e),
                    Ok(_) => Ok(None),
                }
            },
        }
    }

    /// Drops the sessions that at time `now` have been silent for more than
    /// `max_idle`: games that went away without an end.
    pub fn sweep(&mut self, now: u64, max_idle: u64)
        ensures
            final(self)@ == after_sweep(old(self)@, now, max_idle),
    {
        store_keep_fresh(&mut self.sessions, now, max_idle)
    }
}

} // verus!
