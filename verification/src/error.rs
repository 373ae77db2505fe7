use vstd::prelude::*;

verus! {

/// The ways in which a message or a registry operation is refused.
#[derive(Clone, Copy, Debug, PartialEq, Eq, Structural)]
pub enum ProtocolError {
    /// Decoded input breaks a structural rule of the entity model.
    MalformedState,
    /// A cosmetic name is not in the catalog.
    UnknownVariant,
    /// A move or an end names a game for which no session is running.
    UnknownSession,
    /// A start names a game whose session is already running.
    DuplicateStart,
    /// A move does not advance the turn recorded for its game.
    StaleTurn,
    /// The decision took longer than the game's budget for one turn.
    DecisionTimeout,
}

} // verus!
