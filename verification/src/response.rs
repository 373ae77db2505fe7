use vstd::prelude::*;
use vstd::string::*;
use crate::customization::{Color, Head};
use crate::error::ProtocolError;
use crate::grid::Direction;

verus! {

/// The characters of a text that may be absent.
pub open spec fn text_of(s: Option<String>) -> Option<Seq<char>> {
    match s {
        Some(t) => Some(t@),
        None => None,
    }
}

/// The answer to the engine's question who this snake is.
#[derive(Debug, PartialEq, Eq)]
pub struct Root {
    /// Version of the Battlesnake API implemented by this Battlesnake.
    /// Currently only API version 1 is valid.
    apiversion: String,
    /// Username of the author of this Battlesnake. If provided, this will be
    /// used to verify owernship.
    author: Option<String>,
    /// Color used to display this Battlesnake.
    color: Option<Color>,
    /// Displayed head of this battlesnake.
    head: Option<Head>,
    /// Displayed tail of this Battlesnake.
    tail: Option<usize>,
    /// A version number or tag for your snake.
    version: Option<String>,
}

/// What a [`Root`] holds.
pub struct RootView {
    pub apiversion: Seq<char>,
    pub author: Option<Seq<char>>,
    pub color: Option<Color>,
    pub head: Option<Head>,
    pub tail: Option<usize>,
    pub version: Option<Seq<char>>,
}

impl View for Root {
    type V = RootView;

    closed spec fn view(&self) -> RootView {
        RootView {
            apiversion: self.apiversion@,
            author: text_of(self.author),
            color: self.color,
            head: self.head,
            tail: self.tail,
            version: text_of(self.version),
        }
    }
}

impl Root {
    /// The API version is always "1".
    #[verifier::type_invariant]
    pub open spec fn valid(&self) -> bool {
        self@.apiversion == "1"@
    }

    /// The answer with the values given. What is absent stays absent: the
    /// engine then applies its own defaults.
    pub fn new(
        author: Option<String>,
        color: Option<Color>,
        head: Option<Head>,
        tail: Option<usize>,
        version: Option<String>,
    ) -> (r: Root)
        ensures
            r@ == (RootView {
                apiversion: "1"@,
                author: text_of(author),
                color,
                head,
                tail,
                version: text_of(version),
            }),
    {
        Root { apiversion: "1".to_owned(), author, color, head, tail, version }
    }

    pub fn apiversion(&self) -> (s: &str)
        ensures
            s@ == self@.apiversion,
            s@ == "1"@,
    {
        proof {
            use_type_invariant(self);
        }
        self.apiversion.as_str()
    }

    pub fn author(&self) -> (a: &Option<String>)
        ensures
            text_of(*a) == self@.author,
    {
        &self.author
    }

    pub fn color(&self) -> (c: Option<Color>)
        ensures
            c == self@.color,
    {
        self.color
    }

    pub fn head(&self) -> (h: Option<Head>)
        ensures
            h == self@.head,
    {
        self.head
    }

    pub fn tail(&self) -> (t: Option<usize>)
        ensures
            t == self@.tail,
    {
        self.tail
    }

    pub fn version(&self) -> (v: &Option<String>)
        ensures
            text_of(*v) == self@.version,
    {
        &self.version
    }
}

/// What to do with a shout of more than 256 characters.
#[derive(Clone, Copy, Debug, PartialEq, Eq, Structural)]
pub enum ShoutPolicy {
    /// Send its first 256 characters, and say that it was cut.
    Truncate,
    /// Refuse the answer.
    Reject,
}

/// The most characters that a shout may have.
pub const MAX_SHOUT: usize = 256;

/// Whether a shout is present and longer than a shout may be.
pub open spec fn too_long(shout: Option<Seq<char>>) -> bool {
    shout matches Some(s) && s.len() > MAX_SHOUT
}

/// The answer to a move request.
#[derive(Debug, PartialEq, Eq)]
pub struct Move {
    /// Your Battlesnake's move for this turn. Valid moves are up, down, left,
    /// or right.
    direction: Direction,
    /// An optional message sent to all other Battlesnakes on the next turn.
    /// Must be 256 characters or less.
    shout: Option<String>,
}

/// What a [`Move`] holds.
pub struct MoveView {
    pub direction: Direction,
    pub shout: Option<Seq<char>>,
}

impl View for Move {
    type V = MoveView;

    closed spec fn view(&self) -> MoveView {
        MoveView { direction: self.direction, shout: text_of(self.shout) }
    }
}

impl Move {
    /// A shout has at most 256 characters.
    #[verifier::type_invariant]
    pub open spec fn valid(&self) -> bool {
        !too_long(self@.shout)
    }

    /// The answer with the direction and the shout given. A shout of more
    /// than 256 characters is cut to its first 256 or refused, as the policy
    /// says; the flag beside the answer tells whether it was cut.
    pub fn new(direction: Direction, shout: Option<String>, policy: ShoutPolicy) -> (r: Result<
        (Move, bool),
        ProtocolError,
    >)
        ensures
            match r {
                Ok((m, cut)) => {
                    &&& m@.direction == direction
                    &&& cut == too_long(text_of(shout))
                    &&& cut ==> policy == ShoutPolicy::Truncate
                    &&& !cut ==> m@.shout == text_of(shout)
                    &&& cut ==> m@.shout == Some(shout.unwrap()@.subrange(0, MAX_SHOUT as int))
                },
                Err(e) => {
                    &&& e == ProtocolError::MalformedState
                    &&& policy == ShoutPolicy::Reject
                    &&& too_long(text_of(shout))
                },
            },
    {
        match shout {
            None => Ok((Move { direction, shout: None }, false)),
            Some(text) => {
                if text.as_str().unicode_len() <= MAX_SHOUT {
                    Ok((Move { direction, shout: Some(text) }, false))
                } else {
                    match policy {
                        ShoutPolicy::Reject => Err(ProtocolError::MalformedState),
                        ShoutPolicy::Truncate => {
                            let kept = text.as_str().substring_char(0, MAX_SHOUT).to_owned();
                            Ok((Move { direction, shout: Some(kept) }, true))
                        },
                    }
                }
            },
        }
    }

    /// The answer that stands in when no decision came in time: the direction
    /// given, and no shout.
    pub fn fallback(direction: Direction) -> (m: Move)
        ensures
            m@ == (MoveView { direction, shout: None }),
    {
        Move { direction, shout: None }
    }

    /// The answer to send once the decision has taken `elapsed_ms` of a budget
    /// of `budget_ms` milliseconds. A decision within the budget is sent as it
    /// is. One that took longer is replaced by the fallback, and the turn is
    /// flagged with the timeout.
    pub fn settle(decided: Move, elapsed_ms: usize, budget_ms: usize, fallback: Direction) -> (r: (
        Move,
        Option<ProtocolError>,
    ))
        ensures
            elapsed_ms <= budget_ms ==> r.0@ == decided@ && r.1 is None,
            elapsed_ms > budget_ms ==> r.0@ == (MoveView { direction: fallback, shout: None })
                && r.1 == Some(ProtocolError::DecisionTimeout),
    {
        if elapsed_ms <= budget_ms {
            (decided, None)
        } else {
            (Move::fallback(fallback), Some(ProtocolError::DecisionTimeout))
        }
    }

    pub fn direction(&self) -> (d: Direction)
        ensures
            d == self@.direction,
    {
        self.direction
    }

    pub fn shout(&self) -> (s: &Option<String>)
        ensures
            text_of(*s) == self@.shout,
            !too_long(self@.shout),
    {
        proof {
            use_type_invariant(self);
        }
        &self.shout
    }
}

} // verus!
