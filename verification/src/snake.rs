use vstd::prelude::*;
use crate::customization::BattlesnakeCustomizations;
use crate::error::ProtocolError;
use crate::grid::{direction_between, step_between, Direction, Point};
use crate::text::same_text;

verus! {

/// One snake on the board, as of one turn.
#[derive(Debug, PartialEq, Eq)]
pub struct Battlesnake {
    /// Unique identifier for this snake in the context of the current game.
    id: String,
    /// Name given to this snake by its author.
    name: String,
    /// Health value of this snake, between 0 and 100 inclusively.
    health: u8,
    /// The cells this snake occupies, ordered from head to tail.
    body: Vec<Point>,
    /// The previous response time of this snake, in milliseconds. "0" means
    /// the snake timed out and failed to respond.
    latency: String,
    /// The cell of this snake's head: the first element of the body.
    head: Point,
    /// Length of this snake from head to tail: the length of the body.
    length: usize,
    /// Message shouted by this snake on the previous turn.
    shout: String,
    /// The squad that the snake belongs to; empty outside Squad mode.
    squad: String,
    /// How this snake is drawn.
    customizations: BattlesnakeCustomizations,
}

/// What a [`Battlesnake`] holds.
pub struct SnakeView {
    pub id: Seq<char>,
    pub name: Seq<char>,
    pub health: u8,
    pub body: Seq<Point>,
    pub latency: Seq<char>,
    pub head: Point,
    pub length: usize,
    pub shout: Seq<char>,
    pub squad: Seq<char>,
    pub customizations: BattlesnakeCustomizations,
}

impl SnakeView {
    /// The body is not empty, starts at the head and is as long as `length`
    /// says, and the health is at most 100.
    pub open spec fn well_formed(self) -> bool {
        &&& self.body.len() >= 1
        &&& self.length == self.body.len()
        &&& self.head == self.body[0]
        &&& self.health <= 100
    }
}

impl SnakeView {
    /// A snake without a body, or whose length is not the length of its body,
    /// or whose head is not the first cell of its body, is not well formed,
    /// whatever else it holds.
    pub proof fn law_broken_snake_is_unfit(self)
        requires
            self.body.len() == 0 || self.length != self.body.len() || self.head != self.body[0],
        ensures
            !self.well_formed(),
    {
    }

    /// A snake whose health is above 100 is not well formed.
    pub proof fn law_overfull_health_is_unfit(self)
        requires
            self.health > 100,
        ensures
            !self.well_formed(),
    {
    }
}

impl View for Battlesnake {
    type V = SnakeView;

    closed spec fn view(&self) -> SnakeView {
        SnakeView {
            id: self.id@,
            name: self.name@,
            health: self.health,
            body: self.body@,
            latency: self.latency@,
            head: self.head,
            length: self.length,
            shout: self.shout@,
            squad: self.squad@,
            customizations: self.customizations,
        }
    }
}

impl Clone for Battlesnake {
    fn clone(&self) -> (r: Battlesnake)
        ensures
            r@ == self@,
    {
        proof {
            use_type_invariant(self);
        }
        let body = self.body.clone();
        assert(body@ =~= self.body@);
        Battlesnake {
            id: self.id.clone(),
            name: self.name.clone(),
            health: self.health,
            body,
            latency: self.latency.clone(),
            head: self.head,
            length: self.length,
            shout: self.shout.clone(),
            squad: self.squad.clone(),
            customizations: self.customizations,
        }
    }
}

impl Battlesnake {
    /// Every snake is well formed.
    #[verifier::type_invariant]
    pub open spec fn valid(&self) -> bool {
        self@.well_formed()
    }

    /// Builds a snake from the values of a message. Nothing is repaired: the
    /// values are taken as they are or refused as a whole.
    pub fn new(
        id: String,
        name: String,
        health: u8,
        body: Vec<Point>,
        latency: String,
        head: Point,
        length: usize,
        shout: String,
        squad: String,
        customizations: BattlesnakeCustomizations,
    ) -> (r: Result<Battlesnake, ProtocolError>)
        ensures
            match r {
                Ok(s) => s@ == (SnakeView {
                    id: id@,
                    name: name@,
                    health,
                    body: body@,
                    latency: latency@,
                    head,
                    length,
                    shout: shout@,
                    squad: squad@,
                    customizations,
                }) && s@.well_formed(),
                Err(e) => e == ProtocolError::MalformedState && !(SnakeView {
                    id: id@,
                    name: name@,
                    health,
                    body: body@,
                    latency: latency@,
                    head,
                    length,
                    shout: shout@,
                    squad: squad@,
                    customizations,
                }).well_formed(),
            },
    {
        if body.len() == 0 || length != body.len() || health > 100 {
            return Err(ProtocolError::MalformedState);
        }
        if head != body[0] {
            return Err(ProtocolError::MalformedState);
        }
        Ok(Battlesnake { id, name, health, body, latency, head, length, shout, squad, customizations })
    }

    pub fn id(&self) -> (s: &str)
        ensures
            s@ == self@.id,
    {
        self.id.as_str()
    }

    pub fn name(&self) -> (s: &str)
        ensures
            s@ == self@.name,
    {
        self.name.as_str()
    }

    pub fn health(&self) -> (h: u8)
        ensures
            h == self@.health,
            h <= 100,
    {
        proof {
            use_type_invariant(self);
        }
        self.health
    }

    pub fn body(&self) -> (b: &Vec<Point>)
        ensures
            b@ == self@.body,
            self@.well_formed(),
    {
        proof {
            use_type_invariant(self);
        }
        &self.body
    }

    pub fn latency(&self) -> (s: &str)
        ensures
            s@ == self@.latency,
    {
        self.latency.as_str()
    }

    pub fn head(&self) -> (p: Point)
        ensures
            p == self@.head,
            p == self@.body[0],
    {
        proof {
            use_type_invariant(self);
        }
        self.head
    }

    pub fn length(&self) -> (n: usize)
        ensures
            n == self@.length,
            n == self@.body.len(),
            n >= 1,
    {
        proof {
            use_type_invariant(self);
        }
        self.length
    }

    pub fn shout(&self) -> (s: &str)
        ensures
            s@ == self@.shout,
    {
        self.shout.as_str()
    }

    pub fn squad(&self) -> (s: &str)
        ensures
            s@ == self@.squad,
    {
        self.squad.as_str()
    }

    pub fn customizations(&self) -> (c: BattlesnakeCustomizations)
        ensures
            c == self@.customizations,
    {
        self.customizations
    }

    /// The direction in which this snake moved last: the step from the cell
    /// behind the head to the head. A snake of one cell, or one whose first
    /// two cells are not a step apart, has none.
    pub fn heading(&self) -> (d: Option<Direction>)
        ensures
            d == if self@.body.len() >= 2 {
                step_between(self@.body[1], self@.body[0])
            } else {
                None
            },
    {
        if self.body.len() >= 2 {
            direction_between(self.body[1], self.body[0])
        } else {
            None
        }
    }

    /// Whether this snake failed to answer in time on the previous turn: its
    /// latency then reads "0".
    pub fn timed_out(&self) -> (r: bool)
        ensures
            r == (self@.latency == "0"@),
    {
        same_text(self.latency.as_str(), "0")
    }
}

} // verus!
