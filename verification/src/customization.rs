use vstd::prelude::*;
use crate::error::ProtocolError;
use crate::text::same_text;

verus! {

/// A 24-bit rgb color code
#[derive(Clone, Copy, Debug, PartialEq, Eq, Structural)]
pub struct Color {
    r: u8,
    g: u8,
    b: u8,
}

impl View for Color {
    type V = (u8, u8, u8);

    /// The red, green and blue parts, in this order.
    closed spec fn view(&self) -> (u8, u8, u8) {
        (self.r, self.g, self.b)
    }
}

impl Default for Color {
    /// Black.
    fn default() -> (c: Color)
        ensures
            c@ == (0u8, 0u8, 0u8),
    {
        Color { r: 0, g: 0, b: 0 }
    }
}

impl Color {
    pub fn new(r: u8, g: u8, b: u8) -> (c: Color)
        ensures
            c@ == (r, g, b),
    {
        Color { r, g, b }
    }

    pub fn red(&self) -> (v: u8)
        ensures
            v == self@.0,
    {
        self.r
    }

    pub fn green(&self) -> (v: u8)
        ensures
            v == self@.1,
    {
        self.g
    }

    pub fn blue(&self) -> (v: u8)
        ensures
            v == self@.2,
    {
        self.b
    }
}

/// The head styles that the game engine can draw.
#[derive(Clone, Copy, Debug, PartialEq, Eq, Structural)]
pub enum Head {
    Default,
    Beluga,
    Bendr,
    Dead,
    Evil,
    Fang,
    Pixel,
    Safe,
    Sandworm,
    Shades,
    Silly,
    Smile,
    Tounge,
    Bowler,
    Mark,
    AllSeeing,
    SmartCaterpillar,
    TransRights,
    Bonhomme,
    Earmuffs,
    Rudolph,
    Scarf,
    Ski,
    Snowman,
    Snowworm,
    Caffine,
    Gamer,
    TigerKing,
    Workout,
}

/// The head style that goes by `name` on the wire, if there is one.
pub open spec fn head_named(name: Seq<char>) -> Option<Head> {
    if exists|h: Head| h.wire_name() == name {
        Some(choose|h: Head| h.wire_name() == name)
    } else {
        None
    }
}

impl Head {
    /// The name under which the game engine knows this head style.
    pub open spec fn wire_name(self) -> Seq<char> {
        match self {
            Head::Default => "default"@,
            Head::Beluga => "beluga"@,
            Head::Bendr => "bendr"@,
            Head::Dead => "dead"@,
            Head::Evil => "evil"@,
            Head::Fang => "fang"@,
            Head::Pixel => "pixel"@,
            Head::Safe => "safe"@,
            Head::Sandworm => "sand-worm"@,
            Head::Shades => "shades"@,
            Head::Silly => "silly"@,
            Head::Smile => "smile"@,
            Head::Tounge => "tounge"@,
            Head::Bowler => "rbc-bowler"@,
            Head::Mark => "replit-mark"@,
            Head::AllSeeing => "all-seeing"@,
            Head::SmartCaterpillar => "smart-caterpillar"@,
            Head::TransRights => "trans-rights-scarf"@,
            Head::Bonhomme => "bonhomme"@,
            Head::Earmuffs => "earmuffs"@,
            Head::Rudolph => "rudolph"@,
            Head::Scarf => "scarf"@,
            Head::Ski => "ski"@,
            Head::Snowman => "snowman"@,
            Head::Snowworm => "snow-worm"@,
            Head::Caffine => "caffine"@,
            Head::Gamer => "gamer"@,
            Head::TigerKing => "tiger-king"@,
            Head::Workout => "workout"@,
        }
    }

    /// No two head styles share a wire name.
    pub proof fn lemma_wire_names_distinct(a: Head, b: Head)
        requires
            a.wire_name() == b.wire_name(),
        ensures
            a == b,
    {
        reveal_strlit("default");
        reveal_strlit("beluga");
        reveal_strlit("bendr");
        reveal_strlit("dead");
        reveal_strlit("evil");
        reveal_strlit("fang");
        reveal_strlit("pixel");
        reveal_strlit("safe");
        reveal_strlit("sand-worm");
        reveal_strlit("shades");
        reveal_strlit("silly");
        reveal_strlit("smile");
        reveal_strlit("tounge");
        reveal_strlit("rbc-bowler");
        reveal_strlit("replit-mark");
        reveal_strlit("all-seeing");
        reveal_strlit("smart-caterpillar");
        reveal_strlit("trans-rights-scarf");
        reveal_strlit("bonhomme");
        reveal_strlit("earmuffs");
        reveal_strlit("rudolph");
        reveal_strlit("scarf");
        reveal_strlit("ski");
        reveal_strlit("snowman");
        reveal_strlit("snow-worm");
        reveal_strlit("caffine");
        reveal_strlit("gamer");
        reveal_strlit("tiger-king");
        reveal_strlit("workout");
        let s = a.wire_name();
        let t = b.wire_name();
        assert(s.len() == t.len());
        assert(s[0] == t[0]);
        assert(s[1] == t[1]);
    }

    /// Reading a head's wire name back gives that head.
    pub proof fn law_parse_inverts_name(h: Head)
        ensures
            head_named(h.wire_name()) == Some(h),
    {
        let found = choose|g: Head| g.wire_name() == h.wire_name();
        Head::lemma_wire_names_distinct(found, h);
    }

    /// A name that reads as a head is the wire name of that head.
    pub proof fn law_name_inverts_parse(name: Seq<char>, h: Head)
        requires
            head_named(name) == Some(h),
        ensures
            h.wire_name() == name,
    {
    }

    pub fn name(&self) -> (s: &'static str)
        ensures
            s@ == self.wire_name(),
    {
        match self {
            Head::Default => "default",
            Head::Beluga => "beluga",
            Head::Bendr => "bendr",
            Head::Dead => "dead",
            Head::Evil => "evil",
            Head::Fang => "fang",
            Head::Pixel => "pixel",
            Head::Safe => "safe",
            Head::Sandworm => "sand-worm",
            Head::Shades => "shades",
            Head::Silly => "silly",
            Head::Smile => "smile",
            Head::Tounge => "tounge",
            Head::Bowler => "rbc-bowler",
            Head::Mark => "replit-mark",
            Head::AllSeeing => "all-seeing",
            Head::SmartCaterpillar => "smart-caterpillar",
            Head::TransRights => "trans-rights-scarf",
            Head::Bonhomme => "bonhomme",
            Head::Earmuffs => "earmuffs",
            Head::Rudolph => "rudolph",
            Head::Scarf => "scarf",
            Head::Ski => "ski",
            Head::Snowman => "snowman",
            Head::Snowworm => "snow-worm",
            Head::Caffine => "caffine",
            Head::Gamer => "gamer",
            Head::TigerKing => "tiger-king",
            Head::Workout => "workout",
        }
    }

    /// Reads a wire name. The match is exact and case-sensitive; a name outside
    /// the catalog is an error, never a fallback to the default head.
    pub fn parse(name: &str) -> (r: Result<Head, ProtocolError>)
        ensures
            r == parsed(name@),
    {
        let found = if same_text(name, "default") {
            Some(Head::Default)
        } else if same_text(name, "beluga") {
            Some(Head::Beluga)
        } else if same_text(name, "bendr") {
            Some(Head::Bendr)
        } else if same_text(name, "dead") {
            Some(Head::Dead)
        } else if same_text(name, "evil") {
            Some(Head::Evil)
        } else if same_text(name, "fang") {
            Some(Head::Fang)
        } else if same_text(name, "pixel") {
            Some(Head::Pixel)
        } else if same_text(name, "safe") {
            Some(Head::Safe)
        } else if same_text(name, "sand-worm") {
            Some(Head::Sandworm)
        } else if same_text(name, "shades") {
            Some(Head::Shades)
        } else if same_text(name, "silly") {
            Some(Head::Silly)
        } else if same_text(name, "smile") {
            Some(Head::Smile)
        } else if same_text(name, "tounge") {
            Some(Head::Tounge)
        } else if same_text(name, "rbc-bowler") {
            Some(Head::Bowler)
        } else if same_text(name, "replit-mark") {
            Some(Head::Mark)
        } else if same_text(name, "all-seeing") {
            Some(Head::AllSeeing)
        } else if same_text(name, "smart-caterpillar") {
            Some(Head::SmartCaterpillar)
        } else if same_text(name, "trans-rights-scarf") {
            Some(Head::TransRights)
        } else if same_text(name, "bonhomme") {
            Some(Head::Bonhomme)
        } else if same_text(name, "earmuffs") {
            Some(Head::Earmuffs)
        } else if same_text(name, "rudolph") {
            Some(Head::Rudolph)
        } else if same_text(name, "scarf") {
            Some(Head::Scarf)
        } else if same_text(name, "ski") {
            Some(Head::Ski)
        } else if same_text(name, "snowman") {
            Some(Head::Snowman)
        } else if same_text(name, "snow-worm") {
            Some(Head::Snowworm)
        } else if same_text(name, "caffine") {
            Some(Head::Caffine)
        } else if same_text(name, "gamer") {
            Some(Head::Gamer)
        } else if same_text(name, "tiger-king") {
            Some(Head::TigerKing)
        } else if same_text(name, "workout") {
            Some(Head::Workout)
        } else {
            None
        };
        match found {
            Some(h) => {
                proof {
                    assert(h.wire_name() == name@);
                    Head::lemma_wire_names_distinct(choose|g: Head| g.wire_name() == name@, h);
                }
                Ok(h)
            },
            None => {
                proof {
                    assert forall|h: Head| h.wire_name() != name@ by {}
                }
                Err(ProtocolError::UnknownVariant)
            },
        }
    }
}

/// What reading `name` as a head gives.
pub open spec fn parsed(name: Seq<char>) -> Result<Head, ProtocolError> {
    match head_named(name) {
        Some(h) => Ok(h),
        None => Err(ProtocolError::UnknownVariant),
    }
}

impl<'a> TryFrom<&'a str> for Head {
    type Error = ProtocolError;

    /// Reads a wire name, as [`Head::parse`] does.
    fn try_from(name: &'a str) -> (r: Result<Head, ProtocolError>) {
        Head::parse(name)
    }
}

impl<'a> vstd::std_specs::convert::TryFromSpecImpl<&'a str> for Head {
    open spec fn obeys_try_from_spec() -> bool {
        true
    }

    open spec fn try_from_spec(name: &'a str) -> Result<Head, ProtocolError> {
        parsed(name@)
    }
}

/// How a snake is drawn: its color, its head and its tail. The tail has no
/// closed catalog; it is carried as the index that was received.
#[derive(Clone, Copy, Debug, PartialEq, Eq, Structural)]
pub struct BattlesnakeCustomizations {
    pub color: Color,
    pub head: Head,
    pub tail: usize,
}

} // verus!
