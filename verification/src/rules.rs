use vstd::prelude::*;
use crate::text::same_text;

verus! {

/// Settings that apply in Royale mode.
#[allow(non_snake_case)]
#[derive(Clone, Copy, Debug, PartialEq, Eq, Structural)]
pub struct RoyaleRulesetSettings {
    /// In Royale mode, the number of turns between generating new hazards
    /// (shrinking the safe board space).
    pub shrinkEveryNTurns: usize,
}

/// Settings that apply in Squad mode.
#[allow(non_snake_case)]
#[derive(Clone, Copy, Debug, PartialEq, Eq, Structural)]
pub struct SquadRulesetSetting {
    /// In Squad mode, allow members of the same squad to move over each other
    /// without dying.
    pub allowBodyCollisions: bool,
    /// In Squad mode, all squad members are eliminated when one is eliminated.
    pub sharedElimination: bool,
    /// In Squad mode, all squad members share health.
    pub sharedHealth: bool,
    /// In Squad mode, all squad members share length.
    pub sharedLength: bool,
}

/// How the rules are applied in one game. The values are configuration for
/// whoever picks the moves; nothing here interprets them.
#[allow(non_snake_case)]
#[derive(Clone, Copy, Debug, PartialEq, Eq, Structural)]
pub struct RulesetSettings {
    /// Percentage chance of spawning a new food every round.
    pub foodSpawnChance: i32,
    /// Minimum food to keep on the board every turn.
    pub minimumFood: u32,
    /// Health damage a snake will take when ending its turn in a hazard. This
    /// stacks on top of the regular 1 damage a snake takes per turn.
    pub hazardDamagePerTurn: u32,
    pub royale: RoyaleRulesetSettings,
    pub squad: SquadRulesetSetting,
}

/// The rules a game is played by.
#[derive(Debug, PartialEq, Eq)]
pub struct Ruleset {
    /// Name of the ruleset being used to run this game, such as "standard",
    /// "solo", "royale", "squad", "constrictor" or "wrapped".
    pub name: String,
    /// The release version of the rules used in this game, such as "v1.2.3".
    /// It is carried as received.
    pub version: String,
    /// The settings that control how the rules are applied.
    pub settings: RulesetSettings,
}

/// What a [`Ruleset`] holds.
pub struct RulesetView {
    pub name: Seq<char>,
    pub version: Seq<char>,
    pub settings: RulesetSettings,
}

impl View for Ruleset {
    type V = RulesetView;

    open spec fn view(&self) -> RulesetView {
        RulesetView { name: self.name@, version: self.version@, settings: self.settings }
    }
}

impl Clone for Ruleset {
    fn clone(&self) -> (r: Ruleset)
        ensures
            r@ == self@,
    {
        Ruleset {
            name: self.name.clone(),
            version: self.version.clone(),
            settings: self.settings,
        }
    }
}

/// Where a game comes from.
#[derive(Clone, Copy, Debug, PartialEq, Eq, Structural)]
pub enum GameSource {
    Tournament,
    League,
    Arena,
    Challenge,
    Custom,
}

/// The source that a tag stands for. Every tag outside the four named ones
/// counts as a custom game.
pub open spec fn source_of(tag: Seq<char>) -> GameSource {
    if tag == "tournament"@ {
        GameSource::Tournament
    } else if tag == "league"@ {
        GameSource::League
    } else if tag == "arena"@ {
        GameSource::Arena
    } else if tag == "challenge"@ {
        GameSource::Challenge
    } else {
        GameSource::Custom
    }
}

/// One game, as every message about it describes it.
#[derive(Debug, PartialEq, Eq)]
pub struct Game {
    /// A unique identifier for this game.
    pub id: String,
    /// The ruleset being used to run this game.
    pub ruleset: Ruleset,
    /// The name of the map used to populate the game board with snakes, food,
    /// and hazards. It is a key into a catalog kept elsewhere.
    pub map: String,
    /// How much time a snake has to respond to requests for this game, in
    /// milliseconds.
    pub timeout: usize,
    /// The source of this game: "tournament", "league", "arena", "challenge"
    /// or "custom". The text is kept as received; see [`Game::source_kind`].
    pub source: String,
}

/// What a [`Game`] holds.
pub struct GameView {
    pub id: Seq<char>,
    pub ruleset: RulesetView,
    pub map: Seq<char>,
    pub timeout: usize,
    pub source: Seq<char>,
}

impl View for Game {
    type V = GameView;

    open spec fn view(&self) -> GameView {
        GameView {
            id: self.id@,
            ruleset: self.ruleset@,
            map: self.map@,
            timeout: self.timeout,
            source: self.source@,
        }
    }
}

impl Clone for Game {
    fn clone(&self) -> (r: Game)
        ensures
            r@ == self@,
    {
        Game {
            id: self.id.clone(),
            ruleset: self.ruleset.clone(),
            map: self.map.clone(),
            timeout: self.timeout,
            source: self.source.clone(),
        }
    }
}

impl Game {
    /// The kind of source this game's tag stands for.
    pub fn source_kind(&self) -> (k: GameSource)
        ensures
            k == source_of(self@.source),
    {
        let tag = self.source.as_str();
        if same_text(tag, "tournament") {
            GameSource::Tournament
        } else if same_text(tag, "league") {
            GameSource::League
        } else if same_text(tag, "arena") {
            GameSource::Arena
        } else if same_text(tag, "challenge") {
            GameSource::Challenge
        } else {
            GameSource::Custom
        }
    }
}

} // verus!
