//! The six abilities and their raw scores.

use vstd::prelude::*;
use vstd::string::StringExecFns;

verus! {

/// One of the six abilities a character has a score in.
#[derive(Debug, Clone, Copy, PartialEq, Eq, Structural, Hash)]
pub enum Ability {
    Strength,
    Dexterity,
    Constitution,
    Intelligence,
    Wisdom,
    Charisma,
}

/// The name an ability is written with.
pub open spec fn ability_name(ability: Ability) -> Seq<char> {
    match ability {
        Ability::Strength => "Strength"@,
        Ability::Dexterity => "Dexterity"@,
        Ability::Constitution => "Constitution"@,
        Ability::Intelligence => "Intelligence"@,
        Ability::Wisdom => "Wisdom"@,
        Ability::Charisma => "Charisma"@,
    }
}

impl Ability {
    /// The ability's name.
    pub fn to_string(&self) -> (r: String)
        ensures
            r@ == ability_name(*self),
    {
        match self {
            Ability::Strength => String::from_str("Strength"),
            Ability::Dexterity => String::from_str("Dexterity"),
            Ability::Constitution => String::from_str("Constitution"),
            Ability::Intelligence => String::from_str("Intelligence"),
            Ability::Wisdom => String::from_str("Wisdom"),
            Ability::Charisma => String::from_str("Charisma"),
        }
    }
}

/// The bonus or penalty that a score of `value` gives to rolls: half the
/// distance from ten, rounded down.
pub open spec fn modifier_of(value: int) -> int {
    (value - 10) / 2
}

/// A raw ability score.
#[derive(Debug, Clone, Copy, PartialEq, Eq, Structural)]
pub struct AbilityScore {
    pub value: isize,
}

impl Default for AbilityScore {
    fn default() -> (r: AbilityScore)
        ensures
            r.value == 10,
    {
        AbilityScore::of(10)
    }
}

impl AbilityScore {
    pub fn of(value: isize) -> (r: AbilityScore)
        ensures
            r.value == value,
    {
        AbilityScore { value }
    }

    /// The score's modifier. It depends on the score alone.
    pub fn modifier(&self) -> (r: isize)
        ensures
            r == modifier_of(self.value as int),
    {
        let shifted: i128 = self.value as i128 - 10;
        let half: i128 = if shifted >= 0 {
            shifted / 2
        } else {
            -((1 - shifted) / 2)
        };
        half as isize
    }
}

/// A change to a raw score: so much more or less, or a fixed value that
/// takes the place of the score whatever else is added.
#[derive(Debug, Clone, Copy, PartialEq, Eq, Structural)]
pub enum AbilityScoreBonus {
    Modifier { modifier: isize },
    Become { value: isize },
}

/// The raw scores of one character.
#[derive(Debug, Clone, Copy, PartialEq, Eq, Structural)]
pub struct AbilityScores {
    pub strength: AbilityScore,
    pub dexterity: AbilityScore,
    pub constitution: AbilityScore,
    pub intelligence: AbilityScore,
    pub wisdom: AbilityScore,
    pub charisma: AbilityScore,
}

impl AbilityScores {
    /// The score held for `ability`.
    pub open spec fn score(self, ability: Ability) -> AbilityScore {
        match ability {
            Ability::Strength => self.strength,
            Ability::Dexterity => self.dexterity,
            Ability::Constitution => self.constitution,
            Ability::Intelligence => self.intelligence,
            Ability::Wisdom => self.wisdom,
            Ability::Charisma => self.charisma,
        }
    }

    /// Every score at ten.
    pub fn default() -> (r: AbilityScores)
        ensures
            forall|a: Ability| #[trigger] r.score(a) == (AbilityScore { value: 10 }),
    {
        AbilityScores {
            strength: AbilityScore::of(10),
            dexterity: AbilityScore::of(10),
            constitution: AbilityScore::of(10),
            intelligence: AbilityScore::of(10),
            wisdom: AbilityScore::of(10),
            charisma: AbilityScore::of(10),
        }
    }

    pub fn get(&self, ability: Ability) -> (r: AbilityScore)
        ensures
            r == self.score(ability),
    {
        match ability {
            Ability::Strength => self.strength,
            Ability::Dexterity => self.dexterity,
            Ability::Constitution => self.constitution,
            Ability::Intelligence => self.intelligence,
            Ability::Wisdom => self.wisdom,
            Ability::Charisma => self.charisma,
        }
    }

    /// The same scores with the one for `ability` replaced.
    pub fn with(&self, ability: Ability, score: AbilityScore) -> (r: AbilityScores)
        ensures
            r.score(ability) == score,
            forall|a: Ability| a != ability ==> #[trigger] r.score(a) == self.score(a),
    {
        let mut new = *self;
        match ability {
            Ability::Strength => new.strength = score,
            Ability::Dexterity => new.dexterity = score,
            Ability::Constitution => new.constitution = score,
            Ability::Intelligence => new.intelligence = score,
            Ability::Wisdom => new.wisdom = score,
            Ability::Charisma => new.charisma = score,
        };
        new
    }
}

/// The modifiers of the scores that play uses, from the formula.
pub proof fn modifier_table()
    ensures
        modifier_of(4) == -3,
        modifier_of(5) == -3,
        modifier_of(6) == -2,
        modifier_of(7) == -2,
        modifier_of(8) == -1,
        modifier_of(9) == -1,
        modifier_of(10) == 0,
        modifier_of(11) == 0,
        modifier_of(12) == 1,
        modifier_of(13) == 1,
        modifier_of(14) == 2,
        modifier_of(15) == 2,
        modifier_of(16) == 3,
        modifier_of(17) == 3,
        modifier_of(18) == 4,
        modifier_of(19) == 4,
        modifier_of(20) == 5,
        modifier_of(21) == 5,
        modifier_of(22) == 6,
        modifier_of(23) == 6,
{
}

/// Two points of score are one point of modifier, everywhere.
pub proof fn modifier_steps(value: int)
    ensures
        modifier_of(value + 2) == modifier_of(value) + 1,
        modifier_of(2 * value) == value - 5,
        modifier_of(2 * value + 1) == value - 5,
{
}

} // verus!
