//! Things that a character can carry.

use vstd::prelude::*;
use crate::ability_score::Ability;
use crate::ability_score_state::ModifiedAbilityScores;
use crate::attack::Attack;
use crate::dimensions::Weight;
use crate::weapon::{ability_check, attacks_computable, attacks_view, weapon_attacks, Weapon};

verus! {

/// A thing: what it is, what it weighs, and the weapon that it is, if it
/// is one.
#[derive(Debug, PartialEq, Eq)]
pub struct Item {
    pub name: String,
    pub weight: Weight,
    pub item_type: String,
    pub sub_type: String,
    pub weapon: Option<Weapon>,
    pub proficiencies: Vec<String>,
}

impl Item {
    pub fn name(&self) -> (r: String)
        ensures
            r@ == self.name@,
    {
        self.name.clone()
    }

    /// The attacks that the item allows a character of these scores, if
    /// it is a weapon.
    pub fn attacks(&self, ability_scores: ModifiedAbilityScores) -> (r: Option<Vec<Attack>>)
        requires
            match self.weapon {
                Some(weapon) => attacks_computable(weapon@, ability_scores),
                None => true,
            },
        ensures
            match self.weapon {
                Some(weapon) => r is Some && attacks_view(r->0@) == weapon_attacks(
                    weapon@,
                    ability_check(ability_scores, Ability::Strength),
                    ability_check(ability_scores, Ability::Dexterity),
                ),
                None => r is None,
            },
    {
        match &self.weapon {
            Some(weapon) => Some(weapon.attacks(ability_scores)),
            None => None,
        }
    }
}

} // verus!
