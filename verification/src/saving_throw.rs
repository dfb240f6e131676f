//! Saving throws.

use vstd::prelude::*;
use crate::ability_score::{modifier_of, Ability};
use crate::ability_score_state::ModifiedAbilityScore;
use crate::check::{CheckBonus, CheckTotals};
use crate::rollable::{in_range, Resolved, Rollable};
use crate::seqs::{
    amounts, clone_amounts, named_amounts, no_numbers, sum_amounts, sum_of, sums_fit,
};

verus! {

/// What is added to the saving throws of one ability besides the
/// ability and the proficiency, each addition under its name.
#[derive(Debug, PartialEq, Eq)]
pub struct SavingThrow {
    pub additional_modifiers: Vec<(String, isize)>,
}

impl Default for SavingThrow {
    fn default() -> (r: SavingThrow)
        ensures
            r.additional_modifiers@.len() == 0,
    {
        SavingThrow { additional_modifiers: Vec::new() }
    }
}

impl View for SavingThrow {
    type V = Seq<(Seq<char>, isize)>;

    open spec fn view(&self) -> Seq<(Seq<char>, isize)> {
        named_amounts(self.additional_modifiers@)
    }
}

impl Clone for SavingThrow {
    fn clone(&self) -> (r: SavingThrow)
        ensures
            r@ == self@,
            amounts(r.additional_modifiers@) == amounts(self.additional_modifiers@),
    {
        SavingThrow { additional_modifiers: clone_amounts(&self.additional_modifiers) }
    }
}

/// The saving throw of an ability: the dice given to the ability's
/// checks; advantages counted against disadvantages; and the ability's
/// check bonus, the modifier of the score, the proficiency and every
/// addition, added up.
pub open spec fn saving_throw(
    additions: Seq<isize>,
    score: int,
    given: CheckTotals,
    proficiency: int,
) -> Resolved {
    Resolved {
        dice: given.dice,
        advantage_counter: given.advantage_count - given.disadvantage_count,
        reroll: Set::empty(),
        bonus: given.bonus + modifier_of(score) + proficiency + sum_of(additions),
    }
}

/// Whether a saving throw can be worked out in machine integers.
pub open spec fn saving_throw_computable(
    additions: Seq<isize>,
    score: int,
    given: CheckTotals,
    proficiency: int,
) -> bool {
    &&& sums_fit(additions)
    &&& in_range(given.bonus + modifier_of(score))
    &&& in_range(given.bonus + modifier_of(score) + proficiency)
    &&& in_range(given.bonus + modifier_of(score) + proficiency + sum_of(additions))
    &&& in_range(given.advantage_count - given.disadvantage_count)
}

impl SavingThrow {
    /// The saving throw, resolved.
    pub fn modifier(self, ability_score: ModifiedAbilityScore, proficiency_modifier: isize) -> (r:
        Rollable)
        requires
            saving_throw_computable(
                amounts(self.additional_modifiers@),
                ability_score.score.value as int,
                ability_score.modifier@,
                proficiency_modifier as int,
            ),
        ensures
            r@ == saving_throw(
                amounts(self.additional_modifiers@),
                ability_score.score.value as int,
                ability_score.modifier@,
                proficiency_modifier as int,
            ),
    {
        let check = ability_score.roll();
        let reroll = no_numbers();
        let mut rollable = Rollable::from(
            check.dice(),
            reroll,
            check.advantage_count - check.disadvantage_count,
            check.bonus(),
        );
        rollable.add_bonus(proficiency_modifier);
        rollable.add_bonus(sum_amounts(&self.additional_modifiers));
        rollable
    }
}

/// The saving throws of one character.
#[derive(Debug, PartialEq, Eq)]
pub struct SavingThrows {
    pub strength: SavingThrow,
    pub dexterity: SavingThrow,
    pub constitution: SavingThrow,
    pub intelligence: SavingThrow,
    pub wisdom: SavingThrow,
    pub charisma: SavingThrow,
}

impl Default for SavingThrows {
    fn default() -> (r: SavingThrows)
        ensures
            forall|a: Ability| (#[trigger] r.of(a)).additional_modifiers@.len() == 0,
    {
        SavingThrows {
            strength: SavingThrow::default(),
            dexterity: SavingThrow::default(),
            constitution: SavingThrow::default(),
            intelligence: SavingThrow::default(),
            wisdom: SavingThrow::default(),
            charisma: SavingThrow::default(),
        }
    }
}

impl SavingThrows {
    /// What is held for `ability`.
    pub open spec fn of(self, ability: Ability) -> SavingThrow {
        match ability {
            Ability::Strength => self.strength,
            Ability::Dexterity => self.dexterity,
            Ability::Constitution => self.constitution,
            Ability::Intelligence => self.intelligence,
            Ability::Wisdom => self.wisdom,
            Ability::Charisma => self.charisma,
        }
    }

    pub fn get(&self, ability: Ability) -> (r: SavingThrow)
        ensures
            r@ == self.of(ability)@,
            amounts(r.additional_modifiers@) == amounts(self.of(ability).additional_modifiers@),
    {
        match ability {
            Ability::Strength => self.strength.clone(),
            Ability::Dexterity => self.dexterity.clone(),
            Ability::Constitution => self.constitution.clone(),
            Ability::Intelligence => self.intelligence.clone(),
            Ability::Wisdom => self.wisdom.clone(),
            Ability::Charisma => self.charisma.clone(),
        }
    }
}

/// What effects give to the saving throws of one ability.
#[derive(Debug)]
pub struct SavingThrowState {
    pub effect: Vec<CheckBonus>,
}

/// The saving throws of one character in play.
#[derive(Debug)]
pub struct SavingThrowsState {
    pub saving_throws: SavingThrows,
    pub strength: SavingThrowState,
    pub dexterity: SavingThrowState,
    pub constitution: SavingThrowState,
    pub intelligence: SavingThrowState,
    pub wisdom: SavingThrowState,
    pub charisma: SavingThrowState,
}

/// The additions to the saving throws of one ability, as modified.
#[derive(Debug)]
pub struct ModifiedSavingThrow {
    pub additional_modifiers: Vec<(String, isize)>,
}

/// The saving throws of one character, as modified.
#[derive(Debug)]
pub struct ModifiedSavingThrows {
    pub strength: ModifiedSavingThrow,
    pub dexterity: ModifiedSavingThrow,
    pub constitution: ModifiedSavingThrow,
    pub intelligence: ModifiedSavingThrow,
    pub wisdom: ModifiedSavingThrow,
    pub charisma: ModifiedSavingThrow,
}

} // verus!
