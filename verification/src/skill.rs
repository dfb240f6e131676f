//! Skills and what a character adds to their checks.

use vstd::prelude::*;
use vstd::string::StringExecFns;
use crate::ability_score::{modifier_of, Ability, AbilityScores};
use crate::class::{proficiency_at, Classes};
use crate::proficiencies::{Proficiency, ProficiencyType};
use crate::rollable::in_range;

verus! {

/// The name of a skill.
pub type SkillName = String;

/// A skill and the ability that it goes by.
#[derive(Debug, PartialEq, Eq)]
pub struct Skill {
    pub name: SkillName,
    pub ability: Ability,
}

impl Clone for Skill {
    fn clone(&self) -> (r: Skill)
        ensures
            r.name@ == self.name@,
            r.ability == self.ability,
    {
        Skill { name: self.name.clone(), ability: self.ability }
    }
}

impl Skill {
    pub fn of(name: &str, ability: Ability) -> (r: Skill)
        ensures
            r.name@ == name@,
            r.ability == ability,
    {
        Skill { name: String::from_str(name), ability: ability }
    }

    pub fn name(&self) -> (r: String)
        ensures
            r@ == self.name@,
    {
        self.name.clone()
    }

    pub fn ability(&self) -> (r: Ability)
        ensures
            r == self.ability,
    {
        self.ability
    }
}

/// How proficient a character is in a skill.
#[derive(Debug, PartialEq, Eq)]
pub struct SkillProficiency {
    pub name: String,
    pub proficiency_type: ProficiencyType,
}

impl SkillProficiency {
    pub fn of(skill: Skill, proficiency_type: ProficiencyType) -> (r: SkillProficiency)
        ensures
            r.name@ == skill.name@,
            r.proficiency_type == proficiency_type,
    {
        SkillProficiency { name: skill.name(), proficiency_type }
    }
}

/// The skills of a character with the proficiencies in them.
#[derive(Debug)]
pub struct SkillState {
    pub skills: Vec<Skill>,
    pub proficiencies: Vec<Proficiency>,
}

impl Default for SkillState {
    fn default() -> (r: SkillState)
        ensures
            r.skills@.len() == 0,
            r.proficiencies@.len() == 0,
    {
        SkillState { skills: Vec::new(), proficiencies: Vec::new() }
    }
}

/// What a character adds to the checks of a skill: the share of the
/// proficiency bonus that the proficiency gives, and the modifier of the
/// skill's ability.
pub open spec fn skill_modifier(
    ability: Ability,
    proficiency: ProficiencyType,
    level: int,
    scores: AbilityScores,
) -> int {
    proficiency.share(proficiency_at(level)) + modifier_of(scores.score(ability).value as int)
}

/// What the character adds to the checks of `skill`.
pub fn modifier(
    skill: Skill,
    proficiency: ProficiencyType,
    class: Classes,
    ability_scores: AbilityScores,
) -> (r: isize)
    requires
        class.levels_fit(),
        in_range(skill_modifier(skill.ability, proficiency, class.level(), ability_scores)),
    ensures
        r == skill_modifier(skill.ability, proficiency, class.level(), ability_scores),
{
    proficiency.modifier(class) + ability_scores.get(skill.ability()).modifier()
}

} // verus!
