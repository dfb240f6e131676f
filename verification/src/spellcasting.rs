//! Spellcasting: the spell attack and the difficulty of saving against a
//! character's spells, class by class.

use vstd::prelude::*;
use vstd::string::StringExecFns;
use crate::ability_score::{modifier_of, Ability};
use crate::ability_score_state::{
    check_bonuses, check_bonuses_of, clone_check_bonuses, extend_check_bonuses,
    ModifiedAbilityScore, ModifiedAbilityScores,
};
use crate::effect::{effects_view, Effect, EffectView};
use crate::roll::RollScopeView;
use crate::check::{CheckBonus, CheckRoll, CheckTotals};
use crate::class::{proficiency_at, Classes};
use crate::rollable::in_range;
use crate::seqs::{amounts, clone_amounts, named_amounts, sum_amounts, sum_of, sums_fit};

verus! {

/// How one class casts spells.
#[derive(Debug, PartialEq, Eq)]
pub struct Spellcasting {
    pub class: String,
    pub ability: Ability,
    /// Additions to the spell attack, each under its name.
    pub additional_modifiers: Vec<(String, isize)>,
    /// Additions to the difficulty of saving, each under its name.
    pub additional_save_modifiers: Vec<(String, isize)>,
}

/// What a `Spellcasting` stands for in contracts.
pub struct SpellcastingView {
    pub class: Seq<char>,
    pub ability: Ability,
    pub attack_additions: Seq<isize>,
    pub save_additions: Seq<isize>,
    /// The names under which the additions to the attack are listed.
    pub attack_names: Seq<(Seq<char>, isize)>,
    /// The names under which the additions to the difficulty are listed.
    pub save_names: Seq<(Seq<char>, isize)>,
}

impl View for Spellcasting {
    type V = SpellcastingView;

    open spec fn view(&self) -> SpellcastingView {
        SpellcastingView {
            class: self.class@,
            ability: self.ability,
            attack_additions: amounts(self.additional_modifiers@),
            save_additions: amounts(self.additional_save_modifiers@),
            attack_names: named_amounts(self.additional_modifiers@),
            save_names: named_amounts(self.additional_save_modifiers@),
        }
    }
}

impl Clone for Spellcasting {
    fn clone(&self) -> (r: Spellcasting)
        ensures
            r@ == self@,
    {
        Spellcasting {
            class: self.class.clone(),
            ability: self.ability,
            additional_modifiers: clone_amounts(&self.additional_modifiers),
            additional_save_modifiers: clone_amounts(&self.additional_save_modifiers),
        }
    }
}

impl SpellcastingView {
    /// The spell attack: the check of the casting ability with the
    /// modifier of its score, the proficiency bonus and the additions.
    pub open spec fn attack(self, proficiency: int, score: int, given: CheckTotals) -> CheckTotals {
        CheckTotals {
            bonus: given.bonus + modifier_of(score) + proficiency + sum_of(self.attack_additions),
            ..given
        }
    }

    /// Whether the spell attack can be worked out in machine integers.
    pub open spec fn attack_computable(self, proficiency: int, score: int, given: CheckTotals) -> bool {
        &&& sums_fit(self.attack_additions)
        &&& in_range(given.bonus + modifier_of(score))
        &&& in_range(given.bonus + modifier_of(score) + proficiency)
        &&& in_range(given.bonus + modifier_of(score) + proficiency + sum_of(self.attack_additions))
    }

    /// The difficulty of saving against the spells: eight, the
    /// proficiency bonus, the modifier of the casting ability's score and
    /// the additions.
    pub open spec fn difficulty(self, proficiency: int, score: int) -> int {
        proficiency + modifier_of(score) + 8 + sum_of(self.save_additions)
    }

    /// Whether the difficulty can be worked out in machine integers.
    pub open spec fn difficulty_computable(self, proficiency: int, score: int) -> bool {
        &&& sums_fit(self.save_additions)
        &&& in_range(proficiency + modifier_of(score))
        &&& in_range(proficiency + modifier_of(score) + 8)
        &&& in_range(proficiency + modifier_of(score) + 8 + sum_of(self.save_additions))
    }
}

impl Spellcasting {
    /// The spell attack.
    pub fn modifier(&self, proficiency_modifier: isize, ability: &ModifiedAbilityScore) -> (r:
        CheckRoll)
        requires
            self@.attack_computable(
                proficiency_modifier as int,
                ability.score.value as int,
                ability.modifier@,
            ),
        ensures
            r@ == self@.attack(
                proficiency_modifier as int,
                ability.score.value as int,
                ability.modifier@,
            ),
    {
        ability.roll().with_extra_bonus(proficiency_modifier).with_extra_bonus(
            sum_amounts(&self.additional_modifiers),
        )
    }

    /// The difficulty of saving against the spells.
    pub fn save_dc(&self, proficiency_modifier: isize, ability: &ModifiedAbilityScore) -> (r: isize)
        requires
            self@.difficulty_computable(proficiency_modifier as int, ability.score.value as int),
        ensures
            r == self@.difficulty(proficiency_modifier as int, ability.score.value as int),
    {
        proficiency_modifier + ability.score().modifier() + 8 + sum_amounts(
            &self.additional_save_modifiers,
        )
    }
}

/// The spellcasting of one class in play.
#[derive(Debug)]
pub struct SpellcastingState {
    pub spellcasting: Spellcasting,
    pub proficiency_modifier: isize,
    /// What effects give to the spell attack.
    pub spell_modifiers: Vec<CheckBonus>,
}

/// What a `SpellcastingState` stands for in contracts.
pub struct SpellcastingStateView {
    pub spellcasting: SpellcastingView,
    pub proficiency_modifier: int,
    pub spell_modifiers: Seq<CheckBonus>,
}

impl View for SpellcastingState {
    type V = SpellcastingStateView;

    open spec fn view(&self) -> SpellcastingStateView {
        SpellcastingStateView {
            spellcasting: self.spellcasting@,
            proficiency_modifier: self.proficiency_modifier as int,
            spell_modifiers: self.spell_modifiers@,
        }
    }
}

/// Whether a scope is meant for the spell attacks made with `ability`:
/// it asks for rolls named `Spell Attack`, either of any ability or of
/// this one, and for nothing else.
pub open spec fn meant_for_spell_attacks(scope: RollScopeView, ability: Ability) -> bool {
    &&& scope.name == Some("Spell Attack"@)
    &&& scope.path is None
    &&& scope.tags is None
    &&& scope.range is None
    &&& (scope.ability is None || scope.ability == Some(ability))
}

impl SpellcastingStateView {
    /// The state after an effect. An effect on rolls whose scope is meant
    /// for the spell attacks of this class gives its bonus to the spell
    /// attack, after what was given before. Every other effect passes by.
    pub open spec fn with_effect(self, effect: EffectView) -> SpellcastingStateView {
        match effect {
            EffectView::Roll { bonus, scope } => if meant_for_spell_attacks(
                scope,
                self.spellcasting.ability,
            ) {
                SpellcastingStateView {
                    spell_modifiers: self.spell_modifiers + check_bonuses_of(bonus),
                    ..self
                }
            } else {
                self
            },
            EffectView::Ability { .. } => self,
        }
    }

    /// The state after the first `k` of `effects`, in order.
    pub open spec fn with_effects(self, effects: Seq<EffectView>, k: nat) -> SpellcastingStateView
        decreases k,
    {
        if k == 0 || k > effects.len() {
            self
        } else {
            self.with_effects(effects, (k - 1) as nat).with_effect(effects[k - 1])
        }
    }

    /// The spell attack with what effects give to it.
    pub open spec fn attack(self, score: int, given: CheckTotals) -> CheckTotals {
        self.spellcasting.attack(self.proficiency_modifier, score, given).plus(
            CheckTotals::of(self.spell_modifiers),
        )
    }

    /// Whether the spell attack can be worked out in machine integers.
    pub open spec fn attack_computable(self, score: int, given: CheckTotals) -> bool {
        &&& self.spellcasting.attack_computable(self.proficiency_modifier, score, given)
        &&& CheckTotals::countable(self.spell_modifiers)
        &&& self.attack(score, given).fits()
    }
}

/// The spell attack of one class, as modified.
#[derive(Debug)]
pub struct ModifiedSpellcasting {
    pub class: String,
    pub spellcasting: CheckRoll,
}

impl Clone for ModifiedSpellcasting {
    fn clone(&self) -> (r: ModifiedSpellcasting)
        ensures
            r.class@ == self.class@,
            r.spellcasting@ == self.spellcasting@,
    {
        ModifiedSpellcasting { class: self.class.clone(), spellcasting: self.spellcasting.clone() }
    }
}

impl ModifiedSpellcasting {
    pub fn class_name(&self) -> (r: String)
        ensures
            r@ == self.class@,
    {
        self.class.clone()
    }

    pub fn spell_modifier(&self) -> (r: CheckRoll)
        ensures
            r@ == self.spellcasting@,
    {
        self.spellcasting.clone()
    }
}

impl SpellcastingState {
    pub fn from(persistable: Spellcasting, proficiency_modifier: isize) -> (r: SpellcastingState)
        ensures
            r@ == (SpellcastingStateView {
                spellcasting: persistable@,
                proficiency_modifier: proficiency_modifier as int,
                spell_modifiers: Seq::empty(),
            }),
    {
        SpellcastingState {
            spellcasting: persistable,
            proficiency_modifier,
            spell_modifiers: Vec::new(),
        }
    }

    pub fn persistable(&self) -> (r: Spellcasting)
        ensures
            r@ == self@.spellcasting,
    {
        self.spellcasting.clone()
    }

    /// Forgets what effects gave to the spell attack.
    pub fn reset_effects(&mut self)
        ensures
            final(self)@ == (SpellcastingStateView { spell_modifiers: Seq::empty(), ..old(self)@ }),
    {
        self.spell_modifiers = Vec::new()
    }

    /// Takes every effect in, in order. What was given before stays.
    pub fn apply_all(&mut self, effects: &Vec<Effect>)
        ensures
            final(self)@ == old(self)@.with_effects(effects_view(effects@), effects@.len()),
    {
        let mut i: usize = 0;
        while i < effects.len()
            invariant
                i <= effects.len(),
                self@ == old(self)@.with_effects(effects_view(effects@), i as nat),
            decreases effects.len() - i,
        {
            self.apply(effects[i].clone());
            i += 1;
        }
    }

    /// Takes one effect in.
    pub fn apply(&mut self, effect: Effect)
        ensures
            final(self)@ == old(self)@.with_effect(effect@),
    {
        match &effect {
            Effect::Roll { bonus, scope } => {
                let named = match &scope.name {
                    Some(name) => *name == String::from_str("Spell Attack"),
                    None => false,
                };
                let of_this_ability = match scope.ability {
                    Some(ability) => ability == self.spellcasting.ability,
                    None => true,
                };
                if named && scope.path.is_none() && scope.tags.is_none() && scope.range.is_none()
                    && of_this_ability {
                    let more = check_bonuses(bonus);
                    extend_check_bonuses(&mut self.spell_modifiers, &more);
                }
            },
            _ => {},
        }
    }

    /// The spell attack for a character of these scores.
    pub fn modified(&self, ability_scores: &ModifiedAbilityScores) -> (r: ModifiedSpellcasting)
        requires
            self@.attack_computable(
                ability_scores.of(self.spellcasting.ability).score.value as int,
                ability_scores.of(self.spellcasting.ability).modifier@,
            ),
        ensures
            r.class@ == self@.spellcasting.class,
            r.spellcasting@ == self@.attack(
                ability_scores.of(self.spellcasting.ability).score.value as int,
                ability_scores.of(self.spellcasting.ability).modifier@,
            ),
    {
        ModifiedSpellcasting {
            class: self.spellcasting.class.clone(),
            spellcasting: self.spellcasting.modifier(
                self.proficiency_modifier,
                &ability_scores.get(self.spellcasting.ability),
            ).merge(CheckRoll::from(clone_check_bonuses(&self.spell_modifiers))),
        }
    }

    /// The difficulty of saving against the spells of this class.
    pub fn save_dc(&self, ability_scores: &ModifiedAbilityScores) -> (r: isize)
        requires
            self@.spellcasting.difficulty_computable(
                self@.proficiency_modifier,
                ability_scores.of(self.spellcasting.ability).score.value as int,
            ),
        ensures
            r == self@.spellcasting.difficulty(
                self@.proficiency_modifier,
                ability_scores.of(self.spellcasting.ability).score.value as int,
            ),
    {
        self.spellcasting.save_dc(
            self.proficiency_modifier,
            &ability_scores.get(self.spellcasting.ability),
        )
    }
}

/// What a list of spellcastings stands for in contracts.
pub open spec fn spellcastings_view(list: Seq<Spellcasting>) -> Seq<SpellcastingView> {
    list.map_values(|s: Spellcasting| s@)
}

/// The spellcasting of a character in play, class by class.
#[derive(Debug)]
pub struct SpellcastingsState {
    pub spellcasting_states: Vec<SpellcastingState>,
}

impl View for SpellcastingsState {
    type V = Seq<SpellcastingStateView>;

    open spec fn view(&self) -> Seq<SpellcastingStateView> {
        self.spellcasting_states@.map_values(|s: SpellcastingState| s@)
    }
}

impl Default for SpellcastingsState {
    fn default() -> (r: SpellcastingsState)
        ensures
            r@ == Seq::<SpellcastingStateView>::empty(),
    {
        let r = SpellcastingsState { spellcasting_states: Vec::new() };
        assert(r@ =~= Seq::<SpellcastingStateView>::empty());
        r
    }
}

/// The spell attacks of a character, class by class.
#[derive(Debug)]
pub struct ModifiedSpellcastings {
    pub spellcastings: Vec<ModifiedSpellcasting>,
}

impl ModifiedSpellcastings {
    pub fn spellcastings(&self) -> (r: Vec<ModifiedSpellcasting>)
        ensures
            r@.len() == self.spellcastings@.len(),
            forall|i: int|
                0 <= i < r@.len() ==> (#[trigger] r@[i]).class@ == self.spellcastings@[i].class@
                    && r@[i].spellcasting@ == self.spellcastings@[i].spellcasting@,
    {
        let mut out: Vec<ModifiedSpellcasting> = Vec::new();
        let mut i: usize = 0;
        while i < self.spellcastings.len()
            invariant
                i <= self.spellcastings.len(),
                out@.len() == i,
                forall|k: int|
                    0 <= k < i ==> (#[trigger] out@[k]).class@ == self.spellcastings@[k].class@
                        && out@[k].spellcasting@ == self.spellcastings@[k].spellcasting@,
            decreases self.spellcastings.len() - i,
        {
            out.push(self.spellcastings[i].clone());
            i += 1;
        }
        out
    }
}

impl SpellcastingsState {
    /// Brings the spellcasting of a character of these classes into
    /// play.
    pub fn from(persistable: Vec<Spellcasting>, classes: Classes) -> (r: SpellcastingsState)
        requires
            classes.levels_fit(),
        ensures
            r@.len() == persistable@.len(),
            forall|i: int|
                0 <= i < r@.len() ==> #[trigger] r@[i] == (SpellcastingStateView {
                    spellcasting: persistable@[i]@,
                    proficiency_modifier: proficiency_at(classes.level()),
                    spell_modifiers: Seq::empty(),
                }),
    {
        let proficiency = classes.proficiency_bonus();
        let mut states: Vec<SpellcastingState> = Vec::new();
        let mut i: usize = 0;
        while i < persistable.len()
            invariant
                i <= persistable.len(),
                states@.len() == i,
                proficiency == proficiency_at(classes.level()),
                forall|k: int|
                    0 <= k < i ==> (#[trigger] states@[k])@ == (SpellcastingStateView {
                        spellcasting: persistable@[k]@,
                        proficiency_modifier: proficiency as int,
                        spell_modifiers: Seq::empty(),
                    }),
            decreases persistable.len() - i,
        {
            states.push(SpellcastingState::from(persistable[i].clone(), proficiency));
            i += 1;
        }
        SpellcastingsState { spellcasting_states: states }
    }

    pub fn persistable(&self) -> (r: Vec<Spellcasting>)
        ensures
            r@.len() == self@.len(),
            forall|i: int| 0 <= i < r@.len() ==> (#[trigger] r@[i])@ == self@[i].spellcasting,
    {
        let mut out: Vec<Spellcasting> = Vec::new();
        let mut i: usize = 0;
        while i < self.spellcasting_states.len()
            invariant
                i <= self.spellcasting_states.len(),
                out@.len() == i,
                forall|k: int|
                    0 <= k < i ==> (#[trigger] out@[k])@ == self.spellcasting_states@[k]@.spellcasting,
            decreases self.spellcasting_states.len() - i,
        {
            out.push(self.spellcasting_states[i].persistable());
            i += 1;
        }
        out
    }

    /// Lets the spellcasting of every class take every effect in.
    pub fn apply_all(&mut self, effects: &Vec<Effect>)
        ensures
            final(self)@.len() == old(self)@.len(),
            forall|i: int|
                0 <= i < old(self)@.len() ==> #[trigger] final(self)@[i] == old(
                    self,
                )@[i].with_effects(effects_view(effects@), effects@.len()),
    {
        let mut i: usize = 0;
        while i < self.spellcasting_states.len()
            invariant
                i <= self.spellcasting_states.len(),
                self.spellcasting_states@.len() == old(self).spellcasting_states@.len(),
                forall|k: int|
                    0 <= k < i ==> (#[trigger] self.spellcasting_states@[k])@ == old(
                        self,
                    ).spellcasting_states@[k]@.with_effects(effects_view(effects@), effects@.len()),
                forall|k: int|
                    i <= k < self.spellcasting_states@.len() ==> self.spellcasting_states@[k]
                        == old(self).spellcasting_states@[k],
            decreases self.spellcasting_states.len() - i,
        {
            self.spellcasting_states[i].apply_all(effects);
            i += 1;
        }
    }

    /// The spell attacks for a character of these scores.
    pub fn modified(&self, modified_ability_scores: &ModifiedAbilityScores) -> (r:
        ModifiedSpellcastings)
        requires
            forall|i: int|
                0 <= i < self@.len() ==> (#[trigger] self@[i]).attack_computable(
                    modified_ability_scores.of(self@[i].spellcasting.ability).score.value as int,
                    modified_ability_scores.of(self@[i].spellcasting.ability).modifier@,
                ),
        ensures
            r.spellcastings@.len() == self@.len(),
            forall|i: int|
                0 <= i < self@.len() ==> (#[trigger] r.spellcastings@[i]).class@
                    == self@[i].spellcasting.class && r.spellcastings@[i].spellcasting@
                    == self@[i].attack(
                    modified_ability_scores.of(self@[i].spellcasting.ability).score.value as int,
                    modified_ability_scores.of(self@[i].spellcasting.ability).modifier@,
                ),
    {
        let mut spellcastings: Vec<ModifiedSpellcasting> = Vec::new();
        let mut i: usize = 0;
        while i < self.spellcasting_states.len()
            invariant
                i <= self.spellcasting_states.len(),
                spellcastings@.len() == i,
                forall|k: int|
                    0 <= k < self@.len() ==> (#[trigger] self@[k]).attack_computable(
                        modified_ability_scores.of(
                            self@[k].spellcasting.ability,
                        ).score.value as int,
                        modified_ability_scores.of(self@[k].spellcasting.ability).modifier@,
                    ),
                forall|k: int|
                    0 <= k < i ==> (#[trigger] spellcastings@[k]).class@
                        == self@[k].spellcasting.class && spellcastings@[k].spellcasting@
                        == self@[k].attack(
                        modified_ability_scores.of(
                            self@[k].spellcasting.ability,
                        ).score.value as int,
                        modified_ability_scores.of(self@[k].spellcasting.ability).modifier@,
                    ),
            decreases self.spellcasting_states.len() - i,
        {
            assert(self@[i as int] == self.spellcasting_states@[i as int]@);
            spellcastings.push(self.spellcasting_states[i].modified(modified_ability_scores));
            i += 1;
        }
        ModifiedSpellcastings { spellcastings }
    }
}

} // verus!
