//! Ability scores in play: the raw scores with what effects do to them.

use vstd::prelude::*;
use crate::ability_score::{modifier_of, Ability, AbilityScore, AbilityScoreBonus, AbilityScores};
use crate::check::{CheckBonus, CheckRoll, CheckTotals};
use crate::effect::{effects_view, Effect, EffectView};
use crate::roll::{
    bonuses_view, roll_view_bonuses, Dice, Roll, RollBonus, RollBonusView, RollScopeView, RollView,
};
use crate::rollable::in_range;
use crate::seqs::{collect, collect_origin, collect_step, sum, sum_of, sums_fit};

verus! {

/// The value of a bonus that fixes a score.
pub open spec fn fixed_value() -> spec_fn(AbilityScoreBonus) -> Option<isize> {
    |b: AbilityScoreBonus|
        match b {
            AbilityScoreBonus::Become { value } => Some(value),
            _ => None,
        }
}

/// The amount of a bonus that adds to a score.
pub open spec fn added_value() -> spec_fn(AbilityScoreBonus) -> Option<isize> {
    |b: AbilityScoreBonus|
        match b {
            AbilityScoreBonus::Modifier { modifier } => Some(modifier),
            _ => None,
        }
}

/// A score with bonuses: where a bonus fixes the score, the value that
/// the last such bonus names, whatever is added besides; otherwise the
/// raw score and everything that is added.
pub open spec fn modified_score(base: int, bonuses: Seq<AbilityScoreBonus>) -> int {
    let fixed = collect(bonuses, fixed_value());
    if fixed.len() > 0 {
        fixed.last() as int
    } else {
        base + sum_of(collect(bonuses, added_value()))
    }
}

/// Whether a score with bonuses can be worked out in machine integers.
pub open spec fn score_computable(base: int, bonuses: Seq<AbilityScoreBonus>) -> bool {
    collect(bonuses, fixed_value()).len() == 0 ==> sums_fit(collect(bonuses, added_value()))
        && in_range(base + sum_of(collect(bonuses, added_value())))
}

/// A score that is fixed to one value is that value, wherever among the
/// bonuses it is fixed, however often, and whatever is added besides.
pub proof fn become_overrides(base: int, bonuses: Seq<AbilityScoreBonus>, value: isize)
    requires
        exists|i: int| 0 <= i < bonuses.len() && bonuses[i] == (AbilityScoreBonus::Become { value }),
        forall|i: int|
            0 <= i < bonuses.len() && (#[trigger] bonuses[i]) is Become ==> bonuses[i] == (
            AbilityScoreBonus::Become { value }),
    ensures
        modified_score(base, bonuses) == value,
        score_computable(base, bonuses),
{
    let fixed = collect(bonuses, fixed_value());
    collect_origin(bonuses, fixed_value());
    let at = choose|i: int|
        0 <= i < bonuses.len() && bonuses[i] == (AbilityScoreBonus::Become { value });
    assert(fixed_value()(bonuses[at]) is Some);
    assert(fixed.len() > 0);
    let last = fixed.len() - 1;
    let from = choose|i: int| 0 <= i < bonuses.len() && fixed_value()(bonuses[i]) == Some(fixed[last]);
    assert(bonuses[from] is Become);
}

/// Without a bonus that fixes the score, the order of what is added does
/// not matter to two bonuses.
pub proof fn two_modifiers_commute(base: int, first: isize, second: isize)
    ensures
        modified_score(
            base,
            seq![
                AbilityScoreBonus::Modifier { modifier: first },
                AbilityScoreBonus::Modifier { modifier: second },
            ],
        ) == base + first + second,
        modified_score(
            base,
            seq![
                AbilityScoreBonus::Modifier { modifier: second },
                AbilityScoreBonus::Modifier { modifier: first },
            ],
        ) == base + first + second,
{
    let a = seq![
        AbilityScoreBonus::Modifier { modifier: first },
        AbilityScoreBonus::Modifier { modifier: second },
    ];
    let b = seq![
        AbilityScoreBonus::Modifier { modifier: second },
        AbilityScoreBonus::Modifier { modifier: first },
    ];
    two_collected(a);
    two_collected(b);
    reveal_with_fuel(crate::seqs::sum_of_first, 3);
}

/// What is collected from two bonuses that add.
proof fn two_collected(s: Seq<AbilityScoreBonus>)
    requires
        s.len() == 2,
        s[0] is Modifier,
        s[1] is Modifier,
    ensures
        collect(s, fixed_value()).len() == 0,
        collect(s, added_value()) == seq![s[0]->modifier, s[1]->modifier],
{
    assert(s.take(0) =~= Seq::empty());
    assert(s.take(2) =~= s);
    collect_step(s, fixed_value(), 0);
    collect_step(s, fixed_value(), 1);
    collect_step(s, added_value(), 0);
    collect_step(s, added_value(), 1);
    assert(collect(s, added_value()) =~= seq![s[0]->modifier, s[1]->modifier]);
}

/// The ability whose checks a scope is meant for: the scope names an
/// ability and asks for nothing else.
pub open spec fn ability_target(scope: RollScopeView) -> Option<Ability> {
    if scope.name is None && scope.path is None && scope.tags is None && scope.range is None {
        scope.ability
    } else {
        None
    }
}

/// The dice of a roll as check bonuses.
pub open spec fn dice_bonuses(dice: Seq<Dice>) -> Seq<CheckBonus> {
    dice.map_values(|d: Dice| CheckBonus::Dice(d))
}

/// What a roll bonus gives to a plain check: its advantage, its
/// modifier, or the dice and bonuses of the roll folded into it. Numbers
/// to roll again and the proficiency bonus belong to resolved rolls and
/// give nothing here.
pub open spec fn check_bonuses_of(bonus: RollBonusView) -> Seq<CheckBonus>
    decreases bonus, 0nat, 0nat,
{
    match bonus {
        RollBonusView::Advantage(a) => seq![CheckBonus::Advantage(a)],
        RollBonusView::Modifier(m) => seq![CheckBonus::Modifier(m)],
        RollBonusView::Roll(roll) => check_bonuses_of_roll(roll),
        RollBonusView::Reroll(_) => Seq::empty(),
        RollBonusView::Proficiency => Seq::empty(),
    }
}

/// What a roll gives to a plain check: its dice, then what its bonuses
/// give, in order.
pub open spec fn check_bonuses_of_roll(roll: RollView) -> Seq<CheckBonus>
    decreases roll, 0nat, 0nat,
{
    dice_bonuses(roll.dice) + check_bonuses_of_first(roll.bonuses, roll.bonuses.len())
}

/// What the first `k` of `bonuses` give to a plain check.
pub open spec fn check_bonuses_of_first(bonuses: Seq<RollBonusView>, k: nat) -> Seq<CheckBonus>
    decreases bonuses, 0nat, k,
{
    if k == 0 || k > bonuses.len() {
        Seq::empty()
    } else {
        check_bonuses_of_first(bonuses, (k - 1) as nat) + check_bonuses_of(bonuses[k - 1])
    }
}

/// Appends the items of `src` to `dst`.
pub fn extend_check_bonuses(dst: &mut Vec<CheckBonus>, src: &Vec<CheckBonus>)
    ensures
        final(dst)@ == old(dst)@ + src@,
{
    let mut i: usize = 0;
    while i < src.len()
        invariant
            i <= src.len(),
            dst@ == old(dst)@ + src@.take(i as int),
        decreases src.len() - i,
    {
        dst.push(src[i]);
        assert(dst@ =~= old(dst)@ + src@.take(i + 1));
        i += 1;
    }
    assert(src@.take(src@.len() as int) =~= src@);
}

/// What a roll bonus gives to a plain check.
pub fn check_bonuses(bonus: &RollBonus) -> (r: Vec<CheckBonus>)
    ensures
        r@ == check_bonuses_of(bonus@),
    decreases bonus,
{
    let mut out: Vec<CheckBonus> = Vec::new();
    match bonus {
        RollBonus::Advantage(a) => {
            out.push(CheckBonus::Advantage(*a));
            assert(out@ =~= seq![CheckBonus::Advantage(*a)]);
        },
        RollBonus::Modifier(m) => {
            out.push(CheckBonus::Modifier(*m));
            assert(out@ =~= seq![CheckBonus::Modifier(*m)]);
        },
        RollBonus::Roll(roll) => {
            out = roll_check_bonuses(roll);
        },
        RollBonus::Reroll(_) => {
            assert(out@ =~= Seq::empty());
        },
        RollBonus::Proficiency => {
            assert(out@ =~= Seq::empty());
        },
    }
    out
}

/// What a roll gives to a plain check.
pub fn roll_check_bonuses(roll: &Roll) -> (r: Vec<CheckBonus>)
    ensures
        r@ == check_bonuses_of_roll(roll@),
    decreases roll,
{
    let mut out: Vec<CheckBonus> = Vec::new();
    let mut i: usize = 0;
    assert(out@ =~= dice_bonuses(roll.dice@.take(0)));
    while i < roll.dice.len()
        invariant
            i <= roll.dice.len(),
            out@ == dice_bonuses(roll.dice@.take(i as int)),
        decreases roll.dice.len() - i,
    {
        out.push(CheckBonus::Dice(roll.dice[i]));
        assert(out@ =~= dice_bonuses(roll.dice@.take(i + 1)));
        i += 1;
    }
    assert(roll.dice@.take(roll.dice@.len() as int) =~= roll.dice@);
    proof {
        roll_view_bonuses(roll);
    }
    let ghost inner = bonuses_view(roll.bonuses@);
    let mut j: usize = 0;
    assert(out@ =~= dice_bonuses(roll.dice@) + check_bonuses_of_first(inner, 0));
    while j < roll.bonuses.len()
        invariant
            j <= roll.bonuses.len(),
            inner == bonuses_view(roll.bonuses@),
            out@ == dice_bonuses(roll.dice@) + check_bonuses_of_first(inner, j as nat),
        decreases roll.bonuses.len() - j,
    {
        let more = check_bonuses(&roll.bonuses[j]);
        extend_check_bonuses(&mut out, &more);
        assert(out@ =~= dice_bonuses(roll.dice@) + check_bonuses_of_first(inner, (j + 1) as nat));
        j += 1;
    }
    out
}

/// A copy of a list of check bonuses.
pub fn clone_check_bonuses(v: &Vec<CheckBonus>) -> (r: Vec<CheckBonus>)
    ensures
        r@ == v@,
{
    let mut r: Vec<CheckBonus> = Vec::new();
    extend_check_bonuses(&mut r, v);
    assert(r@ =~= v@);
    r
}

/// One ability score in play.
#[derive(Debug)]
pub struct AbilityScoreState {
    pub ability_score: AbilityScore,
    /// What effects do to the score itself.
    pub value_modifiers: Vec<AbilityScoreBonus>,
    /// What effects give to checks of this ability.
    pub bonus_modifiers: Vec<CheckBonus>,
}

/// What an `AbilityScoreState` stands for in contracts.
pub struct AbilityScoreStateView {
    pub ability_score: AbilityScore,
    pub value_modifiers: Seq<AbilityScoreBonus>,
    pub bonus_modifiers: Seq<CheckBonus>,
}

impl View for AbilityScoreState {
    type V = AbilityScoreStateView;

    open spec fn view(&self) -> AbilityScoreStateView {
        AbilityScoreStateView {
            ability_score: self.ability_score,
            value_modifiers: self.value_modifiers@,
            bonus_modifiers: self.bonus_modifiers@,
        }
    }
}

impl AbilityScoreStateView {
    /// A raw score in play to which nothing was done.
    pub open spec fn fresh(score: AbilityScore) -> AbilityScoreStateView {
        AbilityScoreStateView {
            ability_score: score,
            value_modifiers: Seq::empty(),
            bonus_modifiers: Seq::empty(),
        }
    }

    /// Whether the modified score and its check can be worked out in
    /// machine integers.
    pub open spec fn computable(self) -> bool {
        score_computable(self.ability_score.value as int, self.value_modifiers)
            && CheckTotals::countable(self.bonus_modifiers)
    }

    /// The score as modified.
    pub open spec fn score(self) -> int {
        modified_score(self.ability_score.value as int, self.value_modifiers)
    }
}

impl Default for AbilityScoreState {
    fn default() -> (r: AbilityScoreState)
        ensures
            r@ == AbilityScoreStateView::fresh(AbilityScore { value: 10 }),
    {
        AbilityScore::of(10).to_state()
    }
}

/// A score as modified, with what was given to its checks.
#[derive(Debug)]
pub struct ModifiedAbilityScore {
    pub score: AbilityScore,
    pub modifier: CheckRoll,
}

impl Clone for ModifiedAbilityScore {
    fn clone(&self) -> (r: ModifiedAbilityScore)
        ensures
            r.score == self.score,
            r.modifier@ == self.modifier@,
    {
        ModifiedAbilityScore { score: self.score, modifier: self.modifier.clone() }
    }
}

impl ModifiedAbilityScore {
    /// The check of this ability: what is given to it, and the modifier
    /// of the score.
    pub fn roll(&self) -> (r: CheckRoll)
        requires
            in_range(self.modifier@.bonus + modifier_of(self.score.value as int)),
        ensures
            r@ == (CheckTotals {
                bonus: self.modifier@.bonus + modifier_of(self.score.value as int),
                ..self.modifier@
            }),
    {
        self.modifier.with_extra_bonus(self.score.modifier())
    }

    pub fn score(&self) -> (r: AbilityScore)
        ensures
            r == self.score,
    {
        self.score
    }
}

impl AbilityScore {
    pub fn to_state(self) -> (r: AbilityScoreState)
        ensures
            r@ == AbilityScoreStateView::fresh(self),
    {
        AbilityScoreState {
            ability_score: self,
            value_modifiers: Vec::new(),
            bonus_modifiers: Vec::new(),
        }
    }
}

impl AbilityScoreState {
    /// Forgets what effects did.
    pub fn reset(&mut self)
        ensures
            final(self)@ == AbilityScoreStateView::fresh(old(self).ability_score),
    {
        self.value_modifiers = Vec::new();
        self.bonus_modifiers = Vec::new();
    }

    /// The score as modified, worked out anew from the raw score and
    /// what effects did.
    pub fn modified(&self) -> (r: ModifiedAbilityScore)
        requires
            self@.computable(),
        ensures
            r.score.value == self@.score(),
            r.modifier@ == CheckTotals::of(self@.bonus_modifiers),
    {
        let ghost all = self.value_modifiers@;
        let mut become_value: Option<isize> = None;
        let mut score_modifiers: Vec<isize> = Vec::new();
        let mut i: usize = 0;
        assert(all.take(0) =~= Seq::empty());
        while i < self.value_modifiers.len()
            invariant
                i <= self.value_modifiers.len(),
                all == self.value_modifiers@,
                score_modifiers@ == collect(all.take(i as int), added_value()),
                match become_value {
                    Some(value) => collect(all.take(i as int), fixed_value()).len() > 0 && collect(
                        all.take(i as int),
                        fixed_value(),
                    ).last() == value,
                    None => collect(all.take(i as int), fixed_value()).len() == 0,
                },
            decreases self.value_modifiers.len() - i,
        {
            proof {
                collect_step(all, added_value(), i as int);
                collect_step(all, fixed_value(), i as int);
            }
            match self.value_modifiers[i] {
                AbilityScoreBonus::Become { value } => {
                    become_value = Some(value);
                },
                AbilityScoreBonus::Modifier { modifier } => {
                    score_modifiers.push(modifier);
                },
            }
            i += 1;
        }
        assert(all.take(all.len() as int) =~= all);
        let score = match become_value {
            Some(value) => AbilityScore::of(value),
            None => {
                let score_modifier_total = sum(&score_modifiers);
                AbilityScore::of(self.ability_score.value + score_modifier_total)
            },
        };
        let modifier = CheckRoll::from(clone_check_bonuses(&self.bonus_modifiers));
        ModifiedAbilityScore { score, modifier }
    }
}

/// The ability scores of one character in play.
#[derive(Debug)]
pub struct AbilityScoresState {
    pub ability_scores: AbilityScores,
    pub strength: AbilityScoreState,
    pub dexterity: AbilityScoreState,
    pub constitution: AbilityScoreState,
    pub intelligence: AbilityScoreState,
    pub wisdom: AbilityScoreState,
    pub charisma: AbilityScoreState,
}

/// What an `AbilityScoresState` stands for in contracts.
pub struct AbilityScoresStateView {
    pub ability_scores: AbilityScores,
    pub strength: AbilityScoreStateView,
    pub dexterity: AbilityScoreStateView,
    pub constitution: AbilityScoreStateView,
    pub intelligence: AbilityScoreStateView,
    pub wisdom: AbilityScoreStateView,
    pub charisma: AbilityScoreStateView,
}

impl AbilityScoresStateView {
    /// The state held for `ability`.
    pub open spec fn of(self, ability: Ability) -> AbilityScoreStateView {
        match ability {
            Ability::Strength => self.strength,
            Ability::Dexterity => self.dexterity,
            Ability::Constitution => self.constitution,
            Ability::Intelligence => self.intelligence,
            Ability::Wisdom => self.wisdom,
            Ability::Charisma => self.charisma,
        }
    }

    /// Raw scores in play to which nothing was done.
    pub open spec fn fresh(scores: AbilityScores) -> AbilityScoresStateView {
        AbilityScoresStateView {
            ability_scores: scores,
            strength: AbilityScoreStateView::fresh(scores.strength),
            dexterity: AbilityScoreStateView::fresh(scores.dexterity),
            constitution: AbilityScoreStateView::fresh(scores.constitution),
            intelligence: AbilityScoreStateView::fresh(scores.intelligence),
            wisdom: AbilityScoreStateView::fresh(scores.wisdom),
            charisma: AbilityScoreStateView::fresh(scores.charisma),
        }
    }

    /// The scores in play with effects worked out anew: what effects did
    /// before is forgotten, then every effect is taken in, in order.
    pub open spec fn with_effects(self, effects: Seq<EffectView>) -> AbilityScoresStateView {
        AbilityScoresStateView {
            ability_scores: self.ability_scores,
            strength: score_with_effects(
                AbilityScoreStateView::fresh(self.strength.ability_score),
                Ability::Strength,
                effects,
                effects.len(),
            ),
            dexterity: score_with_effects(
                AbilityScoreStateView::fresh(self.dexterity.ability_score),
                Ability::Dexterity,
                effects,
                effects.len(),
            ),
            constitution: score_with_effects(
                AbilityScoreStateView::fresh(self.constitution.ability_score),
                Ability::Constitution,
                effects,
                effects.len(),
            ),
            intelligence: score_with_effects(
                AbilityScoreStateView::fresh(self.intelligence.ability_score),
                Ability::Intelligence,
                effects,
                effects.len(),
            ),
            wisdom: score_with_effects(
                AbilityScoreStateView::fresh(self.wisdom.ability_score),
                Ability::Wisdom,
                effects,
                effects.len(),
            ),
            charisma: score_with_effects(
                AbilityScoreStateView::fresh(self.charisma.ability_score),
                Ability::Charisma,
                effects,
                effects.len(),
            ),
        }
    }
}

impl View for AbilityScoresState {
    type V = AbilityScoresStateView;

    open spec fn view(&self) -> AbilityScoresStateView {
        AbilityScoresStateView {
            ability_scores: self.ability_scores,
            strength: self.strength@,
            dexterity: self.dexterity@,
            constitution: self.constitution@,
            intelligence: self.intelligence@,
            wisdom: self.wisdom@,
            charisma: self.charisma@,
        }
    }
}

/// The scores of one character as modified.
#[derive(Debug)]
pub struct ModifiedAbilityScores {
    pub strength: ModifiedAbilityScore,
    pub dexterity: ModifiedAbilityScore,
    pub constitution: ModifiedAbilityScore,
    pub intelligence: ModifiedAbilityScore,
    pub wisdom: ModifiedAbilityScore,
    pub charisma: ModifiedAbilityScore,
}

impl ModifiedAbilityScores {
    /// What is held for `ability`.
    pub open spec fn of(self, ability: Ability) -> ModifiedAbilityScore {
        match ability {
            Ability::Strength => self.strength,
            Ability::Dexterity => self.dexterity,
            Ability::Constitution => self.constitution,
            Ability::Intelligence => self.intelligence,
            Ability::Wisdom => self.wisdom,
            Ability::Charisma => self.charisma,
        }
    }

    pub fn get(&self, ability: Ability) -> (r: ModifiedAbilityScore)
        ensures
            r.score == self.of(ability).score,
            r.modifier@ == self.of(ability).modifier@,
    {
        match ability {
            Ability::Strength => self.strength.clone(),
            Ability::Dexterity => self.dexterity.clone(),
            Ability::Constitution => self.constitution.clone(),
            Ability::Intelligence => self.intelligence.clone(),
            Ability::Wisdom => self.wisdom.clone(),
            Ability::Charisma => self.charisma.clone(),
        }
    }

    /// The modified scores as plain scores, for resolving rolls.
    pub fn ability_scores(&self) -> (r: AbilityScores)
        ensures
            forall|a: Ability| #[trigger] r.score(a) == self.of(a).score,
    {
        AbilityScores {
            strength: self.strength.score,
            dexterity: self.dexterity.score,
            constitution: self.constitution.score,
            intelligence: self.intelligence.score,
            wisdom: self.wisdom.score,
            charisma: self.charisma.score,
        }
    }
}

impl AbilityScores {
    pub fn to_state(self) -> (r: AbilityScoresState)
        ensures
            r@ == AbilityScoresStateView::fresh(self),
    {
        AbilityScoresState {
            ability_scores: self,
            strength: self.strength.to_state(),
            dexterity: self.dexterity.to_state(),
            constitution: self.constitution.to_state(),
            intelligence: self.intelligence.to_state(),
            wisdom: self.wisdom.to_state(),
            charisma: self.charisma.to_state(),
        }
    }
}

/// One ability's state after an effect. An effect on that ability's
/// score is put at the end of what is done to the score. An effect on
/// rolls whose scope is meant for that ability's checks gives its bonus
/// to those checks. Every other effect passes by.
pub open spec fn score_with_effect(
    state: AbilityScoreStateView,
    ability: Ability,
    effect: EffectView,
) -> AbilityScoreStateView {
    match effect {
        EffectView::Ability { bonus, ability: target } => if target == ability {
            AbilityScoreStateView { value_modifiers: state.value_modifiers.push(bonus), ..state }
        } else {
            state
        },
        EffectView::Roll { bonus, scope } => if ability_target(scope) == Some(ability) {
            AbilityScoreStateView {
                bonus_modifiers: state.bonus_modifiers + check_bonuses_of(bonus),
                ..state
            }
        } else {
            state
        },
    }
}

/// One ability's state after the first `k` of `effects`, in order.
pub open spec fn score_with_effects(
    state: AbilityScoreStateView,
    ability: Ability,
    effects: Seq<EffectView>,
    k: nat,
) -> AbilityScoreStateView
    decreases k,
{
    if k == 0 || k > effects.len() {
        state
    } else {
        score_with_effect(
            score_with_effects(state, ability, effects, (k - 1) as nat),
            ability,
            effects[k - 1],
        )
    }
}

impl Default for AbilityScoresState {
    fn default() -> (r: AbilityScoresState)
        ensures
            r@ == AbilityScoresStateView::fresh(all_ten()),
    {
        let scores = AbilityScores::default();
        assert(scores.score(Ability::Strength) == (AbilityScore { value: 10 }));
        assert(scores.score(Ability::Dexterity) == (AbilityScore { value: 10 }));
        assert(scores.score(Ability::Constitution) == (AbilityScore { value: 10 }));
        assert(scores.score(Ability::Intelligence) == (AbilityScore { value: 10 }));
        assert(scores.score(Ability::Wisdom) == (AbilityScore { value: 10 }));
        assert(scores.score(Ability::Charisma) == (AbilityScore { value: 10 }));
        scores.to_state()
    }
}

/// The scores of a character of whom nothing is known yet.
pub open spec fn all_ten() -> AbilityScores {
    AbilityScores {
        strength: AbilityScore { value: 10 },
        dexterity: AbilityScore { value: 10 },
        constitution: AbilityScore { value: 10 },
        intelligence: AbilityScore { value: 10 },
        wisdom: AbilityScore { value: 10 },
        charisma: AbilityScore { value: 10 },
    }
}

impl AbilityScoresState {
    /// The state held for `ability`.
    pub open spec fn of(&self, ability: Ability) -> AbilityScoreStateView {
        self@.of(ability)
    }

    /// Whether every modified score can be worked out in machine
    /// integers.
    pub open spec fn computable(&self) -> bool {
        forall|a: Ability| (#[trigger] self.of(a)).computable()
    }

    /// The scores as modified.
    pub fn modified(&self) -> (r: ModifiedAbilityScores)
        requires
            self.computable(),
        ensures
            forall|a: Ability|
                (#[trigger] r.of(a)).score.value == self.of(a).score() && r.of(a).modifier@
                    == CheckTotals::of(self.of(a).bonus_modifiers),
    {
        assert(self.of(Ability::Strength).computable());
        assert(self.of(Ability::Dexterity).computable());
        assert(self.of(Ability::Constitution).computable());
        assert(self.of(Ability::Intelligence).computable());
        assert(self.of(Ability::Wisdom).computable());
        assert(self.of(Ability::Charisma).computable());
        ModifiedAbilityScores {
            strength: self.strength.modified(),
            dexterity: self.dexterity.modified(),
            constitution: self.constitution.modified(),
            intelligence: self.intelligence.modified(),
            wisdom: self.wisdom.modified(),
            charisma: self.charisma.modified(),
        }
    }

    /// Forgets what effects did to any score.
    pub fn reset_modifiers(&mut self)
        ensures
            final(self).ability_scores == old(self).ability_scores,
            forall|a: Ability|
                #[trigger] final(self).of(a) == AbilityScoreStateView::fresh(
                    old(self).of(a).ability_score,
                ),
    {
        self.strength.reset();
        self.dexterity.reset();
        self.constitution.reset();
        self.intelligence.reset();
        self.wisdom.reset();
        self.charisma.reset();
    }

    /// Works the effects out anew: forgets what effects did before, then
    /// takes every effect in, in order.
    pub fn apply_all(&mut self, modifiers: &Vec<Effect>)
        ensures
            final(self)@ == old(self)@.with_effects(effects_view(modifiers@)),
    {
        self.reset_modifiers();
        assert(self.of(Ability::Strength).ability_score == old(self).strength.ability_score);
        assert(self.of(Ability::Dexterity).ability_score == old(self).dexterity.ability_score);
        assert(self.of(Ability::Constitution).ability_score == old(
            self,
        ).constitution.ability_score);
        assert(self.of(Ability::Intelligence).ability_score == old(
            self,
        ).intelligence.ability_score);
        assert(self.of(Ability::Wisdom).ability_score == old(self).wisdom.ability_score);
        assert(self.of(Ability::Charisma).ability_score == old(self).charisma.ability_score);
        let ghost start = *self;
        let mut i: usize = 0;
        while i < modifiers.len()
            invariant
                i <= modifiers.len(),
                self.ability_scores == start.ability_scores,
                forall|a: Ability|
                    #[trigger] self.of(a) == score_with_effects(
                        start.of(a),
                        a,
                        effects_view(modifiers@),
                        i as nat,
                    ),
            decreases modifiers.len() - i,
        {
            self.apply(&modifiers[i]);
            i += 1;
        }
        assert(self.of(Ability::Strength) == old(self)@.with_effects(effects_view(modifiers@)).strength);
        assert(self.of(Ability::Dexterity) == old(self)@.with_effects(effects_view(modifiers@)).dexterity);
        assert(self.of(Ability::Constitution) == old(self)@.with_effects(effects_view(modifiers@)).constitution);
        assert(self.of(Ability::Intelligence) == old(self)@.with_effects(effects_view(modifiers@)).intelligence);
        assert(self.of(Ability::Wisdom) == old(self)@.with_effects(effects_view(modifiers@)).wisdom);
        assert(self.of(Ability::Charisma) == old(self)@.with_effects(effects_view(modifiers@)).charisma);
    }

    /// The state held for `ability`, to be changed in place.
    pub fn get_mut(&mut self, ability: Ability) -> (r: &mut AbilityScoreState)
        ensures
            (*r)@ == old(self)@.of(ability),
            final(self).ability_scores == old(self).ability_scores,
            final(self)@.of(ability) == (*final(r))@,
            forall|other: Ability|
                other != ability ==> #[trigger] final(self)@.of(other) == old(self)@.of(other),
    {
        match ability {
            Ability::Strength => &mut self.strength,
            Ability::Dexterity => &mut self.dexterity,
            Ability::Constitution => &mut self.constitution,
            Ability::Intelligence => &mut self.intelligence,
            Ability::Wisdom => &mut self.wisdom,
            Ability::Charisma => &mut self.charisma,
        }
    }

    /// Takes one effect in.
    pub fn apply(&mut self, modifier: &Effect)
        ensures
            final(self).ability_scores == old(self).ability_scores,
            forall|a: Ability|
                #[trigger] final(self).of(a) == score_with_effect(old(self).of(a), a, modifier@),
    {
        match modifier {
            Effect::Ability { ability, bonus } => {
                let score = self.get_mut(*ability);
                score.value_modifiers.push(*bonus);
            },
            Effect::Roll { bonus, scope } => {
                if scope.name.is_none() && scope.path.is_none() && scope.tags.is_none()
                    && scope.range.is_none() {
                    match scope.ability {
                        Some(ability) => {
                            let more = check_bonuses(bonus);
                            let score = self.get_mut(ability);
                            extend_check_bonuses(&mut score.bonus_modifiers, &more);
                        },
                        None => {},
                    }
                }
            },
        }
    }

    /// The raw scores, as they are written down.
    pub fn persistable(&self) -> (r: AbilityScores)
        ensures
            r == self.ability_scores,
    {
        self.ability_scores
    }
}

} // verus!
