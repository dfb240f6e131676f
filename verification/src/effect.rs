//! Effects: what a feature does to ability scores and to rolls.

use vstd::prelude::*;
use vstd::string::StringExecFns;
use crate::ability_score::{ability_name, Ability, AbilityScoreBonus};
use crate::feature_path::path_text;
use crate::roll::{
    advantage_text, range_text, RollBonus, RollBonusView, RollScope, RollScopeView,
};
use crate::tags::{Tags, TagView, TagsView};
use crate::text::{
    decimal_string, format_modifier, join, joined, modifier_text, signed_decimal, strings_view,
};

verus! {

/// A change that a feature declares: to a raw ability score, or to every
/// roll that a scope admits.
#[derive(Debug, PartialEq, Eq)]
#[allow(inconsistent_fields)]
pub enum Effect {
    Ability { bonus: AbilityScoreBonus, ability: Ability },
    Roll { bonus: RollBonus, scope: RollScope },
}

/// What an `Effect` stands for in contracts.
#[allow(inconsistent_fields)]
pub enum EffectView {
    Ability { bonus: AbilityScoreBonus, ability: Ability },
    Roll { bonus: RollBonusView, scope: RollScopeView },
}

impl View for Effect {
    type V = EffectView;

    open spec fn view(&self) -> EffectView {
        match self {
            Effect::Ability { bonus, ability } => EffectView::Ability {
                bonus: *bonus,
                ability: *ability,
            },
            Effect::Roll { bonus, scope } => EffectView::Roll { bonus: bonus@, scope: scope@ },
        }
    }
}

impl Clone for Effect {
    fn clone(&self) -> (r: Effect)
        ensures
            r@ == self@,
    {
        match self {
            Effect::Ability { bonus, ability } => Effect::Ability {
                bonus: *bonus,
                ability: *ability,
            },
            Effect::Roll { bonus, scope } => Effect::Roll {
                bonus: bonus.clone(),
                scope: scope.clone(),
            },
        }
    }
}

/// What a list of effects stands for in contracts.
pub open spec fn effects_view(effects: Seq<Effect>) -> Seq<EffectView> {
    effects.map_values(|e: Effect| e@)
}

/// A copy of a list of effects.
pub fn clone_effects(effects: &Vec<Effect>) -> (r: Vec<Effect>)
    ensures
        effects_view(r@) == effects_view(effects@),
{
    let mut r: Vec<Effect> = Vec::new();
    let mut i: usize = 0;
    while i < effects.len()
        invariant
            i <= effects.len(),
            r@.len() == i,
            forall|j: int| 0 <= j < i ==> r@[j]@ == effects@[j]@,
        decreases effects.len() - i,
    {
        r.push(effects[i].clone());
        i += 1;
    }
    assert(effects_view(r@) =~= effects_view(effects@));
    r
}

/// How an effect on an ability score is written: `+2 Strength`, or
/// `Constitution becomes 19`.
pub open spec fn ability_effect_text(bonus: AbilityScoreBonus, ability: Ability) -> Seq<char> {
    match bonus {
        AbilityScoreBonus::Modifier { modifier } => modifier_text(modifier as int) + " "@
            + ability_name(ability),
        AbilityScoreBonus::Become { value } => ability_name(ability) + " becomes "@ + signed_decimal(
            value as int,
        ),
    }
}

/// How a bonus to rolls is written: an advantage by its name, a
/// modifier with its sign, a roll that is folded in by its name, and the
/// others by what they are.
pub open spec fn bonus_text(bonus: RollBonusView) -> Seq<char> {
    match bonus {
        RollBonusView::Reroll(_) => "Reroll"@,
        RollBonusView::Advantage(advantage) => advantage_text(advantage),
        RollBonusView::Modifier(modifier) => modifier_text(modifier as int),
        RollBonusView::Roll(roll) => "Roll "@ + roll.name,
        RollBonusView::Proficiency => "Proficiency"@,
    }
}

/// How one tag is written: its name, a colon, and its values with commas
/// between them.
pub open spec fn tag_text(tag: TagView) -> Seq<char> {
    tag.0 + ": "@ + joined(tag.1, ", "@)
}

/// How tags are written: tag by tag, with semicolons between them.
pub open spec fn tags_text(tags: TagsView) -> Seq<char> {
    joined(tags.map_values(|t: TagView| tag_text(t)), "; "@)
}

/// A text as a list of one, or the empty list where there is no text.
pub open spec fn part(text: Option<Seq<char>>) -> Seq<Seq<char>> {
    match text {
        Some(t) => seq![t],
        None => Seq::empty(),
    }
}

/// What a scope asks for, request by request: the name, the path, the
/// tags, the ability and the range, each where the scope names it.
pub open spec fn scope_parts(scope: RollScopeView) -> Seq<Seq<char>> {
    part(
        match scope.name {
            Some(name) => Some("name "@ + name),
            None => None,
        },
    ) + part(
        match scope.path {
            Some(path) => Some("path "@ + path_text(path)),
            None => None,
        },
    ) + part(
        match scope.tags {
            Some(tags) => Some("tags "@ + tags_text(tags)),
            None => None,
        },
    ) + part(
        match scope.ability {
            Some(ability) => Some(ability_name(ability)),
            None => None,
        },
    ) + part(
        match scope.range {
            Some(range) => Some("range "@ + range_text(range)),
            None => None,
        },
    )
}

/// How a scope is written: what it asks for with commas between, or
/// `every roll` where it asks for nothing.
pub open spec fn scope_text(scope: RollScopeView) -> Seq<char> {
    if scope_parts(scope).len() == 0 {
        "every roll"@
    } else {
        joined(scope_parts(scope), ", "@)
    }
}

/// How an effect on rolls is written: the bonus, ` to `, the scope.
pub open spec fn roll_effect_text(bonus: RollBonusView, scope: RollScopeView) -> Seq<char> {
    bonus_text(bonus) + " to "@ + scope_text(scope)
}

impl RollBonus {
    /// The bonus in words.
    pub fn to_string(&self) -> (r: String)
        ensures
            r@ == bonus_text(self@),
    {
        match self {
            RollBonus::Reroll(_) => String::from_str("Reroll"),
            RollBonus::Advantage(advantage) => advantage.to_string(),
            RollBonus::Modifier(modifier) => format_modifier(*modifier),
            RollBonus::Roll(roll) => {
                let mut out = String::from_str("Roll ");
                out.append(roll.name.as_str());
                out
            },
            RollBonus::Proficiency => String::from_str("Proficiency"),
        }
    }
}

impl Tags {
    /// The tags in words.
    pub fn to_string(&self) -> (r: String)
        ensures
            r@ == tags_text(self@),
    {
        let mut texts: Vec<String> = Vec::new();
        let mut i: usize = 0;
        while i < self.entries.len()
            invariant
                i <= self.entries.len(),
                texts@.len() == i,
                forall|k: int| 0 <= k < i ==> (#[trigger] texts@[k])@ == tag_text(self@[k]),
            decreases self.entries.len() - i,
        {
            let mut text = self.entries[i].0.clone();
            text.append(": ");
            text.append(join(&self.entries[i].1, ", ").as_str());
            texts.push(text);
            i += 1;
        }
        assert(strings_view(texts@) =~= self@.map_values(|t: TagView| tag_text(t)));
        join(&texts, "; ")
    }
}

impl RollScope {
    /// The scope in words.
    pub fn to_string(&self) -> (r: String)
        ensures
            r@ == scope_text(self@),
    {
        let mut parts: Vec<String> = Vec::new();
        assert(strings_view(parts@) =~= Seq::empty());
        match &self.name {
            Some(name) => {
                let mut text = String::from_str("name ");
                text.append(name.as_str());
                let ghost before = strings_view(parts@);
                parts.push(text);
                assert(strings_view(parts@) =~= before + seq!["name "@ + name@]);
            },
            None => {},
        }
        let ghost named = part(
            match self@.name {
                Some(name) => Some("name "@ + name),
                None => None,
            },
        );
        assert(strings_view(parts@) =~= named);
        match &self.path {
            Some(path) => {
                let mut text = String::from_str("path ");
                text.append(path.to_string().as_str());
                let ghost before = strings_view(parts@);
                parts.push(text);
                assert(strings_view(parts@) =~= before + seq!["path "@ + path_text(path@)]);
            },
            None => {},
        }
        let ghost pathed = named + part(
            match self@.path {
                Some(path) => Some("path "@ + path_text(path)),
                None => None,
            },
        );
        assert(strings_view(parts@) =~= pathed);
        match &self.tags {
            Some(tags) => {
                let mut text = String::from_str("tags ");
                text.append(tags.to_string().as_str());
                let ghost before = strings_view(parts@);
                parts.push(text);
                assert(strings_view(parts@) =~= before + seq!["tags "@ + tags_text(tags@)]);
            },
            None => {},
        }
        let ghost tagged = pathed + part(
            match self@.tags {
                Some(tags) => Some("tags "@ + tags_text(tags)),
                None => None,
            },
        );
        assert(strings_view(parts@) =~= tagged);
        match self.ability {
            Some(ability) => {
                let ghost before = strings_view(parts@);
                parts.push(ability.to_string());
                assert(strings_view(parts@) =~= before + seq![ability_name(ability)]);
            },
            None => {},
        }
        let ghost abled = tagged + part(
            match self@.ability {
                Some(ability) => Some(ability_name(ability)),
                None => None,
            },
        );
        assert(strings_view(parts@) =~= abled);
        match self.range {
            Some(range) => {
                let mut text = String::from_str("range ");
                text.append(range.to_string().as_str());
                let ghost before = strings_view(parts@);
                parts.push(text);
                assert(strings_view(parts@) =~= before + seq!["range "@ + range_text(range)]);
            },
            None => {},
        }
        assert(strings_view(parts@) =~= scope_parts(self@));
        if parts.len() == 0 {
            String::from_str("every roll")
        } else {
            join(&parts, ", ")
        }
    }
}

/// How an effect is written.
pub open spec fn effect_text(effect: EffectView) -> Seq<char> {
    match effect {
        EffectView::Ability { bonus, ability } => ability_effect_text(bonus, ability),
        EffectView::Roll { bonus, scope } => roll_effect_text(bonus, scope),
    }
}

impl Effect {
    pub fn to_state(self) -> (r: EffectState)
        ensures
            r.effect == self,
    {
        EffectState { effect: self }
    }

    /// The effect in words.
    pub fn to_string(&self) -> (r: String)
        ensures
            r@ == effect_text(self@),
    {
        match self {
            Effect::Ability { bonus, ability } => match bonus {
                AbilityScoreBonus::Modifier { modifier } => {
                    let mut out = format_modifier(*modifier);
                    out.append(" ");
                    out.append(ability.to_string().as_str());
                    out
                },
                AbilityScoreBonus::Become { value } => {
                    let mut out = ability.to_string();
                    out.append(" becomes ");
                    out.append(decimal_string(*value).as_str());
                    out
                },
            },
            Effect::Roll { bonus, scope } => {
                let mut out = bonus.to_string();
                out.append(" to ");
                out.append(scope.to_string().as_str());
                out
            },
        }
    }
}

/// An effect as a feature in play holds it.
#[derive(Debug)]
pub struct EffectState {
    pub effect: Effect,
}

impl EffectState {
    pub fn effect(&self) -> (r: Effect)
        ensures
            r@ == self.effect@,
    {
        self.effect.clone()
    }

    pub fn persistable(&self) -> (r: Effect)
        ensures
            r@ == self.effect@,
    {
        self.effect.clone()
    }
}

/// The effects of one feature in play.
#[derive(Debug)]
pub struct EffectsState {
    pub effects: Vec<EffectState>,
}

impl View for EffectsState {
    type V = Seq<EffectView>;

    open spec fn view(&self) -> Seq<EffectView> {
        self.effects@.map_values(|s: EffectState| s.effect@)
    }
}

impl Default for EffectsState {
    fn default() -> (r: EffectsState)
        ensures
            r@ == Seq::<EffectView>::empty(),
    {
        let r = EffectsState { effects: Vec::new() };
        assert(r@ =~= Seq::<EffectView>::empty());
        r
    }
}

impl Clone for EffectsState {
    fn clone(&self) -> (r: EffectsState)
        ensures
            r@ == self@,
    {
        EffectsState::from(self.effect())
    }
}

impl EffectsState {
    /// The effects, in order.
    pub fn effect(&self) -> (r: Vec<Effect>)
        ensures
            effects_view(r@) == self@,
    {
        let mut result: Vec<Effect> = Vec::new();
        let mut i: usize = 0;
        while i < self.effects.len()
            invariant
                i <= self.effects.len(),
                result@.len() == i,
                forall|j: int| 0 <= j < i ==> result@[j]@ == self.effects@[j].effect@,
            decreases self.effects.len() - i,
        {
            result.push(self.effects[i].effect());
            i += 1;
        }
        assert(effects_view(result@) =~= self@);
        result
    }

    pub fn from(effects: Vec<Effect>) -> (r: EffectsState)
        ensures
            r@ == effects_view(effects@),
    {
        let mut states: Vec<EffectState> = Vec::new();
        let mut i: usize = 0;
        while i < effects.len()
            invariant
                i <= effects.len(),
                states@.len() == i,
                forall|j: int| 0 <= j < i ==> states@[j].effect@ == effects@[j]@,
            decreases effects.len() - i,
        {
            states.push(effects[i].clone().to_state());
            i += 1;
        }
        let r = EffectsState { effects: states };
        assert(r@ =~= effects_view(effects@));
        r
    }

    pub fn persistable(&self) -> (r: Vec<Effect>)
        ensures
            effects_view(r@) == self@,
    {
        self.effect()
    }

    pub fn is_empty(&self) -> (r: bool)
        ensures
            r == (self@.len() == 0),
    {
        self.effects.len() == 0
    }
}

} // verus!
