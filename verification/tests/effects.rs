use character_sheet::ability_score::{Ability, AbilityScore, AbilityScoreBonus, AbilityScores};
use character_sheet::ability_score_state::check_bonuses;
use character_sheet::check::{CheckBonus, CheckRoll};
use character_sheet::effect::{Effect, EffectsState};
use character_sheet::roll::{Advantage, Dice, Roll, RollBonus, RollScope};
use std::collections::HashSet;

pub fn ability_becomes(value: isize, ability: Ability) -> Effect {
    let bonus = AbilityScoreBonus::Become { value };
    Effect::Ability { bonus, ability }
}

fn ability_plus(modifier: isize, ability: Ability) -> Effect {
    Effect::Ability {
        bonus: AbilityScoreBonus::Modifier { modifier },
        ability,
    }
}

#[test]
pub fn wand_of_the_war_mage() {
    let effect = ability_becomes(19, Ability::Constitution);
    assert_eq!(effect.to_string(), "Constitution becomes 19".to_string());
}

#[test]
fn modifier_effects_are_written_with_their_sign() {
    assert_eq!(ability_plus(2, Ability::Strength).to_string(), "+2 Strength");
    assert_eq!(ability_plus(-1, Ability::Wisdom).to_string(), "-1 Wisdom");
    assert_eq!(ability_plus(0, Ability::Charisma).to_string(), "+0 Charisma");
    assert_eq!(
        ability_becomes(-3, Ability::Dexterity).to_string(),
        "Dexterity becomes -3"
    );
}

#[test]
fn roll_effects_are_written_with_bonus_and_scope() {
    let effect = Effect::Roll {
        bonus: RollBonus::Proficiency,
        scope: RollScope::default(),
    };
    assert_eq!(effect.to_string(), "Proficiency to every roll");

    let mut scope = RollScope::default();
    scope.name("Stealth".to_string());
    scope.path(
        character_sheet::feature_path::FeaturePath::of(vec![
            "Skills".to_string(),
            "Stealth".to_string(),
        ])
        .with_include_children(true),
    );
    scope.tag("weapon".to_string(), vec!["Dagger".to_string(), "Dart".to_string()]);
    scope.tag("type".to_string(), vec![]);
    scope.ability(Ability::Dexterity);
    scope.range = Some(character_sheet::roll::Range::Ranged { normal: 20, long: 60 });
    assert_eq!(
        scope.to_string(),
        "name Stealth, path Skills Stealth..., tags weapon: Dagger, Dart; type: , Dexterity, range 20 / 60"
    );
    let effect = Effect::Roll { bonus: RollBonus::Modifier(-2), scope };
    assert!(effect.to_string().starts_with("-2 to name Stealth, path "));

    let mut only_ability = RollScope::default();
    only_ability.ability(Ability::Wisdom);
    let mut inner = Roll::default();
    inner.name("Bless".to_string());
    for (bonus, words) in [
        (RollBonus::Reroll(HashSet::from([1, 2])), "Reroll to Wisdom"),
        (RollBonus::Advantage(Advantage::Disadvantage), "Disadvantage to Wisdom"),
        (RollBonus::Modifier(3), "+3 to Wisdom"),
        (RollBonus::Roll(inner), "Roll Bless to Wisdom"),
    ] {
        let effect = Effect::Roll { bonus, scope: only_ability.clone() };
        assert_eq!(effect.to_string(), words);
    }
}

#[test]
fn become_overrides_modifier_in_either_order() {
    let base = AbilityScores::default().with(Ability::Constitution, AbilityScore::of(12));
    for effects in [
        vec![
            ability_plus(2, Ability::Constitution),
            ability_becomes(19, Ability::Constitution),
        ],
        vec![
            ability_becomes(19, Ability::Constitution),
            ability_plus(2, Ability::Constitution),
        ],
    ] {
        let mut state = base.to_state();
        state.apply_all(&effects);
        let modified = state.modified();
        assert_eq!(modified.get(Ability::Constitution).score().value, 19);
        assert_eq!(modified.get(Ability::Strength).score().value, 10);
        assert_eq!(state.persistable(), base);
    }
}

#[test]
fn the_last_become_wins() {
    let mut state = AbilityScores::default().to_state();
    state.apply_all(&vec![
        ability_becomes(19, Ability::Strength),
        ability_plus(5, Ability::Strength),
        ability_becomes(21, Ability::Strength),
    ]);
    assert_eq!(state.modified().get(Ability::Strength).score().value, 21);
}

#[test]
fn modifiers_add_up_without_become() {
    let mut state = AbilityScores::default()
        .with(Ability::Dexterity, AbilityScore::of(14))
        .to_state();
    state.apply_all(&vec![
        ability_plus(2, Ability::Dexterity),
        ability_plus(-1, Ability::Dexterity),
        ability_plus(4, Ability::Wisdom),
    ]);
    let modified = state.modified();
    assert_eq!(modified.get(Ability::Dexterity).score().value, 15);
    assert_eq!(modified.get(Ability::Wisdom).score().value, 14);
    assert_eq!(modified.get(Ability::Dexterity).roll().bonus(), 2);
    assert_eq!(modified.ability_scores().get(Ability::Dexterity).value, 15);
}

#[test]
fn apply_all_starts_afresh() {
    let mut state = AbilityScores::default().to_state();
    state.apply_all(&vec![ability_plus(2, Ability::Strength)]);
    state.apply_all(&vec![ability_plus(2, Ability::Strength)]);
    assert_eq!(state.modified().get(Ability::Strength).score().value, 12);
    state.apply_all(&vec![]);
    assert_eq!(state.modified().get(Ability::Strength).score().value, 10);
}

fn ability_scope(ability: Ability) -> RollScope {
    let mut scope = RollScope::default();
    scope.ability(ability);
    scope
}

#[test]
fn roll_effects_meant_for_an_ability_reach_its_check() {
    let mut state = AbilityScores::default()
        .with(Ability::Strength, AbilityScore::of(16))
        .to_state();
    let mut named = ability_scope(Ability::Strength);
    named.name("Athletics".to_string());
    state.apply_all(&vec![
        Effect::Roll {
            bonus: RollBonus::Modifier(2),
            scope: ability_scope(Ability::Strength),
        },
        Effect::Roll {
            bonus: RollBonus::Advantage(Advantage::Advantage),
            scope: ability_scope(Ability::Strength),
        },
        Effect::Roll {
            bonus: RollBonus::Modifier(7),
            scope: ability_scope(Ability::Wisdom),
        },
        Effect::Roll {
            bonus: RollBonus::Modifier(100),
            scope: named,
        },
        Effect::Roll {
            bonus: RollBonus::Modifier(100),
            scope: RollScope::default(),
        },
    ]);
    let modified = state.modified();
    let strength = modified.get(Ability::Strength).roll();
    assert_eq!(strength.bonus(), 5);
    assert_eq!(strength.advantage(), Some(Advantage::Advantage));
    assert_eq!(modified.get(Ability::Wisdom).roll().bonus(), 7);
    assert_eq!(modified.get(Ability::Charisma).roll().bonus(), 0);
}

#[test]
fn nested_rolls_give_their_dice_and_bonuses_to_checks() {
    let mut inner = Roll::default();
    inner.dice(vec![Dice::new(1, 4)]);
    inner.bonuses = vec![
        RollBonus::Modifier(1),
        RollBonus::Proficiency,
        RollBonus::Reroll(HashSet::from([1])),
        RollBonus::Advantage(Advantage::Disadvantage),
    ];
    assert_eq!(
        check_bonuses(&RollBonus::Roll(inner)),
        vec![
            CheckBonus::Dice(Dice::new(1, 4)),
            CheckBonus::Modifier(1),
            CheckBonus::Advantage(Advantage::Disadvantage),
        ]
    );
    assert_eq!(check_bonuses(&RollBonus::Proficiency), vec![]);
}

#[test]
fn check_roll_counts_and_sums() {
    let roll = CheckRoll::from(vec![
        CheckBonus::Modifier(2),
        CheckBonus::Advantage(Advantage::Advantage),
        CheckBonus::Dice(Dice::new(1, 4)),
        CheckBonus::Modifier(-5),
        CheckBonus::Advantage(Advantage::Disadvantage),
        CheckBonus::Advantage(Advantage::Disadvantage),
        CheckBonus::Dice(Dice::new(2, 6)),
    ]);
    assert_eq!(roll.bonus(), -3);
    assert_eq!(roll.dice(), vec![Dice::new(1, 4), Dice::new(2, 6)]);
    assert_eq!(roll.advantage(), Some(Advantage::Disadvantage));
    assert_eq!(roll.advantage_count, 1);
    assert_eq!(roll.disadvantage_count, 2);
    let merged = roll.merge(CheckRoll::from(vec![
        CheckBonus::Advantage(Advantage::Advantage),
        CheckBonus::Dice(Dice::new(1, 8)),
        CheckBonus::Modifier(4),
    ]));
    assert_eq!(merged.bonus(), 1);
    assert_eq!(merged.advantage(), None);
    assert_eq!(
        merged.dice(),
        vec![Dice::new(1, 4), Dice::new(2, 6), Dice::new(1, 8)]
    );
    assert_eq!(merged.with_extra_bonus(-1).bonus(), 0);
    assert_eq!(CheckRoll::from(vec![]).advantage(), None);
}

#[test]
fn check_bonus_texts() {
    assert_eq!(CheckBonus::Modifier(3).to_string(), "+3");
    assert_eq!(CheckBonus::Modifier(-3).to_string(), "-3");
    assert_eq!(CheckBonus::Dice(Dice::new(2, 6)).to_string(), "2d6");
    assert_eq!(
        CheckBonus::Advantage(Advantage::Disadvantage).to_string(),
        "Disadvantage"
    );
}

#[test]
fn effects_state_keeps_the_effects_in_order() {
    let effects = vec![
        ability_plus(1, Ability::Strength),
        ability_becomes(18, Ability::Wisdom),
    ];
    let state = EffectsState::from(effects.clone());
    assert!(!state.is_empty());
    assert_eq!(state.effect(), effects);
    assert_eq!(state.persistable(), effects);
    assert!(EffectsState::from(vec![]).is_empty());
    assert_eq!(effects[0].clone().to_state().effect(), effects[0]);
}

#[test]
fn checks_in_words() {
    assert_eq!(CheckRoll::from(vec![CheckBonus::Modifier(3)]).to_string(), "+3");
    assert_eq!(
        CheckRoll::from(vec![
            CheckBonus::Dice(Dice::new(1, 4)),
            CheckBonus::Dice(Dice::new(1, 6)),
            CheckBonus::Modifier(-2),
            CheckBonus::Advantage(Advantage::Advantage),
        ])
        .to_string(),
        "1d4+1d6+-2 (Advantage)"
    );
    assert_eq!(CheckRoll::from(vec![]).to_string(), "+0");
}

#[test]
fn the_state_of_one_ability_can_be_changed_in_place() {
    let mut state = AbilityScores::default().to_state();
    state
        .get_mut(Ability::Wisdom)
        .value_modifiers
        .push(AbilityScoreBonus::Modifier { modifier: 3 });
    assert_eq!(state.modified().get(Ability::Wisdom).score().value, 13);
    assert_eq!(state.modified().get(Ability::Strength).score().value, 10);
    state.reset_modifiers();
    assert_eq!(state.modified().get(Ability::Wisdom).score().value, 10);
    state.apply(&ability_plus(1, Ability::Charisma));
    state.apply(&ability_plus(1, Ability::Charisma));
    assert_eq!(state.modified().get(Ability::Charisma).score().value, 12);
}
