use character_sheet::ability_score::{Ability, AbilityScore, AbilityScores};
use character_sheet::effect::Effect;
use character_sheet::feature_path::FeaturePath;
use character_sheet::overlay::{overlay_all, Overlay};
use character_sheet::roll::{
    rollable, Advantage, Dice, Range, Roll, RollBonus, RollScope, RollState,
};
use character_sheet::rollable::Rollable;
use character_sheet::tags::Tags;
use std::collections::HashSet;

fn strings(values: &[&str]) -> Vec<String> {
    values.iter().map(|v| v.to_string()).collect()
}

fn tags(entries: &[(&str, &[&str])]) -> Tags {
    let mut tags = Tags::new();
    for (key, values) in entries {
        tags.insert(key.to_string(), strings(values));
    }
    tags
}

fn roll_named(name: &str) -> Roll {
    let mut roll = Roll::default();
    roll.name(name.to_string());
    roll
}

fn dagger_attack() -> Roll {
    let mut roll = roll_named("Dagger");
    roll.tags(tags(&[("weapon", &["Dagger"]), ("type", &["Attack"])]));
    roll.dice(vec![Dice::new(1, 20)]);
    roll
}

fn scope_with_tags(wanted: Tags) -> RollScope {
    let mut scope = RollScope::default();
    scope.tags(wanted);
    scope
}

fn offered(roll: &Roll, scope: RollScope) -> bool {
    let mut state = RollState::from(roll.clone());
    state.apply(&Effect::Roll {
        bonus: RollBonus::Modifier(1),
        scope,
    });
    state.external_bonuses == vec![RollBonus::Modifier(1)]
}

#[test]
fn dice_in_words() {
    assert_eq!(Dice::new(2, 6).to_string(), "2d6");
    assert_eq!(Dice::new(1, 20).to_string(), "1d20");
    assert_eq!(Dice::new(0, 6).to_string(), "");
    assert_eq!(Range::Melee.to_string(), "Melee");
    assert_eq!(Range::Ranged { normal: 80, long: 320 }.to_string(), "80 / 320");
    assert_eq!(Advantage::Advantage.to_string(), "Advantage");
}

#[test]
fn a_scope_with_some_of_the_tags_matches() {
    assert!(offered(&dagger_attack(), scope_with_tags(tags(&[("weapon", &["Dagger"])]))));
    assert!(offered(
        &dagger_attack(),
        scope_with_tags(tags(&[("weapon", &["Dagger"]), ("type", &["Attack"])]))
    ));
    assert!(offered(&dagger_attack(), scope_with_tags(Tags::new())));
    assert!(offered(&dagger_attack(), RollScope::default()));
}

#[test]
fn a_scope_that_asks_for_more_values_does_not_match() {
    assert!(!offered(
        &dagger_attack(),
        scope_with_tags(tags(&[("weapon", &["Dagger", "Sword"])]))
    ));
    assert!(!offered(&dagger_attack(), scope_with_tags(tags(&[("weapon", &["Sword"])]))));
    assert!(!offered(&dagger_attack(), scope_with_tags(tags(&[("armor", &["Light"])]))));
    assert!(!offered(
        &dagger_attack(),
        scope_with_tags(tags(&[("weapon", &["Dagger"]), ("armor", &["Light"])]))
    ));
}

#[test]
fn a_roll_with_more_values_still_matches() {
    let mut roll = roll_named("Blade");
    roll.tags(tags(&[("weapon", &["Dagger", "Sword"])]));
    assert!(offered(&roll, scope_with_tags(tags(&[("weapon", &["Sword"])]))));
    assert!(offered(&roll, scope_with_tags(tags(&[("weapon", &["Sword", "Dagger"])]))));
    assert!(offered(&roll, scope_with_tags(tags(&[("weapon", &[])]))));
}

#[test]
fn name_ability_and_range_must_be_the_rolls() {
    let mut roll = dagger_attack();
    roll.ability(Ability::Dexterity);
    roll.range = Some(Range::Melee);

    let mut by_name = RollScope::default();
    by_name.name("Dagger".to_string());
    assert!(offered(&roll, by_name));
    let mut other_name = RollScope::default();
    other_name.name("dagger".to_string());
    assert!(!offered(&roll, other_name));

    let mut by_ability = RollScope::default();
    by_ability.ability(Ability::Dexterity);
    assert!(offered(&roll, by_ability));
    let mut other_ability = RollScope::default();
    other_ability.ability(Ability::Strength);
    assert!(!offered(&roll, other_ability));
    let mut unset = RollScope::default();
    unset.ability(Ability::Strength);
    assert!(!offered(&roll_named("Plain"), unset));

    let mut by_range = RollScope::default();
    by_range.range = Some(Range::Melee);
    assert!(offered(&roll, by_range));
    let mut other_range = RollScope::default();
    other_range.range = Some(Range::Ranged { normal: 20, long: 60 });
    assert!(!offered(&roll, other_range));
}

#[test]
fn what_is_left_of_a_path_must_lead_to_the_roll() {
    let roll = roll_named("Strength");
    let mut direct = RollScope::default();
    direct.path(FeaturePath::of(strings(&["Strength"])));
    assert!(offered(&roll, direct));
    let mut other = RollScope::default();
    other.path(FeaturePath::of(strings(&["Dexterity"])));
    assert!(!offered(&roll, other));
    let mut ended = RollScope::default();
    ended.path(FeaturePath::empty());
    assert!(!offered(&roll, ended));
    let mut sweeping = RollScope::default();
    sweeping.path(FeaturePath::empty().with_include_children(true));
    assert!(offered(&roll, sweeping));
}

#[test]
fn effects_on_ability_scores_pass_rolls_by() {
    let mut state = RollState::from(dagger_attack());
    state.apply(&Effect::Ability {
        bonus: character_sheet::ability_score::AbilityScoreBonus::Modifier { modifier: 2 },
        ability: Ability::Strength,
    });
    assert!(state.external_bonuses.is_empty());
    assert_eq!(state.persistable(), dagger_attack());
}

#[test]
fn bonuses_are_taken_in_order_and_cleared() {
    let mut state = RollState::from(dagger_attack());
    for bonus in [RollBonus::Modifier(1), RollBonus::Proficiency, RollBonus::Modifier(1)] {
        state.apply(&Effect::Roll { bonus, scope: RollScope::default() });
    }
    assert_eq!(
        state.external_bonuses,
        vec![RollBonus::Modifier(1), RollBonus::Proficiency, RollBonus::Modifier(1)]
    );
    state.clear();
    assert!(state.external_bonuses.is_empty());
    assert_eq!(state.roll, dagger_attack());
}

#[test]
fn tags_are_looked_up_by_name() {
    let mut t = tags(&[("weapon", &["Dagger"]), ("type", &["Attack"])]);
    assert_eq!(t.get(&"type".to_string()), Some(strings(&["Attack"])));
    assert_eq!(t.get(&"Type".to_string()), None);
    assert_eq!(t.position(&"weapon".to_string()), 0);
    assert_eq!(t.position(&"none".to_string()), 2);
    t.insert("weapon".to_string(), strings(&["Sword"]));
    assert_eq!(t, tags(&[("weapon", &["Sword"]), ("type", &["Attack"])]));
    t.insert("class".to_string(), strings(&[]));
    assert_eq!(t.entries.len(), 3);
    assert!(!t.is_empty());
    assert!(Tags::new().is_empty());
}

#[test]
fn merged_tags_hold_the_values_of_both_once() {
    let base = tags(&[("weapon", &["Dagger", "Knife"]), ("type", &["Attack"])]);
    let over = tags(&[("class", &["Simple"]), ("weapon", &["Knife", "Dagger", "Dirk"])]);
    assert_eq!(
        Roll::merge_tags(&base, &over),
        tags(&[
            ("weapon", &["Dagger", "Knife", "Dirk"]),
            ("type", &["Attack"]),
            ("class", &["Simple"]),
        ])
    );
    assert_eq!(Roll::merge_tags(&base, &Tags::new()), base);
    assert_eq!(Roll::merge_tags(&Tags::new(), &over), over);
    let repeated = tags(&[("a", &["x", "x"])]);
    assert_eq!(Roll::merge_tags(&repeated, &Tags::new()), repeated);
    assert_eq!(Roll::merge_tags(&repeated, &tags(&[("a", &[])])), tags(&[("a", &["x"])]));
}

#[test]
fn scope_builders() {
    let mut scope = RollScope::default();
    scope.tag("weapon".to_string(), strings(&["Dagger"]));
    scope.tag("type".to_string(), strings(&["Attack"]));
    scope.tag("weapon".to_string(), strings(&["Sword"]));
    assert_eq!(scope.tags, Some(tags(&[("weapon", &["Sword"]), ("type", &["Attack"])])));
    scope.tags(tags(&[("weapon", &["Dagger"])]));
    assert_eq!(
        scope.tags,
        Some(tags(&[("weapon", &["Sword", "Dagger"]), ("type", &["Attack"])]))
    );
    let mut fresh = RollScope::default();
    fresh.tags(tags(&[("a", &["b"])]));
    assert_eq!(fresh.tags, Some(tags(&[("a", &["b"])])));
    assert_eq!(fresh.clone(), fresh);
}

#[test]
fn a_roll_laid_over_another() {
    let mut base = dagger_attack();
    base.ability(Ability::Strength);
    base.bonuses = vec![RollBonus::Modifier(1)];
    let mut over = roll_named("Dagger");
    over.tags(tags(&[("weapon", &["Knife"])]));
    over.range = Some(Range::Melee);
    over.dice(vec![Dice::new(1, 4)]);
    over.bonuses = vec![RollBonus::Proficiency];
    let merged = base.overlay(&over);
    assert_eq!(merged.name, "Dagger");
    assert_eq!(merged.ability, Some(Ability::Strength));
    assert_eq!(merged.range, Some(Range::Melee));
    assert_eq!(merged.dice, vec![Dice::new(1, 20), Dice::new(1, 4)]);
    assert_eq!(merged.bonuses, vec![RollBonus::Modifier(1), RollBonus::Proficiency]);
    assert_eq!(merged.tags, tags(&[("weapon", &["Dagger", "Knife"]), ("type", &["Attack"])]));
    assert_eq!(base.overlay_by(), "Dagger");

    let mut dexterous = roll_named("Other");
    dexterous.ability(Ability::Dexterity);
    let renamed = base.overlay(&dexterous);
    assert_eq!(renamed.name, "Other");
    assert_eq!(renamed.ability, Some(Ability::Dexterity));
    assert_eq!(renamed.range, None);
}

#[test]
fn lists_of_rolls_are_united_by_name() {
    let a = roll_named("a");
    let mut b = roll_named("b");
    b.dice(vec![Dice::new(1, 6)]);
    let mut b2 = roll_named("b");
    b2.dice(vec![Dice::new(1, 8)]);
    let c = roll_named("c");
    let d = roll_named("d");
    let united = overlay_all(&vec![a.clone(), b.clone(), c.clone()], &vec![d.clone(), b2.clone()]);
    assert_eq!(united, vec![a.clone(), b.overlay(&b2), c.clone(), d.clone()]);
    assert_eq!(united[1].dice, vec![Dice::new(1, 6), Dice::new(1, 8)]);
    assert_eq!(overlay_all(&Vec::<Roll>::new(), &vec![d.clone()]), vec![d.clone()]);
    assert_eq!(overlay_all(&vec![a.clone()], &Vec::<Roll>::new()), vec![a.clone()]);
    assert_eq!(overlay_all(&Vec::<Roll>::new(), &Vec::<Roll>::new()), Vec::<Roll>::new());
}

fn scores() -> AbilityScores {
    AbilityScores::default()
        .with(Ability::Strength, AbilityScore::of(16))
        .with(Ability::Dexterity, AbilityScore::of(7))
}

#[test]
fn a_roll_resolved() {
    let mut roll = dagger_attack();
    roll.ability(Ability::Strength);
    roll.bonuses = vec![
        RollBonus::Modifier(1),
        RollBonus::Proficiency,
        RollBonus::Advantage(Advantage::Advantage),
        RollBonus::Reroll(HashSet::from([1, 2])),
    ];
    let external = vec![
        RollBonus::Modifier(-2),
        RollBonus::Advantage(Advantage::Disadvantage),
        RollBonus::Advantage(Advantage::Disadvantage),
        RollBonus::Reroll(HashSet::from([2, 3])),
    ];
    let resolved = rollable(&roll, &external, &scores(), 3);
    assert_eq!(resolved.bonus(), 1 + 3 - 2 + 3);
    assert_eq!(resolved.dice(), vec![Dice::new(1, 20)]);
    assert_eq!(resolved.advantage(), Some(Advantage::Disadvantage));
    assert_eq!(resolved.advantage_counter, -1);
    assert_eq!(resolved.reroll, HashSet::from([1, 2, 3]));
}

#[test]
fn advantage_and_disadvantage_cancel() {
    let mut roll = roll_named("even");
    roll.bonuses = vec![
        RollBonus::Advantage(Advantage::Advantage),
        RollBonus::Advantage(Advantage::Disadvantage),
    ];
    let resolved = rollable(&roll, &vec![], &scores(), 2);
    assert_eq!(resolved.advantage(), None);
    assert_eq!(resolved.bonus(), 0);
    let given = rollable(&roll, &vec![RollBonus::Advantage(Advantage::Advantage)], &scores(), 2);
    assert_eq!(given.advantage(), Some(Advantage::Advantage));
}

#[test]
fn nested_rolls_are_resolved_without_what_comes_from_outside() {
    let mut blessing = roll_named("Bless");
    blessing.dice(vec![Dice::new(1, 4)]);
    blessing.ability(Ability::Dexterity);
    blessing.bonuses = vec![RollBonus::Modifier(10), RollBonus::Proficiency];
    let mut deeper = roll_named("Guidance");
    deeper.dice(vec![Dice::new(1, 6)]);
    blessing.bonuses.push(RollBonus::Roll(deeper));

    let mut roll = roll_named("Check");
    roll.dice(vec![Dice::new(1, 20)]);
    roll.bonuses = vec![RollBonus::Roll(blessing.clone()), RollBonus::Modifier(1)];
    let external = vec![RollBonus::Modifier(100), RollBonus::Roll(blessing)];
    let resolved = rollable(&roll, &external, &scores(), 2);
    // each blessing: 10 + 2 (proficiency) - 2 (dexterity 7) = 10
    assert_eq!(resolved.bonus(), 1 + 100 + 10 + 10);
    assert_eq!(
        resolved.dice(),
        vec![
            Dice::new(1, 20),
            Dice::new(1, 4),
            Dice::new(1, 6),
            Dice::new(1, 4),
            Dice::new(1, 6),
        ]
    );
}

#[test]
fn a_roll_without_ability_adds_no_score() {
    let roll = dagger_attack();
    assert_eq!(rollable(&roll, &vec![], &scores(), 6).bonus(), 0);
    let state = RollState::from(roll);
    assert_eq!(state.rollable(&scores(), 6).bonus(), 0);
}

#[test]
fn rollables_merge() {
    let mut a = Rollable::from(vec![Dice::new(1, 20)], HashSet::from([1]), 1, 2);
    let b = Rollable::from(vec![Dice::new(1, 4)], HashSet::from([2, 1]), -2, 3);
    a.merge(b);
    assert_eq!(a.dice(), vec![Dice::new(1, 20), Dice::new(1, 4)]);
    assert_eq!(a.reroll, HashSet::from([1, 2]));
    assert_eq!(a.advantage(), Some(Advantage::Disadvantage));
    assert_eq!(a.bonus(), 5);
    a.add_bonus(-5);
    assert_eq!(a.bonus(), 0);
}

#[test]
fn resolved_rolls_in_words() {
    assert_eq!(
        Rollable::from(
            vec![Dice::new(1, 20), Dice::new(0, 6), Dice::new(1, 4)],
            HashSet::new(),
            0,
            3
        )
            .to_string(),
        "1d20+1d4+3"
    );
    assert_eq!(Rollable::from(vec![], HashSet::new(), 2, -1).to_string(), "-1 (Advantage)");
    assert_eq!(
        Rollable::from(vec![Dice::new(2, 6)], HashSet::new(), -1, 0).to_string(),
        "2d6+0 (Disadvantage)"
    );
}
