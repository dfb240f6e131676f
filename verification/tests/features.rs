use character_sheet::ability_score::{Ability, AbilityScoreBonus};
use character_sheet::effect::Effect;
use character_sheet::feature::{overlay_features, DisplayOrientation, Feature};
use character_sheet::feature_path::FeaturePath;
use character_sheet::feature_state::{FeatureState, FeaturesState, TEMPLATE_DEPTH};
use character_sheet::overlay::{overlay_all, Overlay};
use character_sheet::roll::{Dice, Roll, RollBonus, RollScope};
use character_sheet::slot::Slot;
use character_sheet::tags::Tags;
use character_sheet::template::Templates;

fn named(name: &str) -> Feature {
    let mut feature = Feature::default();
    feature.name = name.to_string();
    feature
}

fn plus(modifier: isize, ability: Ability) -> Effect {
    Effect::Ability {
        bonus: AbilityScoreBonus::Modifier { modifier },
        ability,
    }
}

fn roll(name: &str, ability: Ability) -> Roll {
    let mut roll = Roll::default();
    roll.name(name.to_string());
    roll.ability(ability);
    roll.dice(vec![Dice::new(1, 20)]);
    roll
}

fn proficiency_at(path: &[&str]) -> Effect {
    let mut scope = RollScope::default();
    scope.path(FeaturePath::of(path.iter().map(|p| p.to_string()).collect()));
    Effect::Roll {
        bonus: RollBonus::Proficiency,
        scope,
    }
}

fn templates(list: Vec<Feature>) -> Templates {
    Templates::new(list.into_iter().map(|f| (f.name.clone(), f)).collect())
}

#[test]
fn effects_of_template_and_feature_are_put_end_to_end() {
    let a = plus(1, Ability::Strength);
    let b = plus(2, Ability::Wisdom);
    let mut template = named("Rage");
    template.effects = vec![a.clone()];
    let mut feature = named("Rage");
    feature.effects = vec![b.clone()];
    assert_eq!(template.overlay(&feature).effects, vec![a.clone(), b.clone()]);
    assert_eq!(feature.overlay(&template).effects, vec![b, a]);
}

#[test]
fn what_the_feature_says_stands() {
    let mut template = named("Template");
    template.description = Some("from the template".to_string());
    template.slot = Some(Slot::new(1, Some(1)));
    template.show_reset_children = Some(true);
    template.child_display_orientation = Some(DisplayOrientation::Columns);
    template.templates = vec!["x".to_string(), "y".to_string()];

    let mut feature = named("Mine");
    feature.description = Some("my own".to_string());
    feature.slot = Some(Slot::new(0, Some(3)));
    feature.show_reset_children = Some(false);
    feature.child_display_orientation = Some(DisplayOrientation::Rows);
    feature.templates = vec!["y".to_string(), "y".to_string(), "x".to_string()];

    let merged = template.overlay(&feature);
    assert_eq!(merged.name, "Mine");
    assert_eq!(merged.description, Some("my own".to_string()));
    assert_eq!(merged.slot, Some(Slot::new(0, Some(3))));
    assert_eq!(merged.show_reset_children, Some(false));
    assert_eq!(merged.child_display_orientation, Some(DisplayOrientation::Rows));
    assert_eq!(merged.templates, vec!["x".to_string(), "y".to_string(), "x".to_string()]);
}

#[test]
fn what_the_feature_leaves_open_comes_from_the_template() {
    let mut template = named("Template");
    template.description = Some("from the template".to_string());
    template.slot = Some(Slot::new(1, Some(1)));
    template.show_reset_children = Some(true);
    template.child_display_orientation = Some(DisplayOrientation::Columns);
    let merged = template.overlay(&Feature::default());
    assert_eq!(merged, template);
    let bare = named("Bare");
    let other = Feature::default().overlay(&bare);
    assert_eq!(other, bare);
    assert_eq!(DisplayOrientation::default(), DisplayOrientation::Rows);
}

#[test]
fn children_are_united_by_name() {
    let mut kept = named("kept");
    kept.description = Some("only in the template".to_string());
    let mut shared_base = named("shared");
    shared_base.description = Some("template".to_string());
    shared_base.effects = vec![plus(1, Ability::Strength)];
    let mut shared_over = named("shared");
    shared_over.effects = vec![plus(2, Ability::Strength)];
    let added = named("added");

    let mut template = named("t");
    template.children = vec![kept.clone(), shared_base.clone()];
    let mut feature = named("t");
    feature.children = vec![added.clone(), shared_over.clone()];

    let merged = template.overlay(&feature);
    assert_eq!(merged.children.len(), 3);
    assert_eq!(merged.children[0], kept);
    assert_eq!(merged.children[1].name, "shared");
    assert_eq!(merged.children[1].description, Some("template".to_string()));
    assert_eq!(
        merged.children[1].effects,
        vec![plus(1, Ability::Strength), plus(2, Ability::Strength)]
    );
    assert_eq!(merged.children[2], added);
    assert_eq!(
        overlay_features(&template.children, &feature.children),
        merged.children
    );
    assert_eq!(overlay_all(&template.children, &feature.children), merged.children);
}

#[test]
fn rolls_are_united_by_name() {
    let mut template = named("Skills");
    template.rolls = vec![roll("Arcana", Ability::Intelligence), roll("Stealth", Ability::Dexterity)];
    let mut feature = named("Skills");
    let mut stealth = Roll::default();
    stealth.name("Stealth".to_string());
    stealth.bonuses = vec![RollBonus::Modifier(2)];
    feature.rolls = vec![stealth, roll("Cooking", Ability::Wisdom)];
    let merged = template.overlay(&feature);
    assert_eq!(merged.rolls.len(), 3);
    assert_eq!(merged.rolls[0], roll("Arcana", Ability::Intelligence));
    assert_eq!(merged.rolls[1].ability, Some(Ability::Dexterity));
    assert_eq!(merged.rolls[1].bonuses, vec![RollBonus::Modifier(2)]);
    assert_eq!(merged.rolls[1].dice, vec![Dice::new(1, 20)]);
    assert_eq!(merged.rolls[2], roll("Cooking", Ability::Wisdom));
}

fn dagger_template() -> Feature {
    let mut dagger = named("Dagger");
    dagger.description = Some("A short blade".to_string());
    let mut attack = roll("Attack", Ability::Dexterity);
    attack.tags({
        let mut t = Tags::new();
        t.insert("weapon".to_string(), vec!["Dagger".to_string()]);
        t
    });
    dagger.rolls = vec![attack];
    dagger.effects = vec![plus(1, Ability::Dexterity)];
    dagger
}

#[test]
fn named_templates_are_laid_under_a_feature() {
    let registry = templates(vec![dagger_template()]);
    let mut mine = named("Sting");
    mine.templates = vec!["Dagger".to_string(), "Missing".to_string()];
    mine.effects = vec![plus(2, Ability::Strength)];
    let state = FeatureState::from(mine.clone(), &registry);
    assert_eq!(state.feature, mine);
    assert_eq!(state.overlayed_feature.name, "Sting");
    assert_eq!(state.overlayed_feature.description, Some("A short blade".to_string()));
    assert_eq!(
        state.effects(),
        vec![plus(1, Ability::Dexterity), plus(2, Ability::Strength)]
    );
    assert_eq!(state.rolls_state.len(), 1);
    assert_eq!(state.rolls_state[0].roll.name, "Attack");
    assert!(state.rolls_state[0].external_bonuses.is_empty());
    assert_eq!(state.persistable(), mine);
}

#[test]
fn the_template_of_the_features_own_name_is_laid_under_it() {
    let registry = templates(vec![dagger_template()]);
    let state = FeatureState::from(named("Dagger"), &registry);
    assert_eq!(state.overlayed_feature.description, Some("A short blade".to_string()));
    assert_eq!(state.effects(), vec![plus(1, Ability::Dexterity)]);
    let other = FeatureState::from(named("Sword"), &registry);
    assert_eq!(other.overlayed_feature, named("Sword"));
    assert!(other.effects().is_empty());
}

#[test]
fn later_templates_are_the_more_specific() {
    let mut a = named("A");
    a.description = Some("a".to_string());
    a.show_reset_children = Some(true);
    a.effects = vec![plus(1, Ability::Strength)];
    let mut b = named("B");
    b.description = Some("b".to_string());
    b.slot = Some(Slot::new(2, Some(2)));
    b.effects = vec![plus(2, Ability::Strength)];
    let registry = templates(vec![a, b]);
    let mut mine = named("Mine");
    mine.templates = vec!["A".to_string(), "B".to_string()];
    mine.effects = vec![plus(3, Ability::Strength)];
    let state = FeatureState::from(mine, &registry);
    assert_eq!(state.overlayed_feature.name, "Mine");
    assert_eq!(state.overlayed_feature.description, Some("b".to_string()));
    assert_eq!(state.overlayed_feature.show_reset_children, Some(true));
    assert_eq!(state.slot_state.map(|s| s.slot), Some(Slot::new(2, Some(2))));
    assert_eq!(
        state.effects(),
        vec![
            plus(1, Ability::Strength),
            plus(2, Ability::Strength),
            plus(3, Ability::Strength),
        ]
    );
}

#[test]
fn the_template_of_the_own_name_lies_over_the_named_ones() {
    let mut named_one = named("Base");
    named_one.description = Some("named".to_string());
    named_one.effects = vec![plus(1, Ability::Wisdom)];
    let mut own = named("Mine");
    own.description = Some("own".to_string());
    own.effects = vec![plus(2, Ability::Wisdom)];
    let registry = templates(vec![own, named_one]);
    let mut mine = named("Mine");
    mine.templates = vec!["Base".to_string()];
    mine.effects = vec![plus(3, Ability::Wisdom)];
    let state = FeatureState::from(mine.clone(), &registry);
    assert_eq!(state.overlayed_feature.description, Some("own".to_string()));
    assert_eq!(
        state.effects(),
        vec![plus(1, Ability::Wisdom), plus(2, Ability::Wisdom), plus(3, Ability::Wisdom)]
    );
    mine.description = Some("mine".to_string());
    assert_eq!(
        FeatureState::from(mine, &registry).overlayed_feature.description,
        Some("mine".to_string())
    );
}

fn sheet() -> Vec<Feature> {
    let mut saves = named("Saving Throws");
    saves.rolls = vec![roll("Strength", Ability::Strength), roll("Wisdom", Ability::Wisdom)];
    let mut skills = named("Skills");
    skills.rolls = vec![roll("Arcana", Ability::Intelligence)];
    let mut class = named("Fighter");
    class.slot = Some(Slot::new(1, Some(1)));
    class.effects = vec![
        proficiency_at(&["Saving Throws", "Strength"]),
        plus(2, Ability::Strength),
    ];
    let mut surge = named("Action Surge");
    surge.slot = Some(Slot::new(0, Some(1)));
    surge.effects = vec![proficiency_at(&["Skills", "Arcana"])];
    class.children = vec![surge];
    vec![saves, skills, class]
}

#[test]
fn written_as_read_without_templates() {
    let features = FeaturesState::from(sheet(), &Templates::default());
    assert_eq!(features.persistable(), sheet());
    for depth in [0, 1, 2, TEMPLATE_DEPTH] {
        for feature in sheet() {
            let state = FeatureState::from_within(feature.clone(), &Templates::default(), depth);
            assert_eq!(state.persistable(), feature);
        }
    }
}

#[test]
fn written_as_read_with_templates_that_add_no_children_and_no_slot() {
    let registry = templates(vec![dagger_template()]);
    let mut mine = named("Sting");
    mine.templates = vec!["Dagger".to_string()];
    mine.children = vec![named("Dagger")];
    let state = FeatureState::from(mine.clone(), &registry);
    assert_eq!(state.persistable(), mine);
}

#[test]
fn what_only_templates_give_is_in_play_but_not_written() {
    let mut with_child = named("Kit");
    with_child.children = vec![named("Bandage")];
    with_child.slot = Some(Slot::new(3, Some(3)));
    let registry = templates(vec![with_child]);
    let mut state = FeatureState::from(named("Kit"), &registry);
    assert_eq!(state.slot_state.map(|s| s.slot), Some(Slot::new(3, Some(3))));
    assert_eq!(state.children.len(), 1);
    assert_eq!(state.persistable(), named("Kit"));
    assert!(state.use_slot(&vec!["Kit".to_string()]));
    assert_eq!(state.slot_state.map(|s| s.slot.current), Some(2));
    assert_eq!(state.persistable(), named("Kit"));
}

#[test]
fn counts_are_written_where_the_feature_has_the_slot_itself() {
    let mut template = named("Kit");
    template.slot = Some(Slot::new(9, Some(9)));
    let mut bandage = named("Bandage");
    bandage.slot = Some(Slot::new(7, Some(7)));
    bandage.description = Some("from the template".to_string());
    template.children = vec![named("Salve"), bandage];
    let registry = templates(vec![template]);

    let mut own_bandage = named("Bandage");
    own_bandage.slot = Some(Slot::new(2, Some(5)));
    let mut kit = named("Kit");
    kit.slot = Some(Slot::new(1, Some(4)));
    kit.children = vec![own_bandage.clone(), named("Thread")];

    let mut state = FeatureState::from(kit.clone(), &registry);
    assert_eq!(state.children.len(), 3);
    assert_eq!(state.persistable(), kit);

    assert!(state.use_slot(&vec!["Kit".to_string(), "Bandage".to_string()]));
    assert!(state.use_slot(&vec!["Kit".to_string()]));
    state.apply_effects(&vec![proficiency_at(&["Kit"])]);
    let written = state.persistable();
    let mut expected = kit.clone();
    expected.slot = Some(Slot::new(0, Some(4)));
    expected.children[0].slot = Some(Slot::new(1, Some(5)));
    assert_eq!(written, expected);
    assert!(state.reset(&vec!["Kit".to_string()], true));
    let mut full = kit.clone();
    full.slot = Some(Slot::new(4, Some(4)));
    full.children[0].slot = Some(Slot::new(5, Some(5)));
    assert_eq!(state.persistable(), full);
}

#[test]
fn templates_are_not_laid_under_features_below_the_depth() {
    let mut inner = named("Inner");
    inner.description = Some("from the template".to_string());
    let registry = templates(vec![inner]);
    let mut outer = named("Outer");
    outer.children = vec![named("Inner")];
    let full = FeatureState::from_within(outer.clone(), &registry, 2);
    assert_eq!(
        full.children[0].overlayed_feature.description,
        Some("from the template".to_string())
    );
    let shallow = FeatureState::from_within(outer.clone(), &registry, 1);
    assert_eq!(shallow.children[0].overlayed_feature.description, None);
    let none = FeatureState::from_within(named("Inner"), &registry, 0);
    assert_eq!(none.overlayed_feature.description, None);
}

#[test]
fn a_template_that_holds_itself_ends_at_the_depth() {
    let mut own = named("Loop");
    own.children = vec![named("Loop")];
    let registry = templates(vec![own]);
    let state = FeatureState::from_within(named("Loop"), &registry, 5);
    let mut depth = 0;
    let mut current = &state;
    while let Some(child) = current.children.first() {
        depth += 1;
        current = child;
    }
    assert_eq!(depth, 5);
}

#[test]
fn declared_effects_are_collected_depth_first() {
    let features = FeaturesState::from(sheet(), &Templates::default());
    assert_eq!(
        features.effects(),
        vec![
            proficiency_at(&["Saving Throws", "Strength"]),
            plus(2, Ability::Strength),
            proficiency_at(&["Skills", "Arcana"]),
        ]
    );
}

fn given(features: &FeaturesState) -> Vec<(String, Vec<RollBonus>)> {
    fn walk(state: &FeatureState, out: &mut Vec<(String, Vec<RollBonus>)>) {
        for roll in &state.rolls_state {
            out.push((
                format!("{}/{}", state.feature.name, roll.roll.name),
                roll.external_bonuses.clone(),
            ));
        }
        for child in &state.children {
            walk(child, out);
        }
    }
    let mut out = vec![];
    for state in &features.feature_state {
        walk(state, &mut out);
    }
    out
}

#[test]
fn effects_reach_the_rolls_that_their_paths_lead_to() {
    let mut features = FeaturesState::from(sheet(), &Templates::default());
    let effects = features.effects();
    features.apply_effects(&effects);
    assert_eq!(
        given(&features),
        vec![
            ("Saving Throws/Strength".to_string(), vec![RollBonus::Proficiency]),
            ("Saving Throws/Wisdom".to_string(), vec![]),
            ("Skills/Arcana".to_string(), vec![RollBonus::Proficiency]),
        ]
    );
    assert_eq!(features.persistable(), sheet());
}

#[test]
fn a_scope_without_path_reaches_every_roll() {
    let mut features = FeaturesState::from(sheet(), &Templates::default());
    let mut scope = RollScope::default();
    scope.ability(Ability::Wisdom);
    features.apply_effects(&vec![
        Effect::Roll { bonus: RollBonus::Modifier(1), scope: RollScope::default() },
        Effect::Roll { bonus: RollBonus::Modifier(5), scope },
    ]);
    assert_eq!(
        given(&features),
        vec![
            ("Saving Throws/Strength".to_string(), vec![RollBonus::Modifier(1)]),
            (
                "Saving Throws/Wisdom".to_string(),
                vec![RollBonus::Modifier(1), RollBonus::Modifier(5)]
            ),
            ("Skills/Arcana".to_string(), vec![RollBonus::Modifier(1)]),
        ]
    );
}

#[test]
fn a_path_is_narrowed_level_by_level() {
    let mut inner = named("Inner");
    inner.rolls = vec![roll("Deep", Ability::Strength)];
    let mut outer = named("Outer");
    outer.rolls = vec![roll("Near", Ability::Strength), roll("Shallow", Ability::Strength)];
    outer.children = vec![inner];
    let mut state = FeatureState::from(outer, &Templates::default());
    state.apply_effect(&proficiency_at(&["Outer", "Inner", "Deep"]));
    assert!(state.rolls_state[0].external_bonuses.is_empty());
    assert!(state.rolls_state[1].external_bonuses.is_empty());
    assert_eq!(
        state.children[0].rolls_state[0].external_bonuses,
        vec![RollBonus::Proficiency]
    );
    state.apply_effect(&proficiency_at(&["Outer", "Near"]));
    assert_eq!(state.rolls_state[0].external_bonuses, vec![RollBonus::Proficiency]);
    assert!(state.rolls_state[1].external_bonuses.is_empty());
    assert_eq!(
        state.children[0].rolls_state[0].external_bonuses,
        vec![RollBonus::Proficiency]
    );
    state.apply_effect(&proficiency_at(&["Elsewhere", "Near"]));
    state.apply_effect(&proficiency_at(&["Near"]));
    state.apply_effect(&proficiency_at(&["Outer"]));
    state.apply_effect(&plus(1, Ability::Strength));
    assert_eq!(state.rolls_state[0].external_bonuses, vec![RollBonus::Proficiency]);
    assert!(state.rolls_state[1].external_bonuses.is_empty());
    state.clear_effects();
    assert!(state.rolls_state[0].external_bonuses.is_empty());
    assert!(state.children[0].rolls_state[0].external_bonuses.is_empty());
}

#[test]
fn a_roll_is_reached_by_the_step_that_names_it() {
    let mut inner = named("Inner");
    inner.rolls = vec![roll("Deep", Ability::Strength)];
    let mut outer = named("Outer");
    outer.rolls = vec![roll("Inner", Ability::Strength)];
    outer.children = vec![inner];
    let mut state = FeatureState::from(outer, &Templates::default());
    // The path goes on through a name that a roll of the outer feature
    // bears as well: the step into that name admits the roll.
    state.apply_effect(&proficiency_at(&["Outer", "Inner", "Deep"]));
    assert_eq!(state.rolls_state[0].external_bonuses, vec![RollBonus::Proficiency]);
    assert_eq!(
        state.children[0].rolls_state[0].external_bonuses,
        vec![RollBonus::Proficiency]
    );
}

#[test]
fn a_path_with_descendants_reaches_all_rolls_below() {
    let mut inner = named("Inner");
    inner.rolls = vec![roll("Deep", Ability::Strength)];
    let mut outer = named("Outer");
    outer.rolls = vec![roll("Near", Ability::Strength)];
    outer.children = vec![inner];
    let mut state = FeatureState::from(outer, &Templates::default());
    let mut scope = RollScope::default();
    scope.path(FeaturePath::of(vec!["Outer".to_string()]).with_include_children(true));
    state.apply_effect(&Effect::Roll { bonus: RollBonus::Modifier(1), scope });
    assert_eq!(state.rolls_state[0].external_bonuses, vec![RollBonus::Modifier(1)]);
    assert_eq!(
        state.children[0].rolls_state[0].external_bonuses,
        vec![RollBonus::Modifier(1)]
    );
}

#[test]
fn a_full_round_can_be_run_again_and_again() {
    let mut features = FeaturesState::from(sheet(), &Templates::default());
    let first = features.recompute();
    let after_first = given(&features);
    let second = features.recompute();
    assert_eq!(first, second);
    assert_eq!(given(&features), after_first);
    assert_eq!(
        after_first[0],
        ("Saving Throws/Strength".to_string(), vec![RollBonus::Proficiency])
    );
    features.apply_effects(&first);
    assert_eq!(
        given(&features)[0],
        (
            "Saving Throws/Strength".to_string(),
            vec![RollBonus::Proficiency, RollBonus::Proficiency]
        )
    );
    features.clear_effects();
    assert!(given(&features).iter().all(|(_, bonuses)| bonuses.is_empty()));
}

#[test]
fn a_feature_is_entered_by_its_name() {
    let feature = named("Skills");
    let (matched, rest) = feature.matches(FeaturePath::of(vec![
        "Skills".to_string(),
        "Arcana".to_string(),
    ]));
    assert!(matched);
    assert_eq!(rest, FeaturePath::of(vec!["Arcana".to_string()]));
    let mut scope = RollScope::default();
    scope.path(FeaturePath::of(vec!["Skills".to_string(), "Arcana".to_string()]));
    scope.name("Arcana".to_string());
    let (matched, narrowed) = scope.matches(&feature);
    assert!(matched);
    assert_eq!(narrowed.path, Some(FeaturePath::of(vec!["Arcana".to_string()])));
    assert_eq!(narrowed.name, Some("Arcana".to_string()));
    let (matched, unchanged) = scope.matches(&named("Other"));
    assert!(!matched);
    assert_eq!(unchanged, scope);
    let (matched, same) = RollScope::default().matches(&feature);
    assert!(matched);
    assert_eq!(same, RollScope::default());
}

#[test]
fn templates_are_found_by_name() {
    let registry = templates(vec![dagger_template(), named("Other")]);
    assert_eq!(registry.get(&"Dagger".to_string()), Some(&dagger_template()));
    assert_eq!(registry.get(&"dagger".to_string()), None);
    assert_eq!(registry.features().len(), 2);
    assert!(Templates::default().features().is_empty());
}

fn saving_throw_proficiency(ability: Ability) -> (String, Feature) {
    let mut feature = Feature::default();
    let mut scope = RollScope::default();
    scope.path(FeaturePath::of(vec![
        "Saving Throws".to_string(),
        ability.to_string(),
    ]));
    feature.name = format!("{} Saving Throw Proficiency", ability.to_string());
    feature.effects = vec![Effect::Roll {
        bonus: RollBonus::Proficiency,
        scope: scope,
    }];

    (feature.name.clone(), feature)
}

fn proficiency_on_tag(name: String, tag: String, values: Vec<String>) -> (String, Feature) {
    let mut feature = Feature::default();
    let mut scope = RollScope::default();
    scope.tag(tag, values);
    feature.name = name;
    feature.effects = vec![Effect::Roll {
        bonus: RollBonus::Proficiency,
        scope: scope,
    }];
    (feature.name.clone(), feature)
}

fn proficiency_on_tags(name: String, tags: Tags) -> (String, Feature) {
    let mut feature = Feature::default();
    let mut scope = RollScope::default();
    scope.tags(tags);
    feature.name = name;
    feature.effects = vec![Effect::Roll {
        bonus: RollBonus::Proficiency,
        scope: scope,
    }];
    (feature.name.clone(), feature)
}

fn tags_of(entries: Vec<(String, Vec<String>)>) -> Tags {
    let mut tags = Tags::new();
    for (name, values) in entries {
        tags.insert(name, values);
    }
    tags
}

fn weapon_proficiency(weapon_name: String) -> (String, Feature) {
    proficiency_on_tags(
        format!("{} Proficiency", weapon_name),
        tags_of(vec![
            ("weapon".to_string(), vec![weapon_name]),
            ("type".to_string(), vec!["Attack".to_string()]),
        ]),
    )
}

fn weapon_class_proficiency(weapon_class: String) -> (String, Feature) {
    proficiency_on_tags(
        format!("{} Proficiency", weapon_class),
        tags_of(vec![
            ("weapon_class".to_string(), vec![weapon_class]),
            ("type".to_string(), vec!["Attack".to_string()]),
        ]),
    )
}

fn armor_proficiency(armor_class: String) -> (String, Feature) {
    proficiency_on_tag(
        format!("{} Armor Proficiency", armor_class),
        "armor_class".to_string(),
        vec![armor_class],
    )
}

fn skill_proficiency(skill: String) -> (String, Feature) {
    let mut feature = Feature::default();
    let mut scope = RollScope::default();
    scope.path(FeaturePath::of(vec![
        "Skills".to_string(),
        skill.to_string(),
    ]));
    feature.name = format!("{} Proficiency", skill);
    feature.effects = vec![Effect::Roll {
        bonus: RollBonus::Proficiency,
        scope: scope,
    }];

    (feature.name.clone(), feature)
}

#[derive(Debug, Clone)]
struct Skill {
    name: String,
    ability: Ability,
}

fn skills_feature(skills: Vec<Skill>) -> (String, Feature) {
    let mut feature = Feature::default();

    feature.name = format!("Skills");
    feature.rolls = skills
        .into_iter()
        .map(|skill| {
            let mut roll = Roll::default();
            roll.name(skill.name.clone());
            roll.ability(skill.ability);
            roll.dice(vec![Dice::new(1, 20)]);
            roll
        })
        .collect();

    (feature.name.clone(), feature)
}

fn saving_throws_feature() -> (String, Feature) {
    let mut feature = Feature::default();

    feature.name = format!("Saving Throws");
    feature.rolls = vec![
        Ability::Strength,
        Ability::Dexterity,
        Ability::Constitution,
        Ability::Intelligence,
        Ability::Wisdom,
        Ability::Charisma,
    ]
    .into_iter()
    .map(|ability| {
        let mut roll = Roll::default();
        roll.name(ability.to_string());
        roll.ability(ability);
        roll.dice(vec![Dice::new(1, 20)]);
        roll
    })
    .collect();

    (feature.name.clone(), feature)
}

#[test]
fn generate_saving_throws() {
    let skills = vec![
        Skill { name: "Arcana".to_string(), ability: Ability::Intelligence },
        Skill { name: "Stealth".to_string(), ability: Ability::Dexterity },
    ];

    let skill_proficiencies = skills
        .clone()
        .iter()
        .map(|skill| skill.name.clone())
        .map(skill_proficiency)
        .collect::<Vec<(String, Feature)>>();

    println!("{:?}", skill_proficiencies);
    let mut proficiencies = vec![
        saving_throw_proficiency(Ability::Strength),
        saving_throw_proficiency(Ability::Dexterity),
        saving_throw_proficiency(Ability::Constitution),
        saving_throw_proficiency(Ability::Intelligence),
        saving_throw_proficiency(Ability::Wisdom),
        saving_throw_proficiency(Ability::Charisma),
        weapon_proficiency("Dagger".to_string()),
        weapon_proficiency("Dart".to_string()),
        weapon_proficiency("Sling".to_string()),
        weapon_proficiency("Quarterstaff".to_string()),
        weapon_proficiency("Light Crossbow".to_string()),
        weapon_class_proficiency("Simple Weapon".to_string()),
        weapon_class_proficiency("Martial Weapon".to_string()),
        armor_proficiency("All".to_string()),
        armor_proficiency("Light".to_string()),
        armor_proficiency("Medium".to_string()),
        armor_proficiency("Heavy".to_string()),
        skills_feature(skills),
        saving_throws_feature(),
    ];

    proficiencies.extend(skill_proficiencies);
    assert_eq!(proficiencies.len(), 21);

    // A character who names three of these templates gets their effects,
    // and the effects reach the rolls of the two shared features.
    let registry = Templates::new(proficiencies);
    let mut class = named("Rogue");
    class.templates = vec![
        "Dexterity Saving Throw Proficiency".to_string(),
        "Stealth Proficiency".to_string(),
        "Dagger Proficiency".to_string(),
    ];
    let mut dagger = named("Dagger");
    let mut attack = roll("Attack", Ability::Dexterity);
    attack.tags(tags_of(vec![
        ("weapon".to_string(), vec!["Dagger".to_string()]),
        ("type".to_string(), vec!["Attack".to_string()]),
        ("weapon_class".to_string(), vec!["Simple Weapon".to_string()]),
    ]));
    dagger.rolls = vec![attack];
    let mut features = FeaturesState::from(
        vec![named("Saving Throws"), named("Skills"), class, dagger],
        &registry,
    );
    assert_eq!(features.recompute().len(), 3);
    let got = given(&features);
    let with_proficiency: Vec<String> = got
        .iter()
        .filter(|(_, bonuses)| bonuses == &vec![RollBonus::Proficiency])
        .map(|(name, _)| name.clone())
        .collect();
    assert_eq!(
        with_proficiency,
        vec![
            "Saving Throws/Dexterity".to_string(),
            "Skills/Stealth".to_string(),
            "Dagger/Attack".to_string(),
        ]
    );
    assert_eq!(got.len(), 6 + 2 + 1);
    assert!(got
        .iter()
        .all(|(_, bonuses)| bonuses.is_empty() || bonuses == &vec![RollBonus::Proficiency]));
}

#[test]
fn features_of_one_name_among_siblings() {
    let mut first = named("twin");
    first.description = Some("first".to_string());
    let mut second = named("twin");
    second.description = Some("second".to_string());
    let mut over = named("twin");
    over.slot = Some(Slot::new(1, Some(1)));
    let united = overlay_features(&vec![first.clone(), second.clone()], &vec![over.clone(), over.clone()]);
    assert_eq!(united.len(), 2);
    assert_eq!(united[0].description, Some("first".to_string()));
    assert_eq!(united[1].description, Some("second".to_string()));
    assert!(united.iter().all(|f| f.slot == Some(Slot::new(1, Some(1)))));
    let added = overlay_features(&vec![], &vec![first.clone(), second.clone()]);
    assert_eq!(added, vec![first, second]);
}
