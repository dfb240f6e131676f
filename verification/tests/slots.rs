use character_sheet::feature::Feature;
use character_sheet::feature_path::FeaturePath;
use character_sheet::feature_state::{FeatureMessage, FeatureState, FeaturesState};
use character_sheet::slot::{Slot, SlotCommand, SlotState};
use character_sheet::template::Templates;

fn feature(name: &str, slot: Option<Slot>, children: Vec<Feature>) -> Feature {
    let mut feature = Feature::default();
    feature.name = name.to_string();
    feature.slot = slot;
    feature.children = children;
    feature
}

fn path(names: &[&str]) -> FeaturePath {
    FeaturePath::of(names.iter().map(|n| n.to_string()).collect())
}

fn counts(state: &FeatureState) -> Vec<(String, Option<isize>)> {
    let mut all = vec![(
        state.feature.name.clone(),
        state.slot_state.map(|s| s.slot.current),
    )];
    for child in &state.children {
        all.extend(counts(child));
    }
    all
}

fn count_of(state: &FeatureState, name: &str) -> Option<isize> {
    counts(state)
        .into_iter()
        .find(|(n, _)| n == name)
        .and_then(|(_, c)| c)
}

#[test]
fn use_and_reset_a_slot() {
    let mut state = SlotState::from(Slot::new(2, Some(3)));
    assert!(state.update(SlotCommand::Use));
    assert_eq!(state.persistable(), Slot::new(1, Some(3)));
    assert!(state.update(SlotCommand::Use));
    assert!(state.update(SlotCommand::Use));
    assert_eq!(state.persistable(), Slot::new(-1, Some(3)));
    assert!(state.update(SlotCommand::Reset));
    assert_eq!(state.persistable(), Slot::new(3, Some(3)));
    assert!(!state.update(SlotCommand::Reset));
    assert_eq!(state.persistable(), Slot::new(3, Some(3)));
}

#[test]
fn a_slot_without_maximum_resets_to_zero() {
    let mut state = SlotState::from(Slot::new(5, None));
    assert!(state.use_slot());
    assert_eq!(state.slot.current, 4);
    assert!(state.reset());
    assert_eq!(state.slot, Slot::new(0, None));
    assert!(!state.reset());
    assert!(state.use_slot());
    assert_eq!(state.slot.current, -1);
    assert_eq!(Slot::default(), Slot::new(0, None));
}

fn tree() -> FeatureState {
    FeatureState::from(
        feature(
            "Spells",
            Some(Slot::new(1, Some(1))),
            vec![
                feature(
                    "Level 1",
                    Some(Slot::new(2, Some(4))),
                    vec![feature("Shield", Some(Slot::new(0, Some(1))), vec![])],
                ),
                feature("Level 2", Some(Slot::new(3, Some(3))), vec![]),
                feature("Notes", None, vec![]),
            ],
        ),
        &Templates::default(),
    )
}

#[test]
fn a_command_reaches_the_feature_at_the_end_of_its_path() {
    let mut state = tree();
    let dirty = state.update(FeatureMessage::Slot(path(&["Spells", "Level 1"]), SlotCommand::Use));
    assert!(dirty);
    assert_eq!(
        counts(&state),
        vec![
            ("Spells".to_string(), Some(1)),
            ("Level 1".to_string(), Some(1)),
            ("Shield".to_string(), Some(0)),
            ("Level 2".to_string(), Some(3)),
            ("Notes".to_string(), None),
        ]
    );
    assert!(state.update(FeatureMessage::Slot(
        path(&["Spells", "Level 1", "Shield"]),
        SlotCommand::Use
    )));
    assert_eq!(count_of(&state, "Shield"), Some(-1));
    assert_eq!(count_of(&state, "Level 1"), Some(1));
}

#[test]
fn a_path_that_leads_nowhere_changes_nothing() {
    let mut state = tree();
    let before = counts(&state);
    for p in [
        path(&["Spell"]),
        path(&["Spells", "Level 3"]),
        path(&["Level 1"]),
        path(&[]),
        path(&["Spells", "Level 1", "Shield", "More"]),
        path(&["spells"]),
    ] {
        assert!(!state.update(FeatureMessage::Slot(p, SlotCommand::Use)));
        assert_eq!(counts(&state), before);
    }
}

#[test]
fn a_feature_without_slot_is_not_dirtied() {
    let mut state = tree();
    assert!(!state.update(FeatureMessage::Slot(path(&["Spells", "Notes"]), SlotCommand::Use)));
    assert!(!state.update(FeatureMessage::Slot(path(&["Spells", "Notes"]), SlotCommand::Reset)));
}

#[test]
fn a_reset_is_dirty_only_where_it_changes_a_count() {
    let mut state = tree();
    assert!(!state.update(FeatureMessage::Slot(path(&["Spells", "Level 2"]), SlotCommand::Reset)));
    assert!(state.update(FeatureMessage::Slot(path(&["Spells", "Level 1"]), SlotCommand::Reset)));
    assert_eq!(count_of(&state, "Level 1"), Some(4));
    assert_eq!(count_of(&state, "Shield"), Some(0));
    assert!(!state.update(FeatureMessage::Slot(path(&["Spells", "Level 1"]), SlotCommand::Reset)));
}

#[test]
fn a_command_with_descendants_reaches_everything_below() {
    let mut state = tree();
    let dirty = state.update(FeatureMessage::Slot(
        path(&["Spells"]).with_include_children(true),
        SlotCommand::Reset,
    ));
    assert!(dirty);
    assert_eq!(
        counts(&state),
        vec![
            ("Spells".to_string(), Some(1)),
            ("Level 1".to_string(), Some(4)),
            ("Shield".to_string(), Some(1)),
            ("Level 2".to_string(), Some(3)),
            ("Notes".to_string(), None),
        ]
    );
    assert!(!state.update(FeatureMessage::Slot(
        path(&["Spells"]).with_include_children(true),
        SlotCommand::Reset,
    )));
    assert!(state.update(FeatureMessage::Slot(
        path(&["Spells", "Level 1"]).with_include_children(true),
        SlotCommand::Use,
    )));
    assert_eq!(count_of(&state, "Spells"), Some(1));
    assert_eq!(count_of(&state, "Level 1"), Some(3));
    assert_eq!(count_of(&state, "Shield"), Some(0));
    assert_eq!(count_of(&state, "Level 2"), Some(3));
}

#[test]
fn the_empty_path_with_descendants_reaches_the_whole_tree() {
    let mut state = tree();
    assert!(state.update(FeatureMessage::Slot(
        FeaturePath::empty().with_include_children(true),
        SlotCommand::Use,
    )));
    assert_eq!(
        counts(&state),
        vec![
            ("Spells".to_string(), Some(0)),
            ("Level 1".to_string(), Some(1)),
            ("Shield".to_string(), Some(-1)),
            ("Level 2".to_string(), Some(2)),
            ("Notes".to_string(), None),
        ]
    );
}

#[test]
fn several_actions_are_carried_out_in_order() {
    let mut state = tree();
    let dirty = state.apply_all(&vec![
        (path(&["Spells", "Level 1"]), SlotCommand::Use),
        (path(&["Nowhere"]), SlotCommand::Use),
        (path(&["Spells", "Level 1"]), SlotCommand::Reset),
        (path(&["Spells", "Level 1"]), SlotCommand::Use),
        (path(&["Spells"]).with_include_children(true), SlotCommand::Use),
    ]);
    assert!(dirty);
    // Level 1: the three of its own in order (2 -> 1 -> 4 -> 3), then the
    // sweep from above.
    assert_eq!(count_of(&state, "Level 1"), Some(2));
    assert_eq!(count_of(&state, "Spells"), Some(0));
    assert_eq!(count_of(&state, "Shield"), Some(-1));
    assert_eq!(count_of(&state, "Level 2"), Some(2));
    assert!(!state.apply_all(&vec![]));
}

#[test]
fn one_command_sent_alone_does_what_a_message_does() {
    let mut by_message = tree();
    let mut alone = tree();
    for (p, c) in [
        (path(&["Spells", "Level 1"]), SlotCommand::Use),
        (path(&["Spells"]).with_include_children(true), SlotCommand::Reset),
        (path(&["Spells", "Level 1", "Shield"]), SlotCommand::Use),
        (path(&["Other"]), SlotCommand::Use),
    ] {
        let a = by_message.update(FeatureMessage::Slot(p.clone(), c));
        let b = alone.apply(&p, c);
        assert_eq!(a, b);
        assert_eq!(counts(&by_message), counts(&alone));
    }
}

#[test]
fn plain_paths_use_and_reset() {
    let mut state = tree();
    let level_1 = vec!["Spells".to_string(), "Level 1".to_string()];
    assert!(state.use_slot(&level_1));
    assert_eq!(count_of(&state, "Level 1"), Some(1));
    assert!(!state.use_slot(&vec![]));
    assert!(state.reset(&vec!["Spells".to_string()], true));
    assert_eq!(count_of(&state, "Level 1"), Some(4));
    assert_eq!(count_of(&state, "Shield"), Some(1));
    assert!(!state.reset(&level_1, false));
    assert!(!state.reset(&vec![], false));
}

#[test]
fn every_tree_of_the_sheet_gets_the_message() {
    let mut features = FeaturesState::from(
        vec![
            feature("a", Some(Slot::new(1, Some(2))), vec![]),
            feature("b", Some(Slot::new(1, Some(2))), vec![]),
            feature("a", Some(Slot::new(5, Some(5))), vec![]),
        ],
        &Templates::default(),
    );
    assert!(!features.is_empty());
    assert!(features.update(FeatureMessage::Slot(path(&["a"]), SlotCommand::Use)));
    let written = features.persistable();
    assert_eq!(written[0].slot, Some(Slot::new(0, Some(2))));
    assert_eq!(written[1].slot, Some(Slot::new(1, Some(2))));
    assert_eq!(written[2].slot, Some(Slot::new(4, Some(5))));
    assert!(!features.update(FeatureMessage::Slot(path(&["c"]), SlotCommand::Use)));
    assert!(FeaturesState::default().is_empty());
}
