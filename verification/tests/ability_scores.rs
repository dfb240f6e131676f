use character_sheet::ability_score::{Ability, AbilityScore, AbilityScores};
use character_sheet::class::{Class, Classes};

fn assert_modfier(value: isize, modifier: isize) {
    assert_eq!(
        AbilityScore::of(value).modifier(),
        modifier,
        "Expected modifier for ability score {} to be {}",
        value,
        modifier
    )
}

fn modifier_table() -> Vec<(isize, isize)> {
    vec![
        (4, -3),
        (5, -3),
        (6, -2),
        (7, -2),
        (8, -1),
        (9, -1),
        (10, 0),
        (11, 0),
        (12, 1),
        (13, 1),
        (14, 2),
        (15, 2),
        (16, 3),
        (17, 3),
        (18, 4),
        (19, 4),
        (20, 5),
        (21, 5),
        (22, 6),
        (23, 6),
    ]
}

#[test]
fn test_modifier() {
    modifier_table()
        .into_iter()
        .for_each(|(value, modifier)| assert_modfier(value, modifier))
}

#[test]
fn ability_score_test_modifier() {
    modifier_table()
        .into_iter()
        .for_each(|(value, modifier)| assert_modfier(value, modifier))
}

#[test]
fn modifier_rounds_down_below_ten() {
    assert_eq!(AbilityScore::of(7).modifier(), -2);
    assert_eq!(AbilityScore::of(9).modifier(), -1);
    assert_eq!(AbilityScore::of(1).modifier(), -5);
    assert_eq!(AbilityScore::of(0).modifier(), -5);
    assert_eq!(AbilityScore::of(-1).modifier(), -6);
}

#[test]
fn modifier_at_the_ends_of_the_machine_range() {
    assert_eq!(AbilityScore::of(isize::MAX).modifier(), (isize::MAX - 10) / 2);
    assert_eq!(AbilityScore::of(isize::MIN).modifier(), isize::MIN / 2 - 5);
}

#[test]
fn default_scores_are_ten() {
    let scores = AbilityScores::default();
    for ability in [
        Ability::Strength,
        Ability::Dexterity,
        Ability::Constitution,
        Ability::Intelligence,
        Ability::Wisdom,
        Ability::Charisma,
    ] {
        assert_eq!(scores.get(ability), AbilityScore::of(10));
    }
    assert_eq!(AbilityScore::default(), AbilityScore::of(10));
}

#[test]
fn with_replaces_one_score() {
    let scores = AbilityScores::default().with(Ability::Wisdom, AbilityScore::of(15));
    assert_eq!(scores.get(Ability::Wisdom).value, 15);
    assert_eq!(scores.get(Ability::Strength).value, 10);
    assert_eq!(scores.get(Ability::Charisma).value, 10);
}

#[test]
fn ability_names() {
    assert_eq!(Ability::Strength.to_string(), "Strength");
    assert_eq!(Ability::Constitution.to_string(), "Constitution");
}

fn assert_proficiency(v: (Vec<isize>, isize)) {
    let (levels, proficiency) = v;
    let classes = Classes {
        classes: levels
            .into_iter()
            .map(|l| Class {
                name: "test".to_string(),
                level: l,
            })
            .collect(),
    };
    assert_eq!(classes.proficiency(), proficiency);
}

#[test]
fn test_proficiency() {
    vec![
        (vec![1], 2),
        (vec![2], 2),
        (vec![3], 2),
        (vec![4], 2),
        (vec![5], 3),
        (vec![6], 3),
        (vec![7], 3),
        (vec![8], 3),
        (vec![9], 4),
        (vec![10], 4),
        (vec![11], 4),
        (vec![12], 4),
        (vec![13], 5),
        (vec![14], 5),
        (vec![15], 5),
        (vec![16], 5),
        (vec![17], 6),
        (vec![18], 6),
        (vec![19], 6),
        (vec![20], 6),
    ]
    .into_iter()
    .for_each(assert_proficiency)
}

#[test]
fn proficiency_beyond_twenty() {
    assert_proficiency((vec![21], 7));
    assert_proficiency((vec![24], 8));
    assert_proficiency((vec![10, 14], 8));
    assert_proficiency((vec![40], 12));
}

#[test]
fn proficiency_of_several_classes() {
    assert_proficiency((vec![3, 2], 3));
    assert_proficiency((vec![], 2));
    assert_proficiency((vec![0], 2));
    assert_eq!(Classes::from(vec![Class::new("a".to_string(), 4), Class::new("b".to_string(), 5)]).total_level(), 9);
}
