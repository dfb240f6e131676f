use character_sheet::feature_path::FeaturePath;
use character_sheet::store::Store;
use character_sheet::text::{decimal_string, format_modifier, join};

fn path(names: &[&str]) -> FeaturePath {
    FeaturePath::of(names.iter().map(|n| n.to_string()).collect())
}

#[test]
fn a_step_takes_the_first_name_off() {
    let (matched, rest) = path(&["Saving Throws", "Strength"]).matches("Saving Throws".to_string());
    assert!(matched);
    assert_eq!(rest, path(&["Strength"]));
    let (matched, rest) = rest.matches("Strength".to_string());
    assert!(matched);
    assert!(rest.is_empty());
    assert_eq!(rest, FeaturePath::empty());
    let (matched, rest) = rest.matches("Anything".to_string());
    assert!(!matched);
    assert_eq!(rest, FeaturePath::empty());
}

#[test]
fn a_wrong_name_stops_the_walk() {
    let (matched, rest) = path(&["Skills", "Arcana"])
        .with_include_children(true)
        .matches("Saving Throws".to_string());
    assert!(!matched);
    assert_eq!(rest, FeaturePath::empty());
    assert!(!rest.include_children());
}

#[test]
fn matching_is_exact_in_case() {
    assert!(!path(&["Skills"]).matches("skills".to_string()).0);
    assert!(!path(&["Skills"]).matches("Skill".to_string()).0);
    assert!(!path(&["Skills"]).matches("".to_string()).0);
}

#[test]
fn the_flag_is_kept_along_the_walk() {
    let start = path(&["a", "b"]).with_include_children(true);
    assert!(start.include_children());
    let (_, rest) = start.matches("a".to_string());
    assert!(rest.include_children());
    let (_, rest) = rest.matches("b".to_string());
    assert!(rest.is_empty());
    assert!(rest.include_children());
}

#[test]
fn the_empty_path_with_descendants_matches_at_every_depth() {
    let mut current = FeaturePath::empty().with_include_children(true);
    for name in ["a", "b", "c", "", "a"] {
        let (matched, rest) = current.matches(name.to_string());
        assert!(matched);
        assert!(rest.is_empty());
        assert!(rest.include_children());
        current = rest;
    }
}

#[test]
fn the_empty_path_without_descendants_matches_nothing() {
    let (matched, rest) = FeaturePath::empty().matches("a".to_string());
    assert!(!matched);
    assert!(rest.is_empty());
}

#[test]
fn with_child_adds_a_name_at_the_end() {
    let p = FeaturePath::empty().with_child("a".to_string()).with_child("b".to_string());
    assert_eq!(p, path(&["a", "b"]));
    assert!(!p.is_empty());
    assert_eq!(p.clone(), p);
}

#[test]
fn paths_in_words() {
    assert_eq!(path(&["Saving Throws", "Strength"]).to_string(), "Saving Throws Strength");
    assert_eq!(path(&["a"]).with_include_children(true).to_string(), "a...");
    assert_eq!(FeaturePath::empty().to_string(), "");
}

#[test]
fn numbers_in_decimal() {
    assert_eq!(decimal_string(0), "0");
    assert_eq!(decimal_string(7), "7");
    assert_eq!(decimal_string(10), "10");
    assert_eq!(decimal_string(1203), "1203");
    assert_eq!(decimal_string(-45), "-45");
    assert_eq!(decimal_string(isize::MAX), isize::MAX.to_string());
    assert_eq!(decimal_string(isize::MIN), isize::MIN.to_string());
}

#[test]
fn modifiers_with_their_sign() {
    assert_eq!(format_modifier(0), "+0");
    assert_eq!(format_modifier(3), "+3");
    assert_eq!(format_modifier(-3), "-3");
    assert_eq!(format_modifier(12), "+12");
}

#[test]
fn joining_strings() {
    assert_eq!(join(&vec![], ", "), "");
    assert_eq!(join(&vec!["a".to_string()], ", "), "a");
    assert_eq!(
        join(&vec!["a".to_string(), "".to_string(), "c".to_string()], ", "),
        "a, , c"
    );
}

#[test]
fn store_paths() {
    let store = Store { base_path: ".store/".to_string() };
    assert_eq!(store.path_for("characters/vynne.json".to_string()), ".store/characters/vynne.json");
    assert_eq!(store.path_for("/template.json".to_string()), ".store/template.json");
    let plain = Store { base_path: "store-test".to_string() };
    assert_eq!(plain.path_for("my-thing".to_string()), "store-test/my-thing");
    assert_eq!(plain.path_for("".to_string()), "store-test/");
    let double = Store { base_path: "a//".to_string() };
    assert_eq!(double.path_for("//b".to_string()), "a///b");
    let nowhere = Store { base_path: "".to_string() };
    assert_eq!(nowhere.path_for("k".to_string()), "/k");
}
