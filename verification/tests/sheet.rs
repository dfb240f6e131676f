use character_sheet::ability_score::{Ability, AbilityScore, AbilityScores};
use character_sheet::ability_score_state::ModifiedAbilityScores;
use character_sheet::attack::{Attack, AttackRange};
use character_sheet::character::{Character, Message, State, Task};
use character_sheet::check::{CheckBonus, CheckRoll};
use character_sheet::class::{Class, Classes};
use character_sheet::damage::{display_damage, Damage, DamageRoll, DamageRollScope};
use character_sheet::description::{Description, Height, Size};
use character_sheet::dimensions::Weight;
use character_sheet::effect::Effect;
use character_sheet::equipment::{
    Attack as EquipmentAttack, AttackRange as EquipmentRange, Equipment,
    WeaponProperty as Property,
};
use character_sheet::feature::Feature;
use character_sheet::feature_path::FeaturePath;
use character_sheet::feature_state::FeatureMessage;
use character_sheet::hitpoints::{HitPointMessage, HitPoints};
use character_sheet::inventory::{Inventory, InventoryItem};
use character_sheet::item::Item;
use character_sheet::persistence::{
    CharacterPersistence, CharacterPersistenceConfig, LoadData, LoadError,
};
use character_sheet::proficiencies::{Proficiency, ProficiencyType};
use character_sheet::resources::{ResourcePersistence, ResourcePersistenceConfig, Resources};
use character_sheet::roll::{Advantage, Dice, Roll, RollBonus, RollScope};
use character_sheet::saving_throw::{SavingThrow, SavingThrows};
use character_sheet::skill::{modifier, Skill, SkillProficiency};
use character_sheet::slot::{Slot, SlotCommand};
use character_sheet::spell_slot::{SpellSlot, SpellSlotMessage, SpellSlotsState};
use character_sheet::spellcasting::{Spellcasting, SpellcastingState, SpellcastingsState};
use character_sheet::store::StoreError;
use character_sheet::template::Templates;
use character_sheet::weapon::{Weapon, WeaponProperty};
use Ability::{Charisma, Dexterity, Intelligence, Strength, Wisdom};

fn s(name: &str, ability: Ability) -> Skill {
    Skill::of(name, ability)
}

fn class_leveled(level: isize) -> Classes {
    Classes::from(vec![Class::new("test".to_string(), level)])
}

fn ability_scores(skill: Skill, score: isize) -> AbilityScores {
    AbilityScores::default().with(skill.ability(), AbilityScore::of(score))
}

fn ability_score_modifier(score: isize) -> isize {
    AbilityScore::of(score).modifier()
}

fn assert_modifier(skill: Skill) {
    println!("{}", 1 / 2);
    println!("{}", (1 / 2));
    (0..20).into_iter().for_each(|level| {
        let class = class_leveled(level);
        (6..20).into_iter().for_each(|score| {
            let ability_scores = ability_scores(skill.clone(), score);
            let expected_ability_score_modifier = ability_score_modifier(score);

            let no_proficiency = ProficiencyType::NotProficient;
            let no_proficiency_modifier = modifier(skill.clone(), no_proficiency, class.clone(), ability_scores.clone());

            assert_eq!(no_proficiency_modifier, expected_ability_score_modifier,
                       "Expected {} {} to be {} composed of {}({:?} {}) +0 (no proficiency level {})",
                       skill.name().clone(), no_proficiency_modifier, expected_ability_score_modifier, expected_ability_score_modifier, skill.ability().clone(), score, level);

            let half_proficiency = ProficiencyType::Half;
            let half_proficiency_modifier = modifier(skill.clone(), half_proficiency, class.clone(), ability_scores.clone());
            assert_eq!(half_proficiency_modifier, ability_score_modifier(score) + class.proficiency_bonus() / 2,
                       "Expected {} {} to be {} composed of {}({:?} {}) +{} (half proficiency level {})",
                       skill.name().clone(), half_proficiency_modifier, expected_ability_score_modifier, expected_ability_score_modifier, skill.ability().clone(), score, ProficiencyType::Half.modifier(class.clone()), level);

            let proficiency = ProficiencyType::Full;
            let proficiency_modifier = modifier(skill.clone(), proficiency, class.clone(), ability_scores.clone());
            assert_eq!(proficiency_modifier, ability_score_modifier(score) + class.proficiency_bonus(),
                       "Expected {} {} to be {} composed of {}({:?} {}) +{} (full proficiency level {})",
                       skill.name().clone(), proficiency_modifier, expected_ability_score_modifier, expected_ability_score_modifier, skill.ability().clone(), score, ProficiencyType::Full.modifier(class.clone()), level);
        })
    })
}

#[test]
fn create_data() {
    let skills = vec![
        s("Acrobatics", Dexterity),
        s("Animal Handling", Wisdom),
        s("Arcana", Intelligence),
        s("Athletics", Strength),
        s("Deception", Charisma),
        s("History", Intelligence),
        s("Insight", Wisdom),
        s("Intimidation", Charisma),
        s("Investigation", Intelligence),
        s("Medicine", Wisdom),
        s("Nature", Intelligence),
        s("Perception", Wisdom),
        s("Performance", Charisma),
        s("Persuasion", Charisma),
        s("Religion", Intelligence),
        s("Sleight of Hand", Dexterity),
        s("Stealth", Dexterity),
        s("Survival", Wisdom),
    ];
    skills.into_iter().for_each(assert_modifier)
}

#[test]
fn skill_modifiers_in_numbers() {
    let stealth = s("Stealth", Dexterity);
    let scores = AbilityScores::default().with(Dexterity, AbilityScore::of(17));
    assert_eq!(
        modifier(stealth.clone(), ProficiencyType::Full, class_leveled(9), scores),
        3 + 4
    );
    assert_eq!(
        modifier(stealth.clone(), ProficiencyType::Half, class_leveled(5), scores),
        3 + 1
    );
    assert_eq!(
        modifier(stealth.clone(), ProficiencyType::NotProficient, class_leveled(20), scores),
        3
    );
    let proficiency = SkillProficiency::of(stealth, ProficiencyType::Half);
    assert_eq!(proficiency.name, "Stealth");
    assert_eq!(proficiency.proficiency_type, ProficiencyType::Half);
}

#[test]
fn shares_of_the_proficiency_bonus() {
    assert_eq!(ProficiencyType::NotProficient.modifier_for_bonus(5), 0);
    assert_eq!(ProficiencyType::Half.modifier_for_bonus(5), 2);
    assert_eq!(ProficiencyType::Half.modifier_for_bonus(-5), -2);
    assert_eq!(ProficiencyType::Half.modifier_for_bonus(6), 3);
    assert_eq!(ProficiencyType::Full.modifier_for_bonus(5), 5);
    assert_eq!(ProficiencyType::default(), ProficiencyType::NotProficient);
}

#[test]
fn proficiencies_as_they_are_listed() {
    let of = |name: &str, proficiency_type| Proficiency {
        name: name.to_string(),
        proficiency_type,
    };
    assert_eq!(of("Lute", ProficiencyType::Full).view(), "Lute");
    assert_eq!(of("Lute", ProficiencyType::Half).view(), "Lute (Half)");
    assert_eq!(of("Lute", ProficiencyType::NotProficient).view(), "");
    assert_eq!(of("Lute", ProficiencyType::Half).name(), "Lute");
    assert_eq!(of("Lute", ProficiencyType::Half).proficiency_type(), ProficiencyType::Half);
}

fn d(count: isize, sides: isize) -> Dice {
    Dice::new(count, sides)
}

fn slashing(dice: Dice) -> Damage {
    Damage::new(dice, None, "Slashing".to_string())
}

fn piercing(dice: Dice) -> Damage {
    Damage::new(dice, None, "Piercing".to_string())
}

#[test]
fn damage_in_words() {
    assert_eq!(slashing(d(1, 8)).to_string(), "1d8 Slashing");
    assert_eq!(Damage::new(d(2, 6), Some(3), "Fire".to_string()).to_string(), "2d6+3 Fire");
    assert_eq!(Damage::new(d(1, 4), Some(-1), "Cold".to_string()).to_string(), "1d4-1 Cold");
    assert_eq!(Damage::new(d(0, 0), Some(2), "Unknown".to_string()).to_string(), "+2 Unknown");
    assert_eq!(Damage::new(d(0, 6), Some(0), "Acid".to_string()).to_string(), " Acid");
    assert_eq!(Damage::new(d(0, 0), None, "Acid".to_string()).to_string(), " Acid");
    assert_eq!(Damage::new(d(-1, 6), None, "Acid".to_string()).to_string(), " Acid");
    assert_eq!(
        display_damage(vec![slashing(d(1, 8)), piercing(d(1, 4))]),
        "1d8 Slashing , 1d4 Piercing"
    );
    assert_eq!(display_damage(vec![]), "");
    assert_eq!(DamageRollScope::Attack.to_string(), "Attack Damage");
    assert_eq!(DamageRollScope::Spell.to_string(), "Spell Damage");
    assert_eq!(
        DamageRollScope::Feature(FeaturePath::of(vec!["a".to_string(), "b".to_string()])).to_string(),
        "Damage from a b"
    );
}

#[test]
fn damage_rolls() {
    let roll = DamageRoll::from(vec![slashing(d(1, 8)), Damage::new(d(1, 6), Some(1), "Fire".to_string())]);
    let stronger = roll.with_modifier(3);
    assert_eq!(stronger.damage[0], Damage::new(d(1, 8), Some(3), "Slashing".to_string()));
    assert_eq!(stronger.damage[1], Damage::new(d(1, 6), Some(1), "Fire".to_string()));
    assert_eq!(stronger.with_modifier(-4).damage[0].additional, Some(-1));
    assert_eq!(stronger.to_string(), "1d8+3 Slashing + 1d6+1 Fire");
    let bare = DamageRoll::from(vec![]).with_modifier(2);
    assert_eq!(bare.damage, vec![Damage::new(d(0, 0), Some(2), "Unknown".to_string())]);
    let more = bare.with_extra_damage(piercing(d(1, 4)));
    assert_eq!(more.damage.len(), 2);
    assert_eq!(more.damage[1], piercing(d(1, 4)));
}

fn modified(strength: isize, dexterity: isize) -> ModifiedAbilityScores {
    AbilityScores::default()
        .with(Strength, AbilityScore::of(strength))
        .with(Dexterity, AbilityScore::of(dexterity))
        .to_state()
        .modified()
}

fn names(attacks: &Vec<Attack>) -> Vec<String> {
    attacks.iter().map(|a| a.name.clone()).collect()
}

#[test]
fn test_item() {
    let longsword = Item {
        name: "Longsword".to_string(),
        weight: Weight::new(3, 0),
        item_type: "Weapon".to_string(),
        sub_type: "Martial Melee Weapon".to_string(),
        weapon: Some(Weapon::new(
            vec![slashing(d(1, 8))],
            vec![WeaponProperty::Versatile { damage: vec![slashing(d(1, 10))] }],
        )),
        proficiencies: vec![],
    };
    let light_crossbow = Item {
        name: "Crossbow, Light".to_string(),
        weight: Weight::new(5, 0),
        item_type: "Weapon".to_string(),
        sub_type: "Simple Ranged Weapon".to_string(),
        weapon: Some(Weapon::new(
            vec![piercing(d(1, 8))],
            vec![
                WeaponProperty::Ammunition,
                WeaponProperty::Loading,
                WeaponProperty::Range { normal: 80, long: 320 },
                WeaponProperty::TwoHanded,
            ],
        )),
        proficiencies: vec![],
    };
    let weapons = vec![longsword, light_crossbow];
    assert_eq!(weapons[0].name(), "Longsword");
    assert_eq!(
        names(&weapons[0].attacks(modified(16, 12)).unwrap()),
        vec!["Melee", "Melee (Two-Handed)"]
    );
    let shots = weapons[1].attacks(modified(16, 12)).unwrap();
    assert_eq!(names(&shots), vec!["Range"]);
    assert_eq!(shots[0].range, AttackRange::Range { normal: 80, long: 320 });
    assert_eq!(shots[0].attack.bonus(), 1);
    assert_eq!(shots[0].damage.damage, vec![Damage::new(d(1, 8), Some(1), "Piercing".to_string())]);
}

#[test]
fn the_attacks_of_a_weapon() {
    let dagger = Weapon::new(
        vec![piercing(d(1, 4))],
        vec![
            WeaponProperty::Finesse,
            WeaponProperty::Light,
            WeaponProperty::Thrown { normal: 20, long: 60 },
        ],
    );
    let attacks = dagger.attacks(modified(8, 18));
    assert_eq!(names(&attacks), vec!["Melee", "Throw", "Melee (Finesse)"]);
    assert_eq!(attacks[0].range, AttackRange::Melee);
    assert_eq!(attacks[0].attack.bonus(), -1);
    assert_eq!(attacks[0].damage.damage[0].additional, Some(-1));
    assert_eq!(attacks[1].range, AttackRange::Range { normal: 20, long: 60 });
    assert_eq!(attacks[1].attack.bonus(), 4);
    assert_eq!(attacks[1].damage.damage[0].additional, Some(4));
    assert_eq!(attacks[2].range, AttackRange::Melee);
    assert_eq!(attacks[2].attack.bonus(), 4);

    let club = Weapon::new(vec![], vec![]);
    let blows = club.attacks(modified(10, 10));
    assert_eq!(names(&blows), vec!["Melee"]);
    assert_eq!(blows[0].damage.damage, vec![Damage::new(d(0, 0), Some(0), "Unknown".to_string())]);

    let odd = Weapon::new(
        vec![piercing(d(1, 6))],
        vec![
            WeaponProperty::Range { normal: 10, long: 20 },
            WeaponProperty::Range { normal: 30, long: 40 },
        ],
    );
    assert_eq!(odd.attacks(modified(10, 10))[0].range, AttackRange::Range { normal: 30, long: 40 });
    let no_weapon = Item {
        name: "Rope".to_string(),
        weight: Weight::new(10, 0),
        item_type: "Gear".to_string(),
        sub_type: "Gear".to_string(),
        weapon: None,
        proficiencies: vec![],
    };
    assert!(no_weapon.attacks(modified(10, 10)).is_none());
}

#[test]
fn weapon_properties_in_words() {
    assert_eq!(WeaponProperty::TwoHanded.to_string(), "Two Handed");
    assert_eq!(WeaponProperty::Finesse.to_string(), "Finesse");
    assert_eq!(WeaponProperty::Range { normal: 80, long: 320 }.to_string(), "Range(80/320)");
    assert_eq!(WeaponProperty::Thrown { normal: 20, long: 60 }.to_string(), "Thrown(20/60)");
    assert_eq!(
        WeaponProperty::Versatile { damage: vec![slashing(d(1, 10))] }.to_string(),
        "Versatile(1d10 Slashing)"
    );
    assert_eq!(AttackRange::Melee.to_string(), "Melee");
    assert_eq!(AttackRange::Range { normal: 20, long: 60 }.to_string(), "Ranged(20/60)");
    assert_eq!(Weight::new(3, 4).to_string(), "3 lbs, 4 oz");
    assert_eq!(Height { feet: 5, inches: 11 }.to_string(), "5' 11\"");
}

#[test]
fn attacks_take_more_in() {
    let attack = Attack::new(
        "Melee",
        AttackRange::Melee,
        CheckRoll::from(vec![CheckBonus::Modifier(3)]),
        DamageRoll::from(vec![slashing(d(1, 8))]),
    );
    let (matched, rest) = attack.matches(FeaturePath::of(vec!["Melee".to_string()]));
    assert!(matched && rest.is_empty());
    assert!(!attack.matches(FeaturePath::of(vec!["Range".to_string()])).0);
    assert!(attack.matches(FeaturePath::empty().with_include_children(true)).0);
    let burning = attack.with_extra_damage(Damage::new(d(1, 6), None, "Fire".to_string()));
    assert_eq!(burning.damage.damage.len(), 2);
    assert_eq!(burning.attack.bonus(), 3);
    let blessed = burning.with_extra_check(CheckRoll::from(vec![
        CheckBonus::Modifier(2),
        CheckBonus::Dice(d(1, 4)),
        CheckBonus::Advantage(Advantage::Advantage),
    ]));
    assert_eq!(blessed.attack.bonus(), 5);
    assert_eq!(blessed.attack.dice(), vec![d(1, 4)]);
    assert_eq!(blessed.attack.advantage(), Some(Advantage::Advantage));
    assert_eq!(blessed.name, "Melee");
}

#[test]
fn saving_throws() {
    let throws = SavingThrows {
        wisdom: SavingThrow {
            additional_modifiers: vec![("Cloak".to_string(), 1), ("Ring".to_string(), 2)],
        },
        ..SavingThrows::default()
    };
    let scores = modified(10, 10);
    let wisdom = throws.get(Wisdom).modifier(
        AbilityScores::default()
            .with(Wisdom, AbilityScore::of(15))
            .to_state()
            .modified()
            .get(Wisdom),
        3,
    );
    assert_eq!(wisdom.bonus(), 2 + 3 + 1 + 2);
    assert_eq!(wisdom.advantage(), None);
    assert!(wisdom.dice().is_empty());
    assert_eq!(throws.get(Strength).modifier(scores.get(Strength), 0).bonus(), 0);
}

#[test]
fn spellcasting() {
    let wizard = Spellcasting {
        class: "Wizard".to_string(),
        ability: Intelligence,
        additional_modifiers: vec![("Wand".to_string(), 1)],
        additional_save_modifiers: vec![("Robe".to_string(), 2)],
    };
    let scores = AbilityScores::default()
        .with(Intelligence, AbilityScore::of(18))
        .to_state()
        .modified();
    assert_eq!(wizard.modifier(3, &scores.get(Intelligence)).bonus(), 4 + 3 + 1);
    assert_eq!(wizard.save_dc(3, &scores.get(Intelligence)), 3 + 4 + 8 + 2);

    let mut state = SpellcastingState::from(wizard.clone(), 3);
    state.spell_modifiers = vec![CheckBonus::Modifier(1), CheckBonus::Dice(d(1, 4))];
    let casting = state.modified(&scores);
    assert_eq!(casting.class_name(), "Wizard");
    assert_eq!(casting.spell_modifier().bonus(), 9);
    assert_eq!(casting.spell_modifier().dice(), vec![d(1, 4)]);
    assert_eq!(state.save_dc(&scores), 17);
    state.reset_effects();
    assert_eq!(state.modified(&scores).spell_modifier().bonus(), 8);
    assert_eq!(state.persistable(), wizard);

    let all = SpellcastingsState::from(vec![wizard.clone()], class_leveled(9));
    assert_eq!(all.persistable(), vec![wizard]);
    let list = all.modified(&scores).spellcastings();
    assert_eq!(list.len(), 1);
    assert_eq!(list[0].spell_modifier().bonus(), 4 + 4 + 1);
}

#[test]
fn hit_points() {
    let mut state = HitPoints { current_hit_points: 20, max_hit_points: 30 }.to_state();
    assert!(!state.update(HitPointMessage::IncrementHealthDelta));
    assert!(!state.update(HitPointMessage::IncrementHealthDelta));
    assert!(!state.update(HitPointMessage::DecrementHealthDelta));
    assert_eq!(state.hp_delta, 1);
    assert!(state.update(HitPointMessage::Damage));
    assert_eq!(state.persistable().current_hit_points, 19);
    assert!(!state.update(HitPointMessage::ChangeHealthDelta("12".to_string())));
    assert_eq!(state.hp_delta, 12);
    assert!(!state.update(HitPointMessage::ChangeHealthDelta("twelve".to_string())));
    assert_eq!(state.hp_delta, 12);
    assert!(!state.update(HitPointMessage::ChangeHealthDelta("".to_string())));
    assert_eq!(state.hp_delta, 12);
    assert!(!state.update(HitPointMessage::ChangeHealthDelta("-3".to_string())));
    assert_eq!(state.hp_delta, -3);
    assert!(state.update(HitPointMessage::Heal));
    assert_eq!(state.persistable().current_hit_points, 16);
    assert!(state.update(HitPointMessage::Damage));
    assert_eq!(state.persistable().current_hit_points, 19);
    assert!(!state.update(HitPointMessage::ResetDelta));
    assert_eq!(state.hp_delta, 0);
    assert!(state.update(HitPointMessage::FullHealth));
    assert_eq!(
        state.persistable(),
        HitPoints { current_hit_points: 30, max_hit_points: 30 }
    );
    state.set_delta(None);
    assert_eq!(state.hp_delta, 0);
    state.set_delta(Some(4));
    assert_eq!(state.hp_delta, 4);
}

#[test]
fn spell_slots() {
    let slot = |level, available, max| SpellSlot { level, available, max };
    let mut slots = SpellSlotsState::from(vec![slot(1, 4, 4), slot(2, 1, 3), slot(1, 2, 2)]);
    assert!(slots.update(SpellSlotMessage::UseSpell(1)));
    assert_eq!(slots.persistable(), vec![slot(1, 3, 4), slot(2, 1, 3), slot(1, 1, 2)]);
    assert!(slots.update(SpellSlotMessage::UseSpell(3)));
    assert_eq!(slots.persistable(), vec![slot(1, 3, 4), slot(2, 1, 3), slot(1, 1, 2)]);
    assert!(slots.update(SpellSlotMessage::ResetSlots(Some(2))));
    assert_eq!(slots.persistable(), vec![slot(1, 3, 4), slot(2, 3, 3), slot(1, 1, 2)]);
    slots.use_spell_slot(2);
    slots.reset_spell_slot(None);
    assert_eq!(slots.persistable(), vec![slot(1, 4, 4), slot(2, 3, 3), slot(1, 2, 2)]);
    assert!(SpellSlotsState::default().persistable().is_empty());
}

fn fighter() -> Feature {
    let mut surge = Feature::default();
    surge.name = "Action Surge".to_string();
    surge.slot = Some(Slot::new(1, Some(1)));
    let mut saves = Roll::default();
    saves.name("Strength".to_string());
    saves.ability(Strength);
    let mut fighter = Feature::default();
    fighter.name = "Fighter".to_string();
    fighter.children = vec![surge];
    fighter.rolls = vec![saves];
    fighter.effects = vec![
        Effect::Roll { bonus: RollBonus::Proficiency, scope: RollScope::default() },
        Effect::Ability {
            bonus: character_sheet::ability_score::AbilityScoreBonus::Modifier { modifier: 2 },
            ability: Strength,
        },
    ];
    fighter
}

fn written() -> CharacterPersistence {
    let mut character = CharacterPersistence::default_from(CharacterPersistenceConfig::new(
        ".store/".to_string(),
        "vynne".to_string(),
    ));
    character.name.name = "Vynne".to_string();
    character.classes = vec![Class::new("Fighter".to_string(), 3)];
    character.hit_points = HitPoints { current_hit_points: 20, max_hit_points: 28 };
    character.features = vec![fighter()];
    character
}

fn loaded() -> Character {
    let (mut character, task) = Character::new(CharacterPersistenceConfig::new(
        ".store/".to_string(),
        "vynne".to_string(),
    ));
    assert!(matches!(task, Task::Load(ref config) if config.storage_root() == ".store/"));
    assert_eq!(character.title(), "Loading...");
    let task = character.update(Message::Loaded(Ok(LoadData {
        resources: Resources::default(),
        character: written(),
    })));
    assert!(matches!(task, Task::Idle));
    assert_eq!(character.title(), "Character");
    character
}

fn state_of(character: &Character) -> &State {
    match character {
        Character::Loaded(state) => state,
        Character::Loading(_) => panic!("still loading"),
    }
}

#[test]
fn a_character_comes_into_play_with_its_effects_worked_out() {
    let character = loaded();
    let state = state_of(&character);
    assert!(!state.dirty && !state.saving);
    assert_eq!(state.persistable(), written());
    assert_eq!(
        state.features.feature_state[0].rolls_state[0].external_bonuses,
        vec![RollBonus::Proficiency]
    );
    assert_eq!(state.ability_scores.modified().get(Strength).score().value, 12);
}

#[test]
fn a_character_that_cannot_be_read_is_replaced_by_a_blank_one() {
    let (mut character, _) = Character::new(CharacterPersistenceConfig::default());
    let task = character.update(Message::Loaded(Err(LoadError::Store(StoreError::FileError(
        "gone".to_string(),
    )))));
    assert!(matches!(task, Task::Idle));
    assert_eq!(state_of(&character).persistable(), CharacterPersistence::default());
    assert_eq!(character.title(), "Character");
}

#[test]
fn while_loading_nothing_else_matters() {
    let (mut character, _) = Character::new(CharacterPersistenceConfig::default());
    for message in [
        Message::ResetEffects,
        Message::Saved(Ok(())),
        Message::HitPoint(HitPointMessage::Heal),
        Message::Feature(FeatureMessage::Slot(FeaturePath::empty(), SlotCommand::Use)),
    ] {
        assert!(matches!(character.update(message), Task::Idle));
        assert!(matches!(character, Character::Loading(_)));
    }
}

#[test]
fn changes_are_written_down_once_at_a_time() {
    let mut character = loaded();
    let use_surge = || {
        Message::Feature(FeatureMessage::Slot(
            FeaturePath::of(vec!["Fighter".to_string(), "Action Surge".to_string()]),
            SlotCommand::Use,
        ))
    };
    let task = character.update(use_surge());
    let saved = match task {
        Task::Save(saved) => saved,
        other => panic!("expected a save, got {:?}", other),
    };
    assert_eq!(saved.features[0].children[0].slot, Some(Slot::new(0, Some(1))));
    assert_eq!(saved.name.name, "Vynne");
    assert!(state_of(&character).saving);
    assert!(!state_of(&character).dirty);
    assert_eq!(
        state_of(&character).features.feature_state[0].rolls_state[0].external_bonuses,
        vec![RollBonus::Proficiency]
    );

    // While the first save is under way, a second change waits.
    assert!(matches!(character.update(use_surge()), Task::Idle));
    assert!(state_of(&character).dirty);
    // When the save has ended, the waiting change is written down.
    let task = character.update(Message::Saved(Ok(())));
    match task {
        Task::Save(saved) => {
            assert_eq!(saved.features[0].children[0].slot, Some(Slot::new(-1, Some(1))))
        }
        other => panic!("expected a save, got {:?}", other),
    }
    assert!(matches!(character.update(Message::Saved(Ok(()))), Task::Idle));
    assert!(!state_of(&character).saving);
}

#[test]
fn what_changes_nothing_is_not_written_down() {
    let mut character = loaded();
    for message in [
        Message::Feature(FeatureMessage::Slot(
            FeaturePath::of(vec!["Nowhere".to_string()]),
            SlotCommand::Use,
        )),
        Message::Feature(FeatureMessage::Slot(
            FeaturePath::of(vec!["Fighter".to_string(), "Action Surge".to_string()]),
            SlotCommand::Reset,
        )),
        Message::HitPoint(HitPointMessage::IncrementHealthDelta),
        Message::ResetEffects,
        Message::Loaded(Err(LoadError::Serialize("late".to_string()))),
    ] {
        assert!(matches!(character.update(message), Task::Idle));
    }
    let task = character.update(Message::HitPoint(HitPointMessage::Heal));
    match task {
        Task::Save(saved) => assert_eq!(saved.hit_points.current_hit_points, 21),
        other => panic!("expected a save, got {:?}", other),
    }
}

#[test]
fn keys_and_configs() {
    assert_eq!(CharacterPersistence::key("vynne".to_string()), "characters/vynne.json");
    assert_eq!(CharacterPersistence::key("".to_string()), "characters/.json");
    let config = CharacterPersistenceConfig::new("root".to_string(), "id".to_string());
    assert_eq!(config.storage_root(), "root");
    assert_eq!(config.clone(), config);
    let from = CharacterPersistence::from(
        written().name,
        Description::default(),
        AbilityScores::default(),
        vec![],
        HitPoints::default(),
        written().proficiencies,
        vec![],
        config.clone(),
    );
    assert_eq!(from.name.name, "Vynne");
    assert_eq!(from.config, config);
    assert_eq!(from.description.size, Size::Medium);
    let resources = ResourcePersistence::from(Templates::default()).resources();
    assert!(resources.templates().features().is_empty());
    assert_eq!(ResourcePersistenceConfig::of("root".to_string()).storage_root, "root");
}

#[test]
fn what_is_equipped_has_effects() {
    let item = |name: &str, features| InventoryItem {
        name: name.to_string(),
        item_name: "Thing".to_string(),
        features,
    };
    let inventory = Inventory {
        equipped: vec![item("Belt", Some(vec![fighter()])), item("Boots", None)],
        on_person: vec![item("Spare", Some(vec![fighter()]))],
    };
    let state = Inventory {
        equipped: inventory.equipped.clone(),
        on_person: inventory.on_person.clone(),
    }
    .to_state(&Templates::default());
    assert_eq!(state.effects_from_equipped(), fighter().effects);
    assert_eq!(state.on_person[0].effects(), fighter().effects);
    assert!(state.equipped[1].effects().is_empty());
    assert_eq!(state.persistable(), inventory);
}

#[test]
fn weapon_properties_as_features() {
    let versatile = Property::Versatile { damage: vec![slashing(d(1, 10))] }.feature();
    assert_eq!(versatile.name, "Versatile");
    assert_eq!(
        versatile.description,
        Some("Two handed Damage: 1d10 Slashing".to_string())
    );
    assert_eq!(versatile.slot, None);
    let range = Property::Range { normal: 80, long: 320 }.feature();
    assert_eq!(range.name, "Range");
    assert_eq!(range.description, Some("80/320".to_string()));
    let thrown = Property::Thrown { normal: 20, long: 60, available: 3 }.feature();
    assert_eq!(thrown.name, "Thrown");
    assert_eq!(thrown.description, Some("20/60".to_string()));
    assert_eq!(thrown.slot, Some(Slot::new(3, Some(1))));
    assert_eq!(Property::Heavy.feature(), Feature::new("unimplemented"));
    assert_eq!(
        Property::Ammunition { remaining: 20 }.feature().name,
        "unimplemented"
    );
    let built = Feature::new("a").with_description("b".to_string()).with_slot(1, None);
    assert_eq!(built.name, "a");
    assert_eq!(built.description, Some("b".to_string()));
    assert_eq!(built.slot, Some(Slot::new(1, None)));
    assert!(built.children.is_empty() && built.effects.is_empty());
}

#[test]
fn effects_meant_for_spell_attacks_reach_them() {
    let wizard = Spellcasting {
        class: "Wizard".to_string(),
        ability: Intelligence,
        additional_modifiers: vec![],
        additional_save_modifiers: vec![],
    };
    let cleric = Spellcasting {
        class: "Cleric".to_string(),
        ability: Wisdom,
        additional_modifiers: vec![],
        additional_save_modifiers: vec![],
    };
    let scope = |ability: Option<Ability>, name: &str| {
        let mut scope = RollScope::default();
        scope.name(name.to_string());
        if let Some(ability) = ability {
            scope.ability(ability);
        }
        scope
    };
    let mut tagged = scope(None, "Spell Attack");
    tagged.tag("type".to_string(), vec!["Attack".to_string()]);
    let effects = vec![
        Effect::Roll { bonus: RollBonus::Modifier(1), scope: scope(None, "Spell Attack") },
        Effect::Roll {
            bonus: RollBonus::Modifier(2),
            scope: scope(Some(Intelligence), "Spell Attack"),
        },
        Effect::Roll { bonus: RollBonus::Modifier(100), scope: scope(None, "Attack") },
        Effect::Roll { bonus: RollBonus::Modifier(100), scope: RollScope::default() },
        Effect::Roll { bonus: RollBonus::Modifier(100), scope: tagged },
        Effect::Roll {
            bonus: RollBonus::Advantage(Advantage::Advantage),
            scope: scope(Some(Wisdom), "Spell Attack"),
        },
        Effect::Ability {
            bonus: character_sheet::ability_score::AbilityScoreBonus::Modifier { modifier: 100 },
            ability: Intelligence,
        },
    ];
    let mut all = SpellcastingsState::from(vec![wizard.clone(), cleric], class_leveled(1));
    all.apply_all(&effects);
    assert_eq!(
        all.spellcasting_states[0].spell_modifiers,
        vec![CheckBonus::Modifier(1), CheckBonus::Modifier(2)]
    );
    assert_eq!(
        all.spellcasting_states[1].spell_modifiers,
        vec![CheckBonus::Modifier(1), CheckBonus::Advantage(Advantage::Advantage)]
    );
    let mut one = SpellcastingState::from(wizard, 2);
    one.apply(effects[0].clone());
    one.apply(effects[2].clone());
    one.apply_all(&effects);
    assert_eq!(
        one.spell_modifiers,
        vec![CheckBonus::Modifier(1), CheckBonus::Modifier(1), CheckBonus::Modifier(2)]
    );
    let scores = AbilityScores::default()
        .with(Intelligence, AbilityScore::of(16))
        .to_state()
        .modified();
    assert_eq!(one.modified(&scores).spell_modifier().bonus(), 3 + 2 + 4);
}

#[test]
fn a_weapon_is_equipment_with_an_attack() {
    let attack = EquipmentAttack {
        range: EquipmentRange::Melee,
        damage: vec![slashing(d(1, 8))],
        properties: vec![Property::Versatile { damage: vec![slashing(d(1, 10))] }],
    };
    let longsword = Equipment::weapon(
        "Longsword".to_string(),
        Weight::new(3, 0),
        "Martial Melee Weapon".to_string(),
        EquipmentAttack {
            range: EquipmentRange::Melee,
            damage: vec![slashing(d(1, 8))],
            properties: vec![Property::Versatile { damage: vec![slashing(d(1, 10))] }],
        },
    );
    assert_eq!(longsword.name, "Longsword");
    assert_eq!(longsword.weight, Weight::new(3, 0));
    assert_eq!(longsword.equipment_type, "Martial Melee Weapon");
    assert_eq!(longsword.attack, Some(attack));
    assert!(longsword.features.is_empty());
}

#[test]
fn typed_amounts_are_read_as_decimal_numbers() {
    let mut state = HitPoints { current_hit_points: 0, max_hit_points: 0 }.to_state();
    let mut typed = |text: &str| {
        state.set_delta(Some(-1));
        state.update(HitPointMessage::ChangeHealthDelta(text.to_string()));
        state.hp_delta
    };
    assert_eq!(typed("12"), 12);
    assert_eq!(typed("+7"), 7);
    assert_eq!(typed("007"), 7);
    assert_eq!(typed("-0"), 0);
    assert_eq!(typed("-45"), -45);
    assert_eq!(typed(&isize::MAX.to_string()), isize::MAX);
    assert_eq!(typed(&isize::MIN.to_string()), isize::MIN);
    for unread in ["", "+", "-", " 5", "5 ", "1 2", "--5", "+-5", "1.5", "0x10", "five", "99999999999999999999999"] {
        assert_eq!(typed(unread), -1);
    }
}
