//! Weapons and the attacks that can be made with them.

use vstd::prelude::*;
use vstd::string::StringExecFns;
use crate::ability_score::{modifier_of, Ability};
use crate::ability_score_state::ModifiedAbilityScores;
use crate::attack::{Attack, AttackRange, AttackView};
use crate::check::CheckTotals;
use crate::damage::{
    damage_texts, damages_view, display_damage, fixed_amount, with_modifier, Damage, DamageRoll,
    DamageView,
};
use crate::rollable::in_range;
use crate::seqs::{collect, collect_step};
use crate::text::{decimal_string, joined, signed_decimal};

verus! {

/// What sets a weapon apart.
#[derive(Debug, PartialEq, Eq)]
pub enum WeaponProperty {
    Versatile { damage: Vec<Damage> },
    Range { normal: isize, long: isize },
    Thrown { normal: isize, long: isize },
    Ammunition,
    Reach,
    Loading,
    Light,
    Finesse,
    Heavy,
    TwoHanded,
    Special,
}

/// What a `WeaponProperty` stands for in contracts.
pub enum WeaponPropertyView {
    Versatile { damage: Seq<DamageView> },
    Range { normal: isize, long: isize },
    Thrown { normal: isize, long: isize },
    Ammunition,
    Reach,
    Loading,
    Light,
    Finesse,
    Heavy,
    TwoHanded,
    Special,
}

impl View for WeaponProperty {
    type V = WeaponPropertyView;

    open spec fn view(&self) -> WeaponPropertyView {
        match self {
            WeaponProperty::Versatile { damage } => WeaponPropertyView::Versatile {
                damage: damages_view(damage@),
            },
            WeaponProperty::Range { normal, long } => WeaponPropertyView::Range {
                normal: *normal,
                long: *long,
            },
            WeaponProperty::Thrown { normal, long } => WeaponPropertyView::Thrown {
                normal: *normal,
                long: *long,
            },
            WeaponProperty::Ammunition => WeaponPropertyView::Ammunition,
            WeaponProperty::Reach => WeaponPropertyView::Reach,
            WeaponProperty::Loading => WeaponPropertyView::Loading,
            WeaponProperty::Light => WeaponPropertyView::Light,
            WeaponProperty::Finesse => WeaponPropertyView::Finesse,
            WeaponProperty::Heavy => WeaponPropertyView::Heavy,
            WeaponProperty::TwoHanded => WeaponPropertyView::TwoHanded,
            WeaponProperty::Special => WeaponPropertyView::Special,
        }
    }
}

/// How a weapon property is written.
pub open spec fn property_text(property: WeaponPropertyView) -> Seq<char> {
    match property {
        WeaponPropertyView::Versatile { damage } => "Versatile("@ + joined(
            damage_texts(damage),
            " , "@,
        ) + ")"@,
        WeaponPropertyView::Range { normal, long } => "Range("@ + signed_decimal(normal as int)
            + "/"@ + signed_decimal(long as int) + ")"@,
        WeaponPropertyView::Thrown { normal, long } => "Thrown("@ + signed_decimal(normal as int)
            + "/"@ + signed_decimal(long as int) + ")"@,
        WeaponPropertyView::Ammunition => "Ammunition"@,
        WeaponPropertyView::Reach => "Reach"@,
        WeaponPropertyView::Loading => "Loading"@,
        WeaponPropertyView::Light => "Light"@,
        WeaponPropertyView::Finesse => "Finesse"@,
        WeaponPropertyView::Heavy => "Heavy"@,
        WeaponPropertyView::TwoHanded => "Two Handed"@,
        WeaponPropertyView::Special => "Special"@,
    }
}

/// A copy of a list of damages.
pub fn clone_damages(damage: &Vec<Damage>) -> (r: Vec<Damage>)
    ensures
        damages_view(r@) == damages_view(damage@),
{
    let mut r: Vec<Damage> = Vec::new();
    let mut i: usize = 0;
    while i < damage.len()
        invariant
            i <= damage.len(),
            r@.len() == i,
            forall|k: int| 0 <= k < i ==> (#[trigger] r@[k])@ == damage@[k]@,
        decreases damage.len() - i,
    {
        r.push(damage[i].clone());
        i += 1;
    }
    assert(damages_view(r@) =~= damages_view(damage@));
    r
}

/// Two numbers in brackets after a word, with a stroke between them.
fn bracketed(word: &str, normal: isize, long: isize) -> (r: String)
    ensures
        r@ == word@ + "("@ + signed_decimal(normal as int) + "/"@ + signed_decimal(long as int)
            + ")"@,
{
    let mut out = String::from_str(word);
    out.append("(");
    out.append(decimal_string(normal).as_str());
    out.append("/");
    out.append(decimal_string(long).as_str());
    out.append(")");
    out
}

impl WeaponProperty {
    pub fn to_string(&self) -> (r: String)
        ensures
            r@ == property_text(self@),
    {
        match self {
            WeaponProperty::Versatile { damage } => {
                let mut out = String::from_str("Versatile(");
                out.append(display_damage(clone_damages(damage)).as_str());
                out.append(")");
                out
            },
            WeaponProperty::Range { normal, long } => {
                let out = bracketed("Range", *normal, *long);
                proof {
                    reveal_strlit("Range");
                    reveal_strlit("Range(");
                    reveal_strlit("(");
                    assert("Range"@ + "("@ =~= "Range("@);
                }
                out
            },
            WeaponProperty::Thrown { normal, long } => {
                let out = bracketed("Thrown", *normal, *long);
                proof {
                    reveal_strlit("Thrown");
                    reveal_strlit("Thrown(");
                    reveal_strlit("(");
                    assert("Thrown"@ + "("@ =~= "Thrown("@);
                }
                out
            },
            WeaponProperty::Ammunition => String::from_str("Ammunition"),
            WeaponProperty::Reach => String::from_str("Reach"),
            WeaponProperty::Loading => String::from_str("Loading"),
            WeaponProperty::Light => String::from_str("Light"),
            WeaponProperty::Finesse => String::from_str("Finesse"),
            WeaponProperty::Heavy => String::from_str("Heavy"),
            WeaponProperty::TwoHanded => String::from_str("Two Handed"),
            WeaponProperty::Special => String::from_str("Special"),
        }
    }
}

/// What a list of weapon properties stands for in contracts.
pub open spec fn properties_view(properties: Seq<WeaponProperty>) -> Seq<WeaponPropertyView> {
    properties.map_values(|p: WeaponProperty| p@)
}

/// A weapon: the damage of a hit and the weapon's properties.
#[derive(Debug, PartialEq, Eq)]
pub struct Weapon {
    pub damage: Vec<Damage>,
    pub properties: Vec<WeaponProperty>,
}

/// What a `Weapon` stands for in contracts.
pub struct WeaponView {
    pub damage: Seq<DamageView>,
    pub properties: Seq<WeaponPropertyView>,
}

impl View for Weapon {
    type V = WeaponView;

    open spec fn view(&self) -> WeaponView {
        WeaponView {
            damage: damages_view(self.damage@),
            properties: properties_view(self.properties@),
        }
    }
}

/// The reach that a property gives to shots.
pub open spec fn shot_range() -> spec_fn(WeaponPropertyView) -> Option<AttackRange> {
    |p: WeaponPropertyView|
        match p {
            WeaponPropertyView::Range { normal, long } => Some(AttackRange::Range { normal, long }),
            _ => None,
        }
}

/// The reach that a property gives to throws.
pub open spec fn throw_range() -> spec_fn(WeaponPropertyView) -> Option<AttackRange> {
    |p: WeaponPropertyView|
        match p {
            WeaponPropertyView::Thrown { normal, long } => Some(
                AttackRange::Range { normal, long },
            ),
            _ => None,
        }
}

/// A mark for the property of being versatile.
pub open spec fn versatile() -> spec_fn(WeaponPropertyView) -> Option<bool> {
    |p: WeaponPropertyView|
        match p {
            WeaponPropertyView::Versatile { .. } => Some(true),
            _ => None,
        }
}

/// A mark for the property of finesse.
pub open spec fn finesse() -> spec_fn(WeaponPropertyView) -> Option<bool> {
    |p: WeaponPropertyView|
        match p {
            WeaponPropertyView::Finesse => Some(true),
            _ => None,
        }
}

/// The attacks that a weapon allows, given the checks of strength and of
/// dexterity. First the main attack: a shot made with dexterity where the
/// weapon has a range, the last one named, and otherwise a blow struck
/// with strength. Then, where the weapon has them: a throw with
/// dexterity, a blow with dexterity for finesse, and a two-handed blow
/// with strength. Each attack's damage is the weapon's, with the bonus of
/// the attack's check added to its first kind.
pub open spec fn weapon_attacks(
    weapon: WeaponView,
    strength: CheckTotals,
    dexterity: CheckTotals,
) -> Seq<AttackView> {
    let shots = collect(weapon.properties, shot_range());
    let throws = collect(weapon.properties, throw_range());
    let strong = with_modifier(weapon.damage, strength.bonus as isize);
    let deft = with_modifier(weapon.damage, dexterity.bonus as isize);
    seq![
        if shots.len() > 0 {
            AttackView { name: "Range"@, range: shots.last(), attack: dexterity, damage: deft }
        } else {
            AttackView {
                name: "Melee"@,
                range: AttackRange::Melee,
                attack: strength,
                damage: strong,
            }
        },
    ] + (if throws.len() > 0 {
        seq![AttackView { name: "Throw"@, range: throws.last(), attack: dexterity, damage: deft }]
    } else {
        Seq::empty()
    }) + (if collect(weapon.properties, finesse()).len() > 0 {
        seq![
            AttackView {
                name: "Melee (Finesse)"@,
                range: AttackRange::Melee,
                attack: dexterity,
                damage: deft,
            },
        ]
    } else {
        Seq::empty()
    }) + (if collect(weapon.properties, versatile()).len() > 0 {
        seq![
            AttackView {
                name: "Melee (Two-Handed)"@,
                range: AttackRange::Melee,
                attack: strength,
                damage: strong,
            },
        ]
    } else {
        Seq::empty()
    })
}

/// The check of an ability: what was given to it, with the modifier of
/// the score.
pub open spec fn ability_check(scores: ModifiedAbilityScores, ability: Ability) -> CheckTotals {
    CheckTotals {
        bonus: scores.of(ability).modifier@.bonus + modifier_of(
            scores.of(ability).score.value as int,
        ),
        ..scores.of(ability).modifier@
    }
}

/// Whether the attacks of a weapon can be worked out in machine
/// integers.
pub open spec fn attacks_computable(weapon: WeaponView, scores: ModifiedAbilityScores) -> bool {
    &&& in_range(ability_check(scores, Ability::Strength).bonus)
    &&& in_range(ability_check(scores, Ability::Dexterity).bonus)
    &&& weapon.damage.len() > 0 ==> in_range(
        ability_check(scores, Ability::Strength).bonus + fixed_amount(weapon.damage[0]),
    ) && in_range(
        ability_check(scores, Ability::Dexterity).bonus + fixed_amount(weapon.damage[0]),
    )
}

/// What a list of attacks stands for in contracts.
pub open spec fn attacks_view(attacks: Seq<Attack>) -> Seq<AttackView> {
    attacks.map_values(|a: Attack| a@)
}

impl Weapon {
    pub fn new(damage: Vec<Damage>, properties: Vec<WeaponProperty>) -> (r: Weapon)
        ensures
            r.damage == damage,
            r.properties == properties,
    {
        Weapon { damage, properties }
    }

    /// The attacks that the weapon allows a character of these scores.
    pub fn attacks(&self, ability_scores: ModifiedAbilityScores) -> (r: Vec<Attack>)
        requires
            attacks_computable(self@, ability_scores),
        ensures
            attacks_view(r@) == weapon_attacks(
                self@,
                ability_check(ability_scores, Ability::Strength),
                ability_check(ability_scores, Ability::Dexterity),
            ),
    {
        let ghost all = self@.properties;
        let mut range: Option<AttackRange> = None;
        let mut thrown: Option<AttackRange> = None;
        let mut is_versatile = false;
        let mut has_finesse = false;
        let mut i: usize = 0;
        assert(all.take(0) =~= Seq::empty());
        while i < self.properties.len()
            invariant
                i <= self.properties.len(),
                all == properties_view(self.properties@),
                match range {
                    Some(found) => collect(all.take(i as int), shot_range()).len() > 0 && collect(
                        all.take(i as int),
                        shot_range(),
                    ).last() == found,
                    None => collect(all.take(i as int), shot_range()).len() == 0,
                },
                match thrown {
                    Some(found) => collect(all.take(i as int), throw_range()).len() > 0 && collect(
                        all.take(i as int),
                        throw_range(),
                    ).last() == found,
                    None => collect(all.take(i as int), throw_range()).len() == 0,
                },
                is_versatile == (collect(all.take(i as int), versatile()).len() > 0),
                has_finesse == (collect(all.take(i as int), finesse()).len() > 0),
            decreases self.properties.len() - i,
        {
            proof {
                collect_step(all, shot_range(), i as int);
                collect_step(all, throw_range(), i as int);
                collect_step(all, versatile(), i as int);
                collect_step(all, finesse(), i as int);
            }
            match &self.properties[i] {
                WeaponProperty::Range { normal, long } => {
                    range = Some(AttackRange::Range { normal: *normal, long: *long });
                },
                WeaponProperty::Thrown { normal, long } => {
                    thrown = Some(AttackRange::Range { normal: *normal, long: *long });
                },
                WeaponProperty::Versatile { damage } => {
                    is_versatile = true;
                },
                WeaponProperty::Finesse => {
                    has_finesse = true;
                },
                _ => {},
            }
            i += 1;
        }
        assert(all.take(all.len() as int) =~= all);
        let dexterity_roll = ability_scores.get(Ability::Dexterity).roll();
        let strength_roll = ability_scores.get(Ability::Strength).roll();
        let dexterity_damage = DamageRoll::from(clone_damages(&self.damage)).with_modifier(
            dexterity_roll.bonus(),
        );
        let strength_damage = DamageRoll::from(clone_damages(&self.damage)).with_modifier(
            strength_roll.bonus(),
        );
        let ghost wanted = weapon_attacks(
            self@,
            ability_check(ability_scores, Ability::Strength),
            ability_check(ability_scores, Ability::Dexterity),
        );
        let mut rolls: Vec<Attack> = Vec::new();
        match range {
            Some(range) => rolls.push(
                Attack::new("Range", range, dexterity_roll.clone(), dexterity_damage.clone()),
            ),
            None => rolls.push(
                Attack::new(
                    "Melee",
                    AttackRange::Melee,
                    strength_roll.clone(),
                    strength_damage.clone(),
                ),
            ),
        }
        match thrown {
            Some(range) => rolls.push(
                Attack::new("Throw", range, dexterity_roll.clone(), dexterity_damage.clone()),
            ),
            None => {},
        }
        if has_finesse {
            rolls.push(
                Attack::new(
                    "Melee (Finesse)",
                    AttackRange::Melee,
                    dexterity_roll.clone(),
                    dexterity_damage.clone(),
                ),
            )
        }
        if is_versatile {
            rolls.push(
                Attack::new(
                    "Melee (Two-Handed)",
                    AttackRange::Melee,
                    strength_roll.clone(),
                    strength_damage.clone(),
                ),
            )
        }
        assert(attacks_view(rolls@) =~= wanted);
        rolls
    }
}

} // verus!
