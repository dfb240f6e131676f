//! Equipment: weapons described by their properties, each of which can
//! be shown as a feature.

use vstd::prelude::*;
use vstd::string::StringExecFns;
use crate::damage::{damage_texts, damages_view, display_damage, Damage, DamageView};
use crate::dimensions::Weight;
use crate::feature::{Feature, FeatureView};
use crate::slot::Slot;
use crate::text::{decimal_string, joined, signed_decimal};
use crate::weapon::clone_damages;

verus! {

/// What sets a piece of equipment apart as a weapon.
#[derive(Debug, PartialEq, Eq)]
pub enum WeaponProperty {
    Versatile { damage: Vec<Damage> },
    Range { normal: isize, long: isize },
    /// Can be thrown; `available` says how many are at hand.
    Thrown { normal: isize, long: isize, available: isize },
    Ammunition { remaining: isize },
    Reach,
    Loading,
    Reload,
    Misfire,
    Light,
    Finesse,
    Heavy,
    TwoHanded,
}

/// What a `WeaponProperty` stands for in contracts.
pub enum WeaponPropertyView {
    Versatile { damage: Seq<DamageView> },
    Range { normal: isize, long: isize },
    Thrown { normal: isize, long: isize, available: isize },
    Ammunition { remaining: isize },
    Reach,
    Loading,
    Reload,
    Misfire,
    Light,
    Finesse,
    Heavy,
    TwoHanded,
}

impl View for WeaponProperty {
    type V = WeaponPropertyView;

    open spec fn view(&self) -> WeaponPropertyView {
        match self {
            WeaponProperty::Versatile { damage } => WeaponPropertyView::Versatile {
                damage: damages_view(damage@),
            },
            WeaponProperty::Range { normal, long } => WeaponPropertyView::Range {
                normal: *normal,
                long: *long,
            },
            WeaponProperty::Thrown { normal, long, available } => WeaponPropertyView::Thrown {
                normal: *normal,
                long: *long,
                available: *available,
            },
            WeaponProperty::Ammunition { remaining } => WeaponPropertyView::Ammunition {
                remaining: *remaining,
            },
            WeaponProperty::Reach => WeaponPropertyView::Reach,
            WeaponProperty::Loading => WeaponPropertyView::Loading,
            WeaponProperty::Reload => WeaponPropertyView::Reload,
            WeaponProperty::Misfire => WeaponPropertyView::Misfire,
            WeaponProperty::Light => WeaponPropertyView::Light,
            WeaponProperty::Finesse => WeaponPropertyView::Finesse,
            WeaponProperty::Heavy => WeaponPropertyView::Heavy,
            WeaponProperty::TwoHanded => WeaponPropertyView::TwoHanded,
        }
    }
}

/// Two distances as they are written: the normal one, a stroke, the long
/// one.
pub open spec fn distances_text(normal: isize, long: isize) -> Seq<char> {
    signed_decimal(normal as int) + "/"@ + signed_decimal(long as int)
}

/// The feature that shows a property. A versatile weapon shows its
/// two-handed damage and a weapon with a range its distances; one that
/// can be thrown shows its distances and, as a slot, how many are at
/// hand of what comes one at a time. The other properties are not shown
/// yet.
pub open spec fn property_feature(property: WeaponPropertyView) -> FeatureView {
    match property {
        WeaponPropertyView::Versatile { damage } => FeatureView {
            name: "Versatile"@,
            description: Some("Two handed Damage: "@ + joined(damage_texts(damage), " , "@)),
            ..FeatureView::empty()
        },
        WeaponPropertyView::Range { normal, long } => FeatureView {
            name: "Range"@,
            description: Some(distances_text(normal, long)),
            ..FeatureView::empty()
        },
        WeaponPropertyView::Thrown { normal, long, available } => FeatureView {
            name: "Thrown"@,
            description: Some(distances_text(normal, long)),
            slot: Some(Slot { current: available, max: Some(1) }),
            ..FeatureView::empty()
        },
        _ => FeatureView { name: "unimplemented"@, ..FeatureView::empty() },
    }
}

/// Writes two distances.
fn distances(normal: isize, long: isize) -> (r: String)
    ensures
        r@ == distances_text(normal, long),
{
    let mut out = decimal_string(normal);
    out.append("/");
    out.append(decimal_string(long).as_str());
    out
}

impl WeaponProperty {
    /// The feature that shows this property.
    pub fn feature(&self) -> (r: Feature)
        ensures
            r@ == property_feature(self@),
    {
        match self {
            WeaponProperty::Versatile { damage } => {
                let mut description = String::from_str("Two handed Damage: ");
                description.append(display_damage(clone_damages(damage)).as_str());
                Feature::new("Versatile").with_description(description)
            },
            WeaponProperty::Range { normal, long } => Feature::new("Range").with_description(
                distances(*normal, *long),
            ),
            WeaponProperty::Thrown { normal, long, available } => Feature::new(
                "Thrown",
            ).with_description(distances(*normal, *long)).with_slot(*available, Some(1)),
            _ => Feature::new("unimplemented"),
        }
    }
}

/// How far an attack with a piece of equipment reaches.
#[derive(Debug, Clone, Copy, PartialEq, Eq, Structural)]
pub enum AttackRange {
    Melee,
    Ranged { standard: isize, extended: isize },
}

/// The attack that a piece of equipment allows.
#[derive(Debug, PartialEq, Eq)]
pub struct Attack {
    pub range: AttackRange,
    pub damage: Vec<Damage>,
    pub properties: Vec<WeaponProperty>,
}

/// A piece of equipment.
#[derive(Debug, PartialEq, Eq)]
pub struct Equipment {
    pub name: String,
    pub weight: Weight,
    pub equipment_type: String,
    pub attack: Option<Attack>,
    pub features: Vec<Feature>,
}

impl Equipment {
    /// A weapon: a piece of equipment that allows an attack and has no
    /// features of its own yet.
    pub fn weapon(name: String, weight: Weight, equipment_type: String, attack: Attack) -> (r:
        Equipment)
        ensures
            r.name == name,
            r.weight == weight,
            r.equipment_type == equipment_type,
            r.attack == Some(attack),
            r.features@.len() == 0,
    {
        Equipment { name, weight, equipment_type, attack: Some(attack), features: Vec::new() }
    }
}

} // verus!
