//! Attacks: a check to hit and the damage of a hit.

use vstd::prelude::*;
use vstd::string::StringExecFns;
use crate::check::{CheckRoll, CheckTotals};
use crate::damage::{Damage, DamageRoll, DamageView};
use crate::feature_path::FeaturePath;
use crate::text::{decimal_string, signed_decimal};

verus! {

/// How far an attack reaches.
#[derive(Debug, Clone, Copy, PartialEq, Eq, Structural)]
pub enum AttackRange {
    Melee,
    Range { normal: isize, long: isize },
}

/// How the reach of an attack is written.
pub open spec fn attack_range_text(range: AttackRange) -> Seq<char> {
    match range {
        AttackRange::Melee => "Melee"@,
        AttackRange::Range { normal, long } => "Ranged("@ + signed_decimal(normal as int) + "/"@
            + signed_decimal(long as int) + ")"@,
    }
}

impl AttackRange {
    pub fn to_string(&self) -> (r: String)
        ensures
            r@ == attack_range_text(*self),
    {
        match self {
            AttackRange::Melee => String::from_str("Melee"),
            AttackRange::Range { normal, long } => {
                let mut out = String::from_str("Ranged(");
                out.append(decimal_string(*normal).as_str());
                out.append("/");
                out.append(decimal_string(*long).as_str());
                out.append(")");
                out
            },
        }
    }
}

/// One way to attack with a weapon.
#[derive(Debug)]
pub struct Attack {
    pub name: String,
    pub range: AttackRange,
    pub attack: CheckRoll,
    pub damage: DamageRoll,
}

/// What an `Attack` stands for in contracts.
pub struct AttackView {
    pub name: Seq<char>,
    pub range: AttackRange,
    pub attack: CheckTotals,
    pub damage: Seq<DamageView>,
}

impl View for Attack {
    type V = AttackView;

    open spec fn view(&self) -> AttackView {
        AttackView {
            name: self.name@,
            range: self.range,
            attack: self.attack@,
            damage: self.damage@,
        }
    }
}

impl Clone for Attack {
    fn clone(&self) -> (r: Attack)
        ensures
            r@ == self@,
    {
        Attack {
            name: self.name.clone(),
            range: self.range,
            attack: self.attack.clone(),
            damage: self.damage.clone(),
        }
    }
}

impl Attack {
    pub fn new(name: &str, range: AttackRange, attack: CheckRoll, damage: DamageRoll) -> (r: Attack)
        ensures
            r@ == (AttackView { name: name@, range, attack: attack@, damage: damage@ }),
    {
        Attack { name: String::from_str(name), range, attack, damage }
    }

    /// Takes `path` one step, into this attack.
    pub fn matches(&self, path: FeaturePath) -> (r: (bool, FeaturePath))
        ensures
            r.0 == path@.step(self@.name).0,
            r.1@ == path@.step(self@.name).1,
    {
        path.matches(self.name.clone())
    }

    /// The same attack with one more kind of damage.
    pub fn with_extra_damage(&self, additional: Damage) -> (r: Attack)
        ensures
            r@ == (AttackView { damage: self@.damage.push(additional@), ..self@ }),
    {
        let mut attack = self.clone();
        attack.damage = attack.damage.with_extra_damage(additional);
        attack
    }

    /// The same attack with another check folded into the check to hit.
    pub fn with_extra_check(&self, additional: CheckRoll) -> (r: Attack)
        requires
            self@.attack.plus(additional@).fits(),
        ensures
            r@ == (AttackView { attack: self@.attack.plus(additional@), ..self@ }),
    {
        let mut attack = self.clone();
        attack.attack = attack.attack.merge(additional);
        attack
    }
}

} // verus!
