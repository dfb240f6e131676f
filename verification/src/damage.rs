//! Damage: dice, a fixed amount and a kind.

use vstd::prelude::*;
use vstd::string::StringExecFns;
use crate::feature_path::{path_text, FeaturePath, FeaturePathView};
use crate::roll::{dice_text, Dice};
use crate::rollable::in_range;
use crate::text::{format_modifier, join, joined, modifier_text, strings_view};

verus! {

/// The kind of a damage: slashing, fire, and so on.
pub type DamageType = String;

/// An amount of damage of one kind.
#[derive(Debug, PartialEq, Eq)]
pub struct Damage {
    pub dice: Dice,
    pub additional: Option<isize>,
    pub damage_type: DamageType,
}

/// What a `Damage` stands for in contracts.
pub struct DamageView {
    pub dice: Dice,
    pub additional: Option<isize>,
    pub damage_type: Seq<char>,
}

impl View for Damage {
    type V = DamageView;

    open spec fn view(&self) -> DamageView {
        DamageView {
            dice: self.dice,
            additional: self.additional,
            damage_type: self.damage_type@,
        }
    }
}

impl Clone for Damage {
    fn clone(&self) -> (r: Damage)
        ensures
            r@ == self@,
    {
        Damage {
            dice: self.dice,
            additional: self.additional,
            damage_type: self.damage_type.clone(),
        }
    }
}

/// What a list of damages stands for in contracts.
pub open spec fn damages_view(damage: Seq<Damage>) -> Seq<DamageView> {
    damage.map_values(|d: Damage| d@)
}

/// The amount of a damage in words: the dice where there are any, then
/// the fixed amount with its sign where it is not zero.
pub open spec fn amount_text(damage: DamageView) -> Seq<char> {
    (if damage.dice.count > 0 {
        dice_text(damage.dice)
    } else {
        Seq::empty()
    }) + (match damage.additional {
        Some(a) => if a != 0 {
            modifier_text(a as int)
        } else {
            Seq::empty()
        },
        None => Seq::empty(),
    })
}

/// A damage in words: the amount, a space, the kind. Without dice and
/// without a fixed amount the space and the kind remain.
pub open spec fn damage_text(damage: DamageView) -> Seq<char> {
    amount_text(damage) + " "@ + damage.damage_type
}

/// The words of each damage of a list.
pub open spec fn damage_texts(damage: Seq<DamageView>) -> Seq<Seq<char>> {
    damage.map_values(|d: DamageView| damage_text(d))
}

impl Damage {
    pub fn new(dice: Dice, additional: Option<isize>, damage_type: DamageType) -> (r: Damage)
        ensures
            r@ == (DamageView { dice, additional, damage_type: damage_type@ }),
    {
        Damage { dice, additional, damage_type }
    }

    pub fn to_string(&self) -> (r: String)
        ensures
            r@ == damage_text(self@),
    {
        let mut out = String::new();
        if self.dice.count > 0 {
            out.append(self.dice.to_string().as_str());
        }
        match self.additional {
            Some(additional) => {
                if additional != 0 {
                    out.append(format_modifier(additional).as_str());
                }
            },
            None => {},
        }
        assert(out@ =~= amount_text(self@));
        out.append(" ");
        out.append(self.damage_type.as_str());
        out
    }
}

/// The words of each damage of a list.
fn damage_strings(damage: &Vec<Damage>) -> (r: Vec<String>)
    ensures
        strings_view(r@) == damage_texts(damages_view(damage@)),
{
    let mut texts: Vec<String> = Vec::new();
    let mut i: usize = 0;
    while i < damage.len()
        invariant
            i <= damage.len(),
            texts@.len() == i,
            forall|k: int| 0 <= k < i ==> (#[trigger] texts@[k])@ == damage_text(damage@[k]@),
        decreases damage.len() - i,
    {
        texts.push(damage[i].to_string());
        i += 1;
    }
    assert(strings_view(texts@) =~= damage_texts(damages_view(damage@)));
    texts
}

/// A list of damages in words, with ` , ` between them.
pub fn display_damage(damage: Vec<Damage>) -> (r: String)
    ensures
        r@ == joined(damage_texts(damages_view(damage@)), " , "@),
{
    let texts = damage_strings(&damage);
    join(&texts, " , ")
}

/// The damage rolls that a bonus is meant for.
#[derive(Debug, PartialEq, Eq)]
pub enum DamageRollScope {
    Attack,
    Spell,
    Feature(FeaturePath),
}

/// What a `DamageRollScope` stands for in contracts.
pub enum DamageRollScopeView {
    Attack,
    Spell,
    Feature(FeaturePathView),
}

impl View for DamageRollScope {
    type V = DamageRollScopeView;

    open spec fn view(&self) -> DamageRollScopeView {
        match self {
            DamageRollScope::Attack => DamageRollScopeView::Attack,
            DamageRollScope::Spell => DamageRollScopeView::Spell,
            DamageRollScope::Feature(path) => DamageRollScopeView::Feature(path@),
        }
    }
}

impl Clone for DamageRollScope {
    fn clone(&self) -> (r: DamageRollScope)
        ensures
            r@ == self@,
    {
        match self {
            DamageRollScope::Attack => DamageRollScope::Attack,
            DamageRollScope::Spell => DamageRollScope::Spell,
            DamageRollScope::Feature(path) => DamageRollScope::Feature(path.clone()),
        }
    }
}

/// How a damage scope is written.
pub open spec fn damage_scope_text(scope: DamageRollScopeView) -> Seq<char> {
    match scope {
        DamageRollScopeView::Attack => "Attack Damage"@,
        DamageRollScopeView::Spell => "Spell Damage"@,
        DamageRollScopeView::Feature(path) => "Damage from "@ + path_text(path),
    }
}

impl DamageRollScope {
    pub fn to_string(&self) -> (r: String)
        ensures
            r@ == damage_scope_text(self@),
    {
        match self {
            DamageRollScope::Attack => String::from_str("Attack Damage"),
            DamageRollScope::Spell => String::from_str("Spell Damage"),
            DamageRollScope::Feature(path) => {
                let mut out = String::from_str("Damage from ");
                out.append(path.to_string().as_str());
                out
            },
        }
    }
}

/// The damage of one attack, kind by kind.
#[derive(Debug)]
pub struct DamageRoll {
    pub damage: Vec<Damage>,
}

impl View for DamageRoll {
    type V = Seq<DamageView>;

    open spec fn view(&self) -> Seq<DamageView> {
        damages_view(self.damage@)
    }
}

impl Clone for DamageRoll {
    fn clone(&self) -> (r: DamageRoll)
        ensures
            r@ == self@,
    {
        let mut damage: Vec<Damage> = Vec::new();
        let mut i: usize = 0;
        while i < self.damage.len()
            invariant
                i <= self.damage.len(),
                damage@.len() == i,
                forall|k: int| 0 <= k < i ==> (#[trigger] damage@[k])@ == self.damage@[k]@,
            decreases self.damage.len() - i,
        {
            damage.push(self.damage[i].clone());
            i += 1;
        }
        let r = DamageRoll { damage };
        assert(r@ =~= self@);
        r
    }
}

/// The fixed amount of a damage, nothing counting as zero.
pub open spec fn fixed_amount(damage: DamageView) -> int {
    match damage.additional {
        Some(a) => a as int,
        None => 0,
    }
}

/// A damage roll with a modifier: added to the fixed amount of the first
/// damage, or, where there is no damage yet, a fixed amount of unknown
/// kind.
pub open spec fn with_modifier(damage: Seq<DamageView>, modifier: isize) -> Seq<DamageView> {
    if damage.len() > 0 {
        damage.update(
            0,
            DamageView {
                additional: Some((modifier + fixed_amount(damage[0])) as isize),
                ..damage[0]
            },
        )
    } else {
        seq![
            DamageView {
                dice: Dice { count: 0, sides: 0 },
                additional: Some(modifier),
                damage_type: "Unknown"@,
            },
        ]
    }
}

impl DamageRoll {
    pub fn from(damage: Vec<Damage>) -> (r: DamageRoll)
        ensures
            r.damage == damage,
    {
        DamageRoll { damage }
    }

    /// The same damage with `modifier` added to its first kind.
    pub fn with_modifier(&self, modifier: isize) -> (r: DamageRoll)
        requires
            self@.len() > 0 ==> in_range(modifier + fixed_amount(self@[0])),
        ensures
            r@ == with_modifier(self@, modifier),
    {
        let copy = self.clone();
        let mut damage = copy.damage;
        if damage.len() > 0 {
            let head = damage[0].clone();
            let given = match head.additional {
                Some(a) => a,
                None => 0,
            };
            damage[0] = Damage {
                dice: head.dice,
                additional: Some(modifier + given),
                damage_type: head.damage_type,
            };
        } else {
            damage.push(Damage::new(Dice::new(0, 0), Some(modifier), String::from_str("Unknown")));
        }
        let r = DamageRoll { damage };
        assert(r@ =~= with_modifier(self@, modifier));
        r
    }

    /// The same damage with one more kind at the end.
    pub fn with_extra_damage(&self, additional: Damage) -> (r: DamageRoll)
        ensures
            r@ == self@.push(additional@),
    {
        let copy = self.clone();
        let mut damage = copy.damage;
        damage.push(additional);
        let r = DamageRoll { damage };
        assert(r@ =~= self@.push(additional@));
        r
    }

    /// The damage in words, kind by kind with ` + ` between.
    pub fn to_string(&self) -> (r: String)
        ensures
            r@ == joined(damage_texts(self@), " + "@),
    {
        let texts = damage_strings(&self.damage);
        join(&texts, " + ")
    }
}

} // verus!
