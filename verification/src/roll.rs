//! Rolls: what is rolled, what can be added to it, and the scopes that
//! say which rolls a bonus is meant for.

use std::collections::HashSet;
use vstd::prelude::*;
use vstd::string::StringExecFns;
use crate::ability_score::Ability;
use crate::feature_path::{FeaturePath, FeaturePathView};
use crate::ability_score::{modifier_of, AbilityScores};
use crate::effect::{Effect, EffectView};
use crate::feature::Feature;
use crate::overlay::Overlay;
use crate::rollable::{in_range, Resolved, Rollable, plus_associative};
use crate::seqs::{clone_numbers, no_numbers, unite_numbers};
use crate::tags::{covers, merged_tags, with_tag, Tags, TagsView};
use crate::text::{decimal_string, signed_decimal};

verus! {

/// A number of dice of one kind, such as `2d6`.
#[derive(Debug, Clone, Copy, PartialEq, Eq, Structural)]
pub struct Dice {
    pub count: isize,
    pub sides: isize,
}

/// How dice are written: count, `d`, sides. No dice are written as
/// nothing.
pub open spec fn dice_text(dice: Dice) -> Seq<char> {
    if dice.count == 0 {
        Seq::empty()
    } else {
        signed_decimal(dice.count as int) + seq!['d'] + signed_decimal(dice.sides as int)
    }
}

impl Dice {
    pub fn new(count: isize, sides: isize) -> (r: Dice)
        ensures
            r.count == count,
            r.sides == sides,
    {
        Dice { count, sides }
    }

    pub fn to_string(&self) -> (r: String)
        ensures
            r@ == dice_text(*self),
    {
        let mut out = String::new();
        if self.count != 0 {
            out.append(decimal_string(self.count).as_str());
            out.append("d");
            out.append(decimal_string(self.sides).as_str());
            proof {
                reveal_strlit("d");
                assert(out@ =~= dice_text(*self));
            }
        }
        out
    }
}

/// How each of a list of dice is written.
pub open spec fn dice_texts(dice: Seq<Dice>) -> Seq<Seq<char>> {
    dice.map_values(|d: Dice| dice_text(d))
}

/// A text, unless it is empty.
pub open spec fn written() -> spec_fn(Seq<char>) -> Option<Seq<char>> {
    |t: Seq<char>|
        if t.len() > 0 {
            Some(t)
        } else {
            None
        }
}

/// How each of a list of dice is written.
pub fn dice_strings(dice: &Vec<Dice>) -> (r: Vec<String>)
    ensures
        crate::text::strings_view(r@) == dice_texts(dice@),
{
    let mut texts: Vec<String> = Vec::new();
    let mut i: usize = 0;
    while i < dice.len()
        invariant
            i <= dice.len(),
            texts@.len() == i,
            forall|k: int| 0 <= k < i ==> (#[trigger] texts@[k])@ == dice_text(dice@[k]),
        decreases dice.len() - i,
    {
        texts.push(dice[i].to_string());
        i += 1;
    }
    assert(crate::text::strings_view(texts@) =~= dice_texts(dice@));
    texts
}

/// How an advantage is added to the text of a roll: in brackets, after
/// a space.
pub open spec fn advantage_note(advantage: Option<Advantage>) -> Seq<char> {
    match advantage {
        Some(a) => " ("@ + advantage_text(a) + ")"@,
        None => Seq::empty(),
    }
}

/// Adds the note of an advantage to a text.
pub fn append_advantage(out: &mut String, advantage: Option<Advantage>)
    ensures
        final(out)@ == old(out)@ + advantage_note(advantage),
{
    match advantage {
        Some(a) => {
            out.append(" (");
            out.append(a.to_string().as_str());
            out.append(")");
            assert(out@ =~= old(out)@ + advantage_note(advantage));
        },
        None => {
            assert(out@ =~= old(out)@ + advantage_note(advantage));
        },
    }
}

/// The reach of a roll.
#[derive(Debug, Clone, Copy, PartialEq, Eq, Structural)]
pub enum Range {
    Melee,
    Ranged { normal: isize, long: isize },
}

/// How a range is written.
pub open spec fn range_text(range: Range) -> Seq<char> {
    match range {
        Range::Melee => "Melee"@,
        Range::Ranged { normal, long } => signed_decimal(normal as int) + " / "@ + signed_decimal(
            long as int,
        ),
    }
}

impl Range {
    pub fn to_string(&self) -> (r: String)
        ensures
            r@ == range_text(*self),
    {
        match self {
            Range::Melee => String::from_str("Melee"),
            Range::Ranged { normal, long } => {
                let mut out = decimal_string(*normal);
                out.append(" / ");
                out.append(decimal_string(*long).as_str());
                out
            },
        }
    }
}

/// Rolling twice and keeping the better or the worse result.
#[derive(Debug, Clone, Copy, PartialEq, Eq, Structural)]
pub enum Advantage {
    Advantage,
    Disadvantage,
}

/// How an advantage is written.
pub open spec fn advantage_text(advantage: Advantage) -> Seq<char> {
    match advantage {
        Advantage::Advantage => "Advantage"@,
        Advantage::Disadvantage => "Disadvantage"@,
    }
}

impl Advantage {
    pub fn to_string(&self) -> (r: String)
        ensures
            r@ == advantage_text(*self),
    {
        match self {
            Advantage::Advantage => String::from_str("Advantage"),
            Advantage::Disadvantage => String::from_str("Disadvantage"),
        }
    }
}

/// One thing that can be rolled: a skill check, a saving throw, an
/// attack.
#[derive(Debug, PartialEq, Eq)]
pub struct Roll {
    pub name: String,
    pub tags: Tags,
    pub ability: Option<Ability>,
    pub range: Option<Range>,
    pub dice: Vec<Dice>,
    pub bonuses: Vec<RollBonus>,
}

/// One contribution to a roll.
#[derive(Debug, PartialEq, Eq)]
pub enum RollBonus {
    /// Numbers that are rolled again when they come up.
    Reroll(HashSet<isize>),
    Advantage(Advantage),
    Modifier(isize),
    /// A whole roll folded into the one that carries it.
    Roll(Roll),
    /// The character's proficiency bonus, whatever it is when the roll is
    /// resolved.
    Proficiency,
}

/// What a `Roll` stands for in contracts.
pub struct RollView {
    pub name: Seq<char>,
    pub tags: TagsView,
    pub ability: Option<Ability>,
    pub range: Option<Range>,
    pub dice: Seq<Dice>,
    pub bonuses: Seq<RollBonusView>,
}

/// What a `RollBonus` stands for in contracts.
pub enum RollBonusView {
    Reroll(Set<isize>),
    Advantage(Advantage),
    Modifier(isize),
    Roll(RollView),
    Proficiency,
}

impl Roll {
    pub open spec fn model(&self) -> RollView
        decreases self,
    {
        RollView {
            name: self.name@,
            tags: self.tags@,
            ability: self.ability,
            range: self.range,
            dice: self.dice@,
            bonuses: Seq::new(
                self.bonuses@.len(),
                |i: int|
                    if 0 <= i < self.bonuses@.len() {
                        self.bonuses@[i].model()
                    } else {
                        RollBonusView::Proficiency
                    },
            ),
        }
    }
}

impl RollBonus {
    pub open spec fn model(&self) -> RollBonusView
        decreases self,
    {
        match self {
            RollBonus::Reroll(numbers) => RollBonusView::Reroll(numbers@),
            RollBonus::Advantage(a) => RollBonusView::Advantage(*a),
            RollBonus::Modifier(m) => RollBonusView::Modifier(*m),
            RollBonus::Roll(roll) => RollBonusView::Roll(roll.model()),
            RollBonus::Proficiency => RollBonusView::Proficiency,
        }
    }
}

impl View for Roll {
    type V = RollView;

    open spec fn view(&self) -> RollView {
        self.model()
    }
}

impl View for RollBonus {
    type V = RollBonusView;

    open spec fn view(&self) -> RollBonusView {
        self.model()
    }
}

/// What a list of bonuses stands for in contracts.
pub open spec fn bonuses_view(bonuses: Seq<RollBonus>) -> Seq<RollBonusView> {
    Seq::new(bonuses.len(), |i: int| bonuses[i]@)
}

/// What a list of rolls stands for in contracts.
pub open spec fn rolls_view(rolls: Seq<Roll>) -> Seq<RollView> {
    Seq::new(rolls.len(), |i: int| rolls[i]@)
}

/// A roll's bonuses are seen as the views of its bonuses.
pub proof fn roll_view_bonuses(roll: &Roll)
    ensures
        roll@.bonuses == bonuses_view(roll.bonuses@),
{
    assert(roll@.bonuses =~= bonuses_view(roll.bonuses@));
}

/// A copy of a list of dice.
pub fn clone_dice(dice: &Vec<Dice>) -> (r: Vec<Dice>)
    ensures
        r@ == dice@,
{
    let mut r: Vec<Dice> = Vec::new();
    let mut i: usize = 0;
    while i < dice.len()
        invariant
            i <= dice.len(),
            r@ == dice@.take(i as int),
        decreases dice.len() - i,
    {
        r.push(dice[i]);
        assert(r@ =~= dice@.take(i + 1));
        i += 1;
    }
    assert(dice@.take(dice@.len() as int) =~= dice@);
    r
}

impl Clone for RollBonus {
    fn clone(&self) -> (r: RollBonus)
        ensures
            r@ == self@,
        decreases self,
    {
        match self {
            RollBonus::Reroll(numbers) => RollBonus::Reroll(clone_numbers(numbers)),
            RollBonus::Advantage(a) => RollBonus::Advantage(*a),
            RollBonus::Modifier(m) => RollBonus::Modifier(*m),
            RollBonus::Roll(roll) => RollBonus::Roll(roll.clone()),
            RollBonus::Proficiency => RollBonus::Proficiency,
        }
    }
}

impl Clone for Roll {
    fn clone(&self) -> (r: Roll)
        ensures
            r@ == self@,
        decreases self,
    {
        let mut bonuses: Vec<RollBonus> = Vec::new();
        let mut i: usize = 0;
        while i < self.bonuses.len()
            invariant
                i <= self.bonuses.len(),
                bonuses@.len() == i,
                forall|j: int| 0 <= j < i ==> bonuses@[j]@ == self.bonuses@[j]@,
            decreases self.bonuses.len() - i,
        {
            bonuses.push(self.bonuses[i].clone());
            i += 1;
        }
        let r = Roll {
            name: self.name.clone(),
            tags: self.tags.clone(),
            ability: self.ability,
            range: self.range,
            dice: clone_dice(&self.dice),
            bonuses,
        };
        assert(r@.bonuses =~= self@.bonuses);
        r
    }
}

/// A copy of a list of bonuses.
pub fn clone_bonuses(bonuses: &Vec<RollBonus>) -> (r: Vec<RollBonus>)
    ensures
        bonuses_view(r@) == bonuses_view(bonuses@),
{
    let mut r: Vec<RollBonus> = Vec::new();
    let mut i: usize = 0;
    while i < bonuses.len()
        invariant
            i <= bonuses.len(),
            r@.len() == i,
            forall|j: int| 0 <= j < i ==> r@[j]@ == bonuses@[j]@,
        decreases bonuses.len() - i,
    {
        r.push(bonuses[i].clone());
        i += 1;
    }
    assert(bonuses_view(r@) =~= bonuses_view(bonuses@));
    r
}

/// A copy of a list of rolls.
pub fn clone_rolls(rolls: &Vec<Roll>) -> (r: Vec<Roll>)
    ensures
        rolls_view(r@) == rolls_view(rolls@),
{
    let mut r: Vec<Roll> = Vec::new();
    let mut i: usize = 0;
    while i < rolls.len()
        invariant
            i <= rolls.len(),
            r@.len() == i,
            forall|j: int| 0 <= j < i ==> r@[j]@ == rolls@[j]@,
        decreases rolls.len() - i,
    {
        r.push(rolls[i].clone());
        i += 1;
    }
    assert(rolls_view(r@) =~= rolls_view(rolls@));
    r
}

/// An option, or another one where it is empty.
pub open spec fn or_else<T>(first: Option<T>, second: Option<T>) -> Option<T> {
    if first is Some {
        first
    } else {
        second
    }
}

/// A roll laid over another of the same name: the overlay's name; the
/// tags of both; the overlay's ability and range where it names them;
/// the dice and bonuses of both, the base's first.
pub open spec fn roll_overlaid(base: RollView, over: RollView) -> RollView {
    RollView {
        name: over.name,
        tags: merged_tags(base.tags, over.tags),
        ability: or_else(over.ability, base.ability),
        range: or_else(over.range, base.range),
        dice: base.dice + over.dice,
        bonuses: base.bonuses + over.bonuses,
    }
}

impl Default for Roll {
    /// A roll without a name, dice or bonuses.
    fn default() -> (r: Roll)
        ensures
            r@ == (RollView {
                name: Seq::empty(),
                tags: Seq::empty(),
                ability: None,
                range: None,
                dice: Seq::empty(),
                bonuses: Seq::empty(),
            }),
    {
        let r = Roll {
            name: String::new(),
            tags: Tags::new(),
            ability: None,
            range: None,
            dice: Vec::new(),
            bonuses: Vec::new(),
        };
        assert(r@.bonuses =~= Seq::empty());
        r
    }
}

impl Overlay for Roll {
    open spec fn key_of(v: RollView) -> Seq<char> {
        v.name
    }

    open spec fn overlaid(base: RollView, over: RollView) -> RollView {
        roll_overlaid(base, over)
    }

    proof fn copy_keeps_view(a: &Roll, b: &Roll) {
    }

    fn overlay_by(&self) -> (r: String) {
        self.name.clone()
    }

    fn overlay(&self, overlay: &Roll) -> (r: Roll) {
        let mut dice = clone_dice(&self.dice);
        let mut i: usize = 0;
        while i < overlay.dice.len()
            invariant
                i <= overlay.dice.len(),
                dice@ == self.dice@ + overlay.dice@.take(i as int),
            decreases overlay.dice.len() - i,
        {
            dice.push(overlay.dice[i]);
            assert(dice@ =~= self.dice@ + overlay.dice@.take(i + 1));
            i += 1;
        }
        assert(overlay.dice@.take(overlay.dice@.len() as int) =~= overlay.dice@);
        let mut bonuses = clone_bonuses(&self.bonuses);
        let mut j: usize = 0;
        while j < overlay.bonuses.len()
            invariant
                j <= overlay.bonuses.len(),
                bonuses_view(bonuses@) == bonuses_view(self.bonuses@) + bonuses_view(
                    overlay.bonuses@,
                ).take(j as int),
            decreases overlay.bonuses.len() - j,
        {
            let ghost before = bonuses_view(bonuses@);
            bonuses.push(overlay.bonuses[j].clone());
            assert(bonuses_view(bonuses@) =~= before.push(overlay.bonuses@[j as int]@));
            assert(bonuses_view(bonuses@) =~= bonuses_view(self.bonuses@) + bonuses_view(
                overlay.bonuses@,
            ).take(j + 1));
            j += 1;
        }
        assert(bonuses_view(overlay.bonuses@).take(overlay.bonuses@.len() as int) =~= bonuses_view(
            overlay.bonuses@,
        ));
        let r = Roll {
            name: overlay.name.clone(),
            tags: self.tags.merge(&overlay.tags),
            ability: if overlay.ability.is_some() {
                overlay.ability
            } else {
                self.ability
            },
            range: if overlay.range.is_some() {
                overlay.range
            } else {
                self.range
            },
            dice,
            bonuses,
        };
        proof {
            roll_view_bonuses(&r);
            roll_view_bonuses(self);
            roll_view_bonuses(overlay);
        }
        r
    }
}

impl Roll {
    /// The union of two tag tables.
    pub fn merge_tags(tags: &Tags, overlay_tags: &Tags) -> (r: Tags)
        ensures
            r@ == merged_tags(tags@, overlay_tags@),
    {
        tags.merge(overlay_tags)
    }

    /// Names the roll.
    pub fn name(&mut self, name: String)
        ensures
            final(self)@ == (RollView { name: name@, ..old(self)@ }),
    {
        proof {
            roll_view_bonuses(self);
        }
        self.name = name;
        proof {
            roll_view_bonuses(self);
        }
    }

    /// Says which ability the roll is made with.
    pub fn ability(&mut self, ability: Ability)
        ensures
            final(self)@ == (RollView { ability: Some(ability), ..old(self)@ }),
    {
        proof {
            roll_view_bonuses(self);
        }
        self.ability = Some(ability);
        proof {
            roll_view_bonuses(self);
        }
    }

    /// Replaces the dice.
    pub fn dice(&mut self, dice: Vec<Dice>)
        ensures
            final(self)@ == (RollView { dice: dice@, ..old(self)@ }),
    {
        proof {
            roll_view_bonuses(self);
        }
        self.dice = dice;
        proof {
            roll_view_bonuses(self);
        }
    }

    /// Adds tags to those the roll has.
    pub fn tags(&mut self, tags: Tags)
        ensures
            final(self)@ == (RollView { tags: merged_tags(old(self)@.tags, tags@), ..old(self)@ }),
    {
        proof {
            roll_view_bonuses(self);
        }
        let merged = self.tags.merge(&tags);
        self.tags = merged;
        proof {
            roll_view_bonuses(self);
        }
    }
}

/// What a single bonus adds by itself. A nested roll adds nothing here:
/// it is resolved on its own.
pub open spec fn own_part(bonus: RollBonusView, proficiency: int) -> Resolved {
    match bonus {
        RollBonusView::Reroll(numbers) => Resolved { reroll: numbers, ..Resolved::zero() },
        RollBonusView::Advantage(Advantage::Advantage) => Resolved {
            advantage_counter: 1,
            ..Resolved::zero()
        },
        RollBonusView::Advantage(Advantage::Disadvantage) => Resolved {
            advantage_counter: -1,
            ..Resolved::zero()
        },
        RollBonusView::Modifier(m) => Resolved { bonus: m as int, ..Resolved::zero() },
        RollBonusView::Roll(_) => Resolved::zero(),
        RollBonusView::Proficiency => Resolved { bonus: proficiency, ..Resolved::zero() },
    }
}

/// What the first `k` bonuses add by themselves.
pub open spec fn own_total(bonuses: Seq<RollBonusView>, k: nat, proficiency: int) -> Resolved
    decreases k,
{
    if k == 0 || k > bonuses.len() {
        Resolved::zero()
    } else {
        own_total(bonuses, (k - 1) as nat, proficiency).plus(
            own_part(bonuses[k - 1], proficiency),
        )
    }
}

/// What the ability of a roll adds: the modifier of its score.
pub open spec fn ability_part(ability: Option<Ability>, scores: AbilityScores) -> int {
    match ability {
        Some(a) => modifier_of(scores.score(a).value as int),
        None => 0,
    }
}

/// What a nested roll adds: itself, resolved without bonuses from
/// outside. Other bonuses add nothing here.
pub open spec fn nested_part(bonus: RollBonusView, scores: AbilityScores, proficiency: int) -> Resolved
    decreases bonus, 0nat, 0nat,
{
    match bonus {
        RollBonusView::Roll(roll) => resolved_roll(roll, scores, proficiency),
        _ => Resolved::zero(),
    }
}

/// A roll resolved from what it holds itself.
pub open spec fn resolved_roll(roll: RollView, scores: AbilityScores, proficiency: int) -> Resolved
    decreases roll, 0nat, 0nat,
{
    resolved_parts(roll.dice, roll.ability, roll.bonuses, scores, proficiency)
}

/// What the nested rolls among the first `k` bonuses add.
pub open spec fn nested_total(
    bonuses: Seq<RollBonusView>,
    k: nat,
    scores: AbilityScores,
    proficiency: int,
) -> Resolved
    decreases bonuses, 0nat, k,
{
    if k == 0 || k > bonuses.len() {
        Resolved::zero()
    } else {
        nested_total(bonuses, (k - 1) as nat, scores, proficiency).plus(
            nested_part(bonuses[k - 1], scores, proficiency),
        )
    }
}

/// Dice, an ability and a list of bonuses resolved: the dice, then the
/// dice of the nested rolls in order; every modifier, each proficiency
/// and each nested roll's total added up, with the modifier of the
/// ability's score; advantages counted against disadvantages; all numbers
/// to roll again.
pub open spec fn resolved_parts(
    dice: Seq<Dice>,
    ability: Option<Ability>,
    bonuses: Seq<RollBonusView>,
    scores: AbilityScores,
    proficiency: int,
) -> Resolved
    decreases bonuses, 1nat, 0nat,
{
    Resolved { dice: dice, ..Resolved::zero() }.plus(
        own_total(bonuses, bonuses.len(), proficiency),
    ).plus(nested_total(bonuses, bonuses.len(), scores, proficiency)).with_bonus(
        ability_part(ability, scores),
    )
}

/// A roll resolved with the bonuses that effects gave it from outside.
/// Those reach the roll itself, not the rolls nested in it.
pub open spec fn resolved(
    roll: RollView,
    external: Seq<RollBonusView>,
    scores: AbilityScores,
    proficiency: int,
) -> Resolved {
    resolved_parts(roll.dice, roll.ability, roll.bonuses + external, scores, proficiency)
}

/// Whether a nested roll can be resolved in machine integers.
pub open spec fn resolvable_part(bonus: RollBonusView, scores: AbilityScores, proficiency: int) -> bool
    decreases bonus, 0nat,
{
    match bonus {
        RollBonusView::Roll(roll) => resolvable_roll(roll, scores, proficiency),
        _ => true,
    }
}

/// Whether a roll can be resolved in machine integers from what it holds.
pub open spec fn resolvable_roll(roll: RollView, scores: AbilityScores, proficiency: int) -> bool
    decreases roll, 0nat,
{
    resolvable_parts(roll.ability, roll.bonuses, scores, proficiency)
}

/// Whether the sums that resolving makes stay within machine integers:
/// the running sums over the bonuses' own parts, every nested roll by
/// itself, the running sums as the nested rolls are taken in, and the
/// total with the ability's modifier.
pub open spec fn resolvable_parts(
    ability: Option<Ability>,
    bonuses: Seq<RollBonusView>,
    scores: AbilityScores,
    proficiency: int,
) -> bool
    decreases bonuses, 1nat,
{
    &&& forall|k: nat| k <= bonuses.len() ==> (#[trigger] own_total(bonuses, k, proficiency)).fits()
    &&& forall|k: int|
        0 <= k < bonuses.len() ==> resolvable_part(#[trigger] bonuses[k], scores, proficiency)
    &&& forall|k: nat|
        k <= bonuses.len() ==> own_total(bonuses, bonuses.len(), proficiency).plus(
            #[trigger] nested_total(bonuses, k, scores, proficiency),
        ).fits()
    &&& in_range(
        own_total(bonuses, bonuses.len(), proficiency).bonus + nested_total(
            bonuses,
            bonuses.len(),
            scores,
            proficiency,
        ).bonus + ability_part(ability, scores),
    )
}

/// Whether `resolved` can be computed in machine integers.
pub open spec fn resolvable(
    roll: RollView,
    external: Seq<RollBonusView>,
    scores: AbilityScores,
    proficiency: int,
) -> bool {
    resolvable_parts(roll.ability, roll.bonuses + external, scores, proficiency)
}

/// Resolves dice, an ability and a list of bonuses.
pub fn resolve_parts(
    dice: Vec<Dice>,
    ability: Option<Ability>,
    bonuses: &Vec<RollBonus>,
    ability_scores: &AbilityScores,
    proficiency_bonus: isize,
) -> (r: Rollable)
    requires
        resolvable_parts(ability, bonuses_view(bonuses@), *ability_scores, proficiency_bonus as int),
    ensures
        r@ == resolved_parts(
            dice@,
            ability,
            bonuses_view(bonuses@),
            *ability_scores,
            proficiency_bonus as int,
        ),
    decreases bonuses,
{
    let ghost views = bonuses_view(bonuses@);
    let ghost prof = proficiency_bonus as int;
    let mut reroll = no_numbers();
    let mut advantage_count: isize = 0;
    let mut modifier: isize = 0;
    let mut i: usize = 0;
    while i < bonuses.len()
        invariant
            i <= bonuses.len(),
            views == bonuses_view(bonuses@),
            prof == proficiency_bonus as int,
            forall|k: nat| k <= views.len() ==> (#[trigger] own_total(views, k, prof)).fits(),
            own_total(views, i as nat, prof) == (Resolved {
                dice: Seq::empty(),
                advantage_counter: advantage_count as int,
                reroll: reroll@,
                bonus: modifier as int,
            }),
        decreases bonuses.len() - i,
    {
        let ghost before = own_total(views, i as nat, prof);
        let ghost after = own_total(views, (i + 1) as nat, prof);
        assert(after == before.plus(own_part(views[i as int], prof)));
        assert(after.fits());
        assert(views[i as int] == bonuses@[i as int].model());
        assert(before.dice + Seq::<Dice>::empty() =~= before.dice);
        match &bonuses[i] {
            RollBonus::Reroll(more) => {
                unite_numbers(&mut reroll, more);
            },
            RollBonus::Advantage(advantage) => match advantage {
                Advantage::Advantage => {
                    advantage_count = advantage_count + 1;
                },
                Advantage::Disadvantage => {
                    advantage_count = advantage_count - 1;
                },
            },
            RollBonus::Modifier(more) => {
                modifier = *more + modifier;
            },
            RollBonus::Roll(_) => {},
            RollBonus::Proficiency => {
                modifier = modifier + proficiency_bonus;
            },
        }
        assert(after.reroll =~= reroll@);
        i += 1;
    }
    let ghost own = own_total(views, views.len(), prof);
    let ghost start = Resolved { dice: dice@, ..Resolved::zero() }.plus(own);
    let mut result = Rollable::from(dice, reroll, advantage_count, modifier);
    assert(result@.dice =~= start.dice);
    assert(result@.reroll =~= start.reroll);
    assert(result@ == start);
    proof {
        plus_associative(start, Resolved::zero(), Resolved::zero());
    }
    let mut j: usize = 0;
    while j < bonuses.len()
        invariant
            j <= bonuses.len(),
            views == bonuses_view(bonuses@),
            prof == proficiency_bonus as int,
            own == own_total(views, views.len(), prof),
            start == (Resolved { dice: dice@, ..Resolved::zero() }).plus(own),
            forall|k: int|
                0 <= k < views.len() ==> resolvable_part(#[trigger] views[k], *ability_scores, prof),
            forall|k: nat|
                k <= views.len() ==> own.plus(
                    #[trigger] nested_total(views, k, *ability_scores, prof),
                ).fits(),
            result@ == start.plus(nested_total(views, j as nat, *ability_scores, prof)),
        decreases bonuses.len() - j,
    {
        let ghost before = nested_total(views, j as nat, *ability_scores, prof);
        let ghost part = nested_part(views[j as int], *ability_scores, prof);
        let ghost after = nested_total(views, (j + 1) as nat, *ability_scores, prof);
        assert(after == before.plus(part));
        assert(own.plus(after).fits());
        assert(views[j as int] == bonuses@[j as int].model());
        assert(resolvable_part(views[j as int], *ability_scores, prof));
        proof {
            plus_associative(start, before, part);
            plus_associative(before, Resolved::zero(), Resolved::zero());
        }
        match &bonuses[j] {
            RollBonus::Roll(child) => {
                proof {
                    roll_view_bonuses(child);
                }
                let other = resolve_parts(
                    clone_dice(&child.dice),
                    child.ability,
                    &child.bonuses,
                    ability_scores,
                    proficiency_bonus,
                );
                assert(other@ == part);
                result.merge(other);
            },
            _ => {
                assert(part == Resolved::zero());
            },
        }
        j += 1;
    }
    match ability {
        Some(a) => {
            result.add_bonus(ability_scores.get(a).modifier());
        },
        None => {},
    }
    result
}

/// Resolves a roll: its own bonuses and those that effects gave it from
/// outside, the rolls nested among them, and the modifier of the roll's
/// ability.
pub fn rollable(
    roll: &Roll,
    external_bonuses: &Vec<RollBonus>,
    ability_scores: &AbilityScores,
    proficiency_bonus: isize,
) -> (r: Rollable)
    requires
        resolvable(
            roll@,
            bonuses_view(external_bonuses@),
            *ability_scores,
            proficiency_bonus as int,
        ),
    ensures
        r@ == resolved(
            roll@,
            bonuses_view(external_bonuses@),
            *ability_scores,
            proficiency_bonus as int,
        ),
{
    let mut bonuses = clone_bonuses(&roll.bonuses);
    let mut i: usize = 0;
    while i < external_bonuses.len()
        invariant
            i <= external_bonuses.len(),
            bonuses_view(bonuses@) == bonuses_view(roll.bonuses@) + bonuses_view(
                external_bonuses@,
            ).take(i as int),
        decreases external_bonuses.len() - i,
    {
        let ghost before = bonuses_view(bonuses@);
        bonuses.push(external_bonuses[i].clone());
        assert(bonuses_view(bonuses@) =~= before.push(external_bonuses@[i as int]@));
        assert(bonuses_view(bonuses@) =~= bonuses_view(roll.bonuses@) + bonuses_view(
            external_bonuses@,
        ).take(i + 1));
        i += 1;
    }
    assert(bonuses_view(external_bonuses@).take(external_bonuses@.len() as int) =~= bonuses_view(
        external_bonuses@,
    ));
    proof {
        roll_view_bonuses(roll);
    }
    resolve_parts(clone_dice(&roll.dice), roll.ability, &bonuses, ability_scores, proficiency_bonus)
}

/// Says which rolls a bonus is meant for. A field that is `None` asks for
/// nothing.
#[derive(Debug, PartialEq, Eq)]
pub struct RollScope {
    pub name: Option<String>,
    pub path: Option<FeaturePath>,
    pub tags: Option<Tags>,
    pub ability: Option<Ability>,
    pub range: Option<Range>,
}

/// What a `RollScope` stands for in contracts.
pub struct RollScopeView {
    pub name: Option<Seq<char>>,
    pub path: Option<FeaturePathView>,
    pub tags: Option<TagsView>,
    pub ability: Option<Ability>,
    pub range: Option<Range>,
}

impl View for RollScope {
    type V = RollScopeView;

    open spec fn view(&self) -> RollScopeView {
        RollScopeView {
            name: match self.name {
                Some(n) => Some(n@),
                None => None,
            },
            path: match self.path {
                Some(p) => Some(p@),
                None => None,
            },
            tags: match self.tags {
                Some(t) => Some(t@),
                None => None,
            },
            ability: self.ability,
            range: self.range,
        }
    }
}

impl RollScopeView {
    /// The scope that asks for nothing and so admits every roll.
    pub open spec fn any() -> RollScopeView {
        RollScopeView { name: None, path: None, tags: None, ability: None, range: None }
    }

    /// Carries the scope one level down, into a feature called `name`. A
    /// scope without a path goes everywhere unchanged. One with a path
    /// enters only where the path does, with the rest of the path.
    pub open spec fn step(self, name: Seq<char>) -> (bool, RollScopeView) {
        match self.path {
            None => (true, self),
            Some(path) => {
                if path.step(name).0 {
                    (true, RollScopeView { path: Some(path.step(name).1), ..self })
                } else {
                    (false, self)
                }
            },
        }
    }

    /// Whether the scope admits `roll`: what is left of the path leads to
    /// the roll's name, the roll carries every requested tag with every
    /// requested value, and name, ability and range are the roll's
    /// wherever the scope names them.
    pub open spec fn admits(self, roll: RollView) -> bool {
        &&& match self.path {
            None => true,
            Some(path) => path.step(roll.name).0,
        }
        &&& match self.tags {
            None => true,
            Some(wanted) => covers(roll.tags, wanted),
        }
        &&& (self.name is None || self.name == Some(roll.name))
        &&& (self.ability is None || self.ability == roll.ability)
        &&& (self.range is None || self.range == roll.range)
    }
}

impl Default for RollScope {
    fn default() -> (r: RollScope)
        ensures
            r@ == RollScopeView::any(),
    {
        RollScope { name: None, path: None, tags: None, ability: None, range: None }
    }
}

impl Clone for RollScope {
    fn clone(&self) -> (r: RollScope)
        ensures
            r@ == self@,
    {
        RollScope {
            name: match &self.name {
                Some(n) => Some(n.clone()),
                None => None,
            },
            path: match &self.path {
                Some(p) => Some(p.clone()),
                None => None,
            },
            tags: match &self.tags {
                Some(t) => Some(t.clone()),
                None => None,
            },
            ability: self.ability,
            range: self.range,
        }
    }
}

impl RollScope {
    /// Asks for rolls of this name.
    pub fn name(&mut self, name: String)
        ensures
            final(self)@ == (RollScopeView { name: Some(name@), ..old(self)@ }),
    {
        self.name = Some(name)
    }

    /// Asks for rolls made with this ability.
    pub fn ability(&mut self, ability: Ability)
        ensures
            final(self)@ == (RollScopeView { ability: Some(ability), ..old(self)@ }),
    {
        self.ability = Some(ability)
    }

    /// Asks for rolls at this place in the feature tree.
    pub fn path(&mut self, path: FeaturePath)
        ensures
            final(self)@ == (RollScopeView { path: Some(path@), ..old(self)@ }),
    {
        self.path = Some(path)
    }

    /// Asks for the tag `tag` with these values, in place of what was
    /// asked of that tag before.
    pub fn tag(&mut self, tag: String, value: Vec<String>)
        ensures
            final(self)@ == (RollScopeView {
                tags: Some(
                    with_tag(
                        match old(self)@.tags {
                            Some(t) => t,
                            None => Seq::empty(),
                        },
                        tag@,
                        crate::text::strings_view(value@),
                    ),
                ),
                ..old(self)@
            }),
    {
        let mut tags = match &self.tags {
            Some(existing) => existing.clone(),
            None => Tags::new(),
        };
        tags.insert(tag, value);
        self.tags = Some(tags);
    }

    /// Asks for these tags besides those asked for already.
    pub fn tags(&mut self, tags: Tags)
        ensures
            final(self)@ == (RollScopeView {
                tags: Some(
                    match old(self)@.tags {
                        Some(t) => merged_tags(t, tags@),
                        None => tags@,
                    },
                ),
                ..old(self)@
            }),
    {
        let merged = match &self.tags {
            Some(existing) => existing.merge(&tags),
            None => tags,
        };
        self.tags = Some(merged);
    }
}

impl RollScope {
    /// Carries the scope one level down, into `feature`.
    pub fn matches(&self, feature: &Feature) -> (r: (bool, RollScope))
        ensures
            r.0 == self@.step(feature@.name).0,
            r.1@ == self@.step(feature@.name).1,
    {
        let mut result = self.clone();
        match &self.path {
            None => (true, result),
            Some(path) => {
                let (matches, remaining) = feature.matches(path.clone());
                if matches {
                    result.path = Some(remaining);
                }
                (matches, result)
            },
        }
    }

    /// Whether the scope admits `roll`.
    pub fn admits(&self, roll: &Roll) -> (r: bool)
        ensures
            r == self@.admits(roll@),
    {
        let path_matches = match &self.path {
            None => true,
            Some(path) => path.matches(roll.name.clone()).0,
        };
        let tags_match = match &self.tags {
            None => true,
            Some(wanted) => roll.tags.covers(wanted),
        };
        let name_matches = match &self.name {
            None => true,
            Some(name) => *name == roll.name,
        };
        let ability_matches = match (self.ability, roll.ability) {
            (None, _) => true,
            (Some(wanted), Some(held)) => wanted == held,
            (Some(_), None) => false,
        };
        let range_matches = match (self.range, roll.range) {
            (None, _) => true,
            (Some(wanted), Some(held)) => wanted == held,
            (Some(_), None) => false,
        };
        path_matches && tags_match && name_matches && ability_matches && range_matches
    }
}

/// A roll in play: the roll as it is written down, and the bonuses that
/// effects have given it.
#[derive(Debug)]
pub struct RollState {
    pub roll: Roll,
    pub external_bonuses: Vec<RollBonus>,
}

/// What a `RollState` stands for in contracts.
pub struct RollStateView {
    pub roll: RollView,
    pub external_bonuses: Seq<RollBonusView>,
}

impl View for RollState {
    type V = RollStateView;

    open spec fn view(&self) -> RollStateView {
        RollStateView { roll: self.roll@, external_bonuses: bonuses_view(self.external_bonuses@) }
    }
}

impl RollStateView {
    /// A roll as it comes into play, with nothing given to it.
    pub open spec fn fresh(roll: RollView) -> RollStateView {
        RollStateView { roll, external_bonuses: Seq::empty() }
    }

    /// The roll without what effects gave it.
    pub open spec fn cleared(self) -> RollStateView {
        RollStateView { external_bonuses: Seq::empty(), ..self }
    }

    /// The roll after a bonus was offered to it under a scope: taken at
    /// the end of what it was given before where the scope admits the
    /// roll, and otherwise not at all.
    pub open spec fn offered(self, bonus: RollBonusView, scope: RollScopeView) -> RollStateView {
        if scope.admits(self.roll) {
            RollStateView { external_bonuses: self.external_bonuses.push(bonus), ..self }
        } else {
            self
        }
    }

    /// The roll after an effect. Effects on ability scores pass it by.
    pub open spec fn with_effect(self, effect: EffectView) -> RollStateView {
        match effect {
            EffectView::Roll { bonus, scope } => self.offered(bonus, scope),
            EffectView::Ability { .. } => self,
        }
    }
}

/// What a list of rolls in play stands for in contracts.
pub open spec fn roll_states_view(states: Seq<RollState>) -> Seq<RollStateView> {
    states.map_values(|s: RollState| s@)
}

impl Clone for RollState {
    fn clone(&self) -> (r: RollState)
        ensures
            r@ == self@,
    {
        RollState {
            roll: self.roll.clone(),
            external_bonuses: clone_bonuses(&self.external_bonuses),
        }
    }
}

impl RollState {
    /// The roll as it is written down.
    pub fn persistable(&self) -> (r: Roll)
        ensures
            r@ == self@.roll,
    {
        self.roll.clone()
    }

    pub fn from(roll: Roll) -> (r: RollState)
        ensures
            r@ == RollStateView::fresh(roll@),
    {
        let r = RollState { roll: roll, external_bonuses: Vec::new() };
        assert(r@.external_bonuses =~= Seq::empty());
        r
    }

    /// Forgets what effects gave the roll.
    pub fn clear(&mut self)
        ensures
            final(self)@ == old(self)@.cleared(),
    {
        self.external_bonuses = Vec::new();
        assert(self@.external_bonuses =~= Seq::empty());
    }

    /// Offers the roll the bonus of an effect.
    pub fn apply(&mut self, effect: &Effect)
        ensures
            final(self)@ == old(self)@.with_effect(effect@),
    {
        match effect {
            Effect::Roll { bonus, scope } => {
                if scope.admits(&self.roll) {
                    let ghost before = bonuses_view(self.external_bonuses@);
                    self.external_bonuses.push(bonus.clone());
                    assert(bonuses_view(self.external_bonuses@) =~= before.push(bonus@));
                }
            },
            _ => {},
        }
    }

    /// Resolves the roll with what effects gave it.
    pub fn rollable(&self, ability_scores: &AbilityScores, proficiency_bonus: isize) -> (r:
        Rollable)
        requires
            resolvable(
                self@.roll,
                self@.external_bonuses,
                *ability_scores,
                proficiency_bonus as int,
            ),
        ensures
            r@ == resolved(
                self@.roll,
                self@.external_bonuses,
                *ability_scores,
                proficiency_bonus as int,
            ),
    {
        rollable(&self.roll, &self.external_bonuses, ability_scores, proficiency_bonus)
    }
}

} // verus!
