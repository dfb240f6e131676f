//! Checks: a twenty-sided die with whatever is added to it.

use vstd::prelude::*;
use crate::ability_score::Ability;
use crate::feature_path::FeaturePath;
use vstd::string::StringExecFns;
use crate::roll::{
    advantage_note, advantage_text, append_advantage, clone_dice, dice_strings, dice_text,
    dice_texts, Advantage, Dice,
};
use crate::rollable::in_range;
use crate::seqs::{
    collect, collect_prefix, collect_step, sum_of, sum_of_first, sum_of_prefix, sums_fit,
};
use crate::text::{format_modifier, join, joined, modifier_text};

verus! {

/// One thing that changes a check.
#[derive(Debug, Clone, Copy, PartialEq, Eq, Structural)]
pub enum CheckBonus {
    Advantage(Advantage),
    Modifier(isize),
    Dice(Dice),
}

/// How a check bonus is written.
pub open spec fn check_bonus_text(bonus: CheckBonus) -> Seq<char> {
    match bonus {
        CheckBonus::Advantage(advantage) => advantage_text(advantage),
        CheckBonus::Modifier(modifier) => modifier_text(modifier as int),
        CheckBonus::Dice(dice) => dice_text(dice),
    }
}

impl CheckBonus {
    pub fn to_string(&self) -> (r: String)
        ensures
            r@ == check_bonus_text(*self),
    {
        match self {
            CheckBonus::Advantage(advantage) => advantage.to_string(),
            CheckBonus::Modifier(modifier) => format_modifier(*modifier),
            CheckBonus::Dice(dice) => dice.to_string(),
        }
    }
}

/// The kinds of check that a bonus can be meant for.
#[derive(Debug, PartialEq, Eq)]
pub enum CheckRollType {
    SavingThrow(Ability),
    Ability(Ability),
    Attack,
    SpellAttack,
    Skill(String),
    Feature(FeaturePath),
}

impl Clone for CheckRollType {
    fn clone(&self) -> (r: CheckRollType)
        ensures
            match (*self, r) {
                (CheckRollType::SavingThrow(a), CheckRollType::SavingThrow(b)) => a == b,
                (CheckRollType::Ability(a), CheckRollType::Ability(b)) => a == b,
                (CheckRollType::Attack, CheckRollType::Attack) => true,
                (CheckRollType::SpellAttack, CheckRollType::SpellAttack) => true,
                (CheckRollType::Skill(a), CheckRollType::Skill(b)) => a@ == b@,
                (CheckRollType::Feature(a), CheckRollType::Feature(b)) => a@ == b@,
                _ => false,
            },
    {
        match self {
            CheckRollType::SavingThrow(ability) => CheckRollType::SavingThrow(*ability),
            CheckRollType::Ability(ability) => CheckRollType::Ability(*ability),
            CheckRollType::Attack => CheckRollType::Attack,
            CheckRollType::SpellAttack => CheckRollType::SpellAttack,
            CheckRollType::Skill(name) => CheckRollType::Skill(name.clone()),
            CheckRollType::Feature(path) => CheckRollType::Feature(path.clone()),
        }
    }
}

/// The modifier of a check bonus, where it is one.
pub open spec fn modifier_in() -> spec_fn(CheckBonus) -> Option<isize> {
    |b: CheckBonus|
        match b {
            CheckBonus::Modifier(m) => Some(m),
            _ => None,
        }
}

/// The dice of a check bonus, where it is dice.
pub open spec fn dice_in() -> spec_fn(CheckBonus) -> Option<Dice> {
    |b: CheckBonus|
        match b {
            CheckBonus::Dice(d) => Some(d),
            _ => None,
        }
}

/// A mark for a check bonus that gives the named advantage.
pub open spec fn gives(advantage: Advantage) -> spec_fn(CheckBonus) -> Option<bool> {
    |b: CheckBonus|
        match b {
            CheckBonus::Advantage(a) => if a == advantage {
                Some(true)
            } else {
                None
            },
            _ => None,
        }
}

/// What a `CheckRoll` stands for in contracts: totals over the integers.
pub struct CheckTotals {
    pub bonus: int,
    pub dice: Seq<Dice>,
    pub advantage_count: int,
    pub disadvantage_count: int,
}

impl CheckTotals {
    /// The totals of a list of bonuses: the sum of the modifiers, the
    /// dice in order, and how often advantage and disadvantage were
    /// given.
    pub open spec fn of(bonuses: Seq<CheckBonus>) -> CheckTotals {
        CheckTotals {
            bonus: sum_of(collect(bonuses, modifier_in())),
            dice: collect(bonuses, dice_in()),
            advantage_count: collect(bonuses, gives(Advantage::Advantage)).len() as int,
            disadvantage_count: collect(bonuses, gives(Advantage::Disadvantage)).len() as int,
        }
    }

    /// Whether the totals of a list of bonuses can be added up in
    /// machine integers.
    pub open spec fn countable(bonuses: Seq<CheckBonus>) -> bool {
        sums_fit(collect(bonuses, modifier_in())) && bonuses.len() <= isize::MAX
    }

    /// Both together, the dice of `self` first.
    pub open spec fn plus(self, other: CheckTotals) -> CheckTotals {
        CheckTotals {
            bonus: self.bonus + other.bonus,
            dice: self.dice + other.dice,
            advantage_count: self.advantage_count + other.advantage_count,
            disadvantage_count: self.disadvantage_count + other.disadvantage_count,
        }
    }

    /// Whether the counters can be held in machine integers.
    pub open spec fn fits(self) -> bool {
        in_range(self.bonus) && in_range(self.advantage_count) && in_range(
            self.disadvantage_count,
        )
    }

    /// The net state: whichever of advantage and disadvantage was given
    /// more often, and neither when they cancel.
    pub open spec fn advantage(self) -> Option<Advantage> {
        if self.advantage_count == self.disadvantage_count {
            None
        } else if self.advantage_count > self.disadvantage_count {
            Some(Advantage::Advantage)
        } else {
            Some(Advantage::Disadvantage)
        }
    }
}

/// A check in words: the dice with plus signs between them and another
/// plus sign after them, where that is anything; the bonus with its sign;
/// and the net advantage in brackets.
pub open spec fn check_text(check: CheckTotals) -> Seq<char> {
    (if joined(dice_texts(check.dice), "+"@).len() > 0 {
        joined(dice_texts(check.dice), "+"@) + "+"@
    } else {
        Seq::empty()
    }) + modifier_text(check.bonus) + advantage_note(check.advantage())
}

/// A check with everything folded in.
#[derive(Debug)]
pub struct CheckRoll {
    pub bonus: isize,
    pub dice: Vec<Dice>,
    pub advantage_count: isize,
    pub disadvantage_count: isize,
}

impl View for CheckRoll {
    type V = CheckTotals;

    open spec fn view(&self) -> CheckTotals {
        CheckTotals {
            bonus: self.bonus as int,
            dice: self.dice@,
            advantage_count: self.advantage_count as int,
            disadvantage_count: self.disadvantage_count as int,
        }
    }
}

impl Clone for CheckRoll {
    fn clone(&self) -> (r: CheckRoll)
        ensures
            r@ == self@,
    {
        CheckRoll {
            bonus: self.bonus,
            dice: clone_dice(&self.dice),
            advantage_count: self.advantage_count,
            disadvantage_count: self.disadvantage_count,
        }
    }
}

impl CheckRoll {
    /// Folds a list of bonuses into one check.
    pub fn from(bonuses: Vec<CheckBonus>) -> (r: CheckRoll)
        requires
            CheckTotals::countable(bonuses@),
        ensures
            r@ == CheckTotals::of(bonuses@),
    {
        let ghost all = bonuses@;
        let mut advantage_count: isize = 0;
        let mut disadvantage_count: isize = 0;
        let mut bonus: isize = 0;
        let mut dice: Vec<Dice> = Vec::new();
        let mut i: usize = 0;
        assert(all.take(0) =~= Seq::empty());
        while i < bonuses.len()
            invariant
                i <= bonuses.len(),
                all == bonuses@,
                CheckTotals::countable(all),
                advantage_count == collect(all.take(i as int), gives(Advantage::Advantage)).len(),
                disadvantage_count == collect(
                    all.take(i as int),
                    gives(Advantage::Disadvantage),
                ).len(),
                advantage_count <= i,
                disadvantage_count <= i,
                dice@ == collect(all.take(i as int), dice_in()),
                collect(all.take(i as int), modifier_in()).len() <= collect(
                    all,
                    modifier_in(),
                ).len(),
                collect(all.take(i as int), modifier_in()) == collect(all, modifier_in()).take(
                    collect(all.take(i as int), modifier_in()).len() as int,
                ),
                bonus == sum_of(collect(all.take(i as int), modifier_in())),
            decreases bonuses.len() - i,
        {
            let ghost seen = collect(all.take(i as int), modifier_in());
            let ghost whole = collect(all, modifier_in());
            proof {
                collect_step(all, gives(Advantage::Advantage), i as int);
                collect_step(all, gives(Advantage::Disadvantage), i as int);
                collect_step(all, dice_in(), i as int);
                collect_step(all, modifier_in(), i as int);
                collect_prefix(all, modifier_in(), i + 1);
            }
            match bonuses[i] {
                CheckBonus::Advantage(Advantage::Advantage) => {
                    advantage_count = advantage_count + 1;
                },
                CheckBonus::Advantage(Advantage::Disadvantage) => {
                    disadvantage_count = disadvantage_count + 1;
                },
                CheckBonus::Modifier(more) => {
                    proof {
                        let grown = seen.push(more);
                        assert(grown == whole.take(grown.len() as int));
                        sum_of_prefix(whole, grown.len());
                        sum_of_prefix(whole, seen.len());
                        assert(sum_of_first(whole, grown.len()) == sum_of_first(whole, seen.len())
                            + more);
                    }
                    bonus = bonus + more;
                },
                CheckBonus::Dice(some_dice) => {
                    dice.push(some_dice);
                },
            }
            i += 1;
        }
        assert(all.take(all.len() as int) =~= all);
        CheckRoll { bonus, dice, advantage_count, disadvantage_count }
    }

    pub fn advantage(&self) -> (r: Option<Advantage>)
        ensures
            r == self@.advantage(),
    {
        if self.advantage_count == self.disadvantage_count {
            None
        } else if self.advantage_count > self.disadvantage_count {
            Some(Advantage::Advantage)
        } else {
            Some(Advantage::Disadvantage)
        }
    }

    pub fn dice(&self) -> (r: Vec<Dice>)
        ensures
            r@ == self@.dice,
    {
        clone_dice(&self.dice)
    }

    pub fn bonus(&self) -> (r: isize)
        ensures
            r == self@.bonus,
    {
        self.bonus
    }

    /// The check in words.
    pub fn to_string(&self) -> (r: String)
        ensures
            r@ == check_text(self@),
    {
        let mut out = join(&dice_strings(&self.dice), "+");
        if !out.as_str().is_empty() {
            out.append("+");
        }
        out.append(format_modifier(self.bonus).as_str());
        append_advantage(&mut out, self.advantage());
        out
    }

    /// This check and another as one, the dice of this one first.
    pub fn merge(&self, other: CheckRoll) -> (r: CheckRoll)
        requires
            self@.plus(other@).fits(),
        ensures
            r@ == self@.plus(other@),
    {
        let mut dice = clone_dice(&self.dice);
        let mut i: usize = 0;
        while i < other.dice.len()
            invariant
                i <= other.dice.len(),
                dice@ == self.dice@ + other.dice@.take(i as int),
            decreases other.dice.len() - i,
        {
            dice.push(other.dice[i]);
            assert(dice@ =~= self.dice@ + other.dice@.take(i + 1));
            i += 1;
        }
        assert(other.dice@.take(other.dice@.len() as int) =~= other.dice@);
        CheckRoll {
            bonus: self.bonus + other.bonus,
            dice: dice,
            advantage_count: self.advantage_count + other.advantage_count,
            disadvantage_count: self.disadvantage_count + other.disadvantage_count,
        }
    }

    /// The same check with `bonus` more to add.
    pub fn with_extra_bonus(&self, bonus: isize) -> (r: CheckRoll)
        requires
            in_range(self@.bonus + bonus),
        ensures
            r@ == (CheckTotals { bonus: self@.bonus + bonus, ..self@ }),
    {
        let mut new = self.clone();
        new.bonus = new.bonus + bonus;
        new
    }
}

} // verus!
