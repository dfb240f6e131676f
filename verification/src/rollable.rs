//! A roll with everything folded in: its dice, its net modifier, and how
//! often advantage was given or taken.

use std::collections::HashSet;
use vstd::prelude::*;
use vstd::string::StringExecFns;
use crate::roll::{
    advantage_note, append_advantage, clone_dice, dice_strings, dice_texts, written, Advantage,
    Dice,
};
use crate::seqs::{collect, collect_step};
use crate::text::{format_modifier, join, joined, modifier_text, strings_view};
use crate::seqs::unite_numbers;

verus! {

/// Whether a number can be held in a machine integer.
pub open spec fn in_range(v: int) -> bool {
    isize::MIN <= v <= isize::MAX
}

/// What a `Rollable` stands for in contracts: totals over the integers.
pub struct Resolved {
    pub dice: Seq<Dice>,
    /// Advantages given minus advantages taken away.
    pub advantage_counter: int,
    pub reroll: Set<isize>,
    pub bonus: int,
}

impl Resolved {
    /// Nothing to roll and nothing to add.
    pub open spec fn zero() -> Resolved {
        Resolved { dice: Seq::empty(), advantage_counter: 0, reroll: Set::empty(), bonus: 0 }
    }

    /// Both together: the dice of `self` then those of `other`, the
    /// numbers of both, and the sums of the counters and modifiers.
    pub open spec fn plus(self, other: Resolved) -> Resolved {
        Resolved {
            dice: self.dice + other.dice,
            advantage_counter: self.advantage_counter + other.advantage_counter,
            reroll: self.reroll.union(other.reroll),
            bonus: self.bonus + other.bonus,
        }
    }

    /// The same with `bonus` more to add.
    pub open spec fn with_bonus(self, bonus: int) -> Resolved {
        Resolved { bonus: self.bonus + bonus, ..self }
    }

    /// Whether the counters can be held in machine integers.
    pub open spec fn fits(self) -> bool {
        in_range(self.advantage_counter) && in_range(self.bonus)
    }

    /// The net state: advantage when more was given than taken,
    /// disadvantage when more was taken, neither when they cancel.
    pub open spec fn advantage(self) -> Option<Advantage> {
        if self.advantage_counter == 0 {
            None
        } else if self.advantage_counter > 0 {
            Some(Advantage::Advantage)
        } else {
            Some(Advantage::Disadvantage)
        }
    }
}

/// A resolved roll in words: the dice that are written as anything, with
/// plus signs between them; the net modifier with its sign; and the net
/// advantage in brackets.
pub open spec fn resolved_text(resolved: Resolved) -> Seq<char> {
    joined(collect(dice_texts(resolved.dice), written()), "+"@) + modifier_text(resolved.bonus)
        + advantage_note(resolved.advantage())
}

/// Adding resolved rolls up does not depend on how they are grouped.
pub proof fn plus_associative(a: Resolved, b: Resolved, c: Resolved)
    ensures
        a.plus(b).plus(c) == a.plus(b.plus(c)),
        a.plus(Resolved::zero()) == a,
        Resolved::zero().plus(a) == a,
{
    assert(a.plus(b).plus(c).dice =~= a.plus(b.plus(c)).dice);
    assert(a.plus(b).plus(c).reroll =~= a.plus(b.plus(c)).reroll);
    assert(a.plus(Resolved::zero()).dice =~= a.dice);
    assert(a.plus(Resolved::zero()).reroll =~= a.reroll);
    assert(Resolved::zero().plus(a).dice =~= a.dice);
    assert(Resolved::zero().plus(a).reroll =~= a.reroll);
}

/// A roll ready to be made.
#[derive(Debug)]
pub struct Rollable {
    pub dice: Vec<Dice>,
    pub advantage_counter: isize,
    pub reroll: HashSet<isize>,
    pub bonus: isize,
}

impl View for Rollable {
    type V = Resolved;

    open spec fn view(&self) -> Resolved {
        Resolved {
            dice: self.dice@,
            advantage_counter: self.advantage_counter as int,
            reroll: self.reroll@,
            bonus: self.bonus as int,
        }
    }
}

impl Rollable {
    pub fn from(
        dice: Vec<Dice>,
        reroll: HashSet<isize>,
        advantage_counter: isize,
        bonus: isize,
    ) -> (r: Rollable)
        ensures
            r@ == (Resolved {
                dice: dice@,
                advantage_counter: advantage_counter as int,
                reroll: reroll@,
                bonus: bonus as int,
            }),
    {
        Rollable { dice, advantage_counter, reroll, bonus }
    }

    /// Takes `other` in: its dice after those already here.
    pub fn merge(&mut self, other: Rollable)
        requires
            old(self)@.plus(other@).fits(),
        ensures
            final(self)@ == old(self)@.plus(other@),
    {
        let mut i: usize = 0;
        while i < other.dice.len()
            invariant
                i <= other.dice.len(),
                self.dice@ == old(self).dice@ + other.dice@.take(i as int),
                self.advantage_counter == old(self).advantage_counter,
                self.bonus == old(self).bonus,
                self.reroll == old(self).reroll,
            decreases other.dice.len() - i,
        {
            self.dice.push(other.dice[i]);
            assert(self.dice@ =~= old(self).dice@ + other.dice@.take(i + 1));
            i += 1;
        }
        assert(other.dice@.take(other.dice@.len() as int) =~= other.dice@);
        unite_numbers(&mut self.reroll, &other.reroll);
        self.advantage_counter = other.advantage_counter + self.advantage_counter;
        self.bonus = self.bonus + other.bonus;
    }

    /// Adds `bonus` to the net modifier.
    pub fn add_bonus(&mut self, bonus: isize)
        requires
            in_range(old(self)@.bonus + bonus),
        ensures
            final(self)@ == old(self)@.with_bonus(bonus as int),
    {
        self.bonus = self.bonus + bonus;
    }

    pub fn advantage(&self) -> (r: Option<Advantage>)
        ensures
            r == self@.advantage(),
    {
        if self.advantage_counter == 0 {
            None
        } else if self.advantage_counter > 0 {
            Some(Advantage::Advantage)
        } else {
            Some(Advantage::Disadvantage)
        }
    }

    pub fn dice(&self) -> (r: Vec<Dice>)
        ensures
            r@ == self@.dice,
    {
        clone_dice(&self.dice)
    }

    pub fn bonus(&self) -> (r: isize)
        ensures
            r == self@.bonus,
    {
        self.bonus
    }

    /// The roll in words.
    pub fn to_string(&self) -> (r: String)
        ensures
            r@ == resolved_text(self@),
    {
        let all = dice_strings(&self.dice);
        let ghost texts = strings_view(all@);
        let mut kept: Vec<String> = Vec::new();
        let mut i: usize = 0;
        assert(texts.take(0) =~= Seq::empty());
        assert(strings_view(kept@) =~= Seq::empty());
        while i < all.len()
            invariant
                i <= all.len(),
                texts == strings_view(all@),
                strings_view(kept@) == collect(texts.take(i as int), written()),
            decreases all.len() - i,
        {
            proof {
                collect_step(texts, written(), i as int);
            }
            let ghost before = strings_view(kept@);
            if !all[i].as_str().is_empty() {
                kept.push(all[i].clone());
                assert(strings_view(kept@) =~= before.push(all@[i as int]@));
            }
            i += 1;
        }
        assert(texts.take(texts.len() as int) =~= texts);
        let mut out = join(&kept, "+");
        out.append(format_modifier(self.bonus).as_str());
        append_advantage(&mut out, self.advantage());
        out
    }
}

} // verus!
