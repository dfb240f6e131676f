//! Classes and the proficiency bonus that their levels give.

use vstd::prelude::*;
use crate::seqs::{sum, sum_of, sums_fit};

verus! {

/// A class with the level that the character has reached in it.
#[derive(Debug, PartialEq, Eq)]
pub struct Class {
    pub name: String,
    pub level: isize,
}

/// What a `Class` stands for in contracts: its name and the level.
pub type ClassView = (Seq<char>, isize);

impl View for Class {
    type V = ClassView;

    open spec fn view(&self) -> ClassView {
        (self.name@, self.level)
    }
}

/// What a list of classes stands for in contracts.
pub open spec fn classes_view(classes: Seq<Class>) -> Seq<ClassView> {
    classes.map_values(|c: Class| c@)
}

impl Clone for Class {
    fn clone(&self) -> (r: Class)
        ensures
            r@ == self@,
    {
        Class { name: self.name.clone(), level: self.level }
    }
}

impl Class {
    pub fn new(name: String, level: isize) -> (r: Class)
        ensures
            r.name == name,
            r.level == level,
    {
        Class { name, level }
    }
}

/// The proficiency bonus of a character of the given total level: two up
/// to level four, and one more with every four levels up to level
/// twenty; beyond that a quarter of the level, rounded down, and two.
pub open spec fn proficiency_at(level: int) -> int {
    if level < 5 {
        2
    } else if level < 9 {
        3
    } else if level < 13 {
        4
    } else if level < 17 {
        5
    } else if level <= 20 {
        6
    } else {
        level / 4 + 2
    }
}

/// From the first level to the twentieth the bonus goes up by one with
/// every fourth level.
pub proof fn proficiency_bands(level: int)
    requires
        1 <= level <= 20,
    ensures
        proficiency_at(level) == (level - 1) / 4 + 2,
        1 <= level <= 4 ==> proficiency_at(level) == 2,
        5 <= level <= 8 ==> proficiency_at(level) == 3,
        9 <= level <= 12 ==> proficiency_at(level) == 4,
        13 <= level <= 16 ==> proficiency_at(level) == 5,
        17 <= level <= 20 ==> proficiency_at(level) == 6,
{
}

/// The bonus never goes down as the level goes up.
pub proof fn proficiency_grows(lower: int, higher: int)
    requires
        lower <= higher,
    ensures
        proficiency_at(lower) <= proficiency_at(higher),
{
}

/// The levels of a list of classes.
pub open spec fn levels(classes: Seq<Class>) -> Seq<isize> {
    classes.map_values(|c: Class| c.level)
}

/// The classes of one character.
#[derive(Debug, PartialEq, Eq)]
pub struct Classes {
    pub classes: Vec<Class>,
}

impl Default for Classes {
    fn default() -> (r: Classes)
        ensures
            r@ == Seq::<ClassView>::empty(),
    {
        let r = Classes { classes: Vec::new() };
        assert(r@ =~= Seq::<ClassView>::empty());
        r
    }
}

impl View for Classes {
    type V = Seq<ClassView>;

    open spec fn view(&self) -> Seq<ClassView> {
        classes_view(self.classes@)
    }
}

impl Clone for Classes {
    fn clone(&self) -> (r: Classes)
        ensures
            r@ == self@,
            r.level() == self.level(),
            r.levels_fit() == self.levels_fit(),
    {
        Classes { classes: self.persistable() }
    }
}

impl Classes {
    /// The character's level over all classes.
    pub open spec fn level(&self) -> int {
        sum_of(levels(self.classes@))
    }

    /// Whether the levels can be added up in machine integers.
    pub open spec fn levels_fit(&self) -> bool {
        sums_fit(levels(self.classes@))
    }

    pub fn from(classes: Vec<Class>) -> (r: Classes)
        ensures
            r.classes == classes,
    {
        Classes { classes }
    }

    pub fn persistable(&self) -> (r: Vec<Class>)
        ensures
            classes_view(r@) == self@,
            levels(r@) == levels(self.classes@),
    {
        let mut result: Vec<Class> = Vec::new();
        let mut i: usize = 0;
        while i < self.classes.len()
            invariant
                i <= self.classes.len(),
                result@.len() == i,
                forall|k: int| 0 <= k < i ==> (#[trigger] result@[k])@ == self.classes@[k]@,
            decreases self.classes.len() - i,
        {
            result.push(self.classes[i].clone());
            i += 1;
        }
        assert(levels(result@) =~= levels(self.classes@));
        assert(classes_view(result@) =~= self@);
        result
    }

    /// The levels in all classes, added up.
    pub fn total_level(&self) -> (r: isize)
        requires
            self.levels_fit(),
        ensures
            r == self.level(),
    {
        let mut all: Vec<isize> = Vec::new();
        let mut i: usize = 0;
        while i < self.classes.len()
            invariant
                i <= self.classes.len(),
                all@ == levels(self.classes@).take(i as int),
            decreases self.classes.len() - i,
        {
            all.push(self.classes[i].level);
            assert(all@ =~= levels(self.classes@).take(i + 1));
            i += 1;
        }
        assert(levels(self.classes@).take(self.classes@.len() as int) =~= levels(self.classes@));
        sum(&all)
    }

    /// The proficiency bonus of the character.
    pub fn proficiency(&self) -> (r: isize)
        requires
            self.levels_fit(),
        ensures
            r == proficiency_at(self.level()),
    {
        let total_level = self.total_level();
        if total_level < 5 {
            2
        } else if total_level < 9 {
            3
        } else if total_level < 13 {
            4
        } else if total_level < 17 {
            5
        } else if total_level <= 20 {
            6
        } else {
            total_level / 4 + 2
        }
    }

    /// The proficiency bonus of the character.
    pub fn proficiency_bonus(&self) -> (r: isize)
        requires
            self.levels_fit(),
        ensures
            r == proficiency_at(self.level()),
    {
        self.proficiency()
    }
}

} // verus!
