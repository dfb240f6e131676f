//! Proficiencies with tools and languages.

use vstd::prelude::*;
use vstd::string::StringExecFns;
use crate::class::{proficiency_at, Classes};

verus! {

/// How much of the proficiency bonus a proficiency gives.
#[derive(Debug, Clone, Copy, PartialEq, Eq, Structural)]
pub enum ProficiencyType {
    NotProficient,
    Half,
    Full,
}

impl Default for ProficiencyType {
    fn default() -> (r: ProficiencyType)
        ensures
            r == ProficiencyType::NotProficient,
    {
        ProficiencyType::NotProficient
    }
}

impl ProficiencyType {
    /// The share of a proficiency bonus that this kind of proficiency
    /// gives: nothing, half of it rounded towards zero, or all of it.
    pub open spec fn share(self, bonus: int) -> int {
        match self {
            ProficiencyType::NotProficient => 0,
            ProficiencyType::Half => if bonus >= 0 {
                bonus / 2
            } else {
                -((-bonus) / 2)
            },
            ProficiencyType::Full => bonus,
        }
    }

    pub fn modifier_for_bonus(&self, class_proficiency_bonus: isize) -> (r: isize)
        ensures
            r == self.share(class_proficiency_bonus as int),
    {
        match self {
            ProficiencyType::NotProficient => 0,
            ProficiencyType::Half => {
                if class_proficiency_bonus >= 0 {
                    class_proficiency_bonus / 2
                } else {
                    let wide: i128 = -(class_proficiency_bonus as i128);
                    (-(wide / 2)) as isize
                }
            },
            ProficiencyType::Full => class_proficiency_bonus,
        }
    }

    pub fn modifier(&self, class: Classes) -> (r: isize)
        requires
            class.levels_fit(),
        ensures
            r == self.share(proficiency_at(class.level())),
    {
        match self {
            ProficiencyType::NotProficient => 0,
            ProficiencyType::Half => class.proficiency_bonus() / 2,
            ProficiencyType::Full => class.proficiency_bonus(),
        }
    }
}

/// A named proficiency.
#[derive(Debug, PartialEq, Eq)]
pub struct Proficiency {
    pub name: String,
    pub proficiency_type: ProficiencyType,
}

/// What a `Proficiency` stands for in contracts: its name and its kind.
pub type ProficiencyView = (Seq<char>, ProficiencyType);

impl Proficiency {
    /// What the proficiency stands for in contracts.
    pub open spec fn model(&self) -> ProficiencyView {
        (self.name@, self.proficiency_type)
    }
}

/// What a list of proficiencies stands for in contracts.
pub open spec fn proficiency_list_view(list: Seq<Proficiency>) -> Seq<ProficiencyView> {
    list.map_values(|p: Proficiency| p.model())
}

impl Default for Proficiency {
    fn default() -> (r: Proficiency)
        ensures
            r.model() == (Seq::<char>::empty(), ProficiencyType::NotProficient),
    {
        Proficiency { name: String::new(), proficiency_type: ProficiencyType::NotProficient }
    }
}

impl Clone for Proficiency {
    fn clone(&self) -> (r: Proficiency)
        ensures
            r.model() == self.model(),
    {
        Proficiency { name: self.name.clone(), proficiency_type: self.proficiency_type }
    }
}

/// How a proficiency is listed: by its name, marked where it is only
/// half a proficiency, and not at all where it is none.
pub open spec fn proficiency_text(name: Seq<char>, proficiency_type: ProficiencyType) -> Seq<char> {
    match proficiency_type {
        ProficiencyType::Full => name,
        ProficiencyType::Half => name + " (Half)"@,
        ProficiencyType::NotProficient => Seq::empty(),
    }
}

impl Proficiency {
    pub fn name(&self) -> (r: String)
        ensures
            r@ == self.name@,
    {
        self.name.clone()
    }

    pub fn proficiency_type(&self) -> (r: ProficiencyType)
        ensures
            r == self.proficiency_type,
    {
        self.proficiency_type
    }

    /// The proficiency as it is listed.
    pub fn view(self) -> (r: String)
        ensures
            r@ == proficiency_text(self.name@, self.proficiency_type),
    {
        match self.proficiency_type {
            ProficiencyType::Full => self.name.clone(),
            ProficiencyType::Half => {
                let mut out = self.name.clone();
                out.append(" (Half)");
                out
            },
            ProficiencyType::NotProficient => String::new(),
        }
    }
}

/// What a character is proficient with besides skills.
#[derive(Debug, PartialEq, Eq)]
pub struct Proficiencies {
    pub tools: Vec<Proficiency>,
    pub languages: Vec<Proficiency>,
}

/// What `Proficiencies` stand for in contracts.
pub struct ProficienciesView {
    pub tools: Seq<ProficiencyView>,
    pub languages: Seq<ProficiencyView>,
}

impl View for Proficiencies {
    type V = ProficienciesView;

    open spec fn view(&self) -> ProficienciesView {
        ProficienciesView {
            tools: proficiency_list_view(self.tools@),
            languages: proficiency_list_view(self.languages@),
        }
    }
}

impl Default for Proficiencies {
    fn default() -> (r: Proficiencies)
        ensures
            r@ == (ProficienciesView { tools: Seq::empty(), languages: Seq::empty() }),
    {
        let r = Proficiencies { tools: Vec::new(), languages: Vec::new() };
        assert(r@.tools =~= Seq::empty());
        assert(r@.languages =~= Seq::empty());
        r
    }
}

/// A copy of a list of proficiencies.
pub fn clone_proficiency_list(list: &Vec<Proficiency>) -> (r: Vec<Proficiency>)
    ensures
        proficiency_list_view(r@) == proficiency_list_view(list@),
{
    let mut r: Vec<Proficiency> = Vec::new();
    let mut i: usize = 0;
    while i < list.len()
        invariant
            i <= list.len(),
            r@.len() == i,
            forall|k: int| 0 <= k < i ==> (#[trigger] r@[k]).model() == list@[k].model(),
        decreases list.len() - i,
    {
        r.push(list[i].clone());
        i += 1;
    }
    assert(proficiency_list_view(r@) =~= proficiency_list_view(list@));
    r
}

impl Clone for Proficiencies {
    fn clone(&self) -> (r: Proficiencies)
        ensures
            r@ == self@,
    {
        Proficiencies {
            tools: clone_proficiency_list(&self.tools),
            languages: clone_proficiency_list(&self.languages),
        }
    }
}

} // verus!
