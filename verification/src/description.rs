//! What a character looks like.

use vstd::prelude::*;
use vstd::string::StringExecFns;
use crate::dimensions::Weight;
use crate::text::{clone_opt_string, decimal_string, opt_string_view, signed_decimal};

verus! {

/// A height in feet and inches.
#[derive(Debug, Clone, Copy, PartialEq, Eq, Structural)]
pub struct Height {
    pub feet: isize,
    pub inches: isize,
}

impl Default for Height {
    fn default() -> (r: Height)
        ensures
            r == (Height { feet: 0, inches: 0 }),
    {
        Height { feet: 0, inches: 0 }
    }
}

/// How a height is written.
pub open spec fn height_text(height: Height) -> Seq<char> {
    signed_decimal(height.feet as int) + "' "@ + signed_decimal(height.inches as int) + "\""@
}

impl Height {
    pub fn to_string(&self) -> (r: String)
        ensures
            r@ == height_text(*self),
    {
        let mut out = decimal_string(self.feet);
        out.append("' ");
        out.append(decimal_string(self.inches).as_str());
        out.append("\"");
        out
    }
}

/// How big a creature is.
#[derive(Debug, Clone, Copy, PartialEq, Eq, Structural)]
pub enum Size {
    Tiny,
    Small,
    Medium,
    Large,
    Huge,
    Gargantuan,
}

impl Default for Size {
    fn default() -> (r: Size)
        ensures
            r == Size::Medium,
    {
        Size::Medium
    }
}

/// Where a character stands between law and chaos.
#[derive(Debug, Clone, Copy, PartialEq, Eq, Structural)]
pub enum OrderAlignment {
    Chaotic,
    Neutral,
    Lawful,
}

impl Default for OrderAlignment {
    fn default() -> (r: OrderAlignment)
        ensures
            r == OrderAlignment::Neutral,
    {
        OrderAlignment::Neutral
    }
}

/// Where a character stands between good and evil.
#[derive(Debug, Clone, Copy, PartialEq, Eq, Structural)]
pub enum MoralAlignment {
    Evil,
    Neutral,
    Good,
}

impl Default for MoralAlignment {
    fn default() -> (r: MoralAlignment)
        ensures
            r == MoralAlignment::Neutral,
    {
        MoralAlignment::Neutral
    }
}

/// The alignment of a character.
#[derive(Debug, Clone, Copy, PartialEq, Eq, Structural)]
pub struct Alignment {
    pub order: OrderAlignment,
    pub morality: MoralAlignment,
}

impl Default for Alignment {
    fn default() -> (r: Alignment)
        ensures
            r == (Alignment { order: OrderAlignment::Neutral, morality: MoralAlignment::Neutral }),
    {
        Alignment { order: OrderAlignment::Neutral, morality: MoralAlignment::Neutral }
    }
}

/// The description of a character.
#[derive(Debug, PartialEq, Eq)]
pub struct Description {
    pub race: String,
    pub size: Size,
    pub alignment: Alignment,
    pub speed: isize,
    pub age: Option<isize>,
    pub height: Option<Height>,
    pub weight: Option<Weight>,
    pub hair: Option<String>,
    pub eyes: Option<String>,
}

/// What a `Description` stands for in contracts.
pub struct DescriptionView {
    pub race: Seq<char>,
    pub size: Size,
    pub alignment: Alignment,
    pub speed: isize,
    pub age: Option<isize>,
    pub height: Option<Height>,
    pub weight: Option<Weight>,
    pub hair: Option<Seq<char>>,
    pub eyes: Option<Seq<char>>,
}

impl View for Description {
    type V = DescriptionView;

    open spec fn view(&self) -> DescriptionView {
        DescriptionView {
            race: self.race@,
            size: self.size,
            alignment: self.alignment,
            speed: self.speed,
            age: self.age,
            height: self.height,
            weight: self.weight,
            hair: opt_string_view(self.hair),
            eyes: opt_string_view(self.eyes),
        }
    }
}

impl DescriptionView {
    /// The description of which nothing is known yet.
    pub open spec fn blank() -> DescriptionView {
        DescriptionView {
            race: Seq::empty(),
            size: Size::Medium,
            alignment: Alignment {
                order: OrderAlignment::Neutral,
                morality: MoralAlignment::Neutral,
            },
            speed: 0,
            age: None,
            height: None,
            weight: None,
            hair: None,
            eyes: None,
        }
    }
}

impl Default for Description {
    fn default() -> (r: Description)
        ensures
            r@ == DescriptionView::blank(),
    {
        Description {
            race: String::new(),
            size: Size::Medium,
            alignment: Alignment {
                order: OrderAlignment::Neutral,
                morality: MoralAlignment::Neutral,
            },
            speed: 0,
            age: None,
            height: None,
            weight: None,
            hair: None,
            eyes: None,
        }
    }
}

impl Clone for Description {
    fn clone(&self) -> (r: Description)
        ensures
            r@ == self@,
    {
        Description {
            race: self.race.clone(),
            size: self.size,
            alignment: self.alignment,
            speed: self.speed,
            age: self.age,
            height: self.height,
            weight: self.weight,
            hair: clone_opt_string(&self.hair),
            eyes: clone_opt_string(&self.eyes),
        }
    }
}

} // verus!
