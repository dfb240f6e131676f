//! Hit points and the amount by which they are about to change.

use vstd::prelude::*;
use crate::rollable::in_range;
use crate::text::number_read;

verus! {

/// The hit points of a character.
#[derive(Debug, Clone, Copy, PartialEq, Eq, Structural)]
pub struct HitPoints {
    pub current_hit_points: isize,
    pub max_hit_points: isize,
}

impl Default for HitPoints {
    fn default() -> (r: HitPoints)
        ensures
            r == (HitPoints { current_hit_points: 0, max_hit_points: 0 }),
    {
        HitPoints { current_hit_points: 0, max_hit_points: 0 }
    }
}

/// What can be done to hit points and to the amount of the next change.
#[derive(Debug, PartialEq, Eq)]
pub enum HitPointMessage {
    IncrementHealthDelta,
    DecrementHealthDelta,
    /// The amount as it was typed.
    ChangeHealthDelta(String),
    Heal,
    Damage,
    ResetDelta,
    FullHealth,
}

impl Clone for HitPointMessage {
    fn clone(&self) -> (r: HitPointMessage)
        ensures
            change_of(r) == change_of(*self),
    {
        match self {
            HitPointMessage::IncrementHealthDelta => HitPointMessage::IncrementHealthDelta,
            HitPointMessage::DecrementHealthDelta => HitPointMessage::DecrementHealthDelta,
            HitPointMessage::ChangeHealthDelta(text) => HitPointMessage::ChangeHealthDelta(
                text.clone(),
            ),
            HitPointMessage::Heal => HitPointMessage::Heal,
            HitPointMessage::Damage => HitPointMessage::Damage,
            HitPointMessage::ResetDelta => HitPointMessage::ResetDelta,
            HitPointMessage::FullHealth => HitPointMessage::FullHealth,
        }
    }
}

/// What a message asks for, with a typed amount already read.
pub enum HitPointChange {
    IncrementDelta,
    DecrementDelta,
    /// The amount that was typed, where it was a number.
    SetDelta(Option<isize>),
    Heal,
    Damage,
    ResetDelta,
    FullHealth,
}

/// `str::parse::<isize>` reads a text as a number or fails. As std
/// documents it, the text holds an optional sign and then decimal digits,
/// at least one; space or anything else around or among them, no digit
/// at all, or a number beyond the machine integers makes it fail.
#[verifier::external_body]
fn read_number(text: &str) -> (r: Option<isize>)
    ensures
        r == number_read(text@),
{
    text.parse::<isize>().ok()
}

/// What a message asks for.
pub open spec fn change_of(message: HitPointMessage) -> HitPointChange {
    match message {
        HitPointMessage::IncrementHealthDelta => HitPointChange::IncrementDelta,
        HitPointMessage::DecrementHealthDelta => HitPointChange::DecrementDelta,
        HitPointMessage::ChangeHealthDelta(text) => HitPointChange::SetDelta(number_read(text@)),
        HitPointMessage::Heal => HitPointChange::Heal,
        HitPointMessage::Damage => HitPointChange::Damage,
        HitPointMessage::ResetDelta => HitPointChange::ResetDelta,
        HitPointMessage::FullHealth => HitPointChange::FullHealth,
    }
}

/// Hit points in play.
#[derive(Debug, Clone, Copy, PartialEq, Eq, Structural)]
pub struct HitPointState {
    pub hit_points: HitPoints,
    /// The amount of the next healing or damage.
    pub hp_delta: isize,
}

impl Default for HitPointState {
    fn default() -> (r: HitPointState)
        ensures
            r == (HitPointState {
                hit_points: HitPoints { current_hit_points: 0, max_hit_points: 0 },
                hp_delta: 0,
            }),
    {
        HitPointState { hit_points: HitPoints { current_hit_points: 0, max_hit_points: 0 }, hp_delta: 0 }
    }
}

impl HitPoints {
    pub fn to_state(self) -> (r: HitPointState)
        ensures
            r == (HitPointState { hit_points: self, hp_delta: 0 }),
    {
        HitPointState { hit_points: self, hp_delta: 0 }
    }
}

impl HitPointState {
    /// The state after a change. Changes to the amount leave the hit
    /// points alone; an amount that is no number leaves the amount as it
    /// was. Healing adds the amount, damage takes it away, and full
    /// health goes to the maximum.
    pub open spec fn after(self, change: HitPointChange) -> HitPointState {
        match change {
            HitPointChange::IncrementDelta => HitPointState {
                hp_delta: (self.hp_delta + 1) as isize,
                ..self
            },
            HitPointChange::DecrementDelta => HitPointState {
                hp_delta: (self.hp_delta - 1) as isize,
                ..self
            },
            HitPointChange::SetDelta(Some(delta)) => HitPointState { hp_delta: delta, ..self },
            HitPointChange::SetDelta(None) => self,
            HitPointChange::ResetDelta => HitPointState { hp_delta: 0, ..self },
            HitPointChange::Heal => HitPointState {
                hit_points: HitPoints {
                    current_hit_points: (self.hit_points.current_hit_points + self.hp_delta) as isize,
                    ..self.hit_points
                },
                ..self
            },
            HitPointChange::Damage => HitPointState {
                hit_points: HitPoints {
                    current_hit_points: (self.hit_points.current_hit_points - self.hp_delta) as isize,
                    ..self.hit_points
                },
                ..self
            },
            HitPointChange::FullHealth => HitPointState {
                hit_points: HitPoints {
                    current_hit_points: self.hit_points.max_hit_points,
                    ..self.hit_points
                },
                ..self
            },
        }
    }

    /// Whether a change can be carried out in machine integers.
    pub open spec fn allows(self, change: HitPointChange) -> bool {
        match change {
            HitPointChange::IncrementDelta => in_range(self.hp_delta + 1),
            HitPointChange::DecrementDelta => in_range(self.hp_delta - 1),
            HitPointChange::Heal => in_range(self.hit_points.current_hit_points + self.hp_delta),
            HitPointChange::Damage => in_range(self.hit_points.current_hit_points - self.hp_delta),
            _ => true,
        }
    }

    pub fn persistable(&self) -> (r: HitPoints)
        ensures
            r == self.hit_points,
    {
        self.hit_points
    }

    /// Sets the amount of the next change to what was read, if a number
    /// was read.
    pub fn set_delta(&mut self, read: Option<isize>)
        ensures
            *final(self) == old(self).after(HitPointChange::SetDelta(read)),
    {
        match read {
            Some(delta) => {
                self.hp_delta = delta;
            },
            None => {},
        }
    }

    /// Carries out a message, and says whether there is something to
    /// save: there is once the hit points themselves were touched.
    pub fn update(&mut self, message: HitPointMessage) -> (dirty: bool)
        requires
            old(self).allows(change_of(message)),
        ensures
            *final(self) == old(self).after(change_of(message)),
            dirty == (message is Heal || message is Damage || message is FullHealth),
    {
        match message {
            HitPointMessage::IncrementHealthDelta => {
                self.hp_delta = self.hp_delta + 1;
                false
            },
            HitPointMessage::DecrementHealthDelta => {
                self.hp_delta = self.hp_delta - 1;
                false
            },
            HitPointMessage::ChangeHealthDelta(delta) => {
                self.set_delta(read_number(delta.as_str()));
                false
            },
            HitPointMessage::ResetDelta => {
                self.hp_delta = 0;
                false
            },
            HitPointMessage::Heal => {
                self.hit_points.current_hit_points = self.hit_points.current_hit_points
                    + self.hp_delta;
                true
            },
            HitPointMessage::Damage => {
                self.hit_points.current_hit_points = self.hit_points.current_hit_points
                    - self.hp_delta;
                true
            },
            HitPointMessage::FullHealth => {
                self.hit_points.current_hit_points = self.hit_points.max_hit_points;
                true
            },
        }
    }
}

} // verus!
