//! Counters for what a character can use only so often.

use vstd::prelude::*;

verus! {

/// A counter of uses. Without a maximum there is nothing to go back to
/// but zero.
#[derive(Debug, Clone, Copy, PartialEq, Eq, Structural)]
pub struct Slot {
    pub current: isize,
    pub max: Option<isize>,
}

impl Default for Slot {
    fn default() -> (r: Slot)
        ensures
            r == (Slot { current: 0, max: None }),
    {
        Slot { current: 0, max: None }
    }
}

impl Slot {
    pub fn new(current: isize, max: Option<isize>) -> (r: Slot)
        ensures
            r == (Slot { current, max }),
    {
        Slot { current, max }
    }

    /// The count that a reset goes back to.
    pub open spec fn full(self) -> isize {
        match self.max {
            Some(max) => max,
            None => 0,
        }
    }

    /// The slot after a command. A use takes one away, also below zero;
    /// a reset goes back to the maximum, or to zero where there is none.
    pub open spec fn after(self, command: SlotCommand) -> Slot {
        match command {
            SlotCommand::Use => Slot { current: (self.current - 1) as isize, ..self },
            SlotCommand::Reset => Slot { current: self.full(), ..self },
        }
    }

    /// Whether a command leaves something to save: a use always does, a
    /// reset only where it changes the count.
    pub open spec fn dirtied_by(self, command: SlotCommand) -> bool {
        match command {
            SlotCommand::Use => true,
            SlotCommand::Reset => self.current != self.full(),
        }
    }

    /// Whether a command can be carried out in machine integers.
    pub open spec fn allows(self, command: SlotCommand) -> bool {
        match command {
            SlotCommand::Use => self.current > isize::MIN,
            SlotCommand::Reset => true,
        }
    }
}

/// What can be done to a slot.
#[derive(Debug, Clone, Copy, PartialEq, Eq, Structural)]
pub enum SlotCommand {
    Use,
    Reset,
}

/// A slot in play.
#[derive(Debug, Clone, Copy, PartialEq, Eq, Structural)]
pub struct SlotState {
    pub slot: Slot,
}

impl Default for SlotState {
    fn default() -> (r: SlotState)
        ensures
            r.slot == (Slot { current: 0, max: None }),
    {
        SlotState { slot: Slot { current: 0, max: None } }
    }
}

impl SlotState {
    pub fn persistable(&self) -> (r: Slot)
        ensures
            r == self.slot,
    {
        self.slot
    }

    pub fn from(slot: Slot) -> (r: SlotState)
        ensures
            r.slot == slot,
    {
        SlotState { slot }
    }

    /// Takes one use away. The count may go below zero.
    pub fn use_slot(&mut self) -> (dirty: bool)
        requires
            old(self).slot.allows(SlotCommand::Use),
        ensures
            final(self).slot == old(self).slot.after(SlotCommand::Use),
            final(self).slot.current == old(self).slot.current - 1,
            dirty,
    {
        self.slot.current = self.slot.current - 1;
        true
    }

    /// Goes back to the full count, and says whether that changed
    /// anything.
    pub fn reset(&mut self) -> (dirty: bool)
        ensures
            final(self).slot == old(self).slot.after(SlotCommand::Reset),
            dirty == old(self).slot.dirtied_by(SlotCommand::Reset),
    {
        let full = match self.slot.max {
            Some(max) => max,
            None => 0,
        };
        if full == self.slot.current {
            false
        } else {
            self.slot.current = full;
            true
        }
    }

    /// Carries out a command, and says whether there is something to
    /// save.
    pub fn update(&mut self, command: SlotCommand) -> (dirty: bool)
        requires
            old(self).slot.allows(command),
        ensures
            final(self).slot == old(self).slot.after(command),
            dirty == old(self).slot.dirtied_by(command),
    {
        match command {
            SlotCommand::Use => self.use_slot(),
            SlotCommand::Reset => self.reset(),
        }
    }
}

} // verus!
