//! Spell slots, level by level.

use vstd::prelude::*;

verus! {

/// The level of a spell slot.
pub type Level = usize;

/// The spell slots of one level.
#[derive(Debug, Clone, Copy, PartialEq, Eq, Structural)]
pub struct SpellSlot {
    pub level: Level,
    pub available: usize,
    pub max: usize,
}

impl Default for SpellSlot {
    fn default() -> (r: SpellSlot)
        ensures
            r == (SpellSlot { level: 0, available: 0, max: 0 }),
    {
        SpellSlot { level: 0, available: 0, max: 0 }
    }
}

/// What can be done to spell slots.
#[derive(Debug, Clone, Copy, PartialEq, Eq, Structural)]
pub enum SpellSlotMessage {
    /// Casts a spell of a level.
    UseSpell(Level),
    /// Brings back the slots of a level, or of all levels.
    ResetSlots(Option<Level>),
}

/// The spell slots of one level in play.
#[derive(Debug, Clone, Copy, PartialEq, Eq, Structural)]
pub struct SpellSlotState {
    pub spell_slot: SpellSlot,
}

impl SpellSlot {
    pub fn to_state(self) -> (r: SpellSlotState)
        ensures
            r.spell_slot == self,
    {
        SpellSlotState { spell_slot: self }
    }

    /// The slots after a message. A spell of this level takes one slot;
    /// a reset of this level or of all levels brings all slots back.
    pub open spec fn after(self, message: SpellSlotMessage) -> SpellSlot {
        match message {
            SpellSlotMessage::UseSpell(level) => if self.level == level {
                SpellSlot { available: (self.available - 1) as usize, ..self }
            } else {
                self
            },
            SpellSlotMessage::ResetSlots(level) => if level is None || level == Some(self.level) {
                SpellSlot { available: self.max, ..self }
            } else {
                self
            },
        }
    }

    /// Whether a message can be carried out: a spell needs a slot.
    pub open spec fn allows(self, message: SpellSlotMessage) -> bool {
        match message {
            SpellSlotMessage::UseSpell(level) => self.level == level ==> self.available > 0,
            SpellSlotMessage::ResetSlots(_) => true,
        }
    }
}

impl SpellSlotState {
    pub fn persistable(&self) -> (r: SpellSlot)
        ensures
            r == self.spell_slot,
    {
        self.spell_slot
    }
}

/// The spell slots of a list of states.
pub open spec fn slots_of(states: Seq<SpellSlotState>) -> Seq<SpellSlot> {
    states.map_values(|s: SpellSlotState| s.spell_slot)
}

/// The spell slots of a character in play.
#[derive(Debug)]
pub struct SpellSlotsState {
    pub spell_slots: Vec<SpellSlotState>,
}

impl View for SpellSlotsState {
    type V = Seq<SpellSlot>;

    open spec fn view(&self) -> Seq<SpellSlot> {
        slots_of(self.spell_slots@)
    }
}

impl Default for SpellSlotsState {
    fn default() -> (r: SpellSlotsState)
        ensures
            r@ == Seq::<SpellSlot>::empty(),
    {
        let r = SpellSlotsState { spell_slots: Vec::new() };
        assert(r@ =~= Seq::<SpellSlot>::empty());
        r
    }
}

/// The slots of every level after a message.
pub open spec fn all_after(slots: Seq<SpellSlot>, message: SpellSlotMessage) -> Seq<SpellSlot> {
    slots.map_values(|s: SpellSlot| s.after(message))
}

/// Whether a message can be carried out on the slots of every level.
pub open spec fn all_allow(slots: Seq<SpellSlot>, message: SpellSlotMessage) -> bool {
    forall|i: int| 0 <= i < slots.len() ==> (#[trigger] slots[i]).allows(message)
}

impl SpellSlotsState {
    pub fn from(spell_slots: Vec<SpellSlot>) -> (r: SpellSlotsState)
        ensures
            r@ == spell_slots@,
    {
        let mut states: Vec<SpellSlotState> = Vec::new();
        let mut i: usize = 0;
        while i < spell_slots.len()
            invariant
                i <= spell_slots.len(),
                states@.len() == i,
                forall|k: int| 0 <= k < i ==> (#[trigger] states@[k]).spell_slot == spell_slots@[k],
            decreases spell_slots.len() - i,
        {
            states.push(spell_slots[i].to_state());
            i += 1;
        }
        let r = SpellSlotsState { spell_slots: states };
        assert(r@ =~= spell_slots@);
        r
    }

    pub fn persistable(&self) -> (r: Vec<SpellSlot>)
        ensures
            r@ == self@,
    {
        let mut slots: Vec<SpellSlot> = Vec::new();
        let mut i: usize = 0;
        while i < self.spell_slots.len()
            invariant
                i <= self.spell_slots.len(),
                slots@ == self@.take(i as int),
            decreases self.spell_slots.len() - i,
        {
            slots.push(self.spell_slots[i].persistable());
            assert(slots@ =~= self@.take(i + 1));
            i += 1;
        }
        assert(self@.take(self@.len() as int) =~= self@);
        slots
    }

    /// Carries out a message. There is always something to save
    /// afterwards.
    pub fn update(&mut self, message: SpellSlotMessage) -> (dirty: bool)
        requires
            all_allow(old(self)@, message),
        ensures
            final(self)@ == all_after(old(self)@, message),
            dirty,
    {
        match message {
            SpellSlotMessage::UseSpell(level) => {
                self.use_spell_slot(level);
                true
            },
            SpellSlotMessage::ResetSlots(maybe_level) => {
                self.reset_spell_slot(maybe_level);
                true
            },
        }
    }

    /// Takes one slot of `level`.
    pub fn use_spell_slot(&mut self, level: Level)
        requires
            all_allow(old(self)@, SpellSlotMessage::UseSpell(level)),
        ensures
            final(self)@ == all_after(old(self)@, SpellSlotMessage::UseSpell(level)),
    {
        let ghost message = SpellSlotMessage::UseSpell(level);
        let mut i: usize = 0;
        while i < self.spell_slots.len()
            invariant
                i <= self.spell_slots.len(),
                message == SpellSlotMessage::UseSpell(level),
                all_allow(old(self)@, message),
                self.spell_slots@.len() == old(self).spell_slots@.len(),
                forall|k: int|
                    0 <= k < i ==> (#[trigger] self.spell_slots@[k]).spell_slot == old(
                        self,
                    )@[k].after(message),
                forall|k: int|
                    i <= k < self.spell_slots@.len() ==> self.spell_slots@[k] == old(
                        self,
                    ).spell_slots@[k],
            decreases self.spell_slots.len() - i,
        {
            assert(old(self)@[i as int].allows(message));
            if self.spell_slots[i].spell_slot.level == level {
                let mut state = self.spell_slots[i];
                state.spell_slot.available = state.spell_slot.available - 1;
                self.spell_slots[i] = state;
            }
            i += 1;
        }
        assert(self@ =~= all_after(old(self)@, message));
    }

    /// Brings back the slots of `level`, or of all levels.
    pub fn reset_spell_slot(&mut self, level: Option<Level>)
        ensures
            final(self)@ == all_after(old(self)@, SpellSlotMessage::ResetSlots(level)),
    {
        let ghost message = SpellSlotMessage::ResetSlots(level);
        let mut i: usize = 0;
        while i < self.spell_slots.len()
            invariant
                i <= self.spell_slots.len(),
                message == SpellSlotMessage::ResetSlots(level),
                self.spell_slots@.len() == old(self).spell_slots@.len(),
                forall|k: int|
                    0 <= k < i ==> (#[trigger] self.spell_slots@[k]).spell_slot == old(
                        self,
                    )@[k].after(message),
                forall|k: int|
                    i <= k < self.spell_slots@.len() ==> self.spell_slots@[k] == old(
                        self,
                    ).spell_slots@[k],
            decreases self.spell_slots.len() - i,
        {
            let mut state = self.spell_slots[i];
            let meant = match level {
                None => true,
                Some(l) => l == state.spell_slot.level,
            };
            if meant {
                state.spell_slot.available = state.spell_slot.max;
                self.spell_slots[i] = state;
            }
            i += 1;
        }
        assert(self@ =~= all_after(old(self)@, message));
    }
}

} // verus!
