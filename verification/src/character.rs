//! A character in play, and what follows from each thing that happens
//! to it.

use vstd::prelude::*;
use vstd::string::StringExecFns;
use crate::ability_score_state::{AbilityScoresState, AbilityScoresStateView};
use crate::class::{ClassView, Classes};
use crate::description::{Description, DescriptionView};
use crate::feature_state::{
    all_commanded, all_materialized, all_permit, all_persisted, any_dirtied, declared_by,
    message_actions, recomputed, ActionView, FeatureMessage, FeatureStateView, FeaturesState,
    TEMPLATE_DEPTH,
};
use crate::hitpoints::{change_of, HitPointChange, HitPointMessage, HitPointState};
use crate::name::Name;
use crate::persistence::{
    CharacterPersistence, CharacterPersistenceConfig, ConfigView, LoadData, LoadError,
    WrittenCharacter,
};
use crate::proficiencies::{Proficiencies, ProficienciesView};
use crate::resources::Resources;
use crate::template::TemplatesView;

verus! {

/// A character in play.
#[derive(Debug)]
pub struct State {
    pub config: CharacterPersistenceConfig,
    pub resources: Resources,
    pub name: Name,
    pub description: Description,
    pub ability_scores: AbilityScoresState,
    pub classes: Classes,
    pub hit_points: HitPointState,
    pub proficiencies: Proficiencies,
    pub features: FeaturesState,
    /// Whether the character is being written down right now.
    pub saving: bool,
    /// Whether something changed that is not written down yet.
    pub dirty: bool,
}

/// What a `State` stands for in contracts.
pub struct StateView {
    pub config: ConfigView,
    pub resources: TemplatesView,
    pub name: Seq<char>,
    pub description: DescriptionView,
    pub ability_scores: AbilityScoresStateView,
    pub classes: Seq<ClassView>,
    pub hit_points: HitPointState,
    pub proficiencies: ProficienciesView,
    pub features: Seq<FeatureStateView>,
    pub saving: bool,
    pub dirty: bool,
}

impl View for State {
    type V = StateView;

    open spec fn view(&self) -> StateView {
        StateView {
            config: self.config@,
            resources: self.resources@,
            name: self.name@,
            description: self.description@,
            ability_scores: self.ability_scores@,
            classes: self.classes@,
            hit_points: self.hit_points,
            proficiencies: self.proficiencies@,
            features: self.features@,
            saving: self.saving,
            dirty: self.dirty,
        }
    }
}

/// What happened, as the contracts see it.
pub enum Event {
    /// The character was read, or could not be read.
    Loaded(Option<(WrittenCharacter, TemplatesView)>),
    /// Writing the character down has ended.
    Saved,
    HitPoint(HitPointChange),
    /// Commands for the slots of features.
    Feature(Seq<ActionView>),
    /// The effects are to be worked out anew.
    ResetEffects,
}

impl StateView {
    /// The character of whom nothing is known.
    pub open spec fn blank() -> StateView {
        StateView::loaded(
            WrittenCharacter::blank((Seq::empty(), Seq::empty())),
            Seq::empty(),
        )
    }

    /// A character as it comes into play from what was read.
    pub open spec fn loaded(character: WrittenCharacter, templates: TemplatesView) -> StateView {
        StateView {
            config: character.config,
            resources: templates,
            name: character.name,
            description: character.description,
            ability_scores: AbilityScoresStateView::fresh(character.ability_scores),
            classes: character.classes,
            hit_points: HitPointState { hit_points: character.hit_points, hp_delta: 0 },
            proficiencies: character.proficiencies,
            features: all_materialized(character.features, templates, TEMPLATE_DEPTH as nat),
            saving: false,
            dirty: false,
        }
    }

    /// What is to be written down of the character.
    pub open spec fn written(self) -> WrittenCharacter {
        WrittenCharacter {
            name: self.name,
            description: self.description,
            ability_scores: self.ability_scores.ability_scores,
            classes: self.classes,
            hit_points: self.hit_points.hit_points,
            proficiencies: self.proficiencies,
            features: all_persisted(self.features),
            config: self.config,
        }
    }

    /// The character with its effects worked out anew: every effect that
    /// the feature tree declares is taken in by the ability scores and
    /// offered to the rolls of the tree, and what effects did before is
    /// forgotten.
    pub open spec fn with_effects_anew(self) -> StateView {
        StateView {
            ability_scores: self.ability_scores.with_effects(declared_by(self.features)),
            features: recomputed(self.features),
            ..self
        }
    }

    /// The character after something happened to it, before it is
    /// decided whether to write it down. Commands to features set the
    /// mark for unwritten changes to whether they changed a slot, and the
    /// effects are worked out anew after them; changes to hit points set
    /// the mark to whether the hit points themselves were touched.
    pub open spec fn after(self, event: Event) -> StateView {
        match event {
            Event::ResetEffects => self.with_effects_anew(),
            Event::Loaded(_) => self,
            Event::Saved => StateView { saving: false, ..self },
            Event::HitPoint(change) => StateView {
                hit_points: self.hit_points.after(change),
                dirty: change is Heal || change is Damage || change is FullHealth,
                ..self
            },
            Event::Feature(actions) => (StateView {
                features: all_commanded(self.features, actions),
                dirty: any_dirtied(self.features, actions),
                ..self
            }).with_effects_anew(),
        }
    }

    /// Whether what happened can be carried out in machine integers.
    pub open spec fn accepts(self, event: Event) -> bool {
        match event {
            Event::HitPoint(change) => self.hit_points.allows(change),
            Event::Feature(actions) => all_permit(self.features, actions),
            _ => true,
        }
    }

    /// Whether the character is to be written down now: there are
    /// unwritten changes and no writing is under way.
    pub open spec fn due(self) -> bool {
        self.dirty && !self.saving
    }

    /// The character once it was decided whether to write it down: where
    /// it is due, writing is under way and no change is unwritten.
    pub open spec fn settled(self) -> StateView {
        if self.due() {
            StateView { dirty: false, saving: true, ..self }
        } else {
            self
        }
    }
}

impl Default for State {
    fn default() -> (r: State)
        ensures
            r@ == StateView::blank(),
    {
        LoadData::default().to_state()
    }
}

/// What the program is told.
#[derive(Debug)]
pub enum Message {
    Loaded(Result<LoadData, LoadError>),
    Saved(Result<(), LoadError>),
    HitPoint(HitPointMessage),
    Feature(FeatureMessage),
    ResetEffects,
}

impl Clone for Message {
    fn clone(&self) -> (r: Message)
        ensures
            event_of(r) == event_of(*self),
    {
        match self {
            Message::Loaded(Ok(data)) => Message::Loaded(Ok(data.clone())),
            Message::Loaded(Err(error)) => Message::Loaded(Err(error.clone())),
            Message::Saved(Ok(())) => Message::Saved(Ok(())),
            Message::Saved(Err(error)) => Message::Saved(Err(error.clone())),
            Message::HitPoint(message) => Message::HitPoint(message.clone()),
            Message::Feature(message) => Message::Feature(message.clone()),
            Message::ResetEffects => Message::ResetEffects,
        }
    }
}

/// What happened, from what the program is told.
pub open spec fn event_of(message: Message) -> Event {
    match message {
        Message::Loaded(Ok(data)) => Event::Loaded(Some((data.character@, data.resources@))),
        Message::Loaded(Err(_)) => Event::Loaded(None),
        Message::Saved(_) => Event::Saved,
        Message::HitPoint(m) => Event::HitPoint(change_of(m)),
        Message::Feature(m) => Event::Feature(message_actions(m)),
        Message::ResetEffects => Event::ResetEffects,
    }
}

/// What is to be done next outside the program's own state.
#[derive(Debug)]
pub enum Task {
    /// Nothing.
    Idle,
    /// Read the character that is kept here.
    Load(CharacterPersistenceConfig),
    /// Write this character down.
    Save(CharacterPersistence),
}

/// What a `Task` stands for in contracts.
pub enum TaskView {
    Idle,
    Load(ConfigView),
    Save(WrittenCharacter),
}

impl View for Task {
    type V = TaskView;

    open spec fn view(&self) -> TaskView {
        match self {
            Task::Idle => TaskView::Idle,
            Task::Load(config) => TaskView::Load(config@),
            Task::Save(character) => TaskView::Save(character@),
        }
    }
}

impl State {
    /// What is to be written down of the character.
    pub fn persistable(&self) -> (r: CharacterPersistence)
        ensures
            r@ == self@.written(),
    {
        CharacterPersistence::from(
            self.name.clone(),
            self.description.clone(),
            self.ability_scores.persistable(),
            self.classes.persistable(),
            self.hit_points.persistable(),
            self.proficiencies.clone(),
            self.features.persistable(),
            self.config.clone(),
        )
    }

    /// Works the effects out anew.
    pub fn reset_effects(&mut self)
        ensures
            final(self)@ == old(self)@.with_effects_anew(),
    {
        let active_effects = self.features.recompute();
        self.ability_scores.apply_all(&active_effects);
    }

    /// Takes in what happened, and says what is to be done next: the
    /// character is to be written down where that is due, and otherwise
    /// nothing.
    pub fn update(&mut self, message: Message) -> (r: Task)
        requires
            old(self)@.accepts(event_of(message)),
        ensures
            final(self)@ == old(self)@.after(event_of(message)).settled(),
            r@ == if old(self)@.after(event_of(message)).due() {
                TaskView::Save(old(self)@.after(event_of(message)).written())
            } else {
                TaskView::Idle
            },
    {
        match message {
            Message::ResetEffects => {
                self.reset_effects();
            },
            Message::Loaded(_) => {},
            Message::Saved(_) => {
                self.saving = false;
            },
            Message::HitPoint(hit_point_message) => {
                self.dirty = self.hit_points.update(hit_point_message);
            },
            Message::Feature(feature_message) => {
                self.dirty = self.features.update(feature_message);
                self.reset_effects();
            },
        }
        if self.dirty && !self.saving {
            self.dirty = false;
            self.saving = true;
            Task::Save(self.persistable())
        } else {
            Task::Idle
        }
    }
}

/// The program: waiting for its character, or with the character in
/// play.
#[derive(Debug)]
pub enum Character {
    Loading(CharacterPersistenceConfig),
    Loaded(State),
}

/// What a `Character` stands for in contracts.
pub enum CharacterView {
    Loading(ConfigView),
    Loaded(StateView),
}

impl View for Character {
    type V = CharacterView;

    open spec fn view(&self) -> CharacterView {
        match self {
            Character::Loading(config) => CharacterView::Loading(config@),
            Character::Loaded(state) => CharacterView::Loaded(state@),
        }
    }
}

impl CharacterView {
    /// The program after something happened. While it waits, only the
    /// arrival of the character matters: what was read comes into play
    /// with its effects worked out, and where reading failed a character
    /// of whom nothing is known takes its place.
    pub open spec fn after(self, event: Event) -> CharacterView {
        match self {
            CharacterView::Loading(config) => match event {
                Event::Loaded(Some((character, templates))) => CharacterView::Loaded(
                    StateView::loaded(character, templates).with_effects_anew(),
                ),
                Event::Loaded(None) => CharacterView::Loaded(StateView::blank()),
                _ => self,
            },
            CharacterView::Loaded(state) => CharacterView::Loaded(state.after(event).settled()),
        }
    }

    /// What is to be done next after something happened.
    pub open spec fn task(self, event: Event) -> TaskView {
        match self {
            CharacterView::Loading(_) => TaskView::Idle,
            CharacterView::Loaded(state) => if state.after(event).due() {
                TaskView::Save(state.after(event).written())
            } else {
                TaskView::Idle
            },
        }
    }

    /// Whether what happened can be carried out in machine integers.
    pub open spec fn accepts(self, event: Event) -> bool {
        match self {
            CharacterView::Loading(_) => true,
            CharacterView::Loaded(state) => state.accepts(event),
        }
    }
}

/// The title of the program's window.
pub open spec fn title_of(character: CharacterView) -> Seq<char> {
    match character {
        CharacterView::Loaded(_) => "Character"@,
        CharacterView::Loading(_) => "Loading..."@,
    }
}

impl Character {
    /// The program as it starts: it waits for the character kept at
    /// `flags`, which is to be read.
    pub fn new(flags: CharacterPersistenceConfig) -> (r: (Character, Task))
        ensures
            r.0@ == CharacterView::Loading(flags@),
            r.1@ == TaskView::Load(flags@),
    {
        (Character::Loading(flags.clone()), Task::Load(flags))
    }

    pub fn title(&self) -> (r: String)
        ensures
            r@ == title_of(self@),
    {
        match self {
            Character::Loaded(_) => String::from_str("Character"),
            Character::Loading(_) => String::from_str("Loading..."),
        }
    }

    /// Takes in what happened, and says what is to be done next.
    pub fn update(&mut self, message: Message) -> (r: Task)
        requires
            old(self)@.accepts(event_of(message)),
        ensures
            final(self)@ == old(self)@.after(event_of(message)),
            r@ == old(self)@.task(event_of(message)),
    {
        match self {
            Character::Loading(_) => {
                match message {
                    Message::Loaded(Ok(loaded)) => {
                        let mut state = loaded.to_state();
                        state.reset_effects();
                        *self = Character::Loaded(state);
                    },
                    Message::Loaded(Err(_)) => {
                        *self = Character::Loaded(State::default());
                    },
                    _ => {},
                }
                Task::Idle
            },
            Character::Loaded(state) => state.update(message),
        }
    }
}

} // verus!
