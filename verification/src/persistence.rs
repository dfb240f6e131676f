//! A character as it is written down, and where it is kept.

use vstd::prelude::*;
use vstd::string::StringExecFns;
use crate::ability_score::AbilityScores;
use crate::ability_score_state::all_ten;
use crate::character::{State, StateView};
use crate::class::{classes_view, Class, ClassView, Classes};
use crate::description::{Description, DescriptionView};
use crate::feature::{clone_features, features_view, Feature, FeatureView};
use crate::feature_state::FeaturesState;
use crate::hitpoints::HitPoints;
use crate::name::Name;
use crate::proficiencies::{Proficiencies, ProficienciesView};
use crate::resources::{ResourceError, Resources};
use crate::store::StoreError;

verus! {

/// What can go wrong when a character is read.
#[derive(Debug, PartialEq, Eq)]
pub enum LoadError {
    Store(StoreError),
    Serialize(String),
    Resource(ResourceError),
}

impl Clone for LoadError {
    fn clone(&self) -> (r: LoadError)
        ensures
            r == *self,
    {
        match self {
            LoadError::Store(error) => LoadError::Store(error.clone()),
            LoadError::Serialize(text) => LoadError::Serialize(text.clone()),
            LoadError::Resource(error) => LoadError::Resource(error.clone()),
        }
    }
}

/// Where a character is kept.
#[derive(Debug, PartialEq, Eq)]
pub struct CharacterPersistenceConfig {
    pub storage_root: String,
    pub character_id: String,
}

/// What a `CharacterPersistenceConfig` stands for in contracts: the
/// root of the store and the character's key.
pub type ConfigView = (Seq<char>, Seq<char>);

impl View for CharacterPersistenceConfig {
    type V = ConfigView;

    open spec fn view(&self) -> ConfigView {
        (self.storage_root@, self.character_id@)
    }
}

impl Default for CharacterPersistenceConfig {
    fn default() -> (r: CharacterPersistenceConfig)
        ensures
            r@ == (Seq::<char>::empty(), Seq::<char>::empty()),
    {
        CharacterPersistenceConfig { storage_root: String::new(), character_id: String::new() }
    }
}

impl Clone for CharacterPersistenceConfig {
    fn clone(&self) -> (r: CharacterPersistenceConfig)
        ensures
            r@ == self@,
    {
        CharacterPersistenceConfig {
            storage_root: self.storage_root.clone(),
            character_id: self.character_id.clone(),
        }
    }
}

impl CharacterPersistenceConfig {
    pub fn storage_root(&self) -> (r: String)
        ensures
            r@ == self@.0,
    {
        self.storage_root.clone()
    }

    pub fn new(storage_root: String, character_id: String) -> (r: CharacterPersistenceConfig)
        ensures
            r@ == (storage_root@, character_id@),
    {
        CharacterPersistenceConfig { storage_root, character_id }
    }
}

/// A character as it is written down.
#[derive(Debug, PartialEq, Eq)]
pub struct CharacterPersistence {
    pub name: Name,
    pub description: Description,
    pub ability_scores: AbilityScores,
    pub classes: Vec<Class>,
    pub hit_points: HitPoints,
    pub proficiencies: Proficiencies,
    pub features: Vec<Feature>,
    pub config: CharacterPersistenceConfig,
}

/// What a `CharacterPersistence` stands for in contracts.
pub struct WrittenCharacter {
    pub name: Seq<char>,
    pub description: DescriptionView,
    pub ability_scores: AbilityScores,
    pub classes: Seq<ClassView>,
    pub hit_points: HitPoints,
    pub proficiencies: ProficienciesView,
    pub features: Seq<FeatureView>,
    pub config: ConfigView,
}

impl View for CharacterPersistence {
    type V = WrittenCharacter;

    open spec fn view(&self) -> WrittenCharacter {
        WrittenCharacter {
            name: self.name@,
            description: self.description@,
            ability_scores: self.ability_scores,
            classes: classes_view(self.classes@),
            hit_points: self.hit_points,
            proficiencies: self.proficiencies@,
            features: features_view(self.features@),
            config: self.config@,
        }
    }
}

impl WrittenCharacter {
    /// The character of whom nothing is known but where it is kept.
    pub open spec fn blank(config: ConfigView) -> WrittenCharacter {
        WrittenCharacter {
            name: Seq::empty(),
            description: DescriptionView::blank(),
            ability_scores: all_ten(),
            classes: Seq::empty(),
            hit_points: HitPoints { current_hit_points: 0, max_hit_points: 0 },
            proficiencies: ProficienciesView { tools: Seq::empty(), languages: Seq::empty() },
            features: Seq::empty(),
            config: config,
        }
    }
}

/// The name of the file of the character with this key.
pub open spec fn character_key(character_id: Seq<char>) -> Seq<char> {
    "characters/"@ + character_id + ".json"@
}

impl Clone for CharacterPersistence {
    fn clone(&self) -> (r: CharacterPersistence)
        ensures
            r@ == self@,
    {
        let mut copied: Vec<Class> = Vec::new();
        let mut i: usize = 0;
        while i < self.classes.len()
            invariant
                i <= self.classes.len(),
                copied@.len() == i,
                forall|k: int| 0 <= k < i ==> (#[trigger] copied@[k])@ == self.classes@[k]@,
            decreases self.classes.len() - i,
        {
            copied.push(self.classes[i].clone());
            i += 1;
        }
        assert(classes_view(copied@) =~= classes_view(self.classes@));
        CharacterPersistence {
            name: self.name.clone(),
            description: self.description.clone(),
            ability_scores: self.ability_scores,
            classes: copied,
            hit_points: self.hit_points,
            proficiencies: self.proficiencies.clone(),
            features: clone_features(&self.features),
            config: self.config.clone(),
        }
    }
}

impl Default for CharacterPersistence {
    fn default() -> (r: CharacterPersistence)
        ensures
            r@ == WrittenCharacter::blank((Seq::<char>::empty(), Seq::<char>::empty())),
    {
        CharacterPersistence::default_from(CharacterPersistenceConfig::default())
    }
}

impl CharacterPersistence {
    pub fn from(
        name: Name,
        description: Description,
        ability_scores: AbilityScores,
        classes: Vec<Class>,
        hit_points: HitPoints,
        proficiencies: Proficiencies,
        features: Vec<Feature>,
        config: CharacterPersistenceConfig,
    ) -> (r: CharacterPersistence)
        ensures
            r@ == (WrittenCharacter {
                name: name@,
                description: description@,
                ability_scores: ability_scores,
                classes: classes_view(classes@),
                hit_points: hit_points,
                proficiencies: proficiencies@,
                features: features_view(features@),
                config: config@,
            }),
    {
        CharacterPersistence {
            name,
            description,
            ability_scores,
            classes,
            hit_points,
            proficiencies,
            features,
            config,
        }
    }

    /// The character of whom nothing is known but where it is kept.
    pub fn default_from(config: CharacterPersistenceConfig) -> (r: CharacterPersistence)
        ensures
            r@ == WrittenCharacter::blank(config@),
    {
        let scores = AbilityScores::default();
        assert(scores.score(crate::ability_score::Ability::Strength).value == 10);
        assert(scores.score(crate::ability_score::Ability::Dexterity).value == 10);
        assert(scores.score(crate::ability_score::Ability::Constitution).value == 10);
        assert(scores.score(crate::ability_score::Ability::Intelligence).value == 10);
        assert(scores.score(crate::ability_score::Ability::Wisdom).value == 10);
        assert(scores.score(crate::ability_score::Ability::Charisma).value == 10);
        let r = CharacterPersistence {
            name: Name::default(),
            description: Description::default(),
            ability_scores: scores,
            classes: Vec::new(),
            hit_points: HitPoints::default(),
            proficiencies: Proficiencies::default(),
            features: Vec::new(),
            config: config,
        };
        assert(r@.classes =~= Seq::empty());
        assert(r@.features =~= Seq::empty());
        r
    }

    /// The name of the file of the character with this key.
    pub fn key(character_id: String) -> (r: String)
        ensures
            r@ == character_key(character_id@),
    {
        let mut out = String::from_str("characters/");
        out.append(character_id.as_str());
        out.append(".json");
        out
    }
}

/// What was read for a character: the shared material and the character
/// itself.
#[derive(Debug)]
pub struct LoadData {
    pub resources: Resources,
    pub character: CharacterPersistence,
}

impl Clone for LoadData {
    fn clone(&self) -> (r: LoadData)
        ensures
            r.resources@ == self.resources@,
            r.character@ == self.character@,
    {
        LoadData { resources: self.resources.clone(), character: self.character.clone() }
    }
}

impl Default for LoadData {
    fn default() -> (r: LoadData)
        ensures
            r.resources@ == Seq::<crate::template::TemplateView>::empty(),
            r.character@ == WrittenCharacter::blank((Seq::<char>::empty(), Seq::<char>::empty())),
    {
        LoadData { resources: Resources::default(), character: CharacterPersistence::default() }
    }
}

impl LoadData {
    /// Brings what was read into play.
    pub fn to_state(self) -> (r: State)
        ensures
            r@ == StateView::loaded(self.character@, self.resources@),
    {
        let CharacterPersistence {
            name,
            description,
            ability_scores,
            config,
            classes,
            hit_points,
            proficiencies,
            features,
        } = self.character;
        let classes = Classes::from(classes);
        let features = FeaturesState::from(features, self.resources.templates());
        State {
            name: name,
            description: description,
            ability_scores: ability_scores.to_state(),
            config: config,
            classes: classes,
            hit_points: hit_points.to_state(),
            proficiencies: proficiencies,
            features: features,
            resources: self.resources,
            saving: false,
            dirty: false,
        }
    }
}

} // verus!
