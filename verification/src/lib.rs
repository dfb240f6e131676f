//! A tabletop role-playing character sheet whose numbers are derived from a
//! tree of features and the effects they carry.

pub mod ability_score;
pub mod ability_score_state;
pub mod attack;
pub mod character;
pub mod check;
pub mod class;
pub mod damage;
pub mod description;
pub mod dimensions;
pub mod effect;
pub mod equipment;
pub mod feature;
pub mod feature_laws;
pub mod feature_path;
pub mod feature_state;
pub mod hitpoints;
pub mod inventory;
pub mod item;
pub mod name;
pub mod overlay;
pub mod persistence;
pub mod proficiencies;
pub mod resources;
pub mod roll;
pub mod rollable;
pub mod saving_throw;
pub mod seqs;
pub mod skill;
pub mod spell_slot;
pub mod spellcasting;
pub mod slot;
pub mod store;
pub mod tags;
pub mod template;
pub mod text;
pub mod weapon;
