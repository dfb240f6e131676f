//! What is shared between characters.

use vstd::prelude::*;
use crate::store::StoreError;
use crate::template::{Templates, TemplatesView};

verus! {

/// The shared material that a character draws on.
#[derive(Debug)]
pub struct Resources {
    pub templates: Templates,
}

impl Clone for Resources {
    fn clone(&self) -> (r: Resources)
        ensures
            r@ == self@,
    {
        Resources { templates: self.templates.clone() }
    }
}

impl View for Resources {
    type V = TemplatesView;

    open spec fn view(&self) -> TemplatesView {
        self.templates@
    }
}

impl Default for Resources {
    fn default() -> (r: Resources)
        ensures
            r@ == Seq::<crate::template::TemplateView>::empty(),
    {
        Resources { templates: Templates::default() }
    }
}

impl Resources {
    pub fn templates(&self) -> (r: &Templates)
        ensures
            *r == self.templates,
    {
        &self.templates
    }
}

/// What can go wrong when the shared material is read.
#[derive(Debug, PartialEq, Eq)]
pub enum ResourceError {
    Store(StoreError),
    Serialize(String),
}

impl Clone for ResourceError {
    fn clone(&self) -> (r: ResourceError)
        ensures
            r == *self,
    {
        match self {
            ResourceError::Store(error) => ResourceError::Store(error.clone()),
            ResourceError::Serialize(text) => ResourceError::Serialize(text.clone()),
        }
    }
}

/// The shared material as it is written down.
#[derive(Debug)]
pub struct ResourcePersistence {
    pub templates: Templates,
}

impl ResourcePersistence {
    pub fn from(templates: Templates) -> (r: ResourcePersistence)
        ensures
            r.templates == templates,
    {
        ResourcePersistence { templates }
    }

    pub fn resources(self) -> (r: Resources)
        ensures
            r.templates == self.templates,
    {
        Resources { templates: self.templates }
    }
}

/// Where the shared material is kept.
#[derive(Debug)]
pub struct ResourcePersistenceConfig {
    pub storage_root: String,
}

impl ResourcePersistenceConfig {
    pub fn of(storage_root: String) -> (r: ResourcePersistenceConfig)
        ensures
            r.storage_root == storage_root,
    {
        ResourcePersistenceConfig { storage_root }
    }
}

} // verus!
