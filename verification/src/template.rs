//! Templates: features written once, to be laid under the features that
//! name them.

use vstd::prelude::*;
use crate::feature::{Feature, FeatureView};
use crate::seqs::{first_where, first_where_is};

verus! {

/// The templates that features can name, each under its name. Looking a
/// name up finds the first template of that name.
#[derive(Debug)]
pub struct Templates {
    pub features: Vec<(String, Feature)>,
}

impl Clone for Templates {
    fn clone(&self) -> (r: Templates)
        ensures
            r@ == self@,
    {
        let mut features: Vec<(String, Feature)> = Vec::new();
        let mut i: usize = 0;
        while i < self.features.len()
            invariant
                i <= self.features.len(),
                features@.len() == i,
                forall|k: int|
                    0 <= k < i ==> (#[trigger] features@[k]).0@ == self.features@[k].0@
                        && features@[k].1@ == self.features@[k].1@,
            decreases self.features.len() - i,
        {
            features.push((self.features[i].0.clone(), self.features[i].1.clone()));
            i += 1;
        }
        let r = Templates { features };
        assert(r@ =~= self@);
        r
    }
}

/// One template as the contracts see it: its name and the feature.
pub type TemplateView = (Seq<char>, FeatureView);

/// What `Templates` stand for in contracts.
pub type TemplatesView = Seq<TemplateView>;

impl View for Templates {
    type V = TemplatesView;

    open spec fn view(&self) -> TemplatesView {
        Seq::new(self.features@.len(), |i: int| (self.features@[i].0@, self.features@[i].1@))
    }
}

/// The test for a template filed under `name`.
pub open spec fn filed_under(name: Seq<char>) -> spec_fn(TemplateView) -> bool {
    |t: TemplateView| t.0 == name
}

/// The template filed under `name`, if there is one.
pub open spec fn template_named(templates: TemplatesView, name: Seq<char>) -> Option<FeatureView> {
    let at = first_where(templates, filed_under(name));
    if at < templates.len() {
        Some(templates[at].1)
    } else {
        None
    }
}

impl Default for Templates {
    fn default() -> (r: Templates)
        ensures
            r@ == Seq::<TemplateView>::empty(),
    {
        let r = Templates { features: Vec::new() };
        assert(r@ =~= Seq::<TemplateView>::empty());
        r
    }
}

impl Templates {
    pub fn new(features: Vec<(String, Feature)>) -> (r: Templates)
        ensures
            r.features == features,
    {
        Templates { features }
    }

    pub fn features(&self) -> (r: &Vec<(String, Feature)>)
        ensures
            *r == self.features,
    {
        &self.features
    }

    /// The template filed under `name`.
    pub fn get(&self, name: &String) -> (r: Option<&Feature>)
        ensures
            match r {
                Some(feature) => template_named(self@, name@) == Some(feature@),
                None => template_named(self@, name@) is None,
            },
    {
        let mut i: usize = 0;
        while i < self.features.len()
            invariant
                i <= self.features.len(),
                forall|j: int| 0 <= j < i ==> !filed_under(name@)(#[trigger] self@[j]),
            decreases self.features.len() - i,
        {
            if self.features[i].0 == *name {
                proof {
                    first_where_is(self@, filed_under(name@), i as int);
                }
                return Some(&self.features[i].1);
            }
            i += 1;
        }
        proof {
            first_where_is(self@, filed_under(name@), i as int);
        }
        None
    }
}

} // verus!
