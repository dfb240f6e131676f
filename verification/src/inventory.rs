//! What a character carries, and the effects of what it has equipped.

use vstd::prelude::*;
use crate::effect::{effects_view, Effect, EffectView};
use crate::feature::{append_effects, clone_features, features_view, Feature, FeatureView};
use crate::feature_state::{
    all_materialized, declared_by, FeatureStateView, FeaturesState, TEMPLATE_DEPTH,
};
use crate::template::{Templates, TemplatesView};

verus! {

/// One thing that a character carries: what the character calls it, the
/// name of the item that it is, and the features that it has of its own.
#[derive(Debug, PartialEq, Eq)]
pub struct InventoryItem {
    pub name: String,
    pub item_name: String,
    pub features: Option<Vec<Feature>>,
}

/// What an `InventoryItem` stands for in contracts.
pub struct InventoryItemView {
    pub name: Seq<char>,
    pub item_name: Seq<char>,
    pub features: Option<Seq<FeatureView>>,
}

impl View for InventoryItem {
    type V = InventoryItemView;

    open spec fn view(&self) -> InventoryItemView {
        InventoryItemView {
            name: self.name@,
            item_name: self.item_name@,
            features: match self.features {
                Some(features) => Some(features_view(features@)),
                None => None,
            },
        }
    }
}

impl Default for InventoryItem {
    fn default() -> (r: InventoryItem)
        ensures
            r@ == (InventoryItemView {
                name: Seq::empty(),
                item_name: Seq::empty(),
                features: None,
            }),
    {
        InventoryItem { name: String::new(), item_name: String::new(), features: None }
    }
}

impl Clone for InventoryItem {
    fn clone(&self) -> (r: InventoryItem)
        ensures
            r@ == self@,
    {
        InventoryItem {
            name: self.name.clone(),
            item_name: self.item_name.clone(),
            features: match &self.features {
                Some(features) => Some(clone_features(features)),
                None => None,
            },
        }
    }
}

/// One carried thing in play.
#[derive(Debug)]
pub struct InventoryItemState {
    pub item: InventoryItem,
    pub features: Option<FeaturesState>,
}

/// What an `InventoryItemState` stands for in contracts.
pub struct InventoryItemStateView {
    pub item: InventoryItemView,
    pub features: Option<Seq<FeatureStateView>>,
}

impl View for InventoryItemState {
    type V = InventoryItemStateView;

    open spec fn view(&self) -> InventoryItemStateView {
        InventoryItemStateView {
            item: self.item@,
            features: match self.features {
                Some(features) => Some(features@),
                None => None,
            },
        }
    }
}

impl InventoryItemStateView {
    /// A carried thing as it comes into play.
    pub open spec fn of(item: InventoryItemView, templates: TemplatesView) -> InventoryItemStateView {
        InventoryItemStateView {
            item: item,
            features: match item.features {
                Some(features) => Some(
                    all_materialized(features, templates, TEMPLATE_DEPTH as nat),
                ),
                None => None,
            },
        }
    }

    /// The effects that the features of the thing declare.
    pub open spec fn effects(self) -> Seq<EffectView> {
        match self.features {
            Some(features) => declared_by(features),
            None => Seq::empty(),
        }
    }
}

impl InventoryItem {
    /// Brings the thing into play.
    pub fn to_state(self, templates: &Templates) -> (r: InventoryItemState)
        ensures
            r@ == InventoryItemStateView::of(self@, templates@),
    {
        let features = match &self.features {
            Some(features) => Some(FeaturesState::from(clone_features(features), templates)),
            None => None,
        };
        InventoryItemState { item: self, features: features }
    }
}

impl InventoryItemState {
    /// The effects that the features of the thing declare.
    pub fn effects(&self) -> (r: Vec<Effect>)
        ensures
            effects_view(r@) == self@.effects(),
    {
        match &self.features {
            Some(features) => features.effects(),
            None => {
                let r: Vec<Effect> = Vec::new();
                assert(effects_view(r@) =~= Seq::empty());
                r
            },
        }
    }

    pub fn persistable(&self) -> (r: InventoryItem)
        ensures
            r@ == self@.item,
    {
        self.item.clone()
    }
}

/// What a list of carried things stands for in contracts.
pub open spec fn items_view(items: Seq<InventoryItem>) -> Seq<InventoryItemView> {
    items.map_values(|i: InventoryItem| i@)
}

/// What a list of carried things in play stands for in contracts.
pub open spec fn item_states_view(items: Seq<InventoryItemState>) -> Seq<InventoryItemStateView> {
    items.map_values(|i: InventoryItemState| i@)
}

/// Carried things as they come into play.
pub open spec fn items_in_play(
    items: Seq<InventoryItemView>,
    templates: TemplatesView,
) -> Seq<InventoryItemStateView> {
    items.map_values(|i: InventoryItemView| InventoryItemStateView::of(i, templates))
}

/// The carried things of a list of states.
pub open spec fn items_of(states: Seq<InventoryItemStateView>) -> Seq<InventoryItemView> {
    states.map_values(|s: InventoryItemStateView| s.item)
}

/// The effects that the first `k` things declare, thing by thing.
pub open spec fn effects_of_first(states: Seq<InventoryItemStateView>, k: nat) -> Seq<EffectView>
    decreases k,
{
    if k == 0 || k > states.len() {
        Seq::empty()
    } else {
        effects_of_first(states, (k - 1) as nat) + states[k - 1].effects()
    }
}

/// What a character carries.
#[derive(Debug, PartialEq, Eq)]
pub struct Inventory {
    pub equipped: Vec<InventoryItem>,
    pub on_person: Vec<InventoryItem>,
}

impl Default for Inventory {
    fn default() -> (r: Inventory)
        ensures
            r.equipped@.len() == 0,
            r.on_person@.len() == 0,
    {
        Inventory { equipped: Vec::new(), on_person: Vec::new() }
    }
}

/// What a character carries, in play.
#[derive(Debug)]
pub struct InventoryState {
    pub equipped: Vec<InventoryItemState>,
    pub on_person: Vec<InventoryItemState>,
}

/// Brings carried things into play.
fn items_to_state(items: Vec<InventoryItem>, templates: &Templates) -> (r: Vec<InventoryItemState>)
    ensures
        item_states_view(r@) == items_in_play(items_view(items@), templates@),
{
    let mut states: Vec<InventoryItemState> = Vec::new();
    let mut i: usize = 0;
    while i < items.len()
        invariant
            i <= items.len(),
            states@.len() == i,
            forall|k: int|
                0 <= k < i ==> (#[trigger] states@[k])@ == InventoryItemStateView::of(
                    items@[k]@,
                    templates@,
                ),
        decreases items.len() - i,
    {
        states.push(items[i].clone().to_state(templates));
        i += 1;
    }
    assert(item_states_view(states@) =~= items_in_play(items_view(items@), templates@));
    states
}

/// What is written down of carried things in play.
fn items_persistable(states: &Vec<InventoryItemState>) -> (r: Vec<InventoryItem>)
    ensures
        items_view(r@) == items_of(item_states_view(states@)),
{
    let mut items: Vec<InventoryItem> = Vec::new();
    let mut i: usize = 0;
    while i < states.len()
        invariant
            i <= states.len(),
            items@.len() == i,
            forall|k: int| 0 <= k < i ==> (#[trigger] items@[k])@ == states@[k]@.item,
        decreases states.len() - i,
    {
        items.push(states[i].persistable());
        i += 1;
    }
    assert(items_view(items@) =~= items_of(item_states_view(states@)));
    items
}

impl Inventory {
    /// Brings what the character carries into play.
    pub fn to_state(self, templates: &Templates) -> (r: InventoryState)
        ensures
            item_states_view(r.equipped@) == items_in_play(items_view(self.equipped@), templates@),
            item_states_view(r.on_person@) == items_in_play(
                items_view(self.on_person@),
                templates@,
            ),
    {
        InventoryState {
            equipped: items_to_state(self.equipped, templates),
            on_person: items_to_state(self.on_person, templates),
        }
    }
}

impl InventoryState {
    /// The effects that the equipped things declare, thing by thing.
    /// What is only carried has no effect.
    pub fn effects_from_equipped(&self) -> (r: Vec<Effect>)
        ensures
            effects_view(r@) == effects_of_first(
                item_states_view(self.equipped@),
                self.equipped@.len(),
            ),
    {
        let ghost all = item_states_view(self.equipped@);
        let mut result: Vec<Effect> = Vec::new();
        assert(effects_view(result@) =~= Seq::empty());
        let mut i: usize = 0;
        while i < self.equipped.len()
            invariant
                i <= self.equipped.len(),
                all == item_states_view(self.equipped@),
                effects_view(result@) == effects_of_first(all, i as nat),
            decreases self.equipped.len() - i,
        {
            let more = self.equipped[i].effects();
            append_effects(&mut result, &more);
            i += 1;
        }
        result
    }

    /// What is to be written down of what the character carries.
    pub fn persistable(&self) -> (r: Inventory)
        ensures
            items_view(r.equipped@) == items_of(item_states_view(self.equipped@)),
            items_view(r.on_person@) == items_of(item_states_view(self.on_person@)),
    {
        Inventory {
            equipped: items_persistable(&self.equipped),
            on_person: items_persistable(&self.on_person),
        }
    }
}

} // verus!
