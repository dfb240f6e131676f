//! Features: the named parts of a character, each of which may hold a
//! slot, effects, rolls and further features.

use vstd::prelude::*;
use vstd::string::StringExecFns;
use crate::effect::{clone_effects, effects_view, Effect, EffectView};
use crate::feature_path::FeaturePath;
use crate::overlay::{items_view, overlaid_all, overlay_all, Overlay};
use crate::roll::{clone_rolls, or_else, rolls_view, Roll, RollView};
use crate::seqs::{
    first_where, first_where_bounds, first_where_is, first_where_same, without_runs,
};
use crate::slot::Slot;
use crate::text::{clone_opt_string, clone_strings, opt_string_view, strings_view};

verus! {

/// How the children of a feature are laid out.
#[derive(Debug, Clone, Copy, PartialEq, Eq, Structural)]
pub enum DisplayOrientation {
    Columns,
    Rows,
}

impl Default for DisplayOrientation {
    fn default() -> (r: DisplayOrientation)
        ensures
            r == DisplayOrientation::Rows,
    {
        DisplayOrientation::Rows
    }
}

/// A feature as it is written down. Its name is the step that paths
/// take through it and the name under which templates are laid under it.
#[derive(Debug, PartialEq, Eq)]
pub struct Feature {
    pub name: String,
    pub description: Option<String>,
    pub slot: Option<Slot>,
    pub children: Vec<Feature>,
    pub show_reset_children: Option<bool>,
    pub child_display_orientation: Option<DisplayOrientation>,
    pub effects: Vec<Effect>,
    pub rolls: Vec<Roll>,
    /// The names of the templates to lay under this feature.
    pub templates: Vec<String>,
}

/// What a `Feature` stands for in contracts.
pub struct FeatureView {
    pub name: Seq<char>,
    pub description: Option<Seq<char>>,
    pub slot: Option<Slot>,
    pub children: Seq<FeatureView>,
    pub show_reset_children: Option<bool>,
    pub child_display_orientation: Option<DisplayOrientation>,
    pub effects: Seq<EffectView>,
    pub rolls: Seq<RollView>,
    pub templates: Seq<Seq<char>>,
}

impl Feature {
    pub open spec fn model(&self) -> FeatureView
        decreases self,
    {
        FeatureView {
            name: self.name@,
            description: opt_string_view(self.description),
            slot: self.slot,
            children: Seq::new(
                self.children@.len(),
                |i: int|
                    if 0 <= i < self.children@.len() {
                        self.children@[i].model()
                    } else {
                        arbitrary()
                    },
            ),
            show_reset_children: self.show_reset_children,
            child_display_orientation: self.child_display_orientation,
            effects: effects_view(self.effects@),
            rolls: rolls_view(self.rolls@),
            templates: strings_view(self.templates@),
        }
    }
}

impl View for Feature {
    type V = FeatureView;

    open spec fn view(&self) -> FeatureView {
        self.model()
    }
}

/// What a list of features stands for in contracts.
pub open spec fn features_view(features: Seq<Feature>) -> Seq<FeatureView> {
    Seq::new(features.len(), |i: int| features[i]@)
}

/// A feature's children are seen as the views of its children.
pub proof fn feature_view_children(feature: &Feature)
    ensures
        feature@.children == features_view(feature.children@),
{
    assert(feature@.children =~= features_view(feature.children@));
}

impl FeatureView {
    /// The feature that holds nothing and has no name.
    pub open spec fn empty() -> FeatureView {
        FeatureView {
            name: Seq::empty(),
            description: None,
            slot: None,
            children: Seq::empty(),
            show_reset_children: None,
            child_display_orientation: None,
            effects: Seq::empty(),
            rolls: Seq::empty(),
            templates: Seq::empty(),
        }
    }
}

impl Default for Feature {
    fn default() -> (r: Feature)
        ensures
            r@ == FeatureView::empty(),
    {
        let r = Feature {
            name: String::new(),
            description: None,
            slot: None,
            children: Vec::new(),
            show_reset_children: None,
            child_display_orientation: None,
            effects: Vec::new(),
            rolls: Vec::new(),
            templates: Vec::new(),
        };
        assert(r@.children =~= Seq::empty());
        assert(r@.effects =~= Seq::empty());
        assert(r@.rolls =~= Seq::empty());
        assert(r@.templates =~= Seq::empty());
        r
    }
}

impl Clone for Feature {
    fn clone(&self) -> (r: Feature)
        ensures
            r@ == self@,
        decreases self,
    {
        let mut children: Vec<Feature> = Vec::new();
        let mut i: usize = 0;
        while i < self.children.len()
            invariant
                i <= self.children.len(),
                children@.len() == i,
                forall|j: int| 0 <= j < i ==> children@[j]@ == self.children@[j]@,
            decreases self.children.len() - i,
        {
            children.push(self.children[i].clone());
            i += 1;
        }
        let r = Feature {
            name: self.name.clone(),
            description: clone_opt_string(&self.description),
            slot: self.slot,
            children,
            show_reset_children: self.show_reset_children,
            child_display_orientation: self.child_display_orientation,
            effects: clone_effects(&self.effects),
            rolls: clone_rolls(&self.rolls),
            templates: clone_strings(&self.templates),
        };
        assert(r@.children =~= self@.children);
        r
    }
}

/// A copy of a list of features.
pub fn clone_features(features: &Vec<Feature>) -> (r: Vec<Feature>)
    ensures
        features_view(r@) == features_view(features@),
{
    let mut r: Vec<Feature> = Vec::new();
    let mut i: usize = 0;
    while i < features.len()
        invariant
            i <= features.len(),
            r@.len() == i,
            forall|j: int| 0 <= j < i ==> r@[j]@ == features@[j]@,
        decreases features.len() - i,
    {
        r.push(features[i].clone());
        i += 1;
    }
    assert(features_view(r@) =~= features_view(features@));
    r
}

/// The test for a feature called `name`.
pub open spec fn called(name: Seq<char>) -> spec_fn(FeatureView) -> bool {
    |f: FeatureView| f.name == name
}

/// Where the first feature called `name` stands in `features`, or their
/// number when there is none.
pub open spec fn feature_position(features: Seq<FeatureView>, name: Seq<char>) -> int {
    first_where(features, called(name))
}

/// The features of `over` whose names `base` does not have, in order.
pub open spec fn added_features(base: Seq<FeatureView>, over: Seq<FeatureView>) -> Seq<FeatureView>
    decreases over.len(),
{
    if over.len() == 0 {
        over
    } else if feature_position(base, over.last().name) < base.len() {
        added_features(base, over.drop_last())
    } else {
        added_features(base, over.drop_last()).push(over.last())
    }
}

/// A feature laid over a template. What the feature says itself stands:
/// its name if it has one, its description, slot and layout where it
/// names them; what it leaves open comes from the template. Children and
/// rolls are united by name, effects and template names put end to end,
/// the template's first; of template names that repeat side by side one
/// stays.
pub open spec fn feature_overlaid(base: FeatureView, over: FeatureView) -> FeatureView
    decreases base, 0nat,
{
    FeatureView {
        name: if over.name.len() > 0 {
            over.name
        } else {
            base.name
        },
        description: or_else(over.description, base.description),
        slot: or_else(over.slot, base.slot),
        children: features_overlaid(base.children, over.children),
        show_reset_children: or_else(over.show_reset_children, base.show_reset_children),
        child_display_orientation: or_else(
            over.child_display_orientation,
            base.child_display_orientation,
        ),
        effects: base.effects + over.effects,
        rolls: overlaid_all::<Roll>(base.rolls, over.rolls),
        templates: without_runs(base.templates + over.templates),
    }
}

/// One feature of a template's list under an overlay list: laid under
/// the overlay's first feature of the same name, or as it is.
pub open spec fn child_overlaid(base: FeatureView, over: Seq<FeatureView>) -> FeatureView
    decreases base, 1nat,
{
    let at = feature_position(over, base.name);
    if at < over.len() {
        feature_overlaid(base, over[at])
    } else {
        base
    }
}

/// The union of two lists of features by name. Features that only the
/// template has stay as they are and where they are; features that both
/// have are overlaid, in the template's place; features that only the
/// overlay has follow, as they are.
pub open spec fn features_overlaid(base: Seq<FeatureView>, over: Seq<FeatureView>) -> Seq<
    FeatureView,
>
    decreases base, 2nat,
{
    Seq::new(
        base.len(),
        |i: int|
            if 0 <= i < base.len() {
                child_overlaid(base[i], over)
            } else {
                arbitrary()
            },
    ) + added_features(base, over)
}

/// Every feature of `over` whose name `base` does not have is among the
/// added features.
pub proof fn added_features_hold(base: Seq<FeatureView>, over: Seq<FeatureView>, j: int)
    requires
        0 <= j < over.len(),
        feature_position(base, over[j].name) >= base.len(),
    ensures
        added_features(base, over).contains(over[j]),
    decreases over.len(),
{
    let front = over.drop_last();
    if j == over.len() - 1 {
        let added = added_features(base, over);
        assert(added[added.len() - 1] == over[j]);
    } else {
        assert(front[j] == over[j]);
        added_features_hold(base, front, j);
        let at = choose|at: int|
            0 <= at < added_features(base, front).len() && added_features(base, front)[at]
                == over[j];
        assert(added_features(base, over)[at] == over[j]);
    }
}

/// What the feature says itself stands, what it leaves open comes from
/// the template, and lists are united, not replaced: the effects of both
/// are there, the template's first; every child of the template is there
/// in its place under its name, and every child that only the feature has
/// is there as it is.
pub proof fn overlay_keeps_what_the_feature_says(template: FeatureView, feature: FeatureView)
    ensures
        feature.name.len() > 0 ==> feature_overlaid(template, feature).name == feature.name,
        feature.name.len() == 0 ==> feature_overlaid(template, feature).name == template.name,
        feature.description is Some ==> feature_overlaid(template, feature).description
            == feature.description,
        feature.description is None ==> feature_overlaid(template, feature).description
            == template.description,
        feature.slot is Some ==> feature_overlaid(template, feature).slot == feature.slot,
        feature.slot is None ==> feature_overlaid(template, feature).slot == template.slot,
        feature.show_reset_children is Some ==> feature_overlaid(
            template,
            feature,
        ).show_reset_children == feature.show_reset_children,
        feature.show_reset_children is None ==> feature_overlaid(
            template,
            feature,
        ).show_reset_children == template.show_reset_children,
        feature.child_display_orientation is Some ==> feature_overlaid(
            template,
            feature,
        ).child_display_orientation == feature.child_display_orientation,
        feature.child_display_orientation is None ==> feature_overlaid(
            template,
            feature,
        ).child_display_orientation == template.child_display_orientation,
        feature_overlaid(template, feature).effects == template.effects + feature.effects,
        feature_overlaid(template, feature).children.len() >= template.children.len(),
        forall|i: int|
            0 <= i < template.children.len() ==> (#[trigger] feature_overlaid(
                template,
                feature,
            ).children[i]).name == template.children[i].name,
        forall|j: int|
            0 <= j < feature.children.len() && feature_position(
                template.children,
                (#[trigger] feature.children[j]).name,
            ) >= template.children.len() ==> feature_overlaid(template, feature).children.contains(
                feature.children[j],
            ),
{
    let merged = feature_overlaid(template, feature);
    let base = template.children;
    let over = feature.children;
    assert forall|i: int| 0 <= i < base.len() implies (#[trigger] merged.children[i]).name
        == base[i].name by {
        first_where_bounds(over, called(base[i].name));
        assert(merged.children[i] == child_overlaid(base[i], over));
    }
    assert forall|j: int|
        0 <= j < over.len() && feature_position(base, (#[trigger] over[j]).name)
            >= base.len() implies merged.children.contains(over[j]) by {
        added_features_hold(base, over, j);
        let at = choose|at: int|
            0 <= at < added_features(base, over).len() && added_features(base, over)[at] == over[j];
        assert(merged.children[base.len() + at] == over[j]);
    }
}

/// Lists of features are united by name in the way in which lists of
/// anything that can be overlaid are.
pub proof fn features_overlaid_as_all_are(base: Seq<FeatureView>, over: Seq<FeatureView>)
    ensures
        features_overlaid(base, over) == overlaid_all::<Feature>(base, over),
{
    assert forall|items: Seq<FeatureView>, name: Seq<char>|
        feature_position(items, name) == #[trigger] crate::overlay::position_of::<Feature>(
            items,
            name,
        ) by {
        first_where_same(items, called(name), crate::overlay::keyed::<Feature>(name));
    }
    added_features_as_all_are(base, over);
    assert(features_overlaid(base, over) =~= overlaid_all::<Feature>(base, over));
}

/// The features that only the overlay has are found in the way in which
/// the items that only an overlay has are.
pub proof fn added_features_as_all_are(base: Seq<FeatureView>, over: Seq<FeatureView>)
    ensures
        added_features(base, over) == crate::overlay::added_items::<Feature>(base, over),
    decreases over.len(),
{
    if over.len() > 0 {
        added_features_as_all_are(base, over.drop_last());
        first_where_same(
            base,
            called(over.last().name),
            crate::overlay::keyed::<Feature>(over.last().name),
        );
    }
}

/// Where the first feature called `name` stands in `features`.
pub fn find_feature(features: &Vec<Feature>, name: &String) -> (i: usize)
    ensures
        i == feature_position(features_view(features@), name@),
        i <= features@.len(),
{
    let mut i: usize = 0;
    while i < features.len()
        invariant
            i <= features.len(),
            forall|j: int| 0 <= j < i ==> !called(name@)(#[trigger] features_view(features@)[j]),
        decreases features.len() - i,
    {
        if features[i].name == *name {
            proof {
                first_where_is(features_view(features@), called(name@), i as int);
            }
            return i;
        }
        i += 1;
    }
    proof {
        first_where_is(features_view(features@), called(name@), i as int);
    }
    i
}

/// Appends copies of the effects of `src` to `dst`.
pub fn append_effects(dst: &mut Vec<Effect>, src: &Vec<Effect>)
    ensures
        effects_view(final(dst)@) == effects_view(old(dst)@) + effects_view(src@),
{
    let mut i: usize = 0;
    assert(effects_view(src@).take(0) =~= Seq::empty());
    assert(effects_view(dst@) =~= effects_view(old(dst)@) + effects_view(src@).take(0));
    while i < src.len()
        invariant
            i <= src.len(),
            effects_view(dst@) == effects_view(old(dst)@) + effects_view(src@).take(i as int),
        decreases src.len() - i,
    {
        let ghost before = effects_view(dst@);
        dst.push(src[i].clone());
        assert(effects_view(dst@) =~= before.push(src@[i as int]@));
        assert(effects_view(dst@) =~= effects_view(old(dst)@) + effects_view(src@).take(i + 1));
        i += 1;
    }
    assert(effects_view(src@).take(src@.len() as int) =~= effects_view(src@));
}

/// The strings of `values` with runs of equal neighbours shortened to
/// one.
pub fn dedup_strings(values: &Vec<String>) -> (r: Vec<String>)
    ensures
        strings_view(r@) == without_runs(strings_view(values@)),
{
    let mut out: Vec<String> = Vec::new();
    let mut i: usize = 0;
    assert(strings_view(values@).take(0) =~= Seq::empty());
    assert(strings_view(out@) =~= Seq::empty());
    while i < values.len()
        invariant
            i <= values.len(),
            strings_view(out@) == without_runs(strings_view(values@).take(i as int)),
        decreases values.len() - i,
    {
        let ghost before = strings_view(values@).take(i as int);
        let ghost after = strings_view(values@).take(i + 1);
        let ghost old_out = strings_view(out@);
        assert(after.drop_last() =~= before);
        assert(after.last() == values@[i as int]@);
        if i == 0 {
            out.push(values[i].clone());
            assert(strings_view(out@) =~= old_out.push(values@[i as int]@));
            assert(strings_view(out@) =~= after);
        } else {
            assert(after[after.len() - 2] == values@[i - 1]@);
            if !(values[i - 1] == values[i]) {
                out.push(values[i].clone());
                assert(strings_view(out@) =~= old_out.push(values@[i as int]@));
            }
        }
        i += 1;
    }
    assert(strings_view(values@).take(values@.len() as int) =~= strings_view(values@));
    out
}

/// Lays the list `overlay` over the list `template`, name by name.
pub fn overlay_features(template: &Vec<Feature>, overlay: &Vec<Feature>) -> (r: Vec<Feature>)
    ensures
        features_view(r@) == features_overlaid(features_view(template@), features_view(overlay@)),
    decreases template, 1nat,
{
    let ghost base = features_view(template@);
    let ghost over = features_view(overlay@);
    let mut result: Vec<Feature> = Vec::new();
    let mut i: usize = 0;
    while i < template.len()
        invariant
            i <= template.len(),
            base == features_view(template@),
            over == features_view(overlay@),
            result@.len() == i,
            forall|k: int| 0 <= k < i ==> (#[trigger] result@[k])@ == child_overlaid(base[k], over),
        decreases template.len() - i,
    {
        let at = find_feature(overlay, &template[i].name);
        if at < overlay.len() {
            result.push(template[i].overlay_with(&overlay[at]));
        } else {
            result.push(template[i].clone());
        }
        i += 1;
    }
    let ghost kept = features_view(result@);
    let mut k: usize = 0;
    while k < overlay.len()
        invariant
            k <= overlay.len(),
            base == features_view(template@),
            over == features_view(overlay@),
            kept.len() == base.len(),
            result@.len() >= kept.len(),
            features_view(result@).subrange(0, kept.len() as int) == kept,
            features_view(result@).subrange(kept.len() as int, result@.len() as int)
                == added_features(base, over.take(k as int)),
        decreases overlay.len() - k,
    {
        let ghost before = features_view(result@);
        assert(over.take(k + 1).drop_last() =~= over.take(k as int));
        assert(over.take(k + 1).last() == over[k as int]);
        let at = find_feature(template, &overlay[k].name);
        if at >= template.len() {
            result.push(overlay[k].clone());
            assert(features_view(result@) =~= before.push(over[k as int]));
            assert(features_view(result@).subrange(0, kept.len() as int) =~= before.subrange(
                0,
                kept.len() as int,
            ));
            assert(features_view(result@).subrange(kept.len() as int, result@.len() as int)
                =~= before.subrange(kept.len() as int, before.len() as int).push(over[k as int]));
        }
        k += 1;
    }
    assert(over.take(over.len() as int) =~= over);
    assert(features_view(result@) =~= features_overlaid(base, over)) by {
        let got = features_view(result@);
        assert(got.len() == base.len() + added_features(base, over).len());
        assert forall|x: int| 0 <= x < got.len() implies got[x] == features_overlaid(base, over)[x] by {
            if x < base.len() {
                assert(got[x] == got.subrange(0, kept.len() as int)[x]);
            } else {
                assert(got[x] == got.subrange(kept.len() as int, got.len() as int)[x - kept.len()]);
            }
        }
    }
    result
}

impl Feature {
    /// A feature of this name that holds nothing yet.
    pub fn new(name: &str) -> (r: Feature)
        ensures
            r@ == (FeatureView { name: name@, ..FeatureView::empty() }),
    {
        let blank = Feature::default();
        let r = Feature {
            name: String::from_str(name),
            description: blank.description,
            slot: blank.slot,
            children: blank.children,
            show_reset_children: blank.show_reset_children,
            child_display_orientation: blank.child_display_orientation,
            effects: blank.effects,
            rolls: blank.rolls,
            templates: blank.templates,
        };
        proof {
            feature_view_children(&r);
            feature_view_children(&blank);
        }
        r
    }

    /// The same feature with this description.
    pub fn with_description(self, description: String) -> (r: Feature)
        ensures
            r@ == (FeatureView { description: Some(description@), ..self@ }),
    {
        let r = Feature {
            name: self.name,
            description: Some(description),
            slot: self.slot,
            children: self.children,
            show_reset_children: self.show_reset_children,
            child_display_orientation: self.child_display_orientation,
            effects: self.effects,
            rolls: self.rolls,
            templates: self.templates,
        };
        proof {
            feature_view_children(&r);
            feature_view_children(&self);
        }
        r
    }

    /// The same feature with a slot of this count and maximum.
    pub fn with_slot(self, current: isize, max: Option<isize>) -> (r: Feature)
        ensures
            r@ == (FeatureView { slot: Some(Slot { current, max }), ..self@ }),
    {
        let r = Feature {
            name: self.name,
            description: self.description,
            slot: Some(Slot::new(current, max)),
            children: self.children,
            show_reset_children: self.show_reset_children,
            child_display_orientation: self.child_display_orientation,
            effects: self.effects,
            rolls: self.rolls,
            templates: self.templates,
        };
        proof {
            feature_view_children(&r);
            feature_view_children(&self);
        }
        r
    }

    /// Lays `overlay` over this feature, which serves as its template.
    pub fn overlay_with(&self, overlay: &Feature) -> (r: Feature)
        ensures
            r@ == feature_overlaid(self@, overlay@),
        decreases self, 0nat,
    {
        let mut effects = clone_effects(&self.effects);
        append_effects(&mut effects, &overlay.effects);
        let mut templates = clone_strings(&self.templates);
        let mut i: usize = 0;
        while i < overlay.templates.len()
            invariant
                i <= overlay.templates.len(),
                strings_view(templates@) == strings_view(self.templates@) + strings_view(
                    overlay.templates@,
                ).take(i as int),
            decreases overlay.templates.len() - i,
        {
            let ghost before = strings_view(templates@);
            templates.push(overlay.templates[i].clone());
            assert(strings_view(templates@) =~= before.push(overlay.templates@[i as int]@));
            assert(strings_view(templates@) =~= strings_view(self.templates@) + strings_view(
                overlay.templates@,
            ).take(i + 1));
            i += 1;
        }
        assert(strings_view(overlay.templates@).take(overlay.templates@.len() as int)
            =~= strings_view(overlay.templates@));
        let templates = dedup_strings(&templates);
        proof {
            feature_view_children(self);
            feature_view_children(overlay);
        }
        let children = overlay_features(&self.children, &overlay.children);
        let rolls = overlay_all(&self.rolls, &overlay.rolls);
        assert(rolls_view(rolls@) =~= items_view(rolls@));
        assert(rolls_view(self.rolls@) =~= items_view(self.rolls@));
        assert(rolls_view(overlay.rolls@) =~= items_view(overlay.rolls@));
        let r = Feature {
            name: if overlay.name.as_str().is_empty() {
                self.name.clone()
            } else {
                overlay.name.clone()
            },
            description: if overlay.description.is_some() {
                clone_opt_string(&overlay.description)
            } else {
                clone_opt_string(&self.description)
            },
            slot: if overlay.slot.is_some() {
                overlay.slot
            } else {
                self.slot
            },
            children,
            show_reset_children: if overlay.show_reset_children.is_some() {
                overlay.show_reset_children
            } else {
                self.show_reset_children
            },
            child_display_orientation: if overlay.child_display_orientation.is_some() {
                overlay.child_display_orientation
            } else {
                self.child_display_orientation
            },
            effects,
            rolls,
            templates,
        };
        proof {
            feature_view_children(&r);
        }
        r
    }

    /// Takes `path` one step into this feature.
    pub fn matches(&self, path: FeaturePath) -> (r: (bool, FeaturePath))
        ensures
            r.0 == path@.step(self@.name).0,
            r.1@ == path@.step(self@.name).1,
    {
        path.matches(self.name.clone())
    }
}

impl Overlay for Feature {
    open spec fn key_of(v: FeatureView) -> Seq<char> {
        v.name
    }

    open spec fn overlaid(base: FeatureView, over: FeatureView) -> FeatureView {
        feature_overlaid(base, over)
    }

    proof fn copy_keeps_view(a: &Feature, b: &Feature) {
    }

    fn overlay_by(&self) -> (r: String) {
        self.name.clone()
    }

    fn overlay(&self, overlay: &Feature) -> (r: Feature) {
        self.overlay_with(overlay)
    }
}

} // verus!
