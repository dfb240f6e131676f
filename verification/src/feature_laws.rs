//! What holds of features in play: what is written down is what was
//! read, but for the counts of slots; commands touch counts only and
//! effects nothing but what rolls were given; the limit to the levels is
//! not felt within it; and a full round can be run at any time.

use vstd::prelude::*;
use crate::effect::EffectView;
use crate::feature::{
    added_features, called, child_overlaid, feature_overlaid, feature_position,
    features_overlaid, FeatureView,
};
use crate::feature_path::FeaturePathView;
use crate::feature_state::{
    actions_below, all_cleared, all_commanded, all_materialized, all_persisted,
    all_with_effects, cleared, cleared_rolls, commanded, commands_for, declared, declared_by,
    declared_by_first, dirtied, effective, materialized, offered, persisted, reaches,
    recomputed, refreshed, run_dirties, sent_alone, slot_run, stands_for, state_position,
    named_templates, template_base, with_effects, ActionView, FeatureStateView,
    TEMPLATE_DEPTH,
};
use crate::roll::{RollBonusView, RollScopeView};
use crate::seqs::{first_where_alike, first_where_bounds, first_where_is, first_where_joined};
use crate::slot::{Slot, SlotCommand};
use crate::template::{template_named, TemplatesView};

verus! {

/// Whether no two children of a feature share a name, nor any two
/// children of any feature below it.
pub open spec fn distinct_names(feature: FeatureView) -> bool
    decreases feature,
{
    &&& forall|i: int, j: int|
        0 <= i < j < feature.children.len() ==> (#[trigger] feature.children[i]).name != (
        #[trigger] feature.children[j]).name
    &&& forall|i: int|
        0 <= i < feature.children.len() ==> distinct_names(#[trigger] feature.children[i])
}

/// Whether the feature `over` holds the written feature `written` within
/// it: the slot of the written feature, where it has one, and for every
/// child of the written feature a first child of that name that holds
/// that child in the same way.
pub open spec fn carries(over: FeatureView, written: FeatureView) -> bool
    decreases written,
{
    &&& written.slot is Some ==> over.slot == written.slot
    &&& forall|j: int|
        0 <= j < written.children.len() ==> feature_position(
            over.children,
            (#[trigger] written.children[j]).name,
        ) < over.children.len() && carries(
            over.children[feature_position(over.children, written.children[j].name)],
            written.children[j],
        )
}

/// A feature whose children have distinct names holds itself.
pub proof fn carries_itself(feature: FeatureView)
    requires
        distinct_names(feature),
    ensures
        carries(feature, feature),
    decreases feature,
{
    assert forall|j: int| 0 <= j < feature.children.len() implies feature_position(
        feature.children,
        (#[trigger] feature.children[j]).name,
    ) < feature.children.len() && carries(
        feature.children[feature_position(feature.children, feature.children[j].name)],
        feature.children[j],
    ) by {
        let name = feature.children[j].name;
        assert forall|i: int| 0 <= i < j implies !called(name)(#[trigger] feature.children[i]) by {
            assert(feature.children[i].name != feature.children[j].name);
        }
        first_where_is(feature.children, called(name), j);
        carries_itself(feature.children[j]);
    }
}

/// Among the features that only an overlay has, the first of a name is
/// the overlay's first feature of that name.
pub proof fn first_added_is_first(base: Seq<FeatureView>, over: Seq<FeatureView>, name: Seq<char>)
    requires
        feature_position(base, name) >= base.len(),
    ensures
        feature_position(over, name) < over.len() ==> feature_position(
            added_features(base, over),
            name,
        ) < added_features(base, over).len() && added_features(base, over)[feature_position(
            added_features(base, over),
            name,
        )] == over[feature_position(over, name)],
        feature_position(over, name) >= over.len() ==> feature_position(
            added_features(base, over),
            name,
        ) >= added_features(base, over).len(),
    decreases over.len(),
{
    first_where_bounds(over, called(name));
    first_where_bounds(base, called(name));
    if over.len() > 0 {
        let front = over.drop_last();
        let last = over.last();
        first_added_is_first(base, front, name);
        first_where_bounds(front, called(name));
        let added_front = added_features(base, front);
        let added = added_features(base, over);
        first_where_bounds(added_front, called(name));
        assert(over =~= front + seq![last]);
        first_where_joined(front, seq![last], called(name));
        if feature_position(base, last.name) < base.len() {
            // the last feature is not added, and it is not called `name`
            first_where_bounds(base, called(last.name));
            assert(last.name != name);
        } else {
            assert(added =~= added_front + seq![last]);
            first_where_joined(added_front, seq![last], called(name));
        }
    }
}

/// Every feature of a base list keeps its name under an overlay.
pub proof fn overlaid_children_keep_names(base: Seq<FeatureView>, over: Seq<FeatureView>)
    ensures
        features_overlaid(base, over).len() == base.len() + added_features(base, over).len(),
        forall|i: int|
            0 <= i < base.len() ==> (#[trigger] features_overlaid(base, over)[i]).name
                == base[i].name,
{
    assert forall|i: int| 0 <= i < base.len() implies (#[trigger] features_overlaid(
        base,
        over,
    )[i]).name == base[i].name by {
        first_where_bounds(over, called(base[i].name));
        assert(features_overlaid(base, over)[i] == child_overlaid(base[i], over));
    }
}

/// A feature that holds a written feature still holds it when it is laid
/// over anything else.
pub proof fn carries_over_any_base(base: FeatureView, over: FeatureView, written: FeatureView)
    requires
        carries(over, written),
    ensures
        carries(feature_overlaid(base, over), written),
    decreases written,
{
    let merged = feature_overlaid(base, over);
    let below = base.children;
    let above = over.children;
    let all = features_overlaid(below, above);
    let kept = Seq::new(
        below.len(),
        |i: int|
            if 0 <= i < below.len() {
                child_overlaid(below[i], above)
            } else {
                arbitrary()
            },
    );
    overlaid_children_keep_names(below, above);
    assert forall|j: int| 0 <= j < written.children.len() implies feature_position(
        merged.children,
        (#[trigger] written.children[j]).name,
    ) < merged.children.len() && carries(
        merged.children[feature_position(merged.children, written.children[j].name)],
        written.children[j],
    ) by {
        let child = written.children[j];
        let name = child.name;
        let held = feature_position(above, name);
        assert(held < above.len() && carries(above[held], child));
        first_where_bounds(below, called(name));
        first_where_bounds(above, called(name));
        assert(all =~= kept + added_features(below, above));
        first_where_joined(kept, added_features(below, above), called(name));
        assert forall|i: int| 0 <= i < kept.len() implies called(name)(#[trigger] kept[i])
            == called(name)(below[i]) by {
            assert(all[i] == kept[i]);
        }
        first_where_alike(kept, called(name), below, called(name));
        assert(merged.children == all);
        assert(carries(above[held], child));
        if feature_position(below, name) < below.len() {
            let at = feature_position(below, name);
            assert(feature_position(all, name) == at);
            assert(below[at].name == name);
            assert(all[at] == kept[at]);
            assert(kept[at] == child_overlaid(below[at], above));
            assert(all[at] == feature_overlaid(below[at], above[held]));
            carries_over_any_base(below[at], above[held], child);
        } else {
            first_added_is_first(below, above, name);
            let added = added_features(below, above);
            let at = feature_position(added, name);
            first_where_bounds(added, called(name));
            assert(held < above.len());
            assert(at < added.len());
            assert(feature_position(all, name) == kept.len() + at);
            assert(all[kept.len() + at] == added[at]);
            assert(added[at] == above[held]);
        }
    }
}

/// A written feature that a feature holds is what is written down again
/// once that feature was brought into play.
pub proof fn refreshed_is_written(
    over: FeatureView,
    written: FeatureView,
    templates: TemplatesView,
    depth: nat,
)
    requires
        carries(over, written),
    ensures
        refreshed(written, materialized(over, templates, depth)) == written,
    decreases written,
{
    let state = materialized(over, templates, depth);
    let in_play = if depth == 0 {
        over
    } else {
        effective(over, templates)
    };
    if depth > 0 {
        match template_base(over, templates) {
            Some(base) => {
                carries_over_any_base(base, over, written);
            },
            None => {},
        }
    }
    assert(carries(in_play, written));
    assert(state.children.len() == in_play.children.len());
    assert forall|k: int| 0 <= k < state.children.len() implies (#[trigger] state.children[k])
        == materialized(
        in_play.children[k],
        templates,
        if depth == 0 {
            0
        } else {
            (depth - 1) as nat
        },
    ) && state.children[k].feature == in_play.children[k] by {}
    let again = refreshed(written, state);
    assert forall|j: int| 0 <= j < written.children.len() implies again.children[j]
        == written.children[j] by {
        let child = written.children[j];
        first_where_alike(
            state.children,
            stands_for(child.name),
            in_play.children,
            called(child.name),
        );
        let at = feature_position(in_play.children, child.name);
        first_where_bounds(in_play.children, called(child.name));
        assert(state_position(state.children, child.name) == at);
        assert(at < in_play.children.len());
        assert(carries(in_play.children[at], child));
        assert(again.children[j] == refreshed(child, state.children[at]));
        let next: nat = if depth == 0 {
            0
        } else {
            (depth - 1) as nat
        };
        assert(state.children[at] == materialized(in_play.children[at], templates, next));
        refreshed_is_written(
            in_play.children[at],
            child,
            templates,
            if depth == 0 {
                0
            } else {
                (depth - 1) as nat
            },
        );
    }
    assert(again.children =~= written.children);
}

/// A feature whose children have distinct names at every level, brought
/// into play and written down again, is the feature that was read:
/// whatever templates lie under it, they give nothing to what is written.
pub proof fn written_as_read(feature: FeatureView, templates: TemplatesView, depth: nat)
    requires
        distinct_names(feature),
    ensures
        persisted(materialized(feature, templates, depth)) == feature,
{
    carries_itself(feature);
    refreshed_is_written(feature, feature, templates, depth);
}

/// Features whose children have distinct names at every level, brought
/// into play and written down again, are the features that were read.
pub proof fn all_written_as_read(features: Seq<FeatureView>, templates: TemplatesView, depth: nat)
    requires
        forall|i: int| 0 <= i < features.len() ==> distinct_names(#[trigger] features[i]),
    ensures
        all_persisted(all_materialized(features, templates, depth)) == features,
{
    assert forall|i: int| 0 <= i < features.len() implies all_persisted(
        all_materialized(features, templates, depth),
    )[i] == features[i] by {
        written_as_read(features[i], templates, depth);
    }
    assert(all_persisted(all_materialized(features, templates, depth)) =~= features);
}

/// The effects of the first `k` of the templates `names`, in the order
/// in which the templates are named.
pub open spec fn named_effects(names: Seq<Seq<char>>, k: nat, templates: TemplatesView) -> Seq<
    EffectView,
>
    decreases k,
{
    if k == 0 || k > names.len() {
        Seq::empty()
    } else {
        named_effects(names, (k - 1) as nat, templates) + match template_named(
            templates,
            names[k - 1],
        ) {
            Some(template) => template.effects,
            None => Seq::empty(),
        }
    }
}

/// The effects of the named templates laid over one another are the
/// effects of each, in the order in which the templates are named.
pub proof fn named_templates_keep_their_order(
    names: Seq<Seq<char>>,
    k: nat,
    templates: TemplatesView,
)
    ensures
        match named_templates(names, k, templates) {
            Some(base) => base.effects == named_effects(names, k, templates),
            None => named_effects(names, k, templates) == Seq::<EffectView>::empty(),
        },
    decreases k,
{
    if k > 0 && k <= names.len() {
        named_templates_keep_their_order(names, (k - 1) as nat, templates);
        match (named_templates(names, (k - 1) as nat, templates), template_named(
            templates,
            names[k - 1],
        )) {
            (None, Some(template)) => {
                assert(named_effects(names, k, templates) =~= template.effects);
            },
            (None, None) => {
                assert(named_effects(names, k, templates) =~= Seq::<EffectView>::empty());
            },
            (Some(base), None) => {
                assert(named_effects(names, k, templates) =~= base.effects);
            },
            (Some(_), Some(_)) => {},
        }
    }
}

/// The effects of a feature as it takes effect, layer by layer: those of
/// the templates that it names, in the order in which it names them,
/// then those of the template filed under its own name, and last its
/// own.
pub proof fn effects_come_layer_by_layer(feature: FeatureView, templates: TemplatesView)
    ensures
        effective(feature, templates).effects == named_effects(
            feature.templates,
            feature.templates.len(),
            templates,
        ) + (match template_named(templates, feature.name) {
            Some(own) => own.effects,
            None => Seq::empty(),
        }) + feature.effects,
{
    named_templates_keep_their_order(feature.templates, feature.templates.len(), templates);
    let named = named_effects(feature.templates, feature.templates.len(), templates);
    let own = match template_named(templates, feature.name) {
        Some(own) => own.effects,
        None => Seq::empty(),
    };
    assert(effective(feature, templates).effects =~= named + own + feature.effects);
}

/// Whether a feature with everything that its templates give it lies
/// within `depth` levels: the feature itself is the first level, and the
/// children of the effective feature follow.
pub open spec fn unfolds_within(feature: FeatureView, templates: TemplatesView, depth: nat) -> bool
    decreases depth,
{
    depth > 0 && forall|i: int|
        0 <= i < effective(feature, templates).children.len() ==> unfolds_within(
            #[trigger] effective(feature, templates).children[i],
            templates,
            (depth - 1) as nat,
        )
}

/// For a feature that lies within `depth` levels, more levels change
/// nothing: templates are laid under every feature of the tree, and the
/// feature comes into play the same way at any greater depth.
pub proof fn deeper_changes_nothing(
    feature: FeatureView,
    templates: TemplatesView,
    depth: nat,
    deeper: nat,
)
    requires
        unfolds_within(feature, templates, depth),
        depth <= deeper,
    ensures
        materialized(feature, templates, deeper) == materialized(feature, templates, depth),
    decreases depth,
{
    let children = effective(feature, templates).children;
    assert forall|i: int| 0 <= i < children.len() implies materialized(
        children[i],
        templates,
        (deeper - 1) as nat,
    ) == materialized(children[i], templates, (depth - 1) as nat) by {
        assert(unfolds_within(children[i], templates, (depth - 1) as nat));
        deeper_changes_nothing(children[i], templates, (depth - 1) as nat, (deeper - 1) as nat);
    }
    assert(materialized(feature, templates, deeper).children =~= materialized(
        feature,
        templates,
        depth,
    ).children);
}

/// A feature that lies within the levels down to which templates are
/// laid comes into play as it would without any limit to the levels.
pub proof fn the_limit_is_not_felt(feature: FeatureView, templates: TemplatesView, deeper: nat)
    requires
        unfolds_within(feature, templates, TEMPLATE_DEPTH as nat),
        deeper >= TEMPLATE_DEPTH,
    ensures
        materialized(feature, templates, deeper) == materialized(
            feature,
            templates,
            TEMPLATE_DEPTH as nat,
        ),
{
    deeper_changes_nothing(feature, templates, TEMPLATE_DEPTH as nat, deeper);
}

/// A feature with the counts of all slots in it set to nothing.
pub open spec fn without_counts(feature: FeatureView) -> FeatureView
    decreases feature,
{
    FeatureView {
        slot: match feature.slot {
            Some(slot) => Some(Slot { current: 0, ..slot }),
            None => None,
        },
        children: Seq::new(
            feature.children.len(),
            |i: int|
                if 0 <= i < feature.children.len() {
                    without_counts(feature.children[i])
                } else {
                    arbitrary()
                },
        ),
        ..feature
    }
}

/// Features with the counts of all slots in them set to nothing.
pub open spec fn all_without_counts(features: Seq<FeatureView>) -> Seq<FeatureView> {
    Seq::new(features.len(), |i: int| without_counts(features[i]))
}

/// What neither commands nor effects touch of a feature in play: the
/// feature with the counts of its slots set to nothing and with nothing
/// given to its rolls, here and everywhere below.
pub open spec fn bare(state: FeatureStateView) -> FeatureStateView
    decreases state,
{
    FeatureStateView {
        slot_state: match state.slot_state {
            Some(slot) => Some(Slot { current: 0, ..slot }),
            None => None,
        },
        rolls_state: cleared_rolls(state.rolls_state),
        children: Seq::new(
            state.children.len(),
            |i: int|
                if 0 <= i < state.children.len() {
                    bare(state.children[i])
                } else {
                    arbitrary()
                },
        ),
        ..state
    }
}

/// What neither commands nor effects touch of the features in play.
pub open spec fn all_bare(states: Seq<FeatureStateView>) -> Seq<FeatureStateView> {
    Seq::new(states.len(), |i: int| bare(states[i]))
}

/// One thing that can be done to the features in play.
pub enum Step {
    /// Actions are sent to every tree.
    Commands(Seq<ActionView>),
    /// Effects are offered to every roll.
    Effects(Seq<EffectView>),
    /// What effects gave is forgotten.
    Forget,
    /// A full round.
    Round,
}

/// The features in play after one step.
pub open spec fn after_step(states: Seq<FeatureStateView>, step: Step) -> Seq<FeatureStateView> {
    match step {
        Step::Commands(actions) => all_commanded(states, actions),
        Step::Effects(effects) => all_with_effects(states, effects),
        Step::Forget => all_cleared(states),
        Step::Round => recomputed(states),
    }
}

/// The features in play after the first `k` of `steps`, in order.
pub open spec fn after_steps(states: Seq<FeatureStateView>, steps: Seq<Step>, k: nat) -> Seq<
    FeatureStateView,
>
    decreases k,
{
    if k == 0 || k > steps.len() {
        states
    } else {
        after_step(after_steps(states, steps, (k - 1) as nat), steps[k - 1])
    }
}

/// Commands touch nothing but the counts of slots.
pub proof fn commands_touch_counts_only(state: FeatureStateView, actions: Seq<ActionView>)
    ensures
        bare(commanded(state, actions)) == bare(state),
    decreases state,
{
    let after = commanded(state, actions);
    if reaches(actions, state.feature.name) {
        let commands = commands_for(actions, state.feature.name);
        let below = actions_below(actions, state.feature.name);
        runs_keep_slots(state.slot_state, commands, commands.len());
        assert forall|i: int| 0 <= i < state.children.len() implies bare(after.children[i])
            == bare(state.children[i]) by {
            commands_touch_counts_only(state.children[i], below);
        }
        assert(bare(after).children =~= bare(state).children);
    }
}

/// Offering a bonus touches nothing but what rolls were given.
pub proof fn offering_touches_rolls_only(
    state: FeatureStateView,
    bonus: RollBonusView,
    scope: RollScopeView,
)
    ensures
        bare(offered(state, bonus, scope)) == bare(state),
    decreases state,
{
    let after = offered(state, bonus, scope);
    if scope.step(state.feature.name).0 {
        let narrowed = scope.step(state.feature.name).1;
        assert forall|i: int| 0 <= i < state.children.len() implies bare(after.children[i])
            == bare(state.children[i]) by {
            offering_touches_rolls_only(state.children[i], bonus, narrowed);
        }
        assert(bare(after).children =~= bare(state).children);
        assert(bare(after).rolls_state =~= bare(state).rolls_state);
    }
}

/// Effects touch nothing but what rolls were given.
pub proof fn effects_touch_rolls_only(state: FeatureStateView, effects: Seq<EffectView>, k: nat)
    ensures
        bare(with_effects(state, effects, k)) == bare(state),
    decreases k,
{
    if k > 0 && k <= effects.len() {
        effects_touch_rolls_only(state, effects, (k - 1) as nat);
        match effects[k - 1] {
            EffectView::Roll { bonus, scope } => {
                offering_touches_rolls_only(
                    with_effects(state, effects, (k - 1) as nat),
                    bonus,
                    scope,
                );
            },
            EffectView::Ability { .. } => {},
        }
    }
}

/// Forgetting touches nothing but what rolls were given.
pub proof fn forgetting_touches_rolls_only(state: FeatureStateView)
    ensures
        bare(cleared(state)) == bare(state),
    decreases state,
{
    let after = cleared(state);
    assert forall|i: int| 0 <= i < state.children.len() implies bare(after.children[i]) == bare(
        state.children[i],
    ) by {
        forgetting_touches_rolls_only(state.children[i]);
    }
    assert(bare(after).children =~= bare(state).children);
    assert(bare(after).rolls_state =~= bare(state).rolls_state);
}

/// No step touches anything but counts and what rolls were given.
pub proof fn a_step_touches_counts_and_rolls_only(states: Seq<FeatureStateView>, step: Step)
    ensures
        all_bare(after_step(states, step)) == all_bare(states),
{
    let after = after_step(states, step);
    assert forall|i: int| 0 <= i < states.len() implies bare(#[trigger] after[i]) == bare(
        states[i],
    ) by {
        match step {
            Step::Commands(actions) => {
                commands_touch_counts_only(states[i], actions);
            },
            Step::Effects(effects) => {
                effects_touch_rolls_only(states[i], effects, effects.len());
            },
            Step::Forget => {
                forgetting_touches_rolls_only(states[i]);
            },
            Step::Round => {
                forgetting_touches_rolls_only(states[i]);
                effects_touch_rolls_only(
                    cleared(states[i]),
                    declared_by(states),
                    declared_by(states).len(),
                );
            },
        }
    }
    assert(all_bare(after) =~= all_bare(states));
}

/// No sequence of steps touches anything but counts and what rolls were
/// given.
pub proof fn steps_touch_counts_and_rolls_only(
    states: Seq<FeatureStateView>,
    steps: Seq<Step>,
    k: nat,
)
    ensures
        all_bare(after_steps(states, steps, k)) == all_bare(states),
    decreases k,
{
    if k > 0 && k <= steps.len() {
        steps_touch_counts_and_rolls_only(states, steps, (k - 1) as nat);
        a_step_touches_counts_and_rolls_only(
            after_steps(states, steps, (k - 1) as nat),
            steps[k - 1],
        );
    }
}

/// What is written of a feature takes nothing from play but counts.
pub proof fn only_counts_are_taken_from_play(written: FeatureView, state: FeatureStateView)
    ensures
        without_counts(refreshed(written, state)) == without_counts(
            refreshed(written, bare(state)),
        ),
    decreases written,
{
    let full = refreshed(written, state);
    let plain = refreshed(written, bare(state));
    assert forall|j: int| 0 <= j < written.children.len() implies without_counts(full.children[j])
        == without_counts(plain.children[j]) by {
        let child = written.children[j];
        first_where_bounds(state.children, stands_for(child.name));
        assert forall|k: int| 0 <= k < bare(state).children.len() implies stands_for(child.name)(
            #[trigger] bare(state).children[k],
        ) == stands_for(child.name)(state.children[k]) by {
            assert(bare(state).children[k] == bare(state.children[k]));
        }
        first_where_alike(
            bare(state).children,
            stands_for(child.name),
            state.children,
            stands_for(child.name),
        );
        let at = state_position(state.children, child.name);
        if at < state.children.len() {
            assert(bare(state).children[at] == bare(state.children[at]));
            only_counts_are_taken_from_play(child, state.children[at]);
        }
    }
    assert(without_counts(full).children =~= without_counts(plain).children);
}

/// Features whose children have distinct names at every level are read,
/// brought into play, and then commanded, given effects, made to forget
/// them and taken through full rounds, in any order and any number of
/// times. What is written down of them afterwards is what was read, but
/// for the counts of the slots that the features have themselves.
pub proof fn written_as_read_but_for_counts(
    features: Seq<FeatureView>,
    templates: TemplatesView,
    depth: nat,
    steps: Seq<Step>,
)
    requires
        forall|i: int| 0 <= i < features.len() ==> distinct_names(#[trigger] features[i]),
    ensures
        all_without_counts(
            all_persisted(
                after_steps(all_materialized(features, templates, depth), steps, steps.len()),
            ),
        ) == all_without_counts(features),
{
    let read = all_materialized(features, templates, depth);
    let now = after_steps(read, steps, steps.len());
    steps_touch_counts_and_rolls_only(read, steps, steps.len());
    assert(now.len() == all_bare(now).len());
    assert(read.len() == all_bare(read).len());
    assert forall|i: int| 0 <= i < features.len() implies without_counts(
        #[trigger] all_persisted(now)[i],
    ) == without_counts(features[i]) by {
        assert(bare(now[i]) == all_bare(now)[i]);
        assert(bare(read[i]) == all_bare(read)[i]);
        assert(now[i].feature == bare(now[i]).feature);
        assert(read[i].feature == bare(read[i]).feature);
        only_counts_are_taken_from_play(features[i], now[i]);
        only_counts_are_taken_from_play(features[i], read[i]);
        written_as_read(features[i], templates, depth);
    }
    assert(all_without_counts(all_persisted(now)) =~= all_without_counts(features));
}

/// Commands change slots and nothing else: what is written down of a
/// feature after actions is what was written down before, but for the
/// counts of slots.
pub proof fn commands_keep_definitions(state: FeatureStateView, actions: Seq<ActionView>)
    ensures
        commanded(state, actions).feature == state.feature,
        commanded(state, actions).overlayed_feature == state.overlayed_feature,
        commanded(state, actions).effects == state.effects,
        commanded(state, actions).rolls_state == state.rolls_state,
        commanded(state, actions).children.len() == state.children.len(),
        declared(commanded(state, actions)) == declared(state),
    decreases state,
{
    let after = commanded(state, actions);
    if reaches(actions, state.feature.name) {
        let below = actions_below(actions, state.feature.name);
        assert forall|i: int| 0 <= i < state.children.len() implies declared(after.children[i])
            == declared(state.children[i]) by {
            commands_keep_definitions(state.children[i], below);
        }
        same_declared(after.children, state.children, state.children.len());
    }
}

/// Lists of features that declare the same effects one by one declare
/// the same effects together.
pub proof fn same_declared(a: Seq<FeatureStateView>, b: Seq<FeatureStateView>, k: nat)
    requires
        k <= a.len(),
        k <= b.len(),
        forall|i: int| 0 <= i < k ==> declared(#[trigger] a[i]) == declared(b[i]),
    ensures
        declared_by_first(a, k) == declared_by_first(b, k),
    decreases k,
{
    if k > 0 {
        same_declared(a, b, (k - 1) as nat);
        assert(declared(a[k - 1]) == declared(b[k - 1]));
    }
}

/// Offering a bonus changes nothing but what rolls were given: the tree
/// declares the same effects, and once what was given is forgotten it is
/// the tree that it was with what was given forgotten.
pub proof fn offering_only_gives(state: FeatureStateView, bonus: RollBonusView, scope: RollScopeView)
    ensures
        cleared(offered(state, bonus, scope)) == cleared(state),
        declared(offered(state, bonus, scope)) == declared(state),
        offered(state, bonus, scope).children.len() == state.children.len(),
    decreases state,
{
    let after = offered(state, bonus, scope);
    if scope.step(state.feature.name).0 {
        let narrowed = scope.step(state.feature.name).1;
        assert forall|i: int| 0 <= i < state.children.len() implies cleared(after.children[i])
            == cleared(state.children[i]) && declared(after.children[i]) == declared(
            state.children[i],
        ) by {
            offering_only_gives(state.children[i], bonus, narrowed);
        }
        assert(cleared(after).children =~= cleared(state).children);
        assert(cleared(after).rolls_state =~= cleared(state).rolls_state);
        same_declared(after.children, state.children, state.children.len());
    }
}

/// Forgetting what rolls were given changes nothing else: the tree
/// declares the same effects, and there is nothing more to forget.
pub proof fn clearing_only_forgets(state: FeatureStateView)
    ensures
        cleared(cleared(state)) == cleared(state),
        declared(cleared(state)) == declared(state),
        cleared(state).children.len() == state.children.len(),
    decreases state,
{
    let after = cleared(state);
    assert forall|i: int| 0 <= i < state.children.len() implies cleared(after.children[i])
        == after.children[i] && declared(after.children[i]) == declared(state.children[i]) by {
        clearing_only_forgets(state.children[i]);
    }
    assert(cleared(after).children =~= after.children);
    assert(cleared(after).rolls_state =~= after.rolls_state);
    same_declared(after.children, state.children, state.children.len());
}

/// Effects change nothing but what rolls were given.
pub proof fn effects_only_give(state: FeatureStateView, effects: Seq<EffectView>, k: nat)
    ensures
        cleared(with_effects(state, effects, k)) == cleared(state),
        declared(with_effects(state, effects, k)) == declared(state),
    decreases k,
{
    if k > 0 && k <= effects.len() {
        effects_only_give(state, effects, (k - 1) as nat);
        let before = with_effects(state, effects, (k - 1) as nat);
        match effects[k - 1] {
            EffectView::Roll { bonus, scope } => {
                offering_only_gives(before, bonus, scope);
            },
            EffectView::Ability { .. } => {},
        }
    }
}

/// A full round can be run again at any time: after one round, another
/// changes nothing.
pub proof fn recomputing_twice_is_recomputing_once(states: Seq<FeatureStateView>)
    ensures
        recomputed(recomputed(states)) == recomputed(states),
        declared_by(recomputed(states)) == declared_by(states),
{
    let effects = declared_by(states);
    let once = recomputed(states);
    assert forall|i: int| 0 <= i < states.len() implies cleared(#[trigger] once[i]) == cleared(
        states[i],
    ) && declared(once[i]) == declared(states[i]) by {
        clearing_only_forgets(states[i]);
        effects_only_give(cleared(states[i]), effects, effects.len());
    }
    same_declared(once, states, states.len());
    assert(all_cleared(once) =~= all_cleared(states));
    assert(recomputed(once) =~= once);
}

/// Commands leave a slot where there is one, with the maximum that it
/// had.
pub proof fn runs_keep_slots(slot: Option<Slot>, commands: Seq<SlotCommand>, k: nat)
    ensures
        slot_run(slot, commands, k) is Some == slot is Some,
        slot is Some ==> slot_run(slot, commands, k)->0.max == slot->0.max,
    decreases k,
{
    if k > 0 && k <= commands.len() {
        runs_keep_slots(slot, commands, (k - 1) as nat);
    }
}

/// What one command does to a feature in play. Where its path does not
/// lead into the feature, nothing changes and nothing is left to save.
/// Where the path ends in the feature, the command is carried out on the
/// feature's slot, and goes on to every child only if the path includes
/// descendants. Where the path leads further, the slot is left alone and
/// the command goes on to every child with the rest of the path.
pub proof fn one_command(state: FeatureStateView, path: FeaturePathView, command: SlotCommand)
    ensures
        !path.step(state.feature.name).0 ==> commanded(state, seq![(path, command)]) == state
            && !dirtied(state, seq![(path, command)]),
        path.step(state.feature.name).0 ==> commanded(state, seq![(path, command)]).slot_state
            == (if path.step(state.feature.name).1.path.len() == 0 {
            match state.slot_state {
                Some(slot) => Some(slot.after(command)),
                None => None,
            }
        } else {
            state.slot_state
        }),
        path.step(state.feature.name).0 ==> forall|i: int|
            0 <= i < state.children.len() ==> (#[trigger] commanded(
                state,
                seq![(path, command)],
            ).children[i]) == (if path.step(state.feature.name).1.path.len() > 0 || path.step(
                state.feature.name,
            ).1.include_children {
                commanded(state.children[i], seq![(path.step(state.feature.name).1, command)])
            } else {
                state.children[i]
            }),
        path.step(state.feature.name).0 && path.step(state.feature.name).1.path.len() == 0
            && state.children.len() == 0 ==> dirtied(state, seq![(path, command)]) == (
        match state.slot_state {
            Some(slot) => slot.dirtied_by(command),
            None => false,
        }),
{
    let name = state.feature.name;
    let sent = seq![(path, command)];
    sent_alone((path, command), name);
    if path.step(name).0 {
        let commands = commands_for(sent, name);
        let below = actions_below(sent, name);
        if path.step(name).1.path.len() == 0 {
            assert(commands == seq![command]);
            assert(slot_run(state.slot_state, commands, 0) == state.slot_state);
            assert(run_dirties(state.slot_state, commands, 0) == false);
        } else {
            assert(commands =~= Seq::empty());
        }
        assert forall|i: int| 0 <= i < state.children.len() implies (#[trigger] commanded(
            state,
            sent,
        ).children[i]) == (if path.step(name).1.path.len() > 0 || path.step(
            name,
        ).1.include_children {
            commanded(state.children[i], seq![(path.step(name).1, command)])
        } else {
            state.children[i]
        }) by {
            assert(reaches(sent, name));
            assert(commanded(state, sent).children[i] == commanded(state.children[i], below));
            if !(path.step(name).1.path.len() > 0 || path.step(name).1.include_children) {
                assert(below =~= Seq::empty());
                assert(!reaches(below, state.children[i].feature.name));
            } else {
                assert(below =~= seq![(path.step(name).1, command)]);
            }
        }
    }
}

} // verus!
