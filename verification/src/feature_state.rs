//! Features in play: every feature of the tree with the templates laid
//! under it, its slot as it stands, and the bonuses its rolls were given.

use vstd::prelude::*;
use crate::effect::{clone_effects, effects_view, Effect, EffectView, EffectsState};
use crate::feature::{
    append_effects, feature_overlaid, feature_view_children, features_view, Feature, FeatureView,
};
use crate::feature_path::{FeaturePath, FeaturePathView};
use crate::roll::{
    clone_rolls,
    roll_states_view,
    RollBonusView,
    RollScopeView,
    RollState,
    RollStateView,
    RollView,
};
use crate::seqs::{collect, collect_origin, collect_step, first_where, first_where_is};
use crate::text::{clone_opt_string, clone_strings, strings_view};
use crate::slot::{Slot, SlotCommand, SlotState};
use crate::template::{template_named, Templates, TemplatesView};

verus! {

/// How many levels down the tree templates are laid under features.
/// Features that lie deeper come into play as they are written.
pub const TEMPLATE_DEPTH: usize = 64;

/// One feature in play.
#[derive(Debug)]
pub struct FeatureState {
    /// The feature as it came here: as it is written down, for a feature
    /// at the top, and as the effective feature above holds it, for one
    /// below.
    pub feature: Feature,
    /// The effective feature: `feature` laid over its templates.
    pub overlayed_feature: Feature,
    pub slot_state: Option<SlotState>,
    pub children: Vec<FeatureState>,
    pub effects_state: EffectsState,
    pub rolls_state: Vec<RollState>,
}

/// What a `FeatureState` stands for in contracts.
pub struct FeatureStateView {
    pub feature: FeatureView,
    pub overlayed_feature: FeatureView,
    pub slot_state: Option<Slot>,
    pub children: Seq<FeatureStateView>,
    pub effects: Seq<EffectView>,
    pub rolls_state: Seq<RollStateView>,
}

/// The slot that a slot in play holds.
pub open spec fn slot_of(state: Option<SlotState>) -> Option<Slot> {
    match state {
        Some(s) => Some(s.slot),
        None => None,
    }
}

impl FeatureState {
    pub open spec fn model(&self) -> FeatureStateView
        decreases self,
    {
        FeatureStateView {
            feature: self.feature@,
            overlayed_feature: self.overlayed_feature@,
            slot_state: slot_of(self.slot_state),
            children: Seq::new(
                self.children@.len(),
                |i: int|
                    if 0 <= i < self.children@.len() {
                        self.children@[i].model()
                    } else {
                        arbitrary()
                    },
            ),
            effects: self.effects_state@,
            rolls_state: roll_states_view(self.rolls_state@),
        }
    }
}

impl View for FeatureState {
    type V = FeatureStateView;

    open spec fn view(&self) -> FeatureStateView {
        self.model()
    }
}

/// What a list of features in play stands for in contracts.
pub open spec fn states_view(states: Seq<FeatureState>) -> Seq<FeatureStateView> {
    Seq::new(states.len(), |i: int| states[i]@)
}

/// The children of a feature in play are seen as the views of its
/// children.
pub proof fn state_view_children(state: &FeatureState)
    ensures
        state@.children == states_view(state.children@),
{
    assert(state@.children =~= states_view(state.children@));
}

/// A feature laid over a template, where there is one.
pub open spec fn laid_over(template: Option<FeatureView>, feature: FeatureView) -> FeatureView {
    match template {
        Some(t) => feature_overlaid(t, feature),
        None => feature,
    }
}

/// The first `k` of the templates `names` laid over one another, in the
/// order in which they are named: each template that exists goes over
/// what the ones before it made, so that the later one is the more
/// specific. A name without a template changes nothing, and without any
/// template there is nothing.
pub open spec fn named_templates(names: Seq<Seq<char>>, k: nat, templates: TemplatesView) -> Option<
    FeatureView,
>
    decreases k,
{
    if k == 0 || k > names.len() {
        None
    } else {
        match template_named(templates, names[k - 1]) {
            Some(template) => Some(
                laid_over(named_templates(names, (k - 1) as nat, templates), template),
            ),
            None => named_templates(names, (k - 1) as nat, templates),
        }
    }
}

/// What lies under a feature: the templates that it names, laid over one
/// another, and over them the template that is filed under the feature's
/// own name.
pub open spec fn template_base(feature: FeatureView, templates: TemplatesView) -> Option<
    FeatureView,
> {
    let named = named_templates(feature.templates, feature.templates.len(), templates);
    match template_named(templates, feature.name) {
        Some(own) => Some(laid_over(named, own)),
        None => named,
    }
}

/// A feature as it takes effect: laid over its templates, so that what
/// the feature says itself comes last and stands.
pub open spec fn effective(feature: FeatureView, templates: TemplatesView) -> FeatureView {
    laid_over(template_base(feature, templates), feature)
}

/// What an optional feature stands for in contracts.
pub open spec fn optional_view(feature: Option<Feature>) -> Option<FeatureView> {
    match feature {
        Some(f) => Some(f@),
        None => None,
    }
}

/// Rolls as they come into play.
pub open spec fn fresh_rolls(rolls: Seq<RollView>) -> Seq<RollStateView> {
    rolls.map_values(|r: RollView| RollStateView::fresh(r))
}

/// A feature brought into play. Its slot, effects, rolls and children
/// are those of the effective feature; the children come into play the
/// same way, one level further down. With no levels left the feature is
/// its own effective feature.
pub open spec fn materialized(feature: FeatureView, templates: TemplatesView, depth: nat) -> FeatureStateView
    decreases depth, feature,
{
    if depth == 0 {
        FeatureStateView {
            feature: feature,
            overlayed_feature: feature,
            slot_state: feature.slot,
            children: Seq::new(
                feature.children.len(),
                |i: int|
                    if 0 <= i < feature.children.len() {
                        materialized(feature.children[i], templates, 0)
                    } else {
                        arbitrary()
                    },
            ),
            effects: feature.effects,
            rolls_state: fresh_rolls(feature.rolls),
        }
    } else {
        let overlayed = effective(feature, templates);
        FeatureStateView {
            feature: feature,
            overlayed_feature: overlayed,
            slot_state: overlayed.slot,
            children: Seq::new(
                overlayed.children.len(),
                |i: int| materialized(overlayed.children[i], templates, (depth - 1) as nat),
            ),
            effects: overlayed.effects,
            rolls_state: fresh_rolls(overlayed.rolls),
        }
    }
}

/// The test for a feature in play that stands for a feature called
/// `name`.
pub open spec fn stands_for(name: Seq<char>) -> spec_fn(FeatureStateView) -> bool {
    |s: FeatureStateView| s.feature.name == name
}

/// Where among `states` the first one stands that stands for a feature
/// called `name`, or their number when there is none.
pub open spec fn state_position(states: Seq<FeatureStateView>, name: Seq<char>) -> int {
    first_where(states, stands_for(name))
}

/// A written feature with the counts of its slots as they stand in play.
/// Nothing else is taken from play: the feature keeps its own slot, with
/// its own maximum, and its own children in their order, each brought up
/// to date from the first child in play of its name. What only templates
/// gave to the feature in play is not written.
pub open spec fn refreshed(feature: FeatureView, state: FeatureStateView) -> FeatureView
    decreases feature,
{
    FeatureView {
        slot: match (feature.slot, state.slot_state) {
            (Some(written), Some(played)) => Some(Slot { current: played.current, ..written }),
            _ => feature.slot,
        },
        children: Seq::new(
            feature.children.len(),
            |i: int|
                if 0 <= i < feature.children.len() {
                    if state_position(state.children, feature.children[i].name)
                        < state.children.len() {
                        refreshed(
                            feature.children[i],
                            state.children[state_position(
                                state.children,
                                feature.children[i].name,
                            )],
                        )
                    } else {
                        feature.children[i]
                    }
                } else {
                    arbitrary()
                },
        ),
        ..feature
    }
}

/// What is written down of a feature in play: the feature as it was
/// written, with the counts of its slots as they stand now.
pub open spec fn persisted(state: FeatureStateView) -> FeatureView {
    refreshed(state.feature, state)
}

/// The effects that a feature in play and everything below it declare:
/// its own first, then those of each child in turn.
pub open spec fn declared(state: FeatureStateView) -> Seq<EffectView>
    decreases state, 0nat,
{
    state.effects + declared_by_first(state.children, state.children.len())
}

/// The effects that the first `k` of `states` declare.
pub open spec fn declared_by_first(states: Seq<FeatureStateView>, k: nat) -> Seq<EffectView>
    decreases states, k,
{
    if k == 0 || k > states.len() {
        Seq::empty()
    } else {
        declared_by_first(states, (k - 1) as nat) + declared(states[k - 1])
    }
}

/// The effects that all of `states` declare.
pub open spec fn declared_by(states: Seq<FeatureStateView>) -> Seq<EffectView> {
    declared_by_first(states, states.len())
}

/// Rolls after a bonus was offered to each of them under a scope.
pub open spec fn offered_rolls(
    rolls: Seq<RollStateView>,
    bonus: RollBonusView,
    scope: RollScopeView,
) -> Seq<RollStateView> {
    rolls.map_values(|r: RollStateView| r.offered(bonus, scope))
}

/// A feature in play after a bonus was offered to it under a scope. The
/// scope is first carried into the feature. Where it does not enter,
/// nothing changes. Where it enters, what is left of it decides which
/// rolls of the feature take the bonus, and goes on into each child.
pub open spec fn offered(state: FeatureStateView, bonus: RollBonusView, scope: RollScopeView) -> FeatureStateView
    decreases state,
{
    if scope.step(state.feature.name).0 {
        let narrowed = scope.step(state.feature.name).1;
        FeatureStateView {
            rolls_state: offered_rolls(state.rolls_state, bonus, narrowed),
            children: Seq::new(
                state.children.len(),
                |i: int|
                    if 0 <= i < state.children.len() {
                        offered(state.children[i], bonus, narrowed)
                    } else {
                        arbitrary()
                    },
            ),
            ..state
        }
    } else {
        state
    }
}

/// A feature in play after an effect. Effects on ability scores pass the
/// tree by.
pub open spec fn with_effect(state: FeatureStateView, effect: EffectView) -> FeatureStateView {
    match effect {
        EffectView::Roll { bonus, scope } => offered(state, bonus, scope),
        EffectView::Ability { .. } => state,
    }
}

/// A feature in play after the first `k` of `effects`, in order.
pub open spec fn with_effects(state: FeatureStateView, effects: Seq<EffectView>, k: nat) -> FeatureStateView
    decreases k,
{
    if k == 0 || k > effects.len() {
        state
    } else {
        with_effect(with_effects(state, effects, (k - 1) as nat), effects[k - 1])
    }
}

/// Rolls without what effects gave them.
pub open spec fn cleared_rolls(rolls: Seq<RollStateView>) -> Seq<RollStateView> {
    rolls.map_values(|r: RollStateView| r.cleared())
}

/// A feature in play without what effects gave to its rolls and to the
/// rolls below it.
pub open spec fn cleared(state: FeatureStateView) -> FeatureStateView
    decreases state,
{
    FeatureStateView {
        rolls_state: cleared_rolls(state.rolls_state),
        children: Seq::new(
            state.children.len(),
            |i: int|
                if 0 <= i < state.children.len() {
                    cleared(state.children[i])
                } else {
                    arbitrary()
                },
        ),
        ..state
    }
}

/// A command and the path to the features that it is meant for.
pub type ActionView = (FeaturePathView, SlotCommand);

/// What a list of commands with their paths stands for in contracts.
pub open spec fn actions_view(actions: Seq<(FeaturePath, SlotCommand)>) -> Seq<ActionView> {
    actions.map_values(|a: (FeaturePath, SlotCommand)| (a.0@, a.1))
}

/// An action as it enters a feature called `name`, with the rest of its
/// path; nothing where its path does not lead into that feature.
pub open spec fn enters(name: Seq<char>) -> spec_fn(ActionView) -> Option<ActionView> {
    |a: ActionView|
        if a.0.step(name).0 {
            Some((a.0.step(name).1, a.1))
        } else {
            None
        }
}

/// The command of an action whose path ends in a feature called `name`.
pub open spec fn lands_in(name: Seq<char>) -> spec_fn(ActionView) -> Option<SlotCommand> {
    |a: ActionView|
        if a.0.step(name).0 && a.0.step(name).1.path.len() == 0 {
            Some(a.1)
        } else {
            None
        }
}

/// An action whose path leads through a feature called `name` and on,
/// with the rest of its path.
pub open spec fn passes_through(name: Seq<char>) -> spec_fn(ActionView) -> Option<ActionView> {
    |a: ActionView|
        if a.0.step(name).0 && a.0.step(name).1.path.len() > 0 {
            Some((a.0.step(name).1, a.1))
        } else {
            None
        }
}

/// An action whose path ends in a feature called `name` and which is
/// meant for everything below as well, with its emptied path.
pub open spec fn sweeps_below(name: Seq<char>) -> spec_fn(ActionView) -> Option<ActionView> {
    |a: ActionView|
        if a.0.step(name).0 && a.0.step(name).1.path.len() == 0 && a.0.step(
            name,
        ).1.include_children {
            Some((a.0.step(name).1, a.1))
        } else {
            None
        }
}

/// Whether any of the actions enters a feature called `name`.
pub open spec fn reaches(actions: Seq<ActionView>, name: Seq<char>) -> bool {
    collect(actions, enters(name)).len() > 0
}

/// The commands meant for a feature called `name` itself, in order.
pub open spec fn commands_for(actions: Seq<ActionView>, name: Seq<char>) -> Seq<SlotCommand> {
    collect(actions, lands_in(name))
}

/// The actions that go on to the children of a feature called `name`:
/// first those whose paths lead further, then those that end there and
/// are meant for everything below.
pub open spec fn actions_below(actions: Seq<ActionView>, name: Seq<char>) -> Seq<ActionView> {
    collect(actions, passes_through(name)) + collect(actions, sweeps_below(name))
}

/// A slot after the first `k` of `commands`. Where there is no slot
/// there is nothing to command.
pub open spec fn slot_run(slot: Option<Slot>, commands: Seq<SlotCommand>, k: nat) -> Option<Slot>
    decreases k,
{
    if k == 0 || k > commands.len() {
        slot
    } else {
        match slot_run(slot, commands, (k - 1) as nat) {
            Some(s) => Some(s.after(commands[k - 1])),
            None => None,
        }
    }
}

/// Whether one of the first `k` of `commands` left something to save.
pub open spec fn run_dirties(slot: Option<Slot>, commands: Seq<SlotCommand>, k: nat) -> bool
    decreases k,
{
    if k == 0 || k > commands.len() {
        false
    } else {
        run_dirties(slot, commands, (k - 1) as nat) || match slot_run(
            slot,
            commands,
            (k - 1) as nat,
        ) {
            Some(s) => s.dirtied_by(commands[k - 1]),
            None => false,
        }
    }
}

/// Whether the first `k` of `commands` can be carried out in machine
/// integers.
pub open spec fn run_allowed(slot: Option<Slot>, commands: Seq<SlotCommand>, k: nat) -> bool
    decreases k,
{
    if k == 0 || k > commands.len() {
        true
    } else {
        run_allowed(slot, commands, (k - 1) as nat) && match slot_run(
            slot,
            commands,
            (k - 1) as nat,
        ) {
            Some(s) => s.allows(commands[k - 1]),
            None => true,
        }
    }
}

/// A feature in play after actions were sent to it. Actions that do not
/// enter the feature change nothing. Of those that enter, the ones whose
/// paths end here command the feature's slot, in order; the children
/// receive the ones that lead further or are meant for everything below.
pub open spec fn commanded(state: FeatureStateView, actions: Seq<ActionView>) -> FeatureStateView
    decreases state,
{
    if !reaches(actions, state.feature.name) {
        state
    } else {
        let commands = commands_for(actions, state.feature.name);
        let below = actions_below(actions, state.feature.name);
        FeatureStateView {
            slot_state: slot_run(state.slot_state, commands, commands.len()),
            children: Seq::new(
                state.children.len(),
                |i: int|
                    if 0 <= i < state.children.len() {
                        commanded(state.children[i], below)
                    } else {
                        arbitrary()
                    },
            ),
            ..state
        }
    }
}

/// Whether actions sent to a feature in play leave something to save,
/// there or anywhere below.
pub open spec fn dirtied(state: FeatureStateView, actions: Seq<ActionView>) -> bool
    decreases state,
{
    let commands = commands_for(actions, state.feature.name);
    let below = actions_below(actions, state.feature.name);
    reaches(actions, state.feature.name) && (run_dirties(state.slot_state, commands, commands.len())
        || exists|i: int|
        0 <= i < state.children.len() && dirtied(#[trigger] state.children[i], below))
}

/// Whether actions sent to a feature in play can be carried out in
/// machine integers, there and everywhere below.
pub open spec fn permits(state: FeatureStateView, actions: Seq<ActionView>) -> bool
    decreases state,
{
    let commands = commands_for(actions, state.feature.name);
    let below = actions_below(actions, state.feature.name);
    reaches(actions, state.feature.name) ==> (run_allowed(
        state.slot_state,
        commands,
        commands.len(),
    ) && forall|i: int|
        0 <= i < state.children.len() ==> permits(#[trigger] state.children[i], below))
}

/// A message to the feature tree.
#[derive(Debug)]
pub enum FeatureMessage {
    /// A command for the slots of the features that the path leads to.
    Slot(FeaturePath, SlotCommand),
}

impl Clone for FeatureMessage {
    fn clone(&self) -> (r: FeatureMessage)
        ensures
            message_actions(r) == message_actions(*self),
    {
        match self {
            FeatureMessage::Slot(path, command) => FeatureMessage::Slot(path.clone(), *command),
        }
    }
}

/// The actions that a message asks for.
pub open spec fn message_actions(message: FeatureMessage) -> Seq<ActionView> {
    match message {
        FeatureMessage::Slot(path, command) => seq![(path@, command)],
    }
}

/// What is allowed of a whole run is allowed of its beginning.
pub proof fn allowed_so_far(slot: Option<Slot>, commands: Seq<SlotCommand>, n: nat, k: nat)
    requires
        run_allowed(slot, commands, n),
        k <= n <= commands.len(),
    ensures
        run_allowed(slot, commands, k),
    decreases n,
{
    if k < n {
        allowed_so_far(slot, commands, (n - 1) as nat, k);
    }
}

/// Commands to a feature without a slot do nothing.
pub proof fn no_slot_nothing_done(commands: Seq<SlotCommand>, k: nat)
    ensures
        slot_run(None, commands, k) is None,
        !run_dirties(None, commands, k),
    decreases k,
{
    if k > 0 && k <= commands.len() {
        no_slot_nothing_done(commands, (k - 1) as nat);
    }
}

/// How a single action is sorted at a feature called `name`.
pub proof fn sent_alone(action: ActionView, name: Seq<char>)
    ensures
        reaches(seq![action], name) == action.0.step(name).0,
        commands_for(seq![action], name) == if action.0.step(name).0 && action.0.step(
            name,
        ).1.path.len() == 0 {
            seq![action.1]
        } else {
            Seq::empty()
        },
        actions_below(seq![action], name) == if action.0.step(name).0 && (action.0.step(
            name,
        ).1.path.len() > 0 || action.0.step(name).1.include_children) {
            seq![(action.0.step(name).1, action.1)]
        } else {
            Seq::empty()
        },
{
    let one = seq![action];
    assert(one.take(0) =~= Seq::empty());
    assert(one.take(1) =~= one);
    collect_step(one, enters(name), 0);
    collect_step(one, lands_in(name), 0);
    collect_step(one, passes_through(name), 0);
    collect_step(one, sweeps_below(name), 0);
    assert(commands_for(one, name) =~= if action.0.step(name).0 && action.0.step(
        name,
    ).1.path.len() == 0 {
        seq![action.1]
    } else {
        Seq::empty()
    });
    assert(actions_below(one, name) =~= if action.0.step(name).0 && (action.0.step(
        name,
    ).1.path.len() > 0 || action.0.step(name).1.include_children) {
        seq![(action.0.step(name).1, action.1)]
    } else {
        Seq::empty()
    });
}

/// The path that leads through features of these names.
pub open spec fn named_path(names: Seq<Seq<char>>, include_children: bool) -> FeaturePathView {
    FeaturePathView { path: names, include_children: include_children }
}

/// Whether every one of the actions is a reset.
pub open spec fn only_resets(actions: Seq<ActionView>) -> bool {
    forall|i: int| 0 <= i < actions.len() ==> (#[trigger] actions[i]).1 == SlotCommand::Reset
}

/// Resets can always be carried out.
pub proof fn resets_are_permitted(state: FeatureStateView, actions: Seq<ActionView>)
    requires
        only_resets(actions),
    ensures
        permits(state, actions),
    decreases state,
{
    let name = state.feature.name;
    let commands = commands_for(actions, name);
    let below = actions_below(actions, name);
    collect_origin(actions, lands_in(name));
    collect_origin(actions, passes_through(name));
    collect_origin(actions, sweeps_below(name));
    assert forall|j: int| 0 <= j < commands.len() implies commands[j] == SlotCommand::Reset by {
        let i = choose|i: int|
            0 <= i < actions.len() && lands_in(name)(actions[i]) == Some(commands[j]);
        assert(actions[i].1 == SlotCommand::Reset);
    }
    reset_runs_allowed(state.slot_state, commands, commands.len());
    assert forall|j: int| 0 <= j < below.len() implies (#[trigger] below[j]).1
        == SlotCommand::Reset by {
        let deeper = collect(actions, passes_through(name));
        let sweeping = collect(actions, sweeps_below(name));
        if j < deeper.len() {
            let i = choose|i: int|
                0 <= i < actions.len() && passes_through(name)(actions[i]) == Some(deeper[j]);
            assert(actions[i].1 == SlotCommand::Reset);
        } else {
            let k = j - deeper.len();
            let i = choose|i: int|
                0 <= i < actions.len() && sweeps_below(name)(actions[i]) == Some(sweeping[k]);
            assert(actions[i].1 == SlotCommand::Reset);
        }
    }
    assert forall|i: int| 0 <= i < state.children.len() implies permits(
        #[trigger] state.children[i],
        below,
    ) by {
        resets_are_permitted(state.children[i], below);
    }
}

/// A run of resets can always be carried out.
pub proof fn reset_runs_allowed(slot: Option<Slot>, commands: Seq<SlotCommand>, k: nat)
    requires
        forall|j: int| 0 <= j < commands.len() ==> commands[j] == SlotCommand::Reset,
    ensures
        run_allowed(slot, commands, k),
    decreases k,
{
    if k > 0 && k <= commands.len() {
        reset_runs_allowed(slot, commands, (k - 1) as nat);
    }
}

/// Lays `over` over what there is, if there is anything.
fn lay_over(base: Option<Feature>, over: &Feature) -> (r: Feature)
    ensures
        r@ == laid_over(optional_view(base), over@),
{
    match base {
        Some(b) => b.overlay_with(over),
        None => over.clone(),
    }
}

/// Lays `feature` over the templates that it names and the one filed
/// under its own name.
pub fn lay_templates_under(feature: &Feature, templates: &Templates) -> (r: Feature)
    ensures
        r@ == effective(feature@, templates@),
{
    let mut base: Option<Feature> = None;
    let mut i: usize = 0;
    while i < feature.templates.len()
        invariant
            i <= feature.templates.len(),
            optional_view(base) == named_templates(feature@.templates, i as nat, templates@),
        decreases feature.templates.len() - i,
    {
        assert(feature@.templates[i as int] == feature.templates@[i as int]@);
        match templates.get(&feature.templates[i]) {
            Some(template) => {
                base = Some(lay_over(base, template));
            },
            None => {},
        }
        i += 1;
    }
    match templates.get(&feature.name) {
        Some(own) => {
            base = Some(lay_over(base, own));
        },
        None => {},
    }
    lay_over(base, feature)
}

/// Where among `states` the first one stands that stands for a feature
/// called `name`.
pub fn find_state(states: &Vec<FeatureState>, name: &String) -> (i: usize)
    ensures
        i == state_position(states_view(states@), name@),
        i <= states@.len(),
{
    let mut i: usize = 0;
    while i < states.len()
        invariant
            i <= states.len(),
            forall|j: int| 0 <= j < i ==> !stands_for(name@)(#[trigger] states_view(states@)[j]),
        decreases states.len() - i,
    {
        if states[i].feature.name == *name {
            proof {
                first_where_is(states_view(states@), stands_for(name@), i as int);
            }
            return i;
        }
        i += 1;
    }
    proof {
        first_where_is(states_view(states@), stands_for(name@), i as int);
    }
    i
}

/// A written feature with the counts of its slots as they stand in
/// `state`.
pub fn refresh(feature: &Feature, state: &FeatureState) -> (r: Feature)
    ensures
        r@ == refreshed(feature@, state@),
    decreases feature,
{
    proof {
        feature_view_children(feature);
        state_view_children(state);
    }
    let mut children: Vec<Feature> = Vec::new();
    let mut i: usize = 0;
    while i < feature.children.len()
        invariant
            i <= feature.children.len(),
            feature@.children == features_view(feature.children@),
            state@.children == states_view(state.children@),
            children@.len() == i,
            forall|k: int|
                0 <= k < i ==> (#[trigger] children@[k])@ == refreshed(feature@, state@).children[k],
        decreases feature.children.len() - i,
    {
        let at = find_state(&state.children, &feature.children[i].name);
        if at < state.children.len() {
            children.push(refresh(&feature.children[i], &state.children[at]));
        } else {
            children.push(feature.children[i].clone());
        }
        i += 1;
    }
    let r = Feature {
        name: feature.name.clone(),
        description: clone_opt_string(&feature.description),
        slot: match (feature.slot, state.slot_state) {
            (Some(written), Some(played)) => Some(Slot::new(played.slot.current, written.max)),
            _ => feature.slot,
        },
        children,
        show_reset_children: feature.show_reset_children,
        child_display_orientation: feature.child_display_orientation,
        effects: clone_effects(&feature.effects),
        rolls: clone_rolls(&feature.rolls),
        templates: clone_strings(&feature.templates),
    };
    proof {
        feature_view_children(&r);
        assert(r@.children =~= refreshed(feature@, state@).children);
    }
    r
}

impl FeatureState {
    /// Brings a feature into play, with templates laid under it and under
    /// what is below it for `depth` levels.
    pub fn from_within(feature: Feature, feature_templates: &Templates, depth: usize) -> (r:
        FeatureState)
        ensures
            r@ == materialized(feature@, feature_templates@, depth as nat),
        decreases depth, feature@,
    {
        let overlayed = if depth == 0 {
            feature.clone()
        } else {
            lay_templates_under(&feature, feature_templates)
        };
        let next: usize = if depth == 0 {
            0
        } else {
            depth - 1
        };
        let ghost wanted = materialized(feature@, feature_templates@, depth as nat);
        proof {
            feature_view_children(&overlayed);
        }
        let mut children: Vec<FeatureState> = Vec::new();
        let mut i: usize = 0;
        while i < overlayed.children.len()
            invariant
                i <= overlayed.children.len(),
                overlayed@.children == features_view(overlayed.children@),
                depth == 0 ==> overlayed@ == feature@ && next == 0,
                depth > 0 ==> next == depth - 1,
                children@.len() == i,
                forall|k: int|
                    0 <= k < i ==> (#[trigger] children@[k])@ == materialized(
                        overlayed@.children[k],
                        feature_templates@,
                        next as nat,
                    ),
            decreases overlayed.children.len() - i,
        {
            let child = overlayed.children[i].clone();
            assert(child@ == overlayed@.children[i as int]);
            children.push(FeatureState::from_within(child, feature_templates, next));
            i += 1;
        }
        let slot_state = match overlayed.slot {
            Some(slot) => Some(SlotState::from(slot)),
            None => None,
        };
        let effects_state = EffectsState::from(clone_effects(&overlayed.effects));
        let mut rolls_state: Vec<RollState> = Vec::new();
        let mut j: usize = 0;
        while j < overlayed.rolls.len()
            invariant
                j <= overlayed.rolls.len(),
                rolls_state@.len() == j,
                forall|k: int|
                    0 <= k < j ==> (#[trigger] rolls_state@[k])@ == RollStateView::fresh(
                        overlayed.rolls@[k]@,
                    ),
            decreases overlayed.rolls.len() - j,
        {
            rolls_state.push(RollState::from(overlayed.rolls[j].clone()));
            j += 1;
        }
        let r = FeatureState {
            feature,
            overlayed_feature: overlayed,
            slot_state,
            children,
            effects_state,
            rolls_state,
        };
        proof {
            state_view_children(&r);
            assert(r@.children =~= wanted.children);
            assert(r@.rolls_state =~= wanted.rolls_state);
        }
        r
    }

    /// Brings a feature into play.
    pub fn from(feature: Feature, feature_templates: &Templates) -> (r: FeatureState)
        ensures
            r@ == materialized(feature@, feature_templates@, TEMPLATE_DEPTH as nat),
    {
        FeatureState::from_within(feature, feature_templates, TEMPLATE_DEPTH)
    }

    /// What is to be written down of the feature.
    pub fn persistable(&self) -> (r: Feature)
        ensures
            r@ == persisted(self@),
    {
        refresh(&self.feature, self)
    }

    /// The effects that the feature and everything below it declare.
    pub fn effects(&self) -> (r: Vec<Effect>)
        ensures
            effects_view(r@) == declared(self@),
        decreases self,
    {
        let mut effects = self.effects_state.effect();
        proof {
            state_view_children(self);
        }
        let mut i: usize = 0;
        while i < self.children.len()
            invariant
                i <= self.children.len(),
                self@.children == states_view(self.children@),
                effects_view(effects@) == self@.effects + declared_by_first(
                    self@.children,
                    i as nat,
                ),
            decreases self.children.len() - i,
        {
            let more = self.children[i].effects();
            append_effects(&mut effects, &more);
            assert(effects_view(effects@) =~= self@.effects + declared_by_first(
                self@.children,
                (i + 1) as nat,
            ));
            i += 1;
        }
        effects
    }

    /// Offers the bonus of every effect, in order, to the rolls of the
    /// feature and of everything below it.
    pub fn apply_effects(&mut self, effects: &Vec<Effect>)
        ensures
            final(self)@ == with_effects(old(self)@, effects_view(effects@), effects@.len()),
    {
        let mut i: usize = 0;
        while i < effects.len()
            invariant
                i <= effects.len(),
                self@ == with_effects(old(self)@, effects_view(effects@), i as nat),
            decreases effects.len() - i,
        {
            self.apply_effect(&effects[i]);
            i += 1;
        }
    }

    /// Offers the bonus of an effect to the rolls of the feature and of
    /// everything below it.
    pub fn apply_effect(&mut self, effect: &Effect)
        ensures
            final(self)@ == with_effect(old(self)@, effect@),
        decreases *old(self),
    {
        match effect {
            Effect::Roll { bonus, scope } => {
                let (matches, narrowed) = scope.matches(&self.feature);
                if matches {
                    let passed_on = Effect::Roll { bonus: bonus.clone(), scope: narrowed };
                    let ghost wanted = offered(old(self)@, bonus@, scope@);
                    proof {
                        state_view_children(self);
                    }
                    let mut i: usize = 0;
                    while i < self.rolls_state.len()
                        invariant
                            i <= self.rolls_state.len(),
                            passed_on@ == (EffectView::Roll {
                                bonus: bonus@,
                                scope: scope@.step(old(self)@.feature.name).1,
                            }),
                            self.feature == old(self).feature,
                            self.overlayed_feature == old(self).overlayed_feature,
                            self.slot_state == old(self).slot_state,
                            self.children == old(self).children,
                            self.effects_state == old(self).effects_state,
                            self.rolls_state@.len() == old(self).rolls_state@.len(),
                            forall|k: int|
                                0 <= k < i ==> (#[trigger] self.rolls_state@[k])@ == old(
                                    self,
                                ).rolls_state@[k]@.with_effect(passed_on@),
                            forall|k: int|
                                i <= k < self.rolls_state@.len() ==> self.rolls_state@[k] == old(
                                    self,
                                ).rolls_state@[k],
                        decreases self.rolls_state.len() - i,
                    {
                        self.rolls_state[i].apply(&passed_on);
                        i += 1;
                    }
                    let mut j: usize = 0;
                    while j < self.children.len()
                        invariant
                            j <= self.children.len(),
                            passed_on@ == (EffectView::Roll {
                                bonus: bonus@,
                                scope: scope@.step(old(self)@.feature.name).1,
                            }),
                            self.feature == old(self).feature,
                            self.overlayed_feature == old(self).overlayed_feature,
                            self.slot_state == old(self).slot_state,
                            self.effects_state == old(self).effects_state,
                            self.children@.len() == old(self).children@.len(),
                            self.rolls_state@.len() == old(self).rolls_state@.len(),
                            forall|k: int|
                                0 <= k < self.rolls_state@.len() ==> (
                                #[trigger] self.rolls_state@[k])@ == old(
                                    self,
                                ).rolls_state@[k]@.with_effect(passed_on@),
                            forall|k: int|
                                0 <= k < j ==> (#[trigger] self.children@[k])@ == with_effect(
                                    old(self).children@[k]@,
                                    passed_on@,
                                ),
                            forall|k: int|
                                j <= k < self.children@.len() ==> self.children@[k] == old(
                                    self,
                                ).children@[k],
                        decreases self.children.len() - j,
                    {
                        self.children[j].apply_effect(&passed_on);
                        j += 1;
                    }
                    proof {
                        state_view_children(self);
                        state_view_children(old(self));
                        assert(self@.children =~= wanted.children);
                        assert(self@.rolls_state =~= wanted.rolls_state);
                    }
                }
            },
            _ => {},
        }
    }

    /// Forgets what effects gave to the rolls of the feature and of
    /// everything below it.
    pub fn clear_effects(&mut self)
        ensures
            final(self)@ == cleared(old(self)@),
        decreases *old(self),
    {
        let ghost wanted = cleared(old(self)@);
        let mut i: usize = 0;
        while i < self.rolls_state.len()
            invariant
                i <= self.rolls_state.len(),
                self.feature == old(self).feature,
                self.overlayed_feature == old(self).overlayed_feature,
                self.slot_state == old(self).slot_state,
                self.children == old(self).children,
                self.effects_state == old(self).effects_state,
                self.rolls_state@.len() == old(self).rolls_state@.len(),
                forall|k: int|
                    0 <= k < i ==> (#[trigger] self.rolls_state@[k])@ == old(
                        self,
                    ).rolls_state@[k]@.cleared(),
                forall|k: int|
                    i <= k < self.rolls_state@.len() ==> self.rolls_state@[k] == old(
                        self,
                    ).rolls_state@[k],
            decreases self.rolls_state.len() - i,
        {
            self.rolls_state[i].clear();
            i += 1;
        }
        let mut j: usize = 0;
        while j < self.children.len()
            invariant
                j <= self.children.len(),
                self.feature == old(self).feature,
                self.overlayed_feature == old(self).overlayed_feature,
                self.slot_state == old(self).slot_state,
                self.effects_state == old(self).effects_state,
                self.children@.len() == old(self).children@.len(),
                self.rolls_state@.len() == old(self).rolls_state@.len(),
                forall|k: int|
                    0 <= k < self.rolls_state@.len() ==> (#[trigger] self.rolls_state@[k])@ == old(
                        self,
                    ).rolls_state@[k]@.cleared(),
                forall|k: int|
                    0 <= k < j ==> (#[trigger] self.children@[k])@ == cleared(
                        old(self).children@[k]@,
                    ),
                forall|k: int|
                    j <= k < self.children@.len() ==> self.children@[k] == old(self).children@[k],
            decreases self.children.len() - j,
        {
            self.children[j].clear_effects();
            j += 1;
        }
        proof {
            state_view_children(self);
            state_view_children(old(self));
            assert(self@.children =~= wanted.children);
            assert(self@.rolls_state =~= wanted.rolls_state);
        }
    }

    /// Carries out a message, and says whether there is something to
    /// save.
    pub fn update(&mut self, message: FeatureMessage) -> (dirty: bool)
        requires
            permits(old(self)@, message_actions(message)),
        ensures
            final(self)@ == commanded(old(self)@, message_actions(message)),
            dirty == dirtied(old(self)@, message_actions(message)),
    {
        match message {
            FeatureMessage::Slot(path, command) => {
                let ghost wanted = seq![(path@, command)];
                let mut actions: Vec<(FeaturePath, SlotCommand)> = Vec::new();
                actions.push((path, command));
                assert(actions_view(actions@) =~= wanted);
                self.apply_all(&actions)
            },
        }
    }

    /// Sends actions down the tree from this feature, and says whether
    /// they left something to save.
    pub fn apply_all(&mut self, actions: &Vec<(FeaturePath, SlotCommand)>) -> (dirty: bool)
        requires
            permits(old(self)@, actions_view(actions@)),
        ensures
            final(self)@ == commanded(old(self)@, actions_view(actions@)),
            dirty == dirtied(old(self)@, actions_view(actions@)),
        decreases *old(self),
    {
        let ghost sent = actions_view(actions@);
        let ghost name = self@.feature.name;
        let ghost wanted = commanded(old(self)@, sent);
        let mut entered: usize = 0;
        let mut here: Vec<SlotCommand> = Vec::new();
        let mut deeper: Vec<(FeaturePath, SlotCommand)> = Vec::new();
        let mut sweeping: Vec<(FeaturePath, SlotCommand)> = Vec::new();
        let mut i: usize = 0;
        assert(actions_view(deeper@) =~= Seq::empty());
        assert(actions_view(sweeping@) =~= Seq::empty());
        assert(sent.take(0) =~= Seq::empty());
        while i < actions.len()
            invariant
                i <= actions.len(),
                sent == actions_view(actions@),
                name == self@.feature.name,
                *self == *old(self),
                entered == collect(sent.take(i as int), enters(name)).len(),
                entered <= i,
                here@ == collect(sent.take(i as int), lands_in(name)),
                actions_view(deeper@) == collect(sent.take(i as int), passes_through(name)),
                actions_view(sweeping@) == collect(sent.take(i as int), sweeps_below(name)),
            decreases actions.len() - i,
        {
            proof {
                collect_step(sent, enters(name), i as int);
                collect_step(sent, lands_in(name), i as int);
                collect_step(sent, passes_through(name), i as int);
                collect_step(sent, sweeps_below(name), i as int);
            }
            let ghost deeper_before = actions_view(deeper@);
            let ghost sweeping_before = actions_view(sweeping@);
            let (matched, remaining) = actions[i].0.matches(self.feature.name.clone());
            let command = actions[i].1;
            if matched {
                entered += 1;
                if remaining.is_empty() {
                    here.push(command);
                    if remaining.include_children() {
                        sweeping.push((remaining, command));
                        assert(actions_view(sweeping@) =~= sweeping_before.push(
                            (sent[i as int].0.step(name).1, command),
                        ));
                    }
                } else {
                    deeper.push((remaining, command));
                    assert(actions_view(deeper@) =~= deeper_before.push(
                        (sent[i as int].0.step(name).1, command),
                    ));
                }
            }
            i += 1;
        }
        assert(sent.take(sent.len() as int) =~= sent);
        if entered == 0 {
            return false;
        }
        let ghost commands = commands_for(sent, name);
        let ghost below = actions_below(sent, name);
        proof {
            assert(reaches(sent, name));
            assert(permits(old(self)@, sent));
            assert(run_allowed(old(self)@.slot_state, commands, commands.len()));
            assert(forall|k: int|
                0 <= k < old(self)@.children.len() ==> permits(
                    #[trigger] old(self)@.children[k],
                    below,
                ));
        }
        let mut dirty_self = false;
        match self.slot_state {
            Some(slot_state) => {
                let mut current = slot_state;
                let mut k: usize = 0;
                while k < here.len()
                    invariant
                        k <= here.len(),
                        here@ == commands,
                        run_allowed(old(self)@.slot_state, commands, commands.len()),
                        Some(current.slot) == slot_run(old(self)@.slot_state, commands, k as nat),
                        dirty_self == run_dirties(old(self)@.slot_state, commands, k as nat),
                    decreases here.len() - k,
                {
                    proof {
                        allowed_so_far(old(self)@.slot_state, commands, commands.len(), (k + 1) as nat);
                    }
                    let changed = current.update(here[k]);
                    dirty_self = changed || dirty_self;
                    k += 1;
                }
                self.slot_state = Some(current);
            },
            None => {
                proof {
                    no_slot_nothing_done(commands, commands.len());
                }
            },
        }
        let mut onward = deeper;
        let ghost first = actions_view(onward@);
        let ghost second = actions_view(sweeping@);
        onward.append(&mut sweeping);
        assert(actions_view(onward@) =~= first + second);
        let mut dirty_children = false;
        proof {
            state_view_children(self);
            state_view_children(old(self));
        }
        if onward.len() > 0 {
            let mut j: usize = 0;
            while j < self.children.len()
                invariant
                    j <= self.children.len(),
                    actions_view(onward@) == below,
                    self.feature == old(self).feature,
                    self.overlayed_feature == old(self).overlayed_feature,
                    self.effects_state == old(self).effects_state,
                    self.rolls_state == old(self).rolls_state,
                    slot_of(self.slot_state) == slot_run(
                        old(self)@.slot_state,
                        commands,
                        commands.len(),
                    ),
                    self.children@.len() == old(self).children@.len(),
                    old(self)@.children == states_view(old(self).children@),
                    forall|k: int|
                        0 <= k < old(self)@.children.len() ==> permits(
                            #[trigger] old(self)@.children[k],
                            below,
                        ),
                    forall|k: int|
                        0 <= k < j ==> (#[trigger] self.children@[k])@ == commanded(
                            old(self).children@[k]@,
                            below,
                        ),
                    forall|k: int|
                        j <= k < self.children@.len() ==> self.children@[k] == old(
                            self,
                        ).children@[k],
                    dirty_children == exists|k: int|
                        0 <= k < j && dirtied(#[trigger] old(self)@.children[k], below),
                decreases self.children.len() - j,
            {
                assert(permits(old(self)@.children[j as int], below));
                let changed = self.children[j].apply_all(&onward);
                assert(changed == dirtied(old(self)@.children[j as int], below));
                dirty_children = changed || dirty_children;
                j += 1;
            }
            proof {
                state_view_children(self);
                assert(self@.children =~= wanted.children);
            }
        } else {
            proof {
                assert(below =~= Seq::empty());
                assert forall|k: int| 0 <= k < old(self)@.children.len() implies commanded(
                    old(self)@.children[k],
                    below,
                ) == old(self)@.children[k] && !dirtied(old(self)@.children[k], below) by {}
                assert(self@.children =~= wanted.children);
            }
        }
        proof {
            assert(dirty_self == run_dirties(old(self)@.slot_state, commands, commands.len()));
            assert(dirty_children == exists|k: int|
                0 <= k < old(self)@.children.len() && dirtied(
                    #[trigger] old(self)@.children[k],
                    below,
                ));
        }
        dirty_self || dirty_children
    }

    /// Takes one use from the slot of the feature that `path` leads to.
    pub fn use_slot(&mut self, path: &Vec<String>) -> (dirty: bool)
        requires
            permits(old(self)@, seq![(named_path(strings_view(path@), false), SlotCommand::Use)]),
        ensures
            final(self)@ == commanded(
                old(self)@,
                seq![(named_path(strings_view(path@), false), SlotCommand::Use)],
            ),
            dirty == dirtied(
                old(self)@,
                seq![(named_path(strings_view(path@), false), SlotCommand::Use)],
            ),
    {
        let path = FeaturePath::of(clone_strings(path));
        self.apply(&path, SlotCommand::Use)
    }

    /// Resets the slot of the feature that `path` leads to, and with
    /// `include_children` the slots of everything below it.
    pub fn reset(&mut self, path: &Vec<String>, include_children: bool) -> (dirty: bool)
        ensures
            final(self)@ == commanded(
                old(self)@,
                seq![(named_path(strings_view(path@), include_children), SlotCommand::Reset)],
            ),
            dirty == dirtied(
                old(self)@,
                seq![(named_path(strings_view(path@), include_children), SlotCommand::Reset)],
            ),
    {
        let whole = FeaturePath::of(clone_strings(path)).with_include_children(include_children);
        proof {
            resets_are_permitted(old(self)@, seq![(whole@, SlotCommand::Reset)]);
        }
        self.apply(&whole, SlotCommand::Reset)
    }

    /// Sends one command down the tree from this feature, and says
    /// whether it left something to save.
    pub fn apply(&mut self, path: &FeaturePath, command: SlotCommand) -> (dirty: bool)
        requires
            permits(old(self)@, seq![(path@, command)]),
        ensures
            final(self)@ == commanded(old(self)@, seq![(path@, command)]),
            dirty == dirtied(old(self)@, seq![(path@, command)]),
        decreases *old(self),
    {
        let ghost sent = seq![(path@, command)];
        let ghost name = self@.feature.name;
        let ghost wanted = commanded(old(self)@, sent);
        let ghost commands = commands_for(sent, name);
        let ghost below = actions_below(sent, name);
        proof {
            sent_alone((path@, command), name);
            state_view_children(self);
        }
        let (matched, remaining) = path.matches(self.feature.name.clone());
        if !matched {
            return false;
        }
        let ends_here = remaining.is_empty();
        let mut dirty_children = false;
        if !ends_here || remaining.include_children() {
            let mut j: usize = 0;
            while j < self.children.len()
                invariant
                    j <= self.children.len(),
                    below == seq![(remaining@, command)],
                    *old(self) == (FeatureState { children: old(self).children, ..*self }),
                    self.children@.len() == old(self).children@.len(),
                    old(self)@.children == states_view(old(self).children@),
                    forall|k: int|
                        0 <= k < old(self)@.children.len() ==> permits(
                            #[trigger] old(self)@.children[k],
                            below,
                        ),
                    forall|k: int|
                        0 <= k < j ==> (#[trigger] self.children@[k])@ == commanded(
                            old(self).children@[k]@,
                            below,
                        ),
                    forall|k: int|
                        j <= k < self.children@.len() ==> self.children@[k] == old(
                            self,
                        ).children@[k],
                    dirty_children == exists|k: int|
                        0 <= k < j && dirtied(#[trigger] old(self)@.children[k], below),
                decreases self.children.len() - j,
            {
                assert(permits(old(self)@.children[j as int], below));
                let changed = self.children[j].apply(&remaining, command);
                assert(changed == dirtied(old(self)@.children[j as int], below));
                dirty_children = changed || dirty_children;
                j += 1;
            }
            proof {
                state_view_children(self);
                assert(self@.children =~= wanted.children);
            }
        } else {
            proof {
                assert forall|k: int| 0 <= k < old(self)@.children.len() implies commanded(
                    old(self)@.children[k],
                    below,
                ) == old(self)@.children[k] && !dirtied(old(self)@.children[k], below) by {}
                assert(self@.children =~= wanted.children);
            }
        }
        let mut dirty_self = false;
        if ends_here {
            assert(commands == seq![command]);
            assert(slot_run(old(self)@.slot_state, commands, 0) == old(self)@.slot_state);
            assert(!run_dirties(old(self)@.slot_state, commands, 0));
            assert(run_allowed(old(self)@.slot_state, commands, 1));
            match self.slot_state {
                Some(slot_state) => {
                    let mut current = slot_state;
                    dirty_self = current.update(command);
                    self.slot_state = Some(current);
                },
                None => {},
            }
        } else {
            assert(commands =~= Seq::empty());
        }
        proof {
            state_view_children(self);
            assert(self@.children =~= wanted.children);
            assert(dirty_children == exists|k: int|
                0 <= k < old(self)@.children.len() && dirtied(
                    #[trigger] old(self)@.children[k],
                    below,
                ));
        }
        dirty_self || dirty_children
    }
}

/// Every given feature brought into play.
pub open spec fn all_materialized(
    features: Seq<FeatureView>,
    templates: TemplatesView,
    depth: nat,
) -> Seq<FeatureStateView> {
    Seq::new(features.len(), |i: int| materialized(features[i], templates, depth))
}

/// What is written down of each of the features in play.
pub open spec fn all_persisted(states: Seq<FeatureStateView>) -> Seq<FeatureView> {
    Seq::new(states.len(), |i: int| persisted(states[i]))
}

/// The features in play after the effects, each offered to each.
pub open spec fn all_with_effects(states: Seq<FeatureStateView>, effects: Seq<EffectView>) -> Seq<
    FeatureStateView,
> {
    Seq::new(states.len(), |i: int| with_effects(states[i], effects, effects.len()))
}

/// The features in play without what effects gave to their rolls.
pub open spec fn all_cleared(states: Seq<FeatureStateView>) -> Seq<FeatureStateView> {
    Seq::new(states.len(), |i: int| cleared(states[i]))
}

/// The features in play after actions were sent to each of them.
pub open spec fn all_commanded(states: Seq<FeatureStateView>, actions: Seq<ActionView>) -> Seq<
    FeatureStateView,
> {
    Seq::new(states.len(), |i: int| commanded(states[i], actions))
}

/// Whether actions sent to each of the features leave something to save
/// anywhere.
pub open spec fn any_dirtied(states: Seq<FeatureStateView>, actions: Seq<ActionView>) -> bool {
    exists|i: int| 0 <= i < states.len() && dirtied(#[trigger] states[i], actions)
}

/// Whether actions sent to each of the features can be carried out in
/// machine integers.
pub open spec fn all_permit(states: Seq<FeatureStateView>, actions: Seq<ActionView>) -> bool {
    forall|i: int| 0 <= i < states.len() ==> permits(#[trigger] states[i], actions)
}

/// The features in play after a full round: what effects gave before is
/// forgotten, and every effect that the tree declares is offered anew.
pub open spec fn recomputed(states: Seq<FeatureStateView>) -> Seq<FeatureStateView> {
    all_with_effects(all_cleared(states), declared_by(states))
}

/// The feature tree of a character in play.
#[derive(Debug)]
pub struct FeaturesState {
    pub feature_state: Vec<FeatureState>,
}

impl View for FeaturesState {
    type V = Seq<FeatureStateView>;

    open spec fn view(&self) -> Seq<FeatureStateView> {
        states_view(self.feature_state@)
    }
}

impl Default for FeaturesState {
    fn default() -> (r: FeaturesState)
        ensures
            r@ == Seq::<FeatureStateView>::empty(),
    {
        let r = FeaturesState { feature_state: Vec::new() };
        assert(r@ =~= Seq::<FeatureStateView>::empty());
        r
    }
}

impl FeaturesState {
    /// Every effect that the tree declares: tree by tree, each feature's
    /// own before those of its children.
    pub fn effects(&self) -> (r: Vec<Effect>)
        ensures
            effects_view(r@) == declared_by(self@),
    {
        let mut result: Vec<Effect> = Vec::new();
        assert(effects_view(result@) =~= Seq::empty());
        let mut i: usize = 0;
        while i < self.feature_state.len()
            invariant
                i <= self.feature_state.len(),
                effects_view(result@) == declared_by_first(self@, i as nat),
            decreases self.feature_state.len() - i,
        {
            let more = self.feature_state[i].effects();
            append_effects(&mut result, &more);
            i += 1;
        }
        result
    }

    /// Offers the bonus of every effect to every roll in the tree. What
    /// the rolls were given before stays.
    pub fn apply_effects(&mut self, effects: &Vec<Effect>)
        ensures
            final(self)@ == all_with_effects(old(self)@, effects_view(effects@)),
    {
        let mut i: usize = 0;
        while i < self.feature_state.len()
            invariant
                i <= self.feature_state.len(),
                self.feature_state@.len() == old(self).feature_state@.len(),
                forall|k: int|
                    0 <= k < i ==> (#[trigger] self.feature_state@[k])@ == with_effects(
                        old(self).feature_state@[k]@,
                        effects_view(effects@),
                        effects@.len(),
                    ),
                forall|k: int|
                    i <= k < self.feature_state@.len() ==> self.feature_state@[k] == old(
                        self,
                    ).feature_state@[k],
            decreases self.feature_state.len() - i,
        {
            self.feature_state[i].apply_effects(effects);
            i += 1;
        }
        assert(self@ =~= all_with_effects(old(self)@, effects_view(effects@)));
    }

    /// Forgets what effects gave to the rolls.
    pub fn clear_effects(&mut self)
        ensures
            final(self)@ == all_cleared(old(self)@),
    {
        let mut i: usize = 0;
        while i < self.feature_state.len()
            invariant
                i <= self.feature_state.len(),
                self.feature_state@.len() == old(self).feature_state@.len(),
                forall|k: int|
                    0 <= k < i ==> (#[trigger] self.feature_state@[k])@ == cleared(
                        old(self).feature_state@[k]@,
                    ),
                forall|k: int|
                    i <= k < self.feature_state@.len() ==> self.feature_state@[k] == old(
                        self,
                    ).feature_state@[k],
            decreases self.feature_state.len() - i,
        {
            self.feature_state[i].clear_effects();
            i += 1;
        }
        assert(self@ =~= all_cleared(old(self)@));
    }

    /// A full round: collects every effect that the tree declares,
    /// forgets what effects gave before, and offers the collected effects
    /// anew. Returns the collected effects.
    pub fn recompute(&mut self) -> (r: Vec<Effect>)
        ensures
            effects_view(r@) == declared_by(old(self)@),
            final(self)@ == recomputed(old(self)@),
    {
        let effects = self.effects();
        self.clear_effects();
        self.apply_effects(&effects);
        effects
    }

    pub fn is_empty(&self) -> (r: bool)
        ensures
            r == (self@.len() == 0),
    {
        self.feature_state.len() == 0
    }

    /// What is to be written down of the tree.
    pub fn persistable(&self) -> (r: Vec<Feature>)
        ensures
            features_view(r@) == all_persisted(self@),
    {
        let mut result: Vec<Feature> = Vec::new();
        let mut i: usize = 0;
        while i < self.feature_state.len()
            invariant
                i <= self.feature_state.len(),
                result@.len() == i,
                forall|k: int|
                    0 <= k < i ==> (#[trigger] result@[k])@ == persisted(self.feature_state@[k]@),
            decreases self.feature_state.len() - i,
        {
            result.push(self.feature_state[i].persistable());
            i += 1;
        }
        assert(features_view(result@) =~= all_persisted(self@));
        result
    }

    /// Brings features into play.
    pub fn from(features: Vec<Feature>, feature_templates: &Templates) -> (r: FeaturesState)
        ensures
            r@ == all_materialized(
                features_view(features@),
                feature_templates@,
                TEMPLATE_DEPTH as nat,
            ),
    {
        let mut states: Vec<FeatureState> = Vec::new();
        let mut i: usize = 0;
        while i < features.len()
            invariant
                i <= features.len(),
                states@.len() == i,
                forall|k: int|
                    0 <= k < i ==> (#[trigger] states@[k])@ == materialized(
                        features@[k]@,
                        feature_templates@,
                        TEMPLATE_DEPTH as nat,
                    ),
            decreases features.len() - i,
        {
            states.push(FeatureState::from(features[i].clone(), feature_templates));
            i += 1;
        }
        let r = FeaturesState { feature_state: states };
        assert(r@ =~= all_materialized(
            features_view(features@),
            feature_templates@,
            TEMPLATE_DEPTH as nat,
        ));
        r
    }

    /// Carries out a message on every tree, and says whether there is
    /// something to save.
    pub fn update(&mut self, message: FeatureMessage) -> (dirty: bool)
        requires
            all_permit(old(self)@, message_actions(message)),
        ensures
            final(self)@ == all_commanded(old(self)@, message_actions(message)),
            dirty == any_dirtied(old(self)@, message_actions(message)),
    {
        let ghost sent = message_actions(message);
        let mut actions: Vec<(FeaturePath, SlotCommand)> = Vec::new();
        match message {
            FeatureMessage::Slot(path, command) => {
                actions.push((path, command));
            },
        }
        assert(actions_view(actions@) =~= sent);
        let mut dirty = false;
        let mut i: usize = 0;
        while i < self.feature_state.len()
            invariant
                i <= self.feature_state.len(),
                actions_view(actions@) == sent,
                self.feature_state@.len() == old(self).feature_state@.len(),
                all_permit(old(self)@, sent),
                forall|k: int|
                    0 <= k < i ==> (#[trigger] self.feature_state@[k])@ == commanded(
                        old(self).feature_state@[k]@,
                        sent,
                    ),
                forall|k: int|
                    i <= k < self.feature_state@.len() ==> self.feature_state@[k] == old(
                        self,
                    ).feature_state@[k],
                dirty == exists|k: int| 0 <= k < i && dirtied(#[trigger] old(self)@[k], sent),
            decreases self.feature_state.len() - i,
        {
            assert(permits(old(self)@[i as int], sent));
            let changed = self.feature_state[i].apply_all(&actions);
            assert(changed == dirtied(old(self)@[i as int], sent));
            dirty = changed || dirty;
            i += 1;
        }
        assert(self@ =~= all_commanded(old(self)@, sent));
        dirty
    }
}

} // verus!
