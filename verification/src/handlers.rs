//! What the registry does about each request, once it knows its stored state and
//! the discovered providers.

use vstd::prelude::*;

use crate::notice::{make_request_id, request_id, Notice, NoticeV};
use crate::provider::{
    find, find_provider, ProviderEntry, ProviderView, RegistryState, StateView,
};

verus! {

/// What an effect does.
#[verifier::ext_equal]
pub enum EffectV {
    Save(StateView),
    Publish(NoticeV),
}

/// Something that the registry has done by the capsule's host.
#[derive(Debug, PartialEq, Eq)]
pub enum Effect {
    /// To store the state.
    Save(RegistryState),
    /// To publish a notice.
    Publish(Notice),
}

impl View for Effect {
    type V = EffectV;

    open spec fn view(&self) -> EffectV {
        match self {
            Effect::Save(state) => EffectV::Save(state@),
            Effect::Publish(notice) => EffectV::Publish(notice@),
        }
    }
}

impl DeepView for Effect {
    type V = EffectV;

    open spec fn deep_view(&self) -> EffectV {
        self@
    }
}

/// The state after a discovery. One that found nothing leaves the known providers.
pub open spec fn refreshed(state: StateView, found: Seq<ProviderView>) -> StateView {
    if found.len() > 0 {
        StateView { providers: found, ..state }
    } else {
        state
    }
}

/// What a discovery does: the state is stored if it changes.
pub open spec fn refreshing(state: StateView, found: Seq<ProviderView>) -> Seq<EffectV> {
    if found.len() > 0 {
        seq![EffectV::Save(refreshed(state, found))]
    } else {
        Seq::empty()
    }
}

/// What the query for the providers does.
pub open spec fn listing(state: StateView, found: Seq<ProviderView>) -> Seq<EffectV> {
    refreshing(state, found).push(
        EffectV::Publish(NoticeV::Providers(refreshed(state, found).providers)),
    )
}

/// The provider that a state's active model ID names.
pub open spec fn active_provider(state: StateView) -> Option<ProviderView> {
    match state.active_model_id {
        Some(id) => find(state.providers, id),
        None => None,
    }
}

/// What a switch to the model `id` does.
///
/// A state without providers takes those that were found. If one of the providers
/// has the model, it becomes the active one: the state is stored, the change
/// announced, the switch confirmed. Otherwise the switch is refused.
pub open spec fn switching(state: StateView, found: Seq<ProviderView>, id: Seq<char>) -> Seq<
    EffectV,
> {
    let providers = if state.providers.len() == 0 {
        found
    } else {
        state.providers
    };
    match find(providers, id) {
        Some(provider) => seq![
            EffectV::Save(StateView { providers, active_model_id: Some(id) }),
            EffectV::Publish(NoticeV::ModelChanged(provider)),
            EffectV::Publish(NoticeV::ModelSet(provider)),
        ],
        None => seq![EffectV::Publish(NoticeV::UnknownModel(id))],
    }
}

/// Whether the active model ID names no known provider.
pub open spec fn stale(state: StateView) -> bool {
    state.active_model_id is Some && active_provider(state) is None
}

/// The state without a stale active model ID.
pub open spec fn cleared(state: StateView) -> StateView {
    if stale(state) {
        StateView { active_model_id: None, ..state }
    } else {
        state
    }
}

/// What the removal of a stale active model ID does.
pub open spec fn clearing(state: StateView) -> Seq<EffectV> {
    if stale(state) {
        seq![EffectV::Save(cleared(state))]
    } else {
        Seq::empty()
    }
}

/// Whether there is one provider only and no model is active.
pub open spec fn single(state: StateView) -> bool {
    state.providers.len() == 1 && state.active_model_id is None
}

/// The state with the sole provider active, where no model was.
pub open spec fn selected(state: StateView) -> StateView {
    if single(state) {
        StateView { active_model_id: Some(state.providers[0].id), ..state }
    } else {
        state
    }
}

/// What the selection of the sole provider does.
pub open spec fn selecting(state: StateView) -> Seq<EffectV> {
    if single(state) {
        seq![
            EffectV::Save(selected(state)),
            EffectV::Publish(NoticeV::ModelChanged(state.providers[0])),
        ]
    } else {
        Seq::empty()
    }
}

/// The state after the first discovery.
pub open spec fn started(state: StateView, found: Seq<ProviderView>) -> StateView {
    selected(cleared(refreshed(state, found)))
}

/// What the first discovery does.
pub open spec fn starting(state: StateView, found: Seq<ProviderView>) -> Seq<EffectV> {
    refreshing(state, found) + clearing(refreshed(state, found)) + selecting(
        cleared(refreshed(state, found)),
    )
}

/// What the discovery after a reload does: the same as the first one. Whether or not
/// it finds providers, a stale active model ID goes and a sole provider is selected.
pub open spec fn reloading(state: StateView, found: Seq<ProviderView>) -> Seq<EffectV> {
    starting(state, found)
}

fn no_effects() -> (effects: Vec<Effect>)
    ensures
        effects.deep_view() == Seq::<EffectV>::empty(),
{
    let effects: Vec<Effect> = Vec::new();
    assert(effects.deep_view() =~= Seq::<EffectV>::empty());
    effects
}

fn add_effect(effects: &mut Vec<Effect>, effect: Effect)
    ensures
        final(effects).deep_view() == old(effects).deep_view().push(effect@),
{
    effects.push(effect);
    assert(effects.deep_view() =~= old(effects).deep_view().push(effect@));
}

/// Takes discovered providers into the state.
///
/// An empty result (timeout, capsule not loaded) does not replace known providers:
/// that would break the reference to the active model and show no models.
fn refresh(state: &mut RegistryState, found: Vec<ProviderEntry>, effects: &mut Vec<Effect>)
    ensures
        final(state)@ == refreshed(old(state)@, found.deep_view()),
        final(effects).deep_view() == old(effects).deep_view() + refreshing(
            old(state)@,
            found.deep_view(),
        ),
{
    if found.len() > 0 {
        state.providers = found;
        add_effect(effects, Effect::Save(state.clone()));
    }
    assert(effects.deep_view() =~= old(effects).deep_view() + refreshing(
        old(state)@,
        found.deep_view(),
    ));
}

/// Answers a `registry.v1.get_providers` request.
pub fn handle_get_providers(state: RegistryState, found: Vec<ProviderEntry>) -> (effects: Vec<
    Effect,
>)
    ensures
        effects.deep_view() == listing(state@, found.deep_view()),
{
    let mut current = state;
    let mut effects = no_effects();
    refresh(&mut current, found, &mut effects);
    add_effect(&mut effects, Effect::Publish(Notice::Providers(current.providers)));
    assert(effects.deep_view() =~= listing(state@, found.deep_view()));
    effects
}

/// Finds the provider that the active model ID names.
pub fn find_active(state: &RegistryState) -> (found: Option<&ProviderEntry>)
    ensures
        match found {
            Some(provider) => active_provider(state@) == Some(provider@),
            None => active_provider(state@) is None,
        },
{
    match &state.active_model_id {
        Some(id) => find_provider(&state.providers, id),
        None => None,
    }
}

/// Answers a `registry.v1.get_active_model` request.
pub fn handle_get_active_model(state: &RegistryState) -> (notice: Notice)
    ensures
        notice@ == NoticeV::ActiveModel(active_provider(state@)),
{
    match find_active(state) {
        Some(provider) => Notice::ActiveModel(Some(provider.clone())),
        None => Notice::ActiveModel(None),
    }
}

/// Makes the model with an ID the active one.
///
/// `found` is what a discovery found; it counts only where the state has no
/// providers.
pub fn handle_set_active_model_by_id(
    state: RegistryState,
    found: Vec<ProviderEntry>,
    model_id: String,
) -> (effects: Vec<Effect>)
    ensures
        effects.deep_view() == switching(state@, found.deep_view(), model_id@),
{
    let ghost before = state@;
    let providers = if state.providers.len() == 0 {
        found
    } else {
        state.providers
    };
    let mut effects = no_effects();
    match find_provider(&providers, &model_id) {
        Some(provider) => {
            let changed = Notice::ModelChanged(provider.clone());
            let confirmed = Notice::ModelSet(provider.clone());
            let active_model_id = Some(model_id);
            add_effect(&mut effects, Effect::Save(RegistryState { providers, active_model_id }));
            add_effect(&mut effects, Effect::Publish(changed));
            add_effect(&mut effects, Effect::Publish(confirmed));
        },
        None => {
            add_effect(&mut effects, Effect::Publish(Notice::UnknownModel(model_id)));
        },
    }
    assert(effects.deep_view() =~= switching(before, found.deep_view(), model_id@));
    effects
}

/// Clears the active model ID if it no longer names a known provider.
///
/// After a reload the provider list may change entirely, for example with another
/// capsule version that has other model IDs.
pub fn clear_stale_active_model(state: &mut RegistryState) -> (effects: Vec<Effect>)
    ensures
        final(state)@ == cleared(old(state)@),
        effects.deep_view() == clearing(old(state)@),
{
    let mut effects = no_effects();
    if state.active_model_id.is_some() && find_active(state).is_none() {
        state.active_model_id = None;
        add_effect(&mut effects, Effect::Save(state.clone()));
    }
    assert(effects.deep_view() =~= clearing(old(state)@));
    effects
}

/// Selects the sole provider if exactly one is available and no model is active.
pub fn auto_select_if_single(state: &mut RegistryState) -> (effects: Vec<Effect>)
    ensures
        final(state)@ == selected(old(state)@),
        effects.deep_view() == selecting(old(state)@),
{
    let mut effects = no_effects();
    if state.providers.len() == 1 && state.active_model_id.is_none() {
        let provider = state.providers[0].clone();
        assert(provider@ == old(state)@.providers[0]);
        state.active_model_id = Some(provider.id.clone());
        add_effect(&mut effects, Effect::Save(state.clone()));
        add_effect(&mut effects, Effect::Publish(Notice::ModelChanged(provider)));
    }
    assert(effects.deep_view() =~= selecting(old(state)@));
    effects
}

fn append_effects(effects: &mut Vec<Effect>, more: Vec<Effect>)
    ensures
        final(effects).deep_view() == old(effects).deep_view() + more.deep_view(),
{
    let mut rest = more;
    effects.append(&mut rest);
    assert(effects.deep_view() =~= old(effects).deep_view() + more.deep_view());
}

/// Brings the state up to date with the first discovery.
pub fn handle_startup(state: RegistryState, found: Vec<ProviderEntry>) -> (outcome: (
    RegistryState,
    Vec<Effect>,
))
    ensures
        outcome.0@ == started(state@, found.deep_view()),
        outcome.1.deep_view() == starting(state@, found.deep_view()),
{
    let mut current = state;
    let mut effects = no_effects();
    refresh(&mut current, found, &mut effects);
    let ghost first = effects.deep_view();
    assert(first =~= refreshing(state@, found.deep_view()));
    let cleared_effects = clear_stale_active_model(&mut current);
    append_effects(&mut effects, cleared_effects);
    let selected_effects = auto_select_if_single(&mut current);
    append_effects(&mut effects, selected_effects);
    (current, effects)
}

/// Brings the state up to date after capsules were reloaded.
pub fn handle_reload(state: RegistryState, found: Vec<ProviderEntry>) -> (effects: Vec<Effect>)
    ensures
        effects.deep_view() == reloading(state@, found.deep_view()),
{
    handle_startup(state, found).1
}

/// Prepares a selection request: the effects of the discovery, and the providers to
/// offer.
pub fn emit_model_selection(state: RegistryState, found: Vec<ProviderEntry>) -> (outcome: (
    Vec<Effect>,
    Vec<ProviderEntry>,
))
    ensures
        outcome.0.deep_view() == refreshing(state@, found.deep_view()),
        outcome.1.deep_view() == refreshed(state@, found.deep_view()).providers,
{
    let mut current = state;
    let mut effects = no_effects();
    refresh(&mut current, found, &mut effects);
    assert(effects.deep_view() =~= refreshing(state@, found.deep_view()));
    (effects, current.providers)
}

/// Makes the selection request that offers providers.
pub fn selection_notice(providers: Vec<ProviderEntry>, millis: u128, serial: u64) -> (notice:
    Notice)
    ensures
        notice@ == (NoticeV::Selection {
            request_id: request_id(millis as nat, serial as nat),
            providers: providers.deep_view(),
        }),
{
    Notice::Selection { request_id: make_request_id(millis, serial), providers }
}

} // verus!
