//! What is stored and published for each request, in terms of the stored state and the
//! discovered providers alone.

use vstd::prelude::*;

use crate::handlers::{
    active_provider, cleared, clearing, listing, refreshed, refreshing, reloading, selected,
    selecting, stale, started, starting, switching, Effect, EffectV,
};
use crate::laws::{law_find_first, law_start_is_stored, stored_after};
use crate::notice::{Notice, NoticeV};
use crate::provider::{find, ProviderView, RegistryState, StateView};

verus! {

/// The view of an effect keeps its kind and what it holds.
pub proof fn law_effect_is_seen_whole(effect: Effect, state: RegistryState, notice: Notice)
    ensures
        effect.deep_view() == effect@,
        Effect::Save(state)@ == EffectV::Save(state@),
        Effect::Publish(notice)@ == EffectV::Publish(notice@),
{
}

/// Whether a place in a list is the first whose provider has a model ID.
pub open spec fn first_with(providers: Seq<ProviderView>, id: Seq<char>, place: int) -> bool {
    &&& 0 <= place < providers.len()
    &&& providers[place].id == id
    &&& forall|i: int| 0 <= i < place ==> (#[trigger] providers[i]).id != id
}

/// Whether some provider of a list has a model ID.
pub open spec fn known(providers: Seq<ProviderView>, id: Seq<char>) -> bool {
    exists|i: int| 0 <= i < providers.len() && (#[trigger] providers[i]).id == id
}

/// A model ID names the provider in the first place that has it.
proof fn lemma_found_at(providers: Seq<ProviderView>, id: Seq<char>, place: int)
    requires
        first_with(providers, id, place),
    ensures
        find(providers, id) == Some(providers[place]),
{
    law_find_first(providers, id);
    match find(providers, id) {
        Some(provider) => {
            let i = choose|i: int|
                #![trigger providers[i]]
                0 <= i < providers.len() && providers[i] == provider && forall|j: int|
                    0 <= j < i ==> (#[trigger] providers[j]).id != id;
            if i < place {
                assert(providers[i].id != id);
            }
            if place < i {
                assert(providers[place].id != id);
            }
        },
        None => assert(providers[place].id != id),
    }
}

proof fn lemma_known(providers: Seq<ProviderView>, id: Seq<char>)
    ensures
        known(providers, id) <==> find(providers, id) is Some,
{
    law_find_first(providers, id);
}

/// A discovery that finds providers replaces the known ones by exactly those that it
/// found, whatever was known before, and stores that. It leaves the active model ID.
/// One that finds nothing stores nothing.
pub proof fn law_found_providers_replace_known_ones(state: StateView, found: Seq<ProviderView>)
    ensures
        found.len() > 0 ==> refreshing(state, found) == seq![
            EffectV::Save(
                StateView { providers: found, active_model_id: state.active_model_id },
            ),
        ],
        found.len() > 0 ==> refreshed(state, found) == (StateView {
            providers: found,
            active_model_id: state.active_model_id,
        }),
        found.len() == 0 ==> refreshing(state, found) == Seq::<EffectV>::empty(),
        found.len() == 0 ==> refreshed(state, found) == state,
{
}

/// The query for the providers stores and publishes exactly the providers that were
/// found. Where none were, it publishes those known before and stores nothing.
pub proof fn law_listing_publishes_what_was_found(state: StateView, found: Seq<ProviderView>)
    ensures
        found.len() > 0 ==> listing(state, found) == seq![
            EffectV::Save(
                StateView { providers: found, active_model_id: state.active_model_id },
            ),
            EffectV::Publish(NoticeV::Providers(found)),
        ],
        found.len() > 0 ==> stored_after(state, listing(state, found)).providers == found,
        found.len() == 0 ==> listing(state, found) == seq![
            EffectV::Publish(NoticeV::Providers(state.providers)),
        ],
        found.len() == 0 ==> stored_after(state, listing(state, found)) == state,
{
    let effects = listing(state, found);
    reveal_with_fuel(stored_after, 3);
    if found.len() > 0 {
        assert(effects =~= seq![
            EffectV::Save(
                StateView { providers: found, active_model_id: state.active_model_id },
            ),
            EffectV::Publish(NoticeV::Providers(found)),
        ]);
        assert(effects.drop_last().last() == effects[0]);
    } else {
        assert(effects =~= seq![EffectV::Publish(NoticeV::Providers(state.providers))]);
    }
}

/// What is stored last is what is stored: publishing stores nothing.
pub proof fn law_last_save_counts(
    state: StateView,
    effects: Seq<EffectV>,
    saved: StateView,
    notice: NoticeV,
)
    ensures
        stored_after(state, Seq::empty()) == state,
        stored_after(state, effects.push(EffectV::Save(saved))) == saved,
        stored_after(state, effects.push(EffectV::Publish(notice))) == stored_after(
            state,
            effects,
        ),
{
    assert(effects.push(EffectV::Publish(notice)).drop_last() =~= effects);
}

/// The providers after a discovery: those found or, where none were, those known.
pub open spec fn providers_after(state: StateView, found: Seq<ProviderView>) -> Seq<
    ProviderView,
> {
    if found.len() > 0 {
        found
    } else {
        state.providers
    }
}

/// The active model ID after a start: the one before where a provider has it, or else
/// that of a sole provider.
pub open spec fn active_after(
    active: Option<Seq<char>>,
    providers: Seq<ProviderView>,
) -> Option<Seq<char>> {
    if active is Some && known(providers, active->0) {
        active
    } else if providers.len() == 1 {
        Some(providers[0].id)
    } else {
        None
    }
}

/// A start, and a reload likewise, leave exactly the providers that were found or, where
/// none were, those known before. The active model stays where one of these has it;
/// else a sole provider becomes the active one, and with none or several no model is
/// active. That state is what is stored.
pub proof fn law_start_brings_state_up_to_date(state: StateView, found: Seq<ProviderView>)
    ensures
        ({
            let providers = providers_after(state, found);
            let after = StateView {
                providers,
                active_model_id: active_after(state.active_model_id, providers),
            };
            &&& started(state, found) == after
            &&& stored_after(state, starting(state, found)) == after
            &&& stored_after(state, reloading(state, found)) == after
        }),
{
    let providers = providers_after(state, found);
    law_start_is_stored(state, found);
    if state.active_model_id is Some {
        lemma_known(providers, state.active_model_id->0);
    }
}

/// A start, and a reload likewise, first store the providers that were found, then the
/// state without an active model ID that no provider has, and then that with the sole
/// provider active, of which they publish the change event. They do nothing else, and
/// each of these only where it changes something.
pub proof fn law_start_does_this_only(state: StateView, found: Seq<ProviderView>)
    ensures
        ({
            let providers = providers_after(state, found);
            let active = state.active_model_id;
            let gone = active is Some && !known(providers, active->0);
            let alone = providers.len() == 1 && (active is None || gone);
            let first = if found.len() > 0 {
                seq![EffectV::Save(StateView { providers, active_model_id: active })]
            } else {
                Seq::empty()
            };
            let second = if gone {
                seq![EffectV::Save(StateView { providers, active_model_id: None })]
            } else {
                Seq::empty()
            };
            let third = if alone {
                seq![
                    EffectV::Save(
                        StateView { providers, active_model_id: Some(providers[0].id) },
                    ),
                    EffectV::Publish(NoticeV::ModelChanged(providers[0])),
                ]
            } else {
                Seq::empty()
            };
            &&& starting(state, found) == first + second + third
            &&& reloading(state, found) == first + second + third
        }),
{
    let providers = providers_after(state, found);
    if state.active_model_id is Some {
        lemma_known(providers, state.active_model_id->0);
    }
}

/// An active model ID is stale just where no provider has it. To clear it stores the
/// state without it and leaves the providers; where it is not stale nothing is done.
pub proof fn law_stale_model_is_cleared(state: StateView)
    ensures
        stale(state) <==> state.active_model_id is Some && !known(
            state.providers,
            state.active_model_id->0,
        ),
        stale(state) ==> cleared(state) == (StateView {
            providers: state.providers,
            active_model_id: None,
        }) && clearing(state) == seq![EffectV::Save(cleared(state))],
        !stale(state) ==> cleared(state) == state && clearing(state) == Seq::<EffectV>::empty(),
{
    if state.active_model_id is Some {
        lemma_known(state.providers, state.active_model_id->0);
    }
}

/// A sole provider becomes the active one where no model is active: that is stored and
/// announced. Otherwise nothing is done.
pub proof fn law_sole_provider_is_selected(state: StateView)
    ensures
        ({
            let alone = state.providers.len() == 1 && state.active_model_id is None;
            let after = StateView {
                providers: state.providers,
                active_model_id: Some(state.providers[0].id),
            };
            &&& alone ==> selected(state) == after && selecting(state) == seq![
                EffectV::Save(after),
                EffectV::Publish(NoticeV::ModelChanged(state.providers[0])),
            ]
            &&& !alone ==> selected(state) == state && selecting(state) == Seq::<
                EffectV,
            >::empty()
        }),
{
}

/// The active provider is the first that has the active model ID, and there is none
/// where no model is active or no provider has it.
pub proof fn law_active_provider_has_active_id(state: StateView, place: int)
    ensures
        state.active_model_id is Some && first_with(
            state.providers,
            state.active_model_id->0,
            place,
        ) ==> active_provider(state) == Some(state.providers[place]),
        state.active_model_id is None ==> active_provider(state) is None,
        state.active_model_id is Some && !known(state.providers, state.active_model_id->0)
            ==> active_provider(state) is None,
{
    if state.active_model_id is Some {
        lemma_known(state.providers, state.active_model_id->0);
        if first_with(state.providers, state.active_model_id->0, place) {
            lemma_found_at(state.providers, state.active_model_id->0, place);
        }
    }
}

/// A switch stores the providers among which it looks, unchanged, with the model ID as
/// the active one, and then announces and confirms the first of them that has the ID.
/// Where none has it, the switch is refused by name and nothing is stored. It looks
/// among the stored providers or, where there are none, among those found.
pub proof fn law_switch_selects_first_with_id(
    state: StateView,
    found: Seq<ProviderView>,
    id: Seq<char>,
    place: int,
)
    ensures
        ({
            let providers = if state.providers.len() > 0 {
                state.providers
            } else {
                found
            };
            &&& first_with(providers, id, place) ==> switching(state, found, id) == seq![
                EffectV::Save(StateView { providers, active_model_id: Some(id) }),
                EffectV::Publish(NoticeV::ModelChanged(providers[place])),
                EffectV::Publish(NoticeV::ModelSet(providers[place])),
            ]
            &&& !known(providers, id) ==> switching(state, found, id) == seq![
                EffectV::Publish(NoticeV::UnknownModel(id)),
            ]
        }),
{
    let providers = if state.providers.len() > 0 {
        state.providers
    } else {
        found
    };
    lemma_known(providers, id);
    if first_with(providers, id, place) {
        lemma_found_at(providers, id, place);
    }
}

} // verus!
