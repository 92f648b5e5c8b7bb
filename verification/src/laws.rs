//! What holds of the registry as a whole.

use vstd::prelude::*;

use crate::discovery::{discovered, offered, valid_providers};
use crate::envelope::{
    member_text, protocol_request, requests_of, words_request, Channel, RequestV,
};
use crate::handlers::{
    active_provider, cleared, clearing, listing, refreshed, refreshing, reloading, selected,
    selecting, stale, started, starting, switching, EffectV,
};
use crate::json::JsonV;
use crate::notice::{notice_topic, NoticeV};
use crate::provider::{find, ProviderView, StateView};
use crate::registry::{after_load, loaded, performing, EventV, IntentV};
use crate::text::{lemma_word_length, white_space, word_length, words};

verus! {

/// The state that is stored once effects are done, where it was `state` before.
pub open spec fn stored_after(state: StateView, effects: Seq<EffectV>) -> StateView
    decreases effects.len(),
{
    if effects.len() == 0 {
        state
    } else {
        match effects.last() {
            EffectV::Save(stored) => stored,
            EffectV::Publish(_) => stored_after(state, effects.drop_last()),
        }
    }
}

/// A model ID names the first provider that has it, and none only where no
/// provider has it.
pub proof fn law_find_first(providers: Seq<ProviderView>, id: Seq<char>)
    ensures
        match find(providers, id) {
            Some(provider) => provider.id == id && exists|i: int|
                #![trigger providers[i]]
                0 <= i < providers.len() && providers[i] == provider && forall|j: int|
                    0 <= j < i ==> (#[trigger] providers[j]).id != id,
            None => forall|i: int| 0 <= i < providers.len() ==> (#[trigger] providers[i]).id != id,
        },
    decreases providers.len(),
{
    if providers.len() > 0 && providers[0].id != id {
        let rest = providers.skip(1);
        law_find_first(rest, id);
        match find(providers, id) {
            Some(provider) => {
                let i = choose|i: int|
                    #![trigger rest[i]]
                    0 <= i < rest.len() && rest[i] == provider && forall|j: int|
                        0 <= j < i ==> (#[trigger] rest[j]).id != id;
                assert(providers[i + 1] == provider);
                assert forall|j: int| 0 <= j < i + 1 implies (#[trigger] providers[j]).id != id by {
                    if j > 0 {
                        assert(rest[j - 1] == providers[j]);
                    }
                }
            },
            None => {
                assert forall|j: int| 0 <= j < providers.len() implies (
                #[trigger] providers[j]).id != id by {
                    if j > 0 {
                        assert(rest[j - 1] == providers[j]);
                    }
                }
            },
        }
    }
}

/// A message under a response topic or under the topic of the change event asks for
/// nothing: the registry does not answer itself.
pub proof fn law_responses_ignored(message: JsonV, topic: Seq<char>)
    requires
        member_text(Some(message), "topic"@) == Some(topic),
        "registry.v1.response."@.is_prefix_of(topic) || topic
            == "registry.v1.active_model_changed"@,
    ensures
        protocol_request(message) is None,
{
    reveal_strlit("registry.v1.response.");
    reveal_strlit("registry.v1.active_model_changed");
    reveal_strlit("registry.v1.get_providers");
    reveal_strlit("registry.v1.get_active_model");
    reveal_strlit("registry.v1.set_active_model");
    assert("registry.v1.response."@[12] == 'r');
    assert("registry.v1.active_model_changed"@[12] == 'a');
    assert("registry.v1.get_providers"@[12] == 'g');
    assert("registry.v1.get_active_model"@[12] == 'g');
    assert("registry.v1.set_active_model"@[12] == 's');
    if "registry.v1.response."@.is_prefix_of(topic) {
        assert(topic[12] == "registry.v1.response."@[12]);
    }
}

/// Whatever the registry publishes asks nothing of the registry.
pub proof fn law_own_notices_ignored(message: JsonV, notice: NoticeV)
    requires
        member_text(Some(message), "topic"@) == Some(notice_topic(notice)),
    ensures
        protocol_request(message) is None,
{
    let topic = notice_topic(notice);
    let prefix = "registry.v1.response."@;
    reveal_strlit("registry.v1.response.");
    reveal_strlit("registry.v1.response.get_providers");
    reveal_strlit("registry.v1.response.get_active_model");
    reveal_strlit("registry.v1.response.set_active_model");
    reveal_strlit("registry.v1.response.models");
    if topic != "registry.v1.active_model_changed"@ {
        assert(prefix =~= topic.subrange(0, prefix.len() as int));
    }
    law_responses_ignored(message, topic);
}

/// A discovery that finds nothing changes neither the known providers nor the
/// stored state, and the query is answered with the providers known before.
pub proof fn law_empty_discovery_keeps_providers(state: StateView)
    ensures
        refreshed(state, Seq::empty()) == state,
        refreshing(state, Seq::empty()) == Seq::<EffectV>::empty(),
        listing(state, Seq::empty()) == seq![
            EffectV::Publish(NoticeV::Providers(state.providers)),
        ],
        started(state, Seq::empty()).providers == state.providers,
{
    assert(listing(state, Seq::empty()) =~= seq![
        EffectV::Publish(NoticeV::Providers(state.providers)),
    ]);
}

/// The query for the providers stores what it publishes: the providers just found
/// or, where none were, those known before. It leaves the active model ID.
pub proof fn law_listing_stores_what_it_publishes(state: StateView, found: Seq<ProviderView>)
    ensures
        stored_after(state, listing(state, found)) == refreshed(state, found),
        listing(state, found).last() == EffectV::Publish(
            NoticeV::Providers(stored_after(state, listing(state, found)).providers),
        ),
        stored_after(state, listing(state, found)).active_model_id == state.active_model_id,
{
    reveal_with_fuel(stored_after, 3);
    assert(listing(state, found).drop_last() =~= refreshing(state, found));
}

/// After a start, the active model ID names a known provider, if there is one.
pub proof fn law_start_leaves_no_stale_model(state: StateView, found: Seq<ProviderView>)
    ensures
        !stale(started(state, found)),
{
    let before = cleared(refreshed(state, found));
    if before.providers.len() == 1 && before.active_model_id is None {
        assert(find(before.providers, before.providers[0].id) == Some(before.providers[0]));
    }
}

/// After a start, a sole provider is the active one.
pub proof fn law_start_selects_sole_provider(state: StateView, found: Seq<ProviderView>)
    requires
        refreshed(state, found).providers.len() == 1,
    ensures
        active_provider(started(state, found)) == Some(refreshed(state, found).providers[0]),
{
    let providers = refreshed(state, found).providers;
    assert(find(providers, providers[0].id) == Some(providers[0]));
    law_start_leaves_no_stale_model(state, found);
    match started(state, found).active_model_id {
        Some(id) => {
            assert(find(providers.skip(1), id) is None);
        },
        None => {},
    }
}

/// A start keeps an active model that the providers still have.
pub proof fn law_start_keeps_known_model(state: StateView, found: Seq<ProviderView>)
    requires
        active_provider(refreshed(state, found)) is Some,
    ensures
        started(state, found).active_model_id == state.active_model_id,
{
}

/// A start stores the state that it leaves.
pub proof fn law_start_is_stored(state: StateView, found: Seq<ProviderView>)
    ensures
        stored_after(state, starting(state, found)) == started(state, found),
{
    let first = refreshed(state, found);
    let second = cleared(first);
    lemma_stored_after_all(state, refreshing(state, found) + clearing(first), selecting(second));
    lemma_stored_after_all(state, refreshing(state, found), clearing(first));
    reveal_with_fuel(stored_after, 3);
    if second.providers.len() == 1 && second.active_model_id is None {
        assert(selecting(second).drop_last() =~= seq![EffectV::Save(selected(second))]);
    }
}

/// A reload brings the stored state up to date as a start does, whatever it finds: the
/// active model ID that is then stored names a known provider, if there is one.
pub proof fn law_reload_is_stored(state: StateView, found: Seq<ProviderView>)
    ensures
        stored_after(state, reloading(state, found)) == started(state, found),
        !stale(stored_after(state, reloading(state, found))),
{
    law_start_is_stored(state, found);
    law_start_leaves_no_stale_model(state, found);
}

/// A reload that finds nothing keeps the known providers. It stores and publishes
/// nothing where the active model ID names one of them.
pub proof fn law_empty_reload(state: StateView)
    ensures
        reloading(state, Seq::empty()) == clearing(state) + selecting(cleared(state)),
        stored_after(state, reloading(state, Seq::empty())).providers == state.providers,
        active_provider(state) is Some ==> reloading(state, Seq::empty()) == Seq::<
            EffectV,
        >::empty(),
{
    law_reload_is_stored(state, Seq::empty());
    assert(reloading(state, Seq::empty()) =~= clearing(state) + selecting(cleared(state)));
}

proof fn lemma_stored_after_all(state: StateView, first: Seq<EffectV>, second: Seq<EffectV>)
    ensures
        stored_after(state, first + second) == stored_after(stored_after(state, first), second),
    decreases second.len(),
{
    if second.len() == 0 {
        assert(first + second =~= first);
    } else {
        lemma_stored_after_all(state, first, second.drop_last());
        assert((first + second).drop_last() =~= first + second.drop_last());
        assert((first + second).last() == second.last());
    }
}

/// The providers among which a switch looks for its model.
pub open spec fn switch_pool(state: StateView, found: Seq<ProviderView>) -> Seq<ProviderView> {
    if state.providers.len() == 0 {
        found
    } else {
        state.providers
    }
}

/// A switch to a model that a provider has stores it as the active one, announces
/// the change and confirms the switch.
pub proof fn law_switch_takes_effect(state: StateView, found: Seq<ProviderView>, id: Seq<char>)
    requires
        find(switch_pool(state, found), id) is Some,
    ensures
        ({
            let provider = find(switch_pool(state, found), id)->0;
            let effects = switching(state, found, id);
            &&& stored_after(state, effects).active_model_id == Some(id)
            &&& active_provider(stored_after(state, effects)) == Some(provider)
            &&& effects.contains(EffectV::Publish(NoticeV::ModelChanged(provider)))
            &&& effects.last() == EffectV::Publish(NoticeV::ModelSet(provider))
        }),
{
    reveal_with_fuel(stored_after, 4);
    let provider = find(switch_pool(state, found), id)->0;
    let effects = switching(state, found, id);
    assert(effects[1] == EffectV::Publish(NoticeV::ModelChanged(provider)));
    assert(effects.drop_last().drop_last().last() == effects[0]);
}

/// A switch to a model that no provider has changes nothing and is refused by name.
pub proof fn law_unknown_model_refused(state: StateView, found: Seq<ProviderView>, id: Seq<char>)
    requires
        forall|i: int|
            0 <= i < switch_pool(state, found).len() ==> (#[trigger] switch_pool(
                state,
                found,
            )[i]).id != id,
    ensures
        switching(state, found, id) == seq![EffectV::Publish(NoticeV::UnknownModel(id))],
        stored_after(state, switching(state, found, id)) == state,
{
    law_find_first(switch_pool(state, found), id);
    reveal_with_fuel(stored_after, 2);
}

/// Once a switch has taken effect, the query for the active model is answered with
/// the provider that the switch confirmed.
pub proof fn law_lookup_after_switch(
    state: StateView,
    found: Seq<ProviderView>,
    id: Seq<char>,
    event: EventV,
)
    requires
        find(switch_pool(state, found), id) is Some,
        loaded(event) == stored_after(state, switching(state, found, id)),
    ensures
        after_load(IntentV::Lookup, loaded(event)) == performing(
            seq![
                EffectV::Publish(
                    NoticeV::ActiveModel(Some(find(switch_pool(state, found), id)->0)),
                ),
            ],
        ),
{
    law_switch_takes_effect(state, found, id);
}

/// Whether every change event among effects follows directly on the storing of a
/// state in which its provider is the active one.
pub open spec fn announced(effects: Seq<EffectV>) -> bool {
    forall|i: int|
        0 <= i < effects.len() ==> ((#[trigger] effects[i]) matches EffectV::Publish(
            NoticeV::ModelChanged(provider),
        ) ==> i > 0 && (effects[i - 1] matches EffectV::Save(stored) && active_provider(stored)
            == Some(provider)))
}

/// A change event is published only for the provider that was just stored as the
/// active one.
pub proof fn law_change_event_follows_storing(
    state: StateView,
    found: Seq<ProviderView>,
    id: Seq<char>,
)
    ensures
        announced(listing(state, found)),
        announced(switching(state, found, id)),
        announced(starting(state, found)),
        announced(reloading(state, found)),
{
    let first = refreshed(state, found);
    let second = cleared(first);
    if second.providers.len() == 1 && second.active_model_id is None {
        assert(find(second.providers, second.providers[0].id) == Some(second.providers[0]));
    }
    let head = refreshing(state, found) + clearing(first);
    let effects = starting(state, found);
    assert forall|i: int| 0 <= i < effects.len() implies ((
    #[trigger] effects[i]) matches EffectV::Publish(NoticeV::ModelChanged(provider)) ==> i > 0 && (
    effects[i - 1] matches EffectV::Save(stored) && active_provider(stored) == Some(
        provider,
    ))) by {
        if i < head.len() {
            assert(effects[i] == head[i]);
        } else {
            assert(effects[i] == selecting(second)[i - head.len()]);
            if i > head.len() {
                assert(effects[i - 1] == selecting(second)[i - 1 - head.len()]);
            }
        }
    }
}

/// Whenever a start makes another model the active one, it publishes the change
/// event for its provider.
pub proof fn law_start_announces_change(state: StateView, found: Seq<ProviderView>)
    requires
        started(state, found).active_model_id is Some,
        started(state, found).active_model_id != state.active_model_id,
    ensures
        active_provider(started(state, found)) is Some,
        starting(state, found).last() == EffectV::Publish(
            NoticeV::ModelChanged(active_provider(started(state, found))->0),
        ),
{
    law_start_leaves_no_stale_model(state, found);
    let second = cleared(refreshed(state, found));
    assert(second.providers.len() == 1 && second.active_model_id is None);
    assert(find(second.providers, second.providers[0].id) == Some(second.providers[0]));
    assert(starting(state, found).last() == selecting(second)[1]);
}

/// Messages are served in their order, and each as if it had come alone: a message
/// that asks for nothing is no obstacle to those around it.
pub proof fn law_messages_independent(channel: Channel, first: Seq<JsonV>, second: Seq<JsonV>)
    ensures
        requests_of(channel, first + second) == requests_of(channel, first) + requests_of(
            channel,
            second,
        ),
    decreases second.len(),
{
    if second.len() == 0 {
        assert(first + second =~= first);
        assert(requests_of(channel, first) + requests_of(channel, second) =~= requests_of(
            channel,
            first,
        ));
    } else {
        law_messages_independent(channel, first, second.drop_last());
        assert((first + second).drop_last() =~= first + second.drop_last());
        assert((first + second).last() == second.last());
        assert(requests_of(channel, first + second) =~= requests_of(channel, first) + requests_of(
            channel,
            second,
        ));
    }
}

pub proof fn lemma_valid_providers_all(first: Seq<JsonV>, second: Seq<JsonV>)
    ensures
        valid_providers(first + second) == valid_providers(first) + valid_providers(second),
    decreases second.len(),
{
    if second.len() == 0 {
        assert(first + second =~= first);
        assert(valid_providers(first) + valid_providers(second) =~= valid_providers(first));
    } else {
        lemma_valid_providers_all(first, second.drop_last());
        assert((first + second).drop_last() =~= first + second.drop_last());
        assert((first + second).last() == second.last());
        assert(valid_providers(first + second) =~= valid_providers(first) + valid_providers(
            second,
        ));
    }
}

pub proof fn lemma_offered_all(first: Seq<JsonV>, second: Seq<JsonV>)
    ensures
        offered(first + second) == offered(first) + offered(second),
    decreases second.len(),
{
    if second.len() == 0 {
        assert(first + second =~= first);
        assert(offered(first) + offered(second) =~= offered(first));
    } else {
        lemma_offered_all(first, second.drop_last());
        assert((first + second).drop_last() =~= first + second.drop_last());
        assert((first + second).last() == second.last());
        assert(offered(first + second) =~= offered(first) + offered(second));
    }
}

/// The providers of several capsules are found one after the other, each capsule's
/// as if it had answered alone: a malformed response is no obstacle to the others.
pub proof fn law_capsules_independent(first: Seq<JsonV>, second: Seq<JsonV>)
    ensures
        discovered(Some(JsonV::Array(first + second))) == discovered(Some(JsonV::Array(first)))
            + discovered(Some(JsonV::Array(second))),
{
    lemma_offered_all(first, second);
    lemma_valid_providers_all(offered(first), offered(second));
}

/// A run of characters other than white space is one word, alone or before white
/// space.
pub proof fn lemma_first_word(word: Seq<char>, rest: Seq<char>)
    requires
        word.len() > 0,
        forall|i: int| 0 <= i < word.len() ==> !white_space(#[trigger] word[i]),
        rest.len() > 0 ==> white_space(rest[0]),
    ensures
        words(word + rest) == seq![word] + words(rest),
{
    let text = word + rest;
    lemma_word_length(text);
    let length = word_length(text) as int;
    assert(text[0] == word[0]);
    if length < word.len() {
        assert(text[length] == word[length]);
    }
    if length > word.len() {
        assert(text[word.len() as int] == rest[0]);
    }
    assert(text.take(length) =~= word);
    assert(text.skip(length) =~= rest);
}

/// White space before a text adds no word to it.
pub proof fn lemma_leading_space(space: Seq<char>, text: Seq<char>)
    requires
        blank(space),
    ensures
        words(space + text) == words(text),
    decreases space.len(),
{
    if space.len() == 0 {
        assert(space + text =~= text);
    } else {
        lemma_leading_space(space.skip(1), text);
        assert((space + text).skip(1) =~= space.skip(1) + text);
    }
}

/// Whether a text holds white space only.
pub open spec fn blank(text: Seq<char>) -> bool {
    forall|i: int| 0 <= i < text.len() ==> white_space(#[trigger] text[i])
}

/// The command `/models` without an argument, with white space around it or not,
/// asks to pick a model.
pub proof fn law_models_command_picks(before: Seq<char>, after: Seq<char>)
    requires
        blank(before),
        blank(after),
    ensures
        words_request(words(before + "/models"@ + after)) == Some(RequestV::PickModel),
{
    reveal_strlit("/models");
    assert(before + "/models"@ + after =~= before + ("/models"@ + after));
    lemma_leading_space(before, "/models"@ + after);
    lemma_first_word("/models"@, after);
    lemma_leading_space(after, Seq::empty());
    assert(after + Seq::<char>::empty() =~= after);
    assert(words("/models"@ + after) =~= seq!["/models"@]);
}

/// The command `/models` with a model ID, which may be followed by more, asks to
/// switch to that model.
pub proof fn law_models_command_switches(
    before: Seq<char>,
    gap: Seq<char>,
    id: Seq<char>,
    more: Seq<char>,
)
    requires
        blank(before),
        blank(gap),
        gap.len() > 0,
        id.len() > 0,
        forall|i: int| 0 <= i < id.len() ==> !white_space(#[trigger] id[i]),
        more.len() > 0 ==> white_space(more[0]),
    ensures
        words_request(words(before + "/models"@ + gap + id + more)) == Some(
            RequestV::SwitchModel(id),
        ),
{
    reveal_strlit("/models");
    let argument = gap + (id + more);
    let text = before + "/models"@ + gap + id + more;
    assert(text =~= before + ("/models"@ + argument));
    lemma_leading_space(before, "/models"@ + argument);
    lemma_first_word("/models"@, argument);
    lemma_leading_space(gap, id + more);
    lemma_first_word(id, more);
    assert(words(text)[0] == "/models"@);
    assert(words(text)[1] == id);
}

/// Whether an effect publishes on a response topic, not as an event.
pub open spec fn is_response(effect: EffectV) -> bool {
    effect is Publish && !(effect->Publish_0 is ModelChanged)
}

/// Whether one effect, the last, is a response.
pub open spec fn answered(effects: Seq<EffectV>) -> bool {
    &&& effects.len() > 0
    &&& is_response(effects.last())
    &&& forall|i: int| 0 <= i < effects.len() - 1 ==> !is_response(#[trigger] effects[i])
}

/// A query for the providers and a switch each get one response, after all else
/// that they do. A start and a reload, which nobody asked for, give none.
pub proof fn law_answered_once(state: StateView, found: Seq<ProviderView>, id: Seq<char>)
    ensures
        answered(listing(state, found)),
        answered(switching(state, found, id)),
        forall|i: int|
            0 <= i < starting(state, found).len() ==> !is_response(
                #[trigger] starting(state, found)[i],
            ),
        forall|i: int|
            0 <= i < reloading(state, found).len() ==> !is_response(
                #[trigger] reloading(state, found)[i],
            ),
{
}

} // verus!
