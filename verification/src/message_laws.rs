//! What the messages that the registry reads ask for, and what those that it publishes
//! say, whatever else they hold.

use vstd::prelude::*;

use crate::codec::{law_provider_round_trip, provider_json, provider_of, providers_json};
use crate::discovery::{describe_json, discovered, offered, offered_by, valid_providers};
use crate::document_laws::{law_decimal_stands_for_number, number};
use crate::envelope::{
    dropped, from_kernel, messages, request_of, requests_of, sent_by_kernel, Channel, Request,
    RequestV,
};
use crate::json::JsonV;
use crate::laws::lemma_valid_providers_all;
use crate::notice::{notice_json, notice_topic, request_id, Notice, NoticeV};
use crate::provider::{ProviderEntry, ProviderView};
use crate::text::{decimal, words};

verus! {

/// The hook's trigger names the hook and has an empty payload.
pub proof fn law_hook_is_named()
    ensures
        describe_json().get("hook"@) == Some(JsonV::Text("llm.v1.request.describe"@)),
        describe_json().get("payload"@) == Some(JsonV::Object(Map::empty())),
        forall|key: Seq<char>| (#[trigger] describe_json().get(key)) is Some ==> key == "hook"@
            || key == "payload"@,
{
    reveal_strlit("hook");
    reveal_strlit("payload");
    assert("hook"@.len() != "payload"@.len());
}

/// One response offers what stands in the array under `providers`.
proof fn lemma_one_response(response: JsonV)
    ensures
        offered(seq![response]) == offered_by(response),
{
    assert(seq![response].drop_last() =~= Seq::<JsonV>::empty());
    assert(offered(seq![response].drop_last()) =~= Seq::<JsonV>::empty());
    assert(offered(seq![response]) =~= offered_by(response));
}

/// The providers that one response describes.
pub open spec fn found_in(response: JsonV) -> Seq<ProviderView> {
    discovered(Some(JsonV::Array(seq![response])))
}

/// A response whose `providers` are the JSON forms of a list of entries gives exactly
/// that list, each entry with all its fields, whatever else the response holds.
pub proof fn law_described_providers_are_found(response: JsonV, providers: Seq<ProviderView>)
    requires
        response.get("providers"@) == Some(providers_json(providers)),
    ensures
        found_in(response) == providers,
{
    lemma_one_response(response);
    lemma_valid_forms(providers);
}

proof fn lemma_valid_forms(providers: Seq<ProviderView>)
    ensures
        valid_providers(providers_json(providers)->Array_0) == providers,
    decreases providers.len(),
{
    let offers = providers_json(providers)->Array_0;
    if providers.len() == 0 {
        assert(valid_providers(offers) =~= providers);
    } else {
        lemma_valid_forms(providers.drop_last());
        law_provider_round_trip(providers.last());
        assert(offers.drop_last() =~= providers_json(providers.drop_last())->Array_0);
        assert(offers.last() == provider_json(providers.last()));
        assert(valid_providers(offers) =~= providers);
    }
}

/// An offer that describes a provider gives that provider, unchanged; one that
/// describes none gives nothing.
pub proof fn law_offer_is_taken_as_it_is(response: JsonV, offer: JsonV)
    requires
        response.get("providers"@) == Some(JsonV::Array(seq![offer])),
    ensures
        match provider_of(offer) {
            Some(provider) => found_in(response) == seq![provider],
            None => found_in(response) == Seq::<ProviderView>::empty(),
        },
{
    lemma_one_response(response);
    let offers = seq![offer];
    assert(offers.drop_last() =~= Seq::<JsonV>::empty());
    assert(valid_providers(offers.drop_last()) =~= Seq::<ProviderView>::empty());
    match provider_of(offer) {
        Some(provider) => assert(valid_providers(offers) =~= seq![provider]),
        None => {},
    }
}

/// The offers of one response count one after the other, each as if it stood alone.
pub proof fn law_offers_independent(
    both: JsonV,
    one: JsonV,
    other: JsonV,
    first: Seq<JsonV>,
    second: Seq<JsonV>,
)
    requires
        both.get("providers"@) == Some(JsonV::Array(first + second)),
        one.get("providers"@) == Some(JsonV::Array(first)),
        other.get("providers"@) == Some(JsonV::Array(second)),
    ensures
        found_in(both) == found_in(one) + found_in(other),
{
    lemma_one_response(both);
    lemma_one_response(one);
    lemma_one_response(other);
    lemma_valid_providers_all(first, second);
}

/// A response without an array under `providers`, and an answer that is no array, give
/// nothing.
pub proof fn law_nothing_is_found_without_offers(response: JsonV, answer: Option<JsonV>)
    ensures
        !(response.get("providers"@) matches Some(JsonV::Array(_))) ==> found_in(response)
            == Seq::<ProviderView>::empty(),
        !(answer matches Some(JsonV::Array(_))) ==> discovered(answer) == Seq::<
            ProviderView,
        >::empty(),
        discovered(Some(JsonV::Array(Seq::empty()))) == Seq::<ProviderView>::empty(),
{
    lemma_one_response(response);
}

/// The messages of an envelope are the elements of its array `messages`, in order.
pub proof fn law_messages_are_read(envelope: JsonV, list: Seq<JsonV>)
    ensures
        envelope.get("messages"@) == Some(JsonV::Array(list)) ==> messages(Some(envelope))
            == list,
        !(envelope.get("messages"@) matches Some(JsonV::Array(_))) ==> messages(Some(envelope))
            == Seq::<JsonV>::empty(),
        messages(None) == Seq::<JsonV>::empty(),
{
}

/// A message that comes alone leads to the request that it makes, if any.
pub proof fn law_message_is_served(channel: Channel, message: JsonV)
    ensures
        match request_of(channel, message) {
            Some(request) => requests_of(channel, seq![message]) == seq![request],
            None => requests_of(channel, seq![message]) == Seq::<RequestV>::empty(),
        },
        requests_of(channel, Seq::empty()) == Seq::<RequestV>::empty(),
{
    let list = seq![message];
    assert(list.drop_last() =~= Seq::<JsonV>::empty());
    assert(requests_of(channel, list.drop_last()) =~= Seq::<RequestV>::empty());
    match request_of(channel, message) {
        Some(request) => assert(requests_of(channel, list) =~= seq![request]),
        None => {},
    }
}

/// Whether a document has a string under a key.
pub open spec fn has_text(document: Option<JsonV>, key: Seq<char>) -> bool {
    document is Some && (document->0.get(key) matches Some(JsonV::Text(_)))
}

/// A message under the topic of a query makes the query, whatever else it holds.
pub proof fn law_queries_are_read(message: JsonV)
    ensures
        message.get("topic"@) == Some(JsonV::Text("registry.v1.get_providers"@)) ==> request_of(
            Channel::Requests,
            message,
        ) == Some(RequestV::ListProviders),
        message.get("topic"@) == Some(JsonV::Text("registry.v1.get_active_model"@))
            ==> request_of(Channel::Requests, message) == Some(RequestV::ActiveModel),
{
    lemma_topics_differ();
}

proof fn lemma_topics_differ()
    ensures
        "registry.v1.get_providers"@ != "registry.v1.get_active_model"@,
        "registry.v1.get_providers"@ != "registry.v1.set_active_model"@,
        "registry.v1.get_active_model"@ != "registry.v1.set_active_model"@,
{
    reveal_strlit("registry.v1.get_providers");
    reveal_strlit("registry.v1.get_active_model");
    reveal_strlit("registry.v1.set_active_model");
    assert("registry.v1.get_providers"@.len() != "registry.v1.get_active_model"@.len());
    assert("registry.v1.get_providers"@.len() != "registry.v1.set_active_model"@.len());
    assert("registry.v1.get_active_model"@[12] != "registry.v1.set_active_model"@[12]);
}

/// A message under the topic of the switch asks for the model that the `data` of its
/// payload names, or else the payload itself. With a payload that names none it asks
/// for a switch without a model, and without a payload for nothing.
pub proof fn law_switches_are_read(message: JsonV, payload: JsonV, data: JsonV, id: Seq<char>)
    requires
        message.get("topic"@) == Some(JsonV::Text("registry.v1.set_active_model"@)),
    ensures
        message.get("payload"@) is None ==> request_of(Channel::Requests, message) is None,
        message.get("payload"@) == Some(payload) ==> {
            let request = request_of(Channel::Requests, message);
            &&& payload.get("data"@) == Some(data) && data.get("model_id"@) == Some(
                JsonV::Text(id),
            ) ==> request == Some(RequestV::SwitchModel(id))
            &&& !has_text(payload.get("data"@), "model_id"@) && payload.get("model_id"@) == Some(
                JsonV::Text(id),
            ) ==> request == Some(RequestV::SwitchModel(id))
            &&& !has_text(payload.get("data"@), "model_id"@) && !has_text(
                Some(payload),
                "model_id"@,
            ) ==> request == Some(RequestV::UnnamedSwitch)
        },
{
    lemma_topics_differ();
}

/// A message without a topic, or under any other topic, asks for nothing.
pub proof fn law_other_topics_are_ignored(message: JsonV, topic: Seq<char>)
    ensures
        !has_text(Some(message), "topic"@) ==> request_of(Channel::Requests, message) is None,
        message.get("topic"@) == Some(JsonV::Text(topic)) && topic
            != "registry.v1.get_providers"@ && topic != "registry.v1.get_active_model"@ && topic
            != "registry.v1.set_active_model"@ ==> request_of(Channel::Requests, message) is None,
{
}

/// A message on the channel of choices asks for the switch to the model that the `data`
/// of its payload names as selected, or else the payload itself, whatever else the
/// message holds. Without such a name it asks for nothing.
pub proof fn law_choices_are_read(message: JsonV, payload: JsonV, data: JsonV, id: Seq<char>)
    ensures
        message.get("payload"@) is None ==> request_of(Channel::Selections, message) is None,
        message.get("payload"@) == Some(payload) ==> {
            let request = request_of(Channel::Selections, message);
            &&& payload.get("data"@) == Some(data) && data.get("selected_id"@) == Some(
                JsonV::Text(id),
            ) ==> request == Some(RequestV::SwitchModel(id))
            &&& !has_text(payload.get("data"@), "selected_id"@) && payload.get("selected_id"@)
                == Some(JsonV::Text(id)) ==> request == Some(RequestV::SwitchModel(id))
            &&& !has_text(payload.get("data"@), "selected_id"@) && !has_text(
                Some(payload),
                "selected_id"@,
            ) ==> request is None
        },
{
}

/// A typed text whose first word is `/models` asks for the switch to the model that its
/// second word names, or without one to pick a model, whatever else the message holds.
/// Any other text asks for nothing, and so does a message without one.
pub proof fn law_commands_are_read(message: JsonV, payload: JsonV, text: Seq<char>)
    ensures
        message.get("payload"@) is None ==> request_of(Channel::Commands, message) is None,
        message.get("payload"@) == Some(payload) && !has_text(Some(payload), "text"@)
            ==> request_of(Channel::Commands, message) is None,
        message.get("payload"@) == Some(payload) && payload.get("text"@) == Some(
            JsonV::Text(text),
        ) ==> {
            let request = request_of(Channel::Commands, message);
            &&& words(text).len() == 0 || words(text)[0] != "/models"@ ==> request is None
            &&& words(text).len() == 1 && words(text)[0] == "/models"@ ==> request == Some(
                RequestV::PickModel,
            )
            &&& words(text).len() >= 2 && words(text)[0] == "/models"@ ==> request == Some(
                RequestV::SwitchModel(words(text)[1]),
            )
        },
{
}

/// A message on the channel of the kernel's signal asks for nothing by itself.
pub proof fn law_signals_carry_no_request(message: JsonV)
    ensures
        request_of(Channel::Reloads, message) is None,
{
}

/// An envelope comes from the kernel just where one of its messages names the kernel's
/// system session as its source.
pub proof fn law_kernel_is_known_by_its_source(envelope: JsonV, list: Seq<JsonV>)
    ensures
        envelope.get("messages"@) == Some(JsonV::Array(list)) ==> (from_kernel(Some(envelope))
            <==> exists|i: int|
            0 <= i < list.len() && (#[trigger] list[i]).get("source_id"@) == Some(
                JsonV::Text("00000000-0000-0000-0000-000000000000"@),
            )),
        !(envelope.get("messages"@) matches Some(JsonV::Array(_))) ==> !from_kernel(
            Some(envelope),
        ),
        !from_kernel(None),
{
    if envelope.get("messages"@) == Some(JsonV::Array(list)) {
        let found = messages(Some(envelope));
        assert(found == list);
        if from_kernel(Some(envelope)) {
            let i = choose|i: int| 0 <= i < found.len() && sent_by_kernel(#[trigger] found[i]);
            assert(list[i].get("source_id"@) == Some(
                JsonV::Text("00000000-0000-0000-0000-000000000000"@),
            ));
        }
        if exists|i: int|
            0 <= i < list.len() && (#[trigger] list[i]).get("source_id"@) == Some(
                JsonV::Text("00000000-0000-0000-0000-000000000000"@),
            ) {
            let i = choose|i: int|
                0 <= i < list.len() && (#[trigger] list[i]).get("source_id"@) == Some(
                    JsonV::Text("00000000-0000-0000-0000-000000000000"@),
                );
            assert(sent_by_kernel(messages(Some(envelope))[i]));
        }
    }
}

/// An envelope counts as many dropped messages as its `dropped` says, where that is an
/// unsigned integer, and else none.
pub proof fn law_dropped_messages_are_counted(envelope: JsonV, count: u64)
    ensures
        envelope.get("dropped"@) == Some(JsonV::Number(Some(count))) ==> dropped(Some(envelope))
            == count,
        !(envelope.get("dropped"@) matches Some(JsonV::Number(Some(_)))) ==> dropped(
            Some(envelope),
        ) == 0,
        dropped(None) == 0,
{
}

/// The view of a request keeps its kind and its model ID.
pub proof fn law_request_is_seen_whole(id: String, request: Request)
    ensures
        request.deep_view() == request@,
        Request::ListProviders@ == RequestV::ListProviders,
        Request::ActiveModel@ == RequestV::ActiveModel,
        Request::SwitchModel(id)@ == RequestV::SwitchModel(id@),
        Request::UnnamedSwitch@ == RequestV::UnnamedSwitch,
        Request::PickModel@ == RequestV::PickModel,
{
}

/// The view of a notice keeps its kind and what it holds.
pub proof fn law_notice_is_seen_whole(
    providers: Vec<ProviderEntry>,
    provider: ProviderEntry,
    text: String,
)
    ensures
        Notice::Providers(providers)@ == NoticeV::Providers(providers.deep_view()),
        Notice::ActiveModel(Some(provider))@ == NoticeV::ActiveModel(Some(provider@)),
        Notice::ActiveModel(None)@ == NoticeV::ActiveModel(None),
        Notice::ModelChanged(provider)@ == NoticeV::ModelChanged(provider@),
        Notice::ModelSet(provider)@ == NoticeV::ModelSet(provider@),
        Notice::MissingModelId@ == NoticeV::MissingModelId,
        Notice::UnknownModel(text)@ == NoticeV::UnknownModel(text@),
        (Notice::Selection { request_id: text, providers })@ == (NoticeV::Selection {
            request_id: text@,
            providers: providers.deep_view(),
        }),
{
}

/// Every notice is published on the topic of its kind.
pub proof fn law_notice_topics(
    providers: Seq<ProviderView>,
    provider: ProviderView,
    active: Option<ProviderView>,
    text: Seq<char>,
)
    ensures
        notice_topic(NoticeV::Providers(providers)) == "registry.v1.response.get_providers"@,
        notice_topic(NoticeV::ActiveModel(active)) == "registry.v1.response.get_active_model"@,
        notice_topic(NoticeV::ModelChanged(provider)) == "registry.v1.active_model_changed"@,
        notice_topic(NoticeV::ModelSet(provider)) == "registry.v1.response.set_active_model"@,
        notice_topic(NoticeV::MissingModelId) == "registry.v1.response.set_active_model"@,
        notice_topic(NoticeV::UnknownModel(text)) == "registry.v1.response.set_active_model"@,
        notice_topic(NoticeV::Selection { request_id: text, providers })
            == "registry.v1.response.models"@,
{
}

/// What is published about providers is their JSON form: of the whole list, of the
/// active one or null, and of the one that has become active.
pub proof fn law_provider_notices(providers: Seq<ProviderView>, provider: ProviderView)
    ensures
        notice_json(NoticeV::Providers(providers)) == providers_json(providers),
        notice_json(NoticeV::ActiveModel(Some(provider))) == provider_json(provider),
        notice_json(NoticeV::ActiveModel(None)) == JsonV::Null,
        notice_json(NoticeV::ModelChanged(provider)) == provider_json(provider),
{
}

/// The answer to a switch is `ok` with the provider, or an error that tells what is
/// wrong, and holds nothing else.
pub proof fn law_switch_notices(provider: ProviderView, id: Seq<char>, key: Seq<char>)
    ensures
        ({
            let confirmed = notice_json(NoticeV::ModelSet(provider));
            &&& confirmed.get("status"@) == Some(JsonV::Text("ok"@))
            &&& confirmed.get("active_model"@) == Some(provider_json(provider))
            &&& confirmed.get(key) is Some ==> key == "status"@ || key == "active_model"@
        }),
        notice_json(NoticeV::MissingModelId).get("error"@) == Some(
            JsonV::Text("missing model_id"@),
        ),
        notice_json(NoticeV::UnknownModel(id)).get("error"@) == Some(
            JsonV::Text("unknown model: "@ + id),
        ),
        notice_json(NoticeV::MissingModelId).get(key) is Some ==> key == "error"@,
        notice_json(NoticeV::UnknownModel(id)).get(key) is Some ==> key == "error"@,
{
    reveal_strlit("status");
    reveal_strlit("active_model");
    assert("status"@.len() != "active_model"@.len());
}

/// A selection request has one option for each provider, in their order, under the
/// provider's model ID and with its description, names the request and the topic of
/// the choice, and holds nothing else.
pub proof fn law_selection_offers_every_provider(id: Seq<char>, providers: Seq<ProviderView>)
    ensures
        ({
            let payload = notice_json(NoticeV::Selection { request_id: id, providers });
            &&& payload.get("type"@) == Some(JsonV::Text("selection_required"@))
            &&& payload.get("request_id"@) == Some(JsonV::Text(id))
            &&& payload.get("title"@) == Some(JsonV::Text("Select LLM Model"@))
            &&& payload.get("callback_topic"@) == Some(
                JsonV::Text("registry.v1.selection.callback"@),
            )
            &&& payload.get("options"@) is Some
            &&& payload.get("options"@)->0 is Array
            &&& {
                let options = payload.get("options"@)->0->Array_0;
                &&& options.len() == providers.len()
                &&& forall|i: int| 0 <= i < providers.len() ==> {
                    &&& (#[trigger] options[i]).get("id"@) == Some(JsonV::Text(providers[i].id))
                    &&& options[i].get("label"@) == Some(JsonV::Text(providers[i].id))
                    &&& options[i].get("description"@) == Some(
                        JsonV::Text(providers[i].description),
                    )
                    &&& forall|key: Seq<char>| (#[trigger] options[i].get(key)) is Some ==> key
                        == "id"@ || key == "label"@ || key == "description"@
                }
            }
            &&& forall|key: Seq<char>| (#[trigger] payload.get(key)) is Some ==> {
                ||| key == "type"@
                ||| key == "request_id"@
                ||| key == "title"@
                ||| key == "options"@
                ||| key == "callback_topic"@
            }
        }),
{
    reveal_strlit("type");
    reveal_strlit("request_id");
    reveal_strlit("title");
    reveal_strlit("options");
    reveal_strlit("callback_topic");
    reveal_strlit("id");
    reveal_strlit("label");
    reveal_strlit("description");
    assert("type"@.len() == 4 && "request_id"@.len() == 10 && "title"@.len() == 5);
    assert("options"@.len() == 7 && "callback_topic"@.len() == 14);
    assert("id"@.len() == 2 && "label"@.len() == 5 && "description"@.len() == 11);
}

/// The identifier of a selection request is `models-<milliseconds>-<serial number>`,
/// both numbers in decimal digits without leading zeros.
pub proof fn law_request_id_is_readable(millis: nat, serial: nat)
    ensures
        request_id(millis, serial) == "models-"@ + decimal(millis) + "-"@ + decimal(serial),
        number(decimal(millis)) == millis,
        number(decimal(serial)) == serial,
        decimal(millis)[0] == '0' ==> decimal(millis).len() == 1,
        decimal(serial)[0] == '0' ==> decimal(serial).len() == 1,
{
    law_decimal_stands_for_number(millis);
    law_decimal_stands_for_number(serial);
}

} // verus!
