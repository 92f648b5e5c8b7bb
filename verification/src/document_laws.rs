//! What the registry's documents, texts and entries hold, member by member.

use vstd::prelude::*;

use crate::codec::{
    law_provider_round_trip, provider_json, provider_of, providers_json, state_json, state_of,
};
use crate::json::{items_view, lemma_items_view, members_view, Json, JsonV};
use crate::laws::{blank, lemma_first_word, lemma_leading_space};
use crate::provider::{ProviderEntry, ProviderView, RegistryState, StateView};
use crate::text::{decimal, white_space, words};

verus! {

/// The view of a provider entry keeps each of its seven fields.
pub proof fn law_entry_is_seen_whole(entry: ProviderEntry)
    ensures
        entry.deep_view() == entry@,
        entry@.id == entry.id@,
        entry@.description == entry.description@,
        entry@.request_topic == entry.request_topic@,
        entry@.stream_topic == entry.stream_topic@,
        entry@.capabilities.len() == entry.capabilities@.len(),
        forall|i: int|
            0 <= i < entry.capabilities@.len() ==> #[trigger] entry@.capabilities[i]
                == entry.capabilities@[i]@,
        entry@.context_window == entry.context_window,
        entry@.max_output_tokens == entry.max_output_tokens,
{
}

/// The view of a state keeps all its providers, in order, and its active model ID.
pub proof fn law_state_is_seen_whole(state: RegistryState)
    ensures
        state.deep_view() == state@,
        state@.providers.len() == state.providers@.len(),
        forall|i: int|
            0 <= i < state.providers@.len() ==> #[trigger] state@.providers[i]
                == state.providers@[i]@,
        match state.active_model_id {
            Some(id) => state@.active_model_id == Some(id@),
            None => state@.active_model_id is None,
        },
{
}

/// A member is what was put last under its key, and members under other keys are not
/// touched by that. Only objects have members.
pub proof fn law_member_is_read(
    members: Map<Seq<char>, JsonV>,
    key: Seq<char>,
    value: JsonV,
    other: Seq<char>,
)
    ensures
        JsonV::Object(members.insert(key, value)).get(key) == Some(value),
        other != key ==> JsonV::Object(members.insert(key, value)).get(other) == JsonV::Object(
            members,
        ).get(other),
        JsonV::Object(Map::empty()).get(key) is None,
        !(value is Object) ==> value.get(key) is None,
{
}

/// A document is read as a string, an array or an unsigned integer just where it is
/// one, and then as the one it is.
pub proof fn law_content_is_read(
    document: JsonV,
    text: Seq<char>,
    items: Seq<JsonV>,
    number: u64,
)
    ensures
        document.as_str() == Some(text) <==> document == JsonV::Text(text),
        document.as_array() == Some(items) <==> document == JsonV::Array(items),
        document.as_u64() == Some(number) <==> document == JsonV::Number(Some(number)),
{
}

/// A document says what it holds: every element of an array in its place, and under
/// every key of an object the last of its members.
pub proof fn law_document_is_seen_whole(
    items: Vec<Json>,
    members: Seq<(String, Json)>,
    key: String,
    value: Json,
    text: String,
    number: Option<u64>,
    truth: bool,
)
    ensures
        Json::Null@ == JsonV::Null,
        Json::Bool(truth)@ == JsonV::Bool(truth),
        Json::Number(number)@ == JsonV::Number(number),
        Json::Text(text)@ == JsonV::Text(text@),
        Json::Array(items)@ == JsonV::Array(items_view(items@)),
        items_view(items@).len() == items@.len(),
        forall|i: int|
            0 <= i < items@.len() ==> #[trigger] items_view(items@)[i] == items@[i]@,
        members_view(Seq::empty()) == Map::<Seq<char>, JsonV>::empty(),
        members_view(members.push((key, value))) == members_view(members).insert(key@, value@),
{
    lemma_items_view(items@);
    assert(members.push((key, value)).drop_last() =~= members);
}

/// The members of an object are its own.
pub proof fn law_object_is_seen_whole(members: Vec<(String, Json)>)
    ensures
        Json::Object(members)@ == JsonV::Object(members_view(members@)),
{
}

/// Whether a member under `key` holds a limit: a number where it is declared, and
/// nothing or null where it is not.
pub open spec fn holds_limit(document: JsonV, key: Seq<char>, limit: Option<u64>) -> bool {
    match limit {
        Some(tokens) => document.get(key) == Some(JsonV::Number(Some(tokens))),
        None => document.get(key) is None || document.get(key) == Some(JsonV::Null),
    }
}

/// Whether a document is the array of some strings.
pub open spec fn holds_texts(document: JsonV, texts: Seq<Seq<char>>) -> bool {
    &&& document is Array
    &&& document->Array_0.len() == texts.len()
    &&& forall|i: int|
        0 <= i < texts.len() ==> #[trigger] document->Array_0[i] == JsonV::Text(texts[i])
}

/// Whether an object has the fields of a provider entry as members.
pub open spec fn holds_provider(document: JsonV, provider: ProviderView) -> bool {
    &&& document is Object
    &&& document.get("id"@) == Some(JsonV::Text(provider.id))
    &&& document.get("description"@) == Some(JsonV::Text(provider.description))
    &&& document.get("request_topic"@) == Some(JsonV::Text(provider.request_topic))
    &&& document.get("stream_topic"@) == Some(JsonV::Text(provider.stream_topic))
    &&& document.get("capabilities"@) is Some
    &&& holds_texts(document.get("capabilities"@)->0, provider.capabilities)
    &&& holds_limit(document, "context_window"@, provider.context_window)
    &&& holds_limit(document, "max_output_tokens"@, provider.max_output_tokens)
}

/// An object describes a provider entry just where it has the entry's fields as
/// members.
pub proof fn law_object_describes_provider(
    members: Map<Seq<char>, JsonV>,
    provider: ProviderView,
)
    ensures
        provider_of(JsonV::Object(members)) == Some(provider) <==> holds_provider(
            JsonV::Object(members),
            provider,
        ),
{
    let document = JsonV::Object(members);
    if holds_provider(document, provider) {
        let items = document.get("capabilities"@)->0->Array_0;
        assert(items.map_values(|item: JsonV| item->Text_0) =~= provider.capabilities);
        assert(provider_of(document)->0 =~= provider);
    }
    if provider_of(document) == Some(provider) {
        let items = document.get("capabilities"@)->0->Array_0;
        assert(provider.capabilities == items.map_values(|item: JsonV| item->Text_0));
        assert forall|i: int| 0 <= i < provider.capabilities.len() implies #[trigger] items[i]
            == JsonV::Text(provider.capabilities[i]) by {
            assert(items[i] is Text);
        }
    }
}

/// An array describes a provider entry just where it holds the seven fields in their
/// order. No other document describes one.
pub proof fn law_array_describes_provider(document: JsonV, provider: ProviderView)
    requires
        !(document is Object),
    ensures
        provider_of(document) == Some(provider) <==> ({
            let items = document->Array_0;
            &&& document is Array
            &&& items.len() == 7
            &&& items[0] == JsonV::Text(provider.id)
            &&& items[1] == JsonV::Text(provider.description)
            &&& items[2] == JsonV::Text(provider.request_topic)
            &&& items[3] == JsonV::Text(provider.stream_topic)
            &&& holds_texts(items[4], provider.capabilities)
            &&& items[5] == (match provider.context_window {
                Some(tokens) => JsonV::Number(Some(tokens)),
                None => JsonV::Null,
            })
            &&& items[6] == (match provider.max_output_tokens {
                Some(tokens) => JsonV::Number(Some(tokens)),
                None => JsonV::Null,
            })
        }),
{
    if document is Array && document->Array_0.len() == 7 {
        let items = document->Array_0[4]->Array_0;
        if holds_texts(document->Array_0[4], provider.capabilities) {
            assert(items.map_values(|item: JsonV| item->Text_0) =~= provider.capabilities);
        }
        if provider_of(document) == Some(provider) {
            assert(provider.capabilities == items.map_values(|item: JsonV| item->Text_0));
            assert forall|i: int| 0 <= i < provider.capabilities.len() implies #[trigger] items[i]
                == JsonV::Text(provider.capabilities[i]) by {
                assert(items[i] is Text);
            }
        }
    }
}

/// The JSON form of a provider entry has its fields as members and no others. A limit
/// that is not declared has no member.
pub proof fn law_provider_document(provider: ProviderView)
    ensures
        holds_provider(provider_json(provider), provider),
        provider.context_window is None ==> provider_json(provider).get(
            "context_window"@,
        ) is None,
        provider.max_output_tokens is None ==> provider_json(provider).get(
            "max_output_tokens"@,
        ) is None,
        forall|key: Seq<char>| (#[trigger] provider_json(provider).get(key)) is Some ==> {
            ||| key == "id"@
            ||| key == "description"@
            ||| key == "request_topic"@
            ||| key == "stream_topic"@
            ||| key == "capabilities"@
            ||| key == "context_window"@
            ||| key == "max_output_tokens"@
        },
{
    law_provider_round_trip(provider);
    law_object_describes_provider(provider_json(provider)->Object_0, provider);
    reveal_strlit("id");
    reveal_strlit("description");
    reveal_strlit("request_topic");
    reveal_strlit("stream_topic");
    reveal_strlit("capabilities");
    reveal_strlit("context_window");
    reveal_strlit("max_output_tokens");
}

/// The JSON form of a list of provider entries is the array of their forms, in order.
pub proof fn law_providers_document(providers: Seq<ProviderView>)
    ensures
        providers_json(providers) is Array,
        providers_json(providers)->Array_0.len() == providers.len(),
        forall|i: int|
            0 <= i < providers.len() ==> holds_provider(
                #[trigger] providers_json(providers)->Array_0[i],
                providers[i],
            ),
{
    assert forall|i: int| 0 <= i < providers.len() implies holds_provider(
        #[trigger] providers_json(providers)->Array_0[i],
        providers[i],
    ) by {
        law_provider_document(providers[i]);
    }
}

/// Whether a document is the array of some providers' descriptions.
pub open spec fn holds_providers(document: JsonV, providers: Seq<ProviderView>) -> bool {
    &&& document is Array
    &&& document->Array_0.len() == providers.len()
    &&& forall|i: int|
        0 <= i < providers.len() ==> provider_of(#[trigger] document->Array_0[i]) == Some(
            providers[i],
        )
}

/// An object describes a state just where its members are the descriptions of the
/// state's providers and its active model ID, or for none nothing or null.
pub proof fn law_object_describes_state(members: Map<Seq<char>, JsonV>, state: StateView)
    ensures
        state_of(JsonV::Object(members)) == Some(state) <==> ({
            let document = JsonV::Object(members);
            &&& document.get("providers"@) is Some
            &&& holds_providers(document.get("providers"@)->0, state.providers)
            &&& match state.active_model_id {
                Some(id) => document.get("active_model_id"@) == Some(JsonV::Text(id)),
                None => document.get("active_model_id"@) is None || document.get(
                    "active_model_id"@,
                ) == Some(JsonV::Null),
            }
        }),
{
    let document = JsonV::Object(members);
    if document.get("providers"@) is Some {
        let field = document.get("providers"@)->0;
        let items = field->Array_0;
        if holds_providers(field, state.providers) {
            assert(items.map_values(|item: JsonV| provider_of(item)->0) =~= state.providers);
        }
        if state_of(document) == Some(state) {
            assert(state.providers == items.map_values(|item: JsonV| provider_of(item)->0));
            assert forall|i: int| 0 <= i < state.providers.len() implies provider_of(
                #[trigger] items[i],
            ) == Some(state.providers[i]) by {
                assert(provider_of(items[i]) is Some);
            }
        }
    }
}

/// The JSON form of a state has the JSON form of its providers and its active model ID,
/// or null for none, as members and no others.
pub proof fn law_state_document(state: StateView)
    ensures
        state_json(state) is Object,
        state_json(state).get("providers"@) == Some(providers_json(state.providers)),
        match state.active_model_id {
            Some(id) => state_json(state).get("active_model_id"@) == Some(JsonV::Text(id)),
            None => state_json(state).get("active_model_id"@) == Some(JsonV::Null),
        },
        forall|key: Seq<char>| (#[trigger] state_json(state).get(key)) is Some ==> key
            == "providers"@ || key == "active_model_id"@,
{
    reveal_strlit("providers");
    reveal_strlit("active_model_id");
    assert("providers"@.len() != "active_model_id"@.len());
}

/// The number that decimal digits stand for.
pub open spec fn number(digits: Seq<char>) -> nat
    decreases digits.len(),
{
    if digits.len() == 0 {
        0
    } else {
        10 * number(digits.drop_last()) + (digits.last() as nat - '0' as nat) as nat
    }
}

/// The decimal text of a number is made of digits, stands for the number, and has no
/// leading zero.
pub proof fn law_decimal_stands_for_number(value: nat)
    ensures
        number(decimal(value)) == value,
        decimal(value).len() > 0,
        forall|i: int| 0 <= i < decimal(value).len() ==> '0' <= #[trigger] decimal(value)[i] <= '9',
        decimal(value)[0] == '0' ==> decimal(value).len() == 1,
    decreases value,
{
    let text = decimal(value);
    reveal_with_fuel(number, 2);
    if value < 10 {
        assert(text.drop_last() =~= Seq::<char>::empty());
    } else {
        law_decimal_stands_for_number(value / 10);
        assert(text.drop_last() =~= decimal(value / 10));
        assert(text[0] == decimal(value / 10)[0]);
        if text[0] == '0' {
            assert(number(decimal(value / 10)) == 0);
        }
    }
}

/// A text's words are its runs of characters other than white space: the first run,
/// and then those of the rest.
pub proof fn law_words_are_runs(before: Seq<char>, word: Seq<char>, rest: Seq<char>)
    requires
        blank(before),
        word.len() > 0,
        forall|i: int| 0 <= i < word.len() ==> !white_space(#[trigger] word[i]),
        rest.len() > 0 ==> white_space(rest[0]),
    ensures
        words(before + word + rest) == seq![word] + words(rest),
        words(before) == Seq::<Seq<char>>::empty(),
{
    assert(before + word + rest =~= before + (word + rest));
    lemma_leading_space(before, word + rest);
    lemma_first_word(word, rest);
    assert(before + Seq::<char>::empty() =~= before);
    lemma_leading_space(before, Seq::empty());
}

} // verus!
