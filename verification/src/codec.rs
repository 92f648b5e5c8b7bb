//! The JSON form of provider entries and of the registry's state.

use vstd::prelude::*;

use crate::json::{
    items_view, lemma_items_view, lemma_writable_deeper, members_view, writable, Json, JsonV,
};
use crate::provider::{ProviderEntry, ProviderView, RegistryState, StateView};

verus! {

/// An array of strings.
pub open spec fn texts_json(texts: Seq<Seq<char>>) -> JsonV {
    JsonV::Array(texts.map_values(|text: Seq<char>| JsonV::Text(text)))
}

/// An object's members with one more for a limit, where there is one.
pub open spec fn with_limit(
    members: Map<Seq<char>, JsonV>,
    key: Seq<char>,
    limit: Option<u64>,
) -> Map<Seq<char>, JsonV> {
    match limit {
        Some(tokens) => members.insert(key, JsonV::Number(Some(tokens))),
        None => members,
    }
}

/// A provider entry as a JSON object. A limit that is not declared has no member.
pub open spec fn provider_json(provider: ProviderView) -> JsonV {
    let members =
        map![
        "id"@ => JsonV::Text(provider.id),
        "description"@ => JsonV::Text(provider.description),
        "request_topic"@ => JsonV::Text(provider.request_topic),
        "stream_topic"@ => JsonV::Text(provider.stream_topic),
        "capabilities"@ => texts_json(provider.capabilities),
    ];
    JsonV::Object(
        with_limit(
            with_limit(members, "context_window"@, provider.context_window),
            "max_output_tokens"@,
            provider.max_output_tokens,
        ),
    )
}

/// Provider entries as a JSON array.
pub open spec fn providers_json(providers: Seq<ProviderView>) -> JsonV {
    JsonV::Array(providers.map_values(|provider: ProviderView| provider_json(provider)))
}

/// A string, or null in its absence.
pub open spec fn optional_text_json(text: Option<Seq<char>>) -> JsonV {
    match text {
        Some(text) => JsonV::Text(text),
        None => JsonV::Null,
    }
}

/// The registry's state as a JSON object.
pub open spec fn state_json(state: StateView) -> JsonV {
    JsonV::Object(
        map![
            "providers"@ => providers_json(state.providers),
            "active_model_id"@ => optional_text_json(state.active_model_id),
        ],
    )
}

/// Adds a member to the members of an object.
pub fn add_member(members: &mut Vec<(String, Json)>, key: &str, value: Json)
    ensures
        members_view(final(members)@) == members_view(old(members)@).insert(key@, value@),
{
    members.push((key.to_owned(), value));
    assert(members@.drop_last() =~= old(members)@);
}

/// Makes a JSON string.
pub fn text_to_json(text: &str) -> (json: Json)
    ensures
        json@ == JsonV::Text(text@),
{
    Json::Text(text.to_owned())
}

fn texts_to_json(texts: &Vec<String>) -> (json: Json)
    ensures
        json@ == texts_json(texts.deep_view()),
{
    let mut items: Vec<Json> = Vec::new();
    for i in 0..texts.len()
        invariant
            items.len() == i,
            forall|j: int| 0 <= j < i ==> #[trigger] items[j]@ == JsonV::Text(texts[j]@),
    {
        items.push(text_to_json(texts[i].as_str()));
    }
    proof {
        lemma_items_view(items@);
        assert(items_view(items@) =~= texts.deep_view().map_values(
            |text: Seq<char>| JsonV::Text(text),
        ));
    }
    Json::Array(items)
}

/// Turns a provider entry into its JSON form.
pub fn provider_to_json(provider: &ProviderEntry) -> (json: Json)
    ensures
        json@ == provider_json(provider@),
{
    let mut members: Vec<(String, Json)> = Vec::new();
    add_member(&mut members, "id", text_to_json(provider.id.as_str()));
    add_member(&mut members, "description", text_to_json(provider.description.as_str()));
    add_member(&mut members, "request_topic", text_to_json(provider.request_topic.as_str()));
    add_member(&mut members, "stream_topic", text_to_json(provider.stream_topic.as_str()));
    add_member(&mut members, "capabilities", texts_to_json(&provider.capabilities));
    if provider.context_window.is_some() {
        add_member(&mut members, "context_window", Json::Number(provider.context_window));
    }
    if provider.max_output_tokens.is_some() {
        add_member(&mut members, "max_output_tokens", Json::Number(provider.max_output_tokens));
    }
    Json::Object(members)
}

/// Turns a list of provider entries into its JSON form.
pub fn providers_to_json(providers: &Vec<ProviderEntry>) -> (json: Json)
    ensures
        json@ == providers_json(providers.deep_view()),
{
    let mut items: Vec<Json> = Vec::new();
    for i in 0..providers.len()
        invariant
            items.len() == i,
            forall|j: int| 0 <= j < i ==> #[trigger] items[j]@ == provider_json(providers[j]@),
    {
        items.push(provider_to_json(&providers[i]));
    }
    proof {
        lemma_items_view(items@);
        assert(items_view(items@) =~= providers.deep_view().map_values(
            |provider: ProviderView| provider_json(provider),
        ));
    }
    Json::Array(items)
}

/// Turns the registry's state into its JSON form.
pub fn state_to_json(state: &RegistryState) -> (json: Json)
    ensures
        json@ == state_json(state@),
{
    let mut members: Vec<(String, Json)> = Vec::new();
    add_member(&mut members, "providers", providers_to_json(&state.providers));
    let active = match &state.active_model_id {
        Some(id) => text_to_json(id.as_str()),
        None => Json::Null,
    };
    add_member(&mut members, "active_model_id", active);
    Json::Object(members)
}

/// The string that a field holds.
pub open spec fn text_field(field: Option<JsonV>) -> Option<Seq<char>> {
    match field {
        Some(json) => json.as_str(),
        None => None,
    }
}

/// The strings that a field holds as an array.
pub open spec fn texts_field(field: Option<JsonV>) -> Option<Seq<Seq<char>>> {
    match field {
        Some(JsonV::Array(items)) => if forall|i: int|
            0 <= i < items.len() ==> (#[trigger] items[i]) is Text {
            Some(items.map_values(|item: JsonV| item->Text_0))
        } else {
            None
        },
        _ => None,
    }
}

/// The limit that a field declares: none where it is absent or null.
pub open spec fn limit_field(field: Option<JsonV>) -> Option<Option<u64>> {
    match field {
        None => Some(None),
        Some(JsonV::Null) => Some(None),
        Some(JsonV::Number(Some(tokens))) => Some(Some(tokens)),
        _ => None,
    }
}

/// The provider entry that seven fields make, where each has its type.
pub open spec fn provider_of_fields(
    id: Option<JsonV>,
    description: Option<JsonV>,
    request_topic: Option<JsonV>,
    stream_topic: Option<JsonV>,
    capabilities: Option<JsonV>,
    context_window: Option<JsonV>,
    max_output_tokens: Option<JsonV>,
) -> Option<ProviderView> {
    if text_field(id) is Some && text_field(description) is Some && text_field(request_topic)
        is Some && text_field(stream_topic) is Some && texts_field(capabilities) is Some
        && limit_field(context_window) is Some && limit_field(max_output_tokens) is Some {
        Some(
            ProviderView {
                id: text_field(id)->0,
                description: text_field(description)->0,
                request_topic: text_field(request_topic)->0,
                stream_topic: text_field(stream_topic)->0,
                capabilities: texts_field(capabilities)->0,
                context_window: limit_field(context_window)->0,
                max_output_tokens: limit_field(max_output_tokens)->0,
            },
        )
    } else {
        None
    }
}

/// The provider entry that a document describes: an object with the entry's fields
/// as members, others aside, or the array of its seven fields in their order.
pub open spec fn provider_of(document: JsonV) -> Option<ProviderView> {
    match document {
        JsonV::Object(_) => provider_of_fields(
            document.get("id"@),
            document.get("description"@),
            document.get("request_topic"@),
            document.get("stream_topic"@),
            document.get("capabilities"@),
            document.get("context_window"@),
            document.get("max_output_tokens"@),
        ),
        JsonV::Array(items) => if items.len() == 7 {
            provider_of_fields(
                Some(items[0]),
                Some(items[1]),
                Some(items[2]),
                Some(items[3]),
                Some(items[4]),
                Some(items[5]),
                Some(items[6]),
            )
        } else {
            None
        },
        _ => None,
    }
}

/// The provider entries that a field holds as an array, where every element
/// describes one.
pub open spec fn providers_field(field: Option<JsonV>) -> Option<Seq<ProviderView>> {
    match field {
        Some(JsonV::Array(items)) => if forall|i: int|
            0 <= i < items.len() ==> provider_of(#[trigger] items[i]) is Some {
            Some(items.map_values(|item: JsonV| provider_of(item)->0))
        } else {
            None
        },
        _ => None,
    }
}

/// The string that a field holds: none where it is absent or null.
pub open spec fn optional_text_field(field: Option<JsonV>) -> Option<Option<Seq<char>>> {
    match field {
        None => Some(None),
        Some(JsonV::Null) => Some(None),
        Some(JsonV::Text(text)) => Some(Some(text)),
        _ => None,
    }
}

/// The state that two fields make, where each has its type.
pub open spec fn state_of_fields(
    providers: Option<JsonV>,
    active_model_id: Option<JsonV>,
) -> Option<StateView> {
    if providers_field(providers) is Some && optional_text_field(active_model_id) is Some {
        Some(
            StateView {
                providers: providers_field(providers)->0,
                active_model_id: optional_text_field(active_model_id)->0,
            },
        )
    } else {
        None
    }
}

/// The state that a document describes: an object with the state's fields as
/// members, others aside, or the array of its two fields in their order.
pub open spec fn state_of(document: JsonV) -> Option<StateView> {
    match document {
        JsonV::Object(_) => state_of_fields(
            document.get("providers"@),
            document.get("active_model_id"@),
        ),
        JsonV::Array(items) => if items.len() == 2 {
            state_of_fields(Some(items[0]), Some(items[1]))
        } else {
            None
        },
        _ => None,
    }
}

/// What an optional field says.
pub open spec fn field_view(field: Option<&Json>) -> Option<JsonV> {
    match field {
        Some(json) => Some(json@),
        None => None,
    }
}

fn text_from_field(field: Option<&Json>) -> (text: Option<String>)
    ensures
        text.deep_view() == text_field(field_view(field)),
{
    match field {
        Some(json) => match json.as_str() {
            Some(text) => Some(text.to_owned()),
            None => None,
        },
        None => None,
    }
}

fn texts_from_field(field: Option<&Json>) -> (texts: Option<Vec<String>>)
    ensures
        texts.deep_view() == texts_field(field_view(field)),
{
    let items = match field {
        Some(json) => match json.as_array() {
            Some(items) => items,
            None => {
                return None;
            },
        },
        None => {
            return None;
        },
    };
    proof {
        lemma_items_view(items@);
    }
    let ghost documents = items_view(items@);
    let mut texts: Vec<String> = Vec::new();
    for i in 0..items.len()
        invariant
            field_view(field) == Some(JsonV::Array(documents)),
            documents.len() == items.len(),
            forall|j: int| 0 <= j < items.len() ==> #[trigger] documents[j] == items[j]@,
            texts.len() == i,
            forall|j: int|
                0 <= j < i ==> #[trigger] documents[j] == JsonV::Text(texts[j]@),
    {
        assert(documents[i as int] == items[i as int]@);
        match items[i].as_str() {
            Some(text) => {
                texts.push(text.to_owned());
            },
            None => {
                return None;
            },
        }
    }
    assert(texts.deep_view() =~= documents.map_values(|item: JsonV| item->Text_0));
    Some(texts)
}

fn limit_from_field(field: Option<&Json>) -> (limit: Option<Option<u64>>)
    ensures
        limit == limit_field(field_view(field)),
{
    match field {
        None => Some(None),
        Some(Json::Null) => Some(None),
        Some(json) => match json.as_u64() {
            Some(tokens) => Some(Some(tokens)),
            None => None,
        },
    }
}

fn provider_from_fields(
    id: Option<&Json>,
    description: Option<&Json>,
    request_topic: Option<&Json>,
    stream_topic: Option<&Json>,
    capabilities: Option<&Json>,
    context_window: Option<&Json>,
    max_output_tokens: Option<&Json>,
) -> (provider: Option<ProviderEntry>)
    ensures
        provider.deep_view() == provider_of_fields(
            field_view(id),
            field_view(description),
            field_view(request_topic),
            field_view(stream_topic),
            field_view(capabilities),
            field_view(context_window),
            field_view(max_output_tokens),
        ),
{
    let id = text_from_field(id);
    let description = text_from_field(description);
    let request_topic = text_from_field(request_topic);
    let stream_topic = text_from_field(stream_topic);
    let capabilities = texts_from_field(capabilities);
    let context_window = limit_from_field(context_window);
    let max_output_tokens = limit_from_field(max_output_tokens);
    match (
        id,
        description,
        request_topic,
        stream_topic,
        capabilities,
        context_window,
        max_output_tokens,
    ) {
        (
            Some(id),
            Some(description),
            Some(request_topic),
            Some(stream_topic),
            Some(capabilities),
            Some(context_window),
            Some(max_output_tokens),
        ) => Some(
            ProviderEntry {
                id,
                description,
                request_topic,
                stream_topic,
                capabilities,
                context_window,
                max_output_tokens,
            },
        ),
        _ => None,
    }
}

/// Reads a provider entry; nothing where the document does not describe one.
pub fn provider_from_json(json: &Json) -> (provider: Option<ProviderEntry>)
    ensures
        provider.deep_view() == provider_of(json@),
{
    match json {
        Json::Object(_) => provider_from_fields(
            json.get("id"),
            json.get("description"),
            json.get("request_topic"),
            json.get("stream_topic"),
            json.get("capabilities"),
            json.get("context_window"),
            json.get("max_output_tokens"),
        ),
        Json::Array(items) => {
            proof {
                lemma_items_view(items@);
            }
            if items.len() == 7 {
                provider_from_fields(
                    Some(&items[0]),
                    Some(&items[1]),
                    Some(&items[2]),
                    Some(&items[3]),
                    Some(&items[4]),
                    Some(&items[5]),
                    Some(&items[6]),
                )
            } else {
                None
            }
        },
        _ => None,
    }
}

/// The names of a provider entry's fields differ from each other: all but two of
/// them in their length.
proof fn lemma_field_names()
    ensures
        "id"@.len() == 2,
        "description"@.len() == 11,
        "request_topic"@.len() == 13,
        "stream_topic"@.len() == 12,
        "capabilities"@.len() == 12,
        "stream_topic"@[0] != "capabilities"@[0],
        "context_window"@.len() == 14,
        "max_output_tokens"@.len() == 17,
{
    reveal_strlit("id");
    reveal_strlit("description");
    reveal_strlit("request_topic");
    reveal_strlit("stream_topic");
    reveal_strlit("capabilities");
    reveal_strlit("context_window");
    reveal_strlit("max_output_tokens");
}

/// Reading the JSON form of a provider entry gives the entry back.
pub proof fn law_provider_round_trip(provider: ProviderView)
    ensures
        provider_of(provider_json(provider)) == Some(provider),
{
    lemma_field_names();
    let document = provider_json(provider);
    assert(document.get("id"@) == Some(JsonV::Text(provider.id)));
    assert(document.get("description"@) == Some(JsonV::Text(provider.description)));
    assert(document.get("request_topic"@) == Some(JsonV::Text(provider.request_topic)));
    assert(document.get("stream_topic"@) == Some(JsonV::Text(provider.stream_topic)));
    assert(document.get("capabilities"@) == Some(texts_json(provider.capabilities)));
    assert(texts_field(document.get("capabilities"@))->0 =~= provider.capabilities);
    assert(provider_of(document)->0 =~= provider);
}

/// Reading the JSON form of a state gives the state back.
pub proof fn law_state_round_trip(state: StateView)
    ensures
        state_of(state_json(state)) == Some(state),
{
    reveal_strlit("providers");
    reveal_strlit("active_model_id");
    assert("providers"@.len() != "active_model_id"@.len());
    let document = state_json(state);
    let items = providers_json(state.providers)->Array_0;
    assert forall|i: int| 0 <= i < items.len() implies provider_of(#[trigger] items[i]) == Some(
        state.providers[i],
    ) by {
        law_provider_round_trip(state.providers[i]);
    }
    assert(document.get("providers"@) == Some(JsonV::Array(items)));
    assert(providers_field(document.get("providers"@))->0 =~= state.providers);
}

/// The JSON form of a provider entry may be written.
pub proof fn lemma_provider_writable(provider: ProviderView)
    ensures
        writable(provider_json(provider), 2),
{
    reveal_with_fuel(writable, 2);
    let members = provider_json(provider)->Object_0;
    assert(writable(texts_json(provider.capabilities), 1));
    assert forall|key: Seq<char>| members.contains_key(key) implies writable(
        #[trigger] members[key],
        1,
    ) by {}
}

/// The JSON form of a list of provider entries may be written.
pub proof fn lemma_providers_writable(providers: Seq<ProviderView>)
    ensures
        writable(providers_json(providers), 3),
{
    let items = providers_json(providers)->Array_0;
    assert forall|i: int| 0 <= i < items.len() implies writable(#[trigger] items[i], 2) by {
        lemma_provider_writable(providers[i]);
    }
}

/// The JSON form of a state may be written.
pub proof fn lemma_state_writable(state: StateView)
    ensures
        writable(state_json(state), crate::json::nesting()),
{
    lemma_providers_writable(state.providers);
    let members = state_json(state)->Object_0;
    assert forall|key: Seq<char>| members.contains_key(key) implies writable(
        #[trigger] members[key],
        3,
    ) by {}
    lemma_writable_deeper(state_json(state), 4, crate::json::nesting());
}

} // verus!
