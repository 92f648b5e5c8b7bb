//! What the registry publishes.

use vstd::prelude::*;
use vstd::string::*;

use crate::codec::{
    add_member, lemma_provider_writable, lemma_providers_writable, provider_json, provider_to_json,
    providers_json, providers_to_json, text_to_json,
};
use crate::json::{
    items_view, json_bytes, json_text, lemma_items_view, lemma_writable_deeper, nesting, writable,
    write_json, Json, JsonV,
};
use crate::provider::{ProviderEntry, ProviderView};
use crate::text::{decimal, decimal_text, lemma_decimal, lemma_digits};

verus! {

/// What a notice says.
#[verifier::ext_equal]
pub enum NoticeV {
    Providers(Seq<ProviderView>),
    ActiveModel(Option<ProviderView>),
    ModelChanged(ProviderView),
    ModelSet(ProviderView),
    MissingModelId,
    UnknownModel(Seq<char>),
    Selection { request_id: Seq<char>, providers: Seq<ProviderView> },
}

/// A message that the registry publishes.
#[derive(Debug, PartialEq, Eq)]
pub enum Notice {
    /// The list of providers, in answer to a query.
    Providers(Vec<ProviderEntry>),
    /// The active provider, if any, in answer to a query.
    ActiveModel(Option<ProviderEntry>),
    /// The event that a provider has become the active one.
    ModelChanged(ProviderEntry),
    /// The confirmation of a model switch.
    ModelSet(ProviderEntry),
    /// The refusal of a model switch that names no model.
    MissingModelId,
    /// The refusal of a model switch to a model that no provider has.
    UnknownModel(String),
    /// The request to let the user pick one of the providers.
    Selection { request_id: String, providers: Vec<ProviderEntry> },
}

impl View for Notice {
    type V = NoticeV;

    open spec fn view(&self) -> NoticeV {
        match self {
            Notice::Providers(providers) => NoticeV::Providers(providers.deep_view()),
            Notice::ActiveModel(provider) => NoticeV::ActiveModel(provider.deep_view()),
            Notice::ModelChanged(provider) => NoticeV::ModelChanged(provider@),
            Notice::ModelSet(provider) => NoticeV::ModelSet(provider@),
            Notice::MissingModelId => NoticeV::MissingModelId,
            Notice::UnknownModel(id) => NoticeV::UnknownModel(id@),
            Notice::Selection { request_id, providers } => NoticeV::Selection {
                request_id: request_id@,
                providers: providers.deep_view(),
            },
        }
    }
}

/// The topic that a notice is published on.
pub open spec fn notice_topic(notice: NoticeV) -> Seq<char> {
    match notice {
        NoticeV::Providers(_) => "registry.v1.response.get_providers"@,
        NoticeV::ActiveModel(_) => "registry.v1.response.get_active_model"@,
        NoticeV::ModelChanged(_) => "registry.v1.active_model_changed"@,
        NoticeV::ModelSet(_) => "registry.v1.response.set_active_model"@,
        NoticeV::MissingModelId => "registry.v1.response.set_active_model"@,
        NoticeV::UnknownModel(_) => "registry.v1.response.set_active_model"@,
        NoticeV::Selection { .. } => "registry.v1.response.models"@,
    }
}

/// The answer to a model switch that fails.
pub open spec fn error_json(message: Seq<char>) -> JsonV {
    JsonV::Object(map!["error"@ => JsonV::Text(message)])
}

/// A provider as the user may pick it.
pub open spec fn option_json(provider: ProviderView) -> JsonV {
    JsonV::Object(
        map![
            "id"@ => JsonV::Text(provider.id),
            "label"@ => JsonV::Text(provider.id),
            "description"@ => JsonV::Text(provider.description),
        ],
    )
}

/// Providers as the user may pick them.
pub open spec fn options_json(providers: Seq<ProviderView>) -> JsonV {
    JsonV::Array(providers.map_values(|provider: ProviderView| option_json(provider)))
}

/// The payload of a notice.
pub open spec fn notice_json(notice: NoticeV) -> JsonV {
    match notice {
        NoticeV::Providers(providers) => providers_json(providers),
        NoticeV::ActiveModel(Some(provider)) => provider_json(provider),
        NoticeV::ActiveModel(None) => JsonV::Null,
        NoticeV::ModelChanged(provider) => provider_json(provider),
        NoticeV::ModelSet(provider) => JsonV::Object(
            map![
                "status"@ => JsonV::Text("ok"@),
                "active_model"@ => provider_json(provider),
            ],
        ),
        NoticeV::MissingModelId => error_json("missing model_id"@),
        NoticeV::UnknownModel(id) => error_json("unknown model: "@ + id),
        NoticeV::Selection { request_id, providers } => JsonV::Object(
            map![
                "type"@ => JsonV::Text("selection_required"@),
                "request_id"@ => JsonV::Text(request_id),
                "title"@ => JsonV::Text("Select LLM Model"@),
                "options"@ => options_json(providers),
                "callback_topic"@ => JsonV::Text("registry.v1.selection.callback"@),
            ],
        ),
    }
}

fn error_to_json(message: &str) -> (json: Json)
    ensures
        json@ == error_json(message@),
{
    let mut members: Vec<(String, Json)> = Vec::new();
    add_member(&mut members, "error", text_to_json(message));
    Json::Object(members)
}

fn option_to_json(provider: &ProviderEntry) -> (json: Json)
    ensures
        json@ == option_json(provider@),
{
    let mut members: Vec<(String, Json)> = Vec::new();
    add_member(&mut members, "id", text_to_json(provider.id.as_str()));
    add_member(&mut members, "label", text_to_json(provider.id.as_str()));
    add_member(&mut members, "description", text_to_json(provider.description.as_str()));
    Json::Object(members)
}

fn options_to_json(providers: &Vec<ProviderEntry>) -> (json: Json)
    ensures
        json@ == options_json(providers.deep_view()),
{
    let mut items: Vec<Json> = Vec::new();
    for i in 0..providers.len()
        invariant
            items.len() == i,
            forall|j: int| 0 <= j < i ==> #[trigger] items[j]@ == option_json(providers[j]@),
    {
        items.push(option_to_json(&providers[i]));
    }
    proof {
        lemma_items_view(items@);
        assert(items_view(items@) =~= providers.deep_view().map_values(
            |provider: ProviderView| option_json(provider),
        ));
    }
    Json::Array(items)
}

/// The payload of a notice may be written.
proof fn lemma_notice_writable(notice: NoticeV)
    ensures
        writable(notice_json(notice), nesting()),
{
    reveal_with_fuel(writable, 3);
    match notice {
        NoticeV::Providers(providers) => {
            lemma_providers_writable(providers);
            lemma_writable_deeper(notice_json(notice), 3, nesting());
        },
        NoticeV::ActiveModel(Some(provider)) => {
            lemma_provider_writable(provider);
            lemma_writable_deeper(notice_json(notice), 2, nesting());
        },
        NoticeV::ModelChanged(provider) => {
            lemma_provider_writable(provider);
            lemma_writable_deeper(notice_json(notice), 2, nesting());
        },
        NoticeV::ModelSet(provider) => {
            lemma_provider_writable(provider);
            lemma_writable_deeper(notice_json(notice), 3, nesting());
        },
        NoticeV::Selection { providers, .. } => {
            assert(writable(options_json(providers), 2));
            lemma_writable_deeper(notice_json(notice), 3, nesting());
        },
        _ => {},
    }
}

impl Notice {
    /// The topic to publish on.
    pub fn topic(&self) -> (topic: &'static str)
        ensures
            topic@ == notice_topic(self@),
    {
        match self {
            Notice::Providers(_) => "registry.v1.response.get_providers",
            Notice::ActiveModel(_) => "registry.v1.response.get_active_model",
            Notice::ModelChanged(_) => "registry.v1.active_model_changed",
            Notice::ModelSet(_) => "registry.v1.response.set_active_model",
            Notice::MissingModelId => "registry.v1.response.set_active_model",
            Notice::UnknownModel(_) => "registry.v1.response.set_active_model",
            Notice::Selection { .. } => "registry.v1.response.models",
        }
    }

    /// The payload to publish.
    pub fn payload(&self) -> (json: Json)
        ensures
            json@ == notice_json(self@),
    {
        match self {
            Notice::Providers(providers) => providers_to_json(providers),
            Notice::ActiveModel(Some(provider)) => provider_to_json(provider),
            Notice::ActiveModel(None) => Json::Null,
            Notice::ModelChanged(provider) => provider_to_json(provider),
            Notice::ModelSet(provider) => {
                let mut members: Vec<(String, Json)> = Vec::new();
                add_member(&mut members, "status", text_to_json("ok"));
                add_member(&mut members, "active_model", provider_to_json(provider));
                Json::Object(members)
            },
            Notice::MissingModelId => error_to_json("missing model_id"),
            Notice::UnknownModel(id) => {
                let mut message = "unknown model: ".to_owned();
                message.append(id.as_str());
                error_to_json(message.as_str())
            },
            Notice::Selection { request_id, providers } => {
                let mut members: Vec<(String, Json)> = Vec::new();
                add_member(&mut members, "type", text_to_json("selection_required"));
                add_member(&mut members, "request_id", text_to_json(request_id.as_str()));
                add_member(&mut members, "title", text_to_json("Select LLM Model"));
                add_member(&mut members, "options", options_to_json(providers));
                add_member(
                    &mut members,
                    "callback_topic",
                    text_to_json("registry.v1.selection.callback"),
                );
                Json::Object(members)
            },
        }
    }

    /// The payload as text.
    pub fn text(&self) -> (text: Vec<u8>)
        ensures
            text@ == json_bytes(notice_json(self@)),
            json_text(text@) == Some(notice_json(self@)),
    {
        proof {
            lemma_notice_writable(self@);
        }
        write_json(&self.payload())
    }
}

/// The identifier of a selection request: the time in milliseconds and the serial
/// number of the request.
pub open spec fn request_id(millis: nat, serial: nat) -> Seq<char> {
    "models-"@ + decimal(millis) + "-"@ + decimal(serial)
}

/// Makes the identifier of a selection request.
pub fn make_request_id(millis: u128, serial: u64) -> (id: String)
    ensures
        id@ == request_id(millis as nat, serial as nat),
{
    let mut id = "models-".to_owned();
    id.append(decimal_text(millis).as_str());
    id.append("-");
    id.append(decimal_text(serial as u128).as_str());
    id
}

/// Selection requests made at different times or under different serial numbers
/// have different identifiers.
pub proof fn law_request_id_unique(millis: nat, serial: nat, other_millis: nat, other_serial: nat)
    requires
        request_id(millis, serial) == request_id(other_millis, other_serial),
    ensures
        millis == other_millis,
        serial == other_serial,
{
    reveal_strlit("models-");
    reveal_strlit("-");
    lemma_digits(millis);
    lemma_digits(serial);
    lemma_digits(other_millis);
    lemma_digits(other_serial);
    let id = request_id(millis, serial);
    let other_id = request_id(other_millis, other_serial);
    let a = decimal(millis);
    let b = decimal(other_millis);
    // The hyphen between the two numbers is the first one behind the prefix.
    let hyphen = 7 + a.len() as int;
    let other_hyphen = 7 + b.len() as int;
    assert(id[hyphen] == '-');
    assert(other_id[other_hyphen] == '-');
    if hyphen < other_hyphen {
        assert(other_id[hyphen] == b[hyphen - 7]);
    }
    if other_hyphen < hyphen {
        assert(id[other_hyphen] == a[other_hyphen - 7]);
    }
    assert(a =~= id.subrange(7, hyphen));
    assert(b =~= other_id.subrange(7, other_hyphen));
    lemma_decimal(millis, other_millis);
    assert(decimal(serial) =~= id.skip(hyphen + 1));
    assert(decimal(other_serial) =~= other_id.skip(other_hyphen + 1));
    lemma_decimal(serial, other_serial);
}

} // verus!
