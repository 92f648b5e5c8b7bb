//! What arrives at the registry.
//!
//! A subscription delivers an envelope: a JSON object with an array of `messages`,
//! each with its `topic`, its `source_id` and its `payload`.

use vstd::prelude::*;

use crate::codec::field_view;
use crate::json::{items_view, json_text, lemma_items_view, parse_json, str_eq, Json, JsonV};
use crate::text::{split_words, words};

verus! {

/// The kernel's system session UUID, the source of the kernel's own messages.
pub const KERNEL_UUID: &'static str = "00000000-0000-0000-0000-000000000000";

/// What the registry subscribes to.
#[derive(Debug, Clone, Copy, PartialEq, Eq, Structural)]
pub enum Channel {
    /// Queries and commands of the registry's own protocol.
    Requests,
    /// Commands that the user typed.
    Commands,
    /// Choices that the user made among offered models.
    Selections,
    /// The kernel's signal that all capsules are loaded.
    Reloads,
}

/// What is asked of the registry.
#[verifier::ext_equal]
pub enum RequestV {
    ListProviders,
    ActiveModel,
    SwitchModel(Seq<char>),
    UnnamedSwitch,
    PickModel,
}

/// Something asked of the registry.
#[derive(Debug, PartialEq, Eq)]
pub enum Request {
    /// To publish the list of providers.
    ListProviders,
    /// To publish the active provider.
    ActiveModel,
    /// To make the model with this ID the active one.
    SwitchModel(String),
    /// To make a model active without saying which.
    UnnamedSwitch,
    /// To let the user pick a model.
    PickModel,
}

impl View for Request {
    type V = RequestV;

    open spec fn view(&self) -> RequestV {
        match self {
            Request::ListProviders => RequestV::ListProviders,
            Request::ActiveModel => RequestV::ActiveModel,
            Request::SwitchModel(id) => RequestV::SwitchModel(id@),
            Request::UnnamedSwitch => RequestV::UnnamedSwitch,
            Request::PickModel => RequestV::PickModel,
        }
    }
}

impl DeepView for Request {
    type V = RequestV;

    open spec fn deep_view(&self) -> RequestV {
        self@
    }
}

/// The string under `key` in the `data` of a payload, or else in the payload
/// itself.
pub open spec fn payload_text(payload: JsonV, key: Seq<char>) -> Option<Seq<char>> {
    match member_text(payload.get("data"@), key) {
        Some(text) => Some(text),
        None => member_text(Some(payload), key),
    }
}

/// The string under `key` in a document.
pub open spec fn member_text(document: Option<JsonV>, key: Seq<char>) -> Option<Seq<char>> {
    match document {
        Some(json) => match json.get(key) {
            Some(member) => member.as_str(),
            None => None,
        },
        None => None,
    }
}

fn text_of_member(document: Option<&Json>, key: &str) -> (text: Option<String>)
    ensures
        text.deep_view() == member_text(field_view(document), key@),
{
    match document {
        Some(json) => match json.get(key) {
            Some(member) => match member.as_str() {
                Some(text) => Some(text.to_owned()),
                None => None,
            },
            None => None,
        },
        None => None,
    }
}

fn text_of_payload(payload: &Json, key: &str) -> (text: Option<String>)
    ensures
        text.deep_view() == payload_text(payload@, key@),
{
    match text_of_member(payload.get("data"), key) {
        Some(text) => Some(text),
        None => text_of_member(Some(payload), key),
    }
}

/// What the payload of a switch command asks for: the model that `model_id` names.
pub open spec fn switch_request(payload: JsonV) -> RequestV {
    match payload_text(payload, "model_id"@) {
        Some(id) => RequestV::SwitchModel(id),
        None => RequestV::UnnamedSwitch,
    }
}

/// What a message of the registry's protocol asks for. Messages under other topics,
/// the registry's own among them, ask for nothing.
pub open spec fn protocol_request(message: JsonV) -> Option<RequestV> {
    match member_text(Some(message), "topic"@) {
        Some(topic) => if topic == "registry.v1.get_providers"@ {
            Some(RequestV::ListProviders)
        } else if topic == "registry.v1.get_active_model"@ {
            Some(RequestV::ActiveModel)
        } else if topic == "registry.v1.set_active_model"@ {
            match message.get("payload"@) {
                Some(payload) => Some(switch_request(payload)),
                None => None,
            }
        } else {
            None
        },
        None => None,
    }
}

/// What a typed command asks for, by its words: `/models` to pick a model,
/// `/models <model_id>` to switch to one.
pub open spec fn words_request(words: Seq<Seq<char>>) -> Option<RequestV> {
    if words.len() == 0 || words[0] != "/models"@ {
        None
    } else if words.len() >= 2 {
        Some(RequestV::SwitchModel(words[1]))
    } else {
        Some(RequestV::PickModel)
    }
}

/// What a message with a typed command asks for.
pub open spec fn command_request(message: JsonV) -> Option<RequestV> {
    match member_text(message.get("payload"@), "text"@) {
        Some(text) => words_request(words(text)),
        None => None,
    }
}

/// What a message with the user's choice asks for.
pub open spec fn selection_request(message: JsonV) -> Option<RequestV> {
    match message.get("payload"@) {
        Some(payload) => match payload_text(payload, "selected_id"@) {
            Some(id) => Some(RequestV::SwitchModel(id)),
            None => None,
        },
        None => None,
    }
}

/// What a message on a channel asks for.
pub open spec fn request_of(channel: Channel, message: JsonV) -> Option<RequestV> {
    match channel {
        Channel::Requests => protocol_request(message),
        Channel::Commands => command_request(message),
        Channel::Selections => selection_request(message),
        Channel::Reloads => None,
    }
}

/// What a row of messages asks for, in their order.
pub open spec fn requests_of(channel: Channel, messages: Seq<JsonV>) -> Seq<RequestV>
    decreases messages.len(),
{
    if messages.len() == 0 {
        Seq::empty()
    } else {
        match request_of(channel, messages.last()) {
            Some(request) => requests_of(channel, messages.drop_last()).push(request),
            None => requests_of(channel, messages.drop_last()),
        }
    }
}

/// The messages in an envelope: none where there is no array of them.
pub open spec fn messages(envelope: Option<JsonV>) -> Seq<JsonV> {
    match envelope {
        Some(json) => match json.get("messages"@) {
            Some(JsonV::Array(messages)) => messages,
            _ => Seq::empty(),
        },
        None => Seq::empty(),
    }
}

/// Whether a message comes from the kernel.
pub open spec fn sent_by_kernel(message: JsonV) -> bool {
    member_text(Some(message), "source_id"@) == Some(KERNEL_UUID@)
}

/// Whether an envelope holds a message from the kernel.
pub open spec fn from_kernel(envelope: Option<JsonV>) -> bool {
    exists|i: int|
        0 <= i < messages(envelope).len() && sent_by_kernel(#[trigger] messages(envelope)[i])
}

/// Reads what the payload of a switch command asks for.
///
/// The model ID stands in the payload's `data`; a payload that holds it at its top
/// level is understood too.
pub fn handle_set_active_model(payload: &Json) -> (request: Request)
    ensures
        request@ == switch_request(payload@),
{
    match text_of_payload(payload, "model_id") {
        Some(id) => Request::SwitchModel(id),
        None => Request::UnnamedSwitch,
    }
}

fn read_protocol_message(message: &Json) -> (request: Option<Request>)
    ensures
        request.deep_view() == protocol_request(message@),
{
    match text_of_member(Some(message), "topic") {
        Some(topic) => if str_eq(topic.as_str(), "registry.v1.get_providers") {
            Some(Request::ListProviders)
        } else if str_eq(topic.as_str(), "registry.v1.get_active_model") {
            Some(Request::ActiveModel)
        } else if str_eq(topic.as_str(), "registry.v1.set_active_model") {
            match message.get("payload") {
                Some(payload) => Some(handle_set_active_model(payload)),
                None => None,
            }
        } else {
            None
        },
        None => None,
    }
}

/// Reads what the words of a typed command ask for.
pub fn read_words(words: &Vec<String>) -> (request: Option<Request>)
    ensures
        request.deep_view() == words_request(words.deep_view()),
{
    if words.len() == 0 || !str_eq(words[0].as_str(), "/models") {
        None
    } else if words.len() >= 2 {
        Some(Request::SwitchModel(words[1].clone()))
    } else {
        Some(Request::PickModel)
    }
}

fn read_command_message(message: &Json) -> (request: Option<Request>)
    ensures
        request.deep_view() == command_request(message@),
{
    match text_of_member(message.get("payload"), "text") {
        Some(text) => read_words(&split_words(text.as_str())),
        None => None,
    }
}

fn read_selection_message(message: &Json) -> (request: Option<Request>)
    ensures
        request.deep_view() == selection_request(message@),
{
    match message.get("payload") {
        Some(payload) => match text_of_payload(payload, "selected_id") {
            Some(id) => Some(Request::SwitchModel(id)),
            None => None,
        },
        None => None,
    }
}

/// Reads what a message on a channel asks for.
pub fn read_message(channel: Channel, message: &Json) -> (request: Option<Request>)
    ensures
        request.deep_view() == request_of(channel, message@),
{
    match channel {
        Channel::Requests => read_protocol_message(message),
        Channel::Commands => read_command_message(message),
        Channel::Selections => read_selection_message(message),
        Channel::Reloads => None,
    }
}

fn messages_in(envelope: &Json) -> (found: Option<&Vec<Json>>)
    ensures
        match found {
            Some(items) => items_view(items@) == messages(Some(envelope@)),
            None => messages(Some(envelope@)) == Seq::<JsonV>::empty(),
        },
{
    match envelope.get("messages") {
        Some(member) => member.as_array(),
        None => None,
    }
}

/// Reads what the messages of an envelope ask for.
pub fn read_envelope(channel: Channel, envelope: &Json) -> (requests: Vec<Request>)
    ensures
        requests.deep_view() == requests_of(channel, messages(Some(envelope@))),
{
    let mut requests: Vec<Request> = Vec::new();
    assert(requests.deep_view() =~= Seq::<RequestV>::empty());
    match messages_in(envelope) {
        Some(items) => {
            let ghost documents = items_view(items@);
            proof {
                lemma_items_view(items@);
            }
            for i in 0..items.len()
                invariant
                    documents.len() == items.len(),
                    forall|j: int| 0 <= j < items.len() ==> #[trigger] documents[j] == items[j]@,
                    requests.deep_view() == requests_of(channel, documents.take(i as int)),
            {
                let ghost before = requests.deep_view();
                let ghost read = documents.take(i + 1);
                assert(read.drop_last() =~= documents.take(i as int));
                assert(read.last() == documents[i as int]);
                match read_message(channel, &items[i]) {
                    Some(request) => {
                        requests.push(request);
                        assert(requests.deep_view() =~= before.push(request@));
                    },
                    None => {},
                }
            }
            assert(documents.take(items.len() as int) =~= documents);
        },
        None => {},
    }
    requests
}

fn read_text(channel: Channel, poll_bytes: &[u8]) -> (requests: Vec<Request>)
    ensures
        requests.deep_view() == requests_of(channel, messages(json_text(poll_bytes@))),
{
    match parse_json(poll_bytes) {
        Some(envelope) => read_envelope(channel, &envelope),
        None => {
            let requests: Vec<Request> = Vec::new();
            assert(requests.deep_view() =~= Seq::<RequestV>::empty());
            requests
        },
    }
}

/// Reads an envelope of the registry's protocol.
pub fn handle_poll_envelope(poll_bytes: &[u8]) -> (requests: Vec<Request>)
    ensures
        requests.deep_view() == requests_of(Channel::Requests, messages(json_text(poll_bytes@))),
{
    read_text(Channel::Requests, poll_bytes)
}

/// Reads an envelope of typed commands and answers `/models`.
pub fn handle_command_envelope(poll_bytes: &[u8]) -> (requests: Vec<Request>)
    ensures
        requests.deep_view() == requests_of(Channel::Commands, messages(json_text(poll_bytes@))),
{
    read_text(Channel::Commands, poll_bytes)
}

/// Reads an envelope of the user's choices.
pub fn handle_selection_envelope(poll_bytes: &[u8]) -> (requests: Vec<Request>)
    ensures
        requests.deep_view() == requests_of(Channel::Selections, messages(json_text(poll_bytes@))),
{
    read_text(Channel::Selections, poll_bytes)
}

/// Tells whether an envelope holds a message from the kernel.
pub fn has_kernel_message(envelope: &Json) -> (found: bool)
    ensures
        found == from_kernel(Some(envelope@)),
{
    match messages_in(envelope) {
        Some(items) => {
            let ghost documents = messages(Some(envelope@));
            proof {
                lemma_items_view(items@);
            }
            for i in 0..items.len()
                invariant
                    documents == messages(Some(envelope@)),
                    documents.len() == items.len(),
                    forall|j: int| 0 <= j < items.len() ==> #[trigger] documents[j] == items[j]@,
                    forall|j: int| 0 <= j < i ==> !sent_by_kernel(#[trigger] documents[j]),
            {
                assert(documents[i as int] == items[i as int]@);
                match text_of_member(Some(&items[i]), "source_id") {
                    Some(source) => if str_eq(source.as_str(), KERNEL_UUID) {
                        assert(sent_by_kernel(messages(Some(envelope@))[i as int]));
                        return true;
                    },
                    None => {},
                }
            }
            false
        },
        None => false,
    }
}

/// Checks whether an envelope contains at least one message from the kernel.
///
/// Used to validate `astrid.v1.capsules_loaded` signals.
pub fn is_from_kernel(poll_bytes: &[u8]) -> (found: bool)
    ensures
        found == from_kernel(json_text(poll_bytes@)),
{
    match parse_json(poll_bytes) {
        Some(envelope) => has_kernel_message(&envelope),
        None => false,
    }
}

/// How many messages the event bus dropped, as an envelope says: none where it
/// says nothing.
pub open spec fn dropped(envelope: Option<JsonV>) -> u64 {
    match envelope {
        Some(json) => match json.get("dropped"@) {
            Some(JsonV::Number(Some(count))) => count,
            _ => 0,
        },
        None => 0,
    }
}

/// Reads from an envelope how many messages the event bus dropped.
pub fn dropped_in(envelope: &Json) -> (count: u64)
    ensures
        count == dropped(Some(envelope@)),
{
    match envelope.get("dropped") {
        Some(member) => match member.as_u64() {
            Some(count) => count,
            None => 0,
        },
        None => 0,
    }
}

/// Reads how many messages the event bus dropped.
pub fn dropped_messages(poll_bytes: &[u8]) -> (count: u64)
    ensures
        count == dropped(json_text(poll_bytes@)),
{
    match parse_json(poll_bytes) {
        Some(envelope) => dropped_in(&envelope),
        None => 0,
    }
}

} // verus!
