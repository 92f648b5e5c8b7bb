//! Discovery of LLM providers.
//!
//! The kernel fans the hook `llm.v1.request.describe` out to all capsules with a
//! matching interceptor and returns a JSON array of their responses. Each provider
//! capsule answers `{"providers": [...]}`.

use vstd::prelude::*;

use crate::codec::{add_member, provider_from_json, provider_of, text_to_json};
use crate::json::{
    items_view, json_bytes, json_text, lemma_items_view, nesting, parse_json, writable, write_json,
    Json, JsonV,
};
use crate::provider::{ProviderEntry, ProviderView};

verus! {

/// The hook's trigger, which asks every provider capsule to describe itself.
pub open spec fn describe_json() -> JsonV {
    JsonV::Object(
        map![
            "hook"@ => JsonV::Text("llm.v1.request.describe"@),
            "payload"@ => JsonV::Object(Map::empty()),
        ],
    )
}

/// Makes the hook's trigger.
pub fn describe_to_json() -> (json: Json)
    ensures
        json@ == describe_json(),
{
    let mut members: Vec<(String, Json)> = Vec::new();
    add_member(&mut members, "hook", text_to_json("llm.v1.request.describe"));
    add_member(&mut members, "payload", Json::Object(Vec::new()));
    Json::Object(members)
}

/// Writes the hook's trigger as text.
pub fn describe_request() -> (text: Vec<u8>)
    ensures
        text@ == json_bytes(describe_json()),
        json_text(text@) == Some(describe_json()),
{
    assert(writable(describe_json(), nesting())) by {
        reveal_with_fuel(writable, 3);
    }
    write_json(&describe_to_json())
}

/// What a row of responses offers as providers, one after the other. A response
/// without an array under `providers` offers nothing.
pub open spec fn offered(responses: Seq<JsonV>) -> Seq<JsonV>
    decreases responses.len(),
{
    if responses.len() == 0 {
        Seq::empty()
    } else {
        offered(responses.drop_last()) + offered_by(responses.last())
    }
}

/// What one response offers as providers.
pub open spec fn offered_by(response: JsonV) -> Seq<JsonV> {
    match response.get("providers"@) {
        Some(JsonV::Array(offers)) => offers,
        _ => Seq::empty(),
    }
}

/// The provider entries among what is offered, in the order of the offers.
pub open spec fn valid_providers(offers: Seq<JsonV>) -> Seq<ProviderView>
    decreases offers.len(),
{
    if offers.len() == 0 {
        Seq::empty()
    } else {
        match provider_of(offers.last()) {
            Some(provider) => valid_providers(offers.drop_last()).push(provider),
            None => valid_providers(offers.drop_last()),
        }
    }
}

/// The providers that the hook's answer describes: none where it is not an array.
pub open spec fn discovered(answer: Option<JsonV>) -> Seq<ProviderView> {
    match answer {
        Some(JsonV::Array(responses)) => valid_providers(offered(responses)),
        _ => Seq::empty(),
    }
}

/// Adds the providers that one response offers to a list.
fn add_offered(
    response: &Json,
    providers: &mut Vec<ProviderEntry>,
    Ghost(before): Ghost<Seq<JsonV>>,
)
    requires
        old(providers).deep_view() == valid_providers(before),
    ensures
        final(providers).deep_view() == valid_providers(before + offered_by(response@)),
{
    let offers = match response.get("providers") {
        Some(member) => match member.as_array() {
            Some(offers) => offers,
            None => {
                assert(before + offered_by(response@) =~= before);
                return;
            },
        },
        None => {
            assert(before + offered_by(response@) =~= before);
            return;
        },
    };
    let ghost documents = items_view(offers@);
    proof {
        lemma_items_view(offers@);
        assert(before + documents.take(0) =~= before);
    }
    for i in 0..offers.len()
        invariant
            documents.len() == offers.len(),
            forall|j: int| 0 <= j < offers.len() ==> #[trigger] documents[j] == offers[j]@,
            providers.deep_view() == valid_providers(before + documents.take(i as int)),
    {
        let ghost found = providers.deep_view();
        let ghost read = before + documents.take(i + 1);
        assert(read.drop_last() =~= before + documents.take(i as int));
        assert(read.last() == documents[i as int]);
        match provider_from_json(&offers[i]) {
            Some(provider) => {
                providers.push(provider);
                assert(providers.deep_view() =~= found.push(provider@));
            },
            None => {},
        }
    }
    assert(documents.take(offers.len() as int) =~= documents);
}

/// Collects the providers that the hook's answer describes.
pub fn providers_in(answer: &Json) -> (providers: Vec<ProviderEntry>)
    ensures
        providers.deep_view() == discovered(Some(answer@)),
{
    let mut providers: Vec<ProviderEntry> = Vec::new();
    assert(providers.deep_view() =~= Seq::<ProviderView>::empty());
    match answer.as_array() {
        Some(responses) => {
            let ghost documents = items_view(responses@);
            proof {
                lemma_items_view(responses@);
            }
            for i in 0..responses.len()
                invariant
                    documents.len() == responses.len(),
                    forall|j: int|
                        0 <= j < responses.len() ==> #[trigger] documents[j] == responses[j]@,
                    providers.deep_view() == valid_providers(offered(documents.take(i as int))),
            {
                let ghost read = documents.take(i + 1);
                assert(read.drop_last() =~= documents.take(i as int));
                assert(read.last() == documents[i as int]);
                add_offered(
                    &responses[i],
                    &mut providers,
                    Ghost(offered(documents.take(i as int))),
                );
            }
            assert(documents.take(responses.len() as int) =~= documents);
        },
        None => {},
    }
    providers
}

/// Reads the providers from the hook's answer.
///
/// Offers that do not describe a provider are passed over, and an answer that is
/// not a JSON array gives no provider.
pub fn discover_providers(answer: &[u8]) -> (providers: Vec<ProviderEntry>)
    ensures
        providers.deep_view() == discovered(json_text(answer@)),
{
    match parse_json(answer) {
        Some(json) => providers_in(&json),
        None => {
            let providers: Vec<ProviderEntry> = Vec::new();
            assert(providers.deep_view() =~= Seq::<ProviderView>::empty());
            providers
        },
    }
}

} // verus!
