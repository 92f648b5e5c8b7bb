//! Provider entries and the registry's state.

use vstd::prelude::*;

verus! {

/// What a provider entry says.
#[verifier::ext_equal]
pub struct ProviderView {
    pub id: Seq<char>,
    pub description: Seq<char>,
    pub request_topic: Seq<char>,
    pub stream_topic: Seq<char>,
    pub capabilities: Seq<Seq<char>>,
    pub context_window: Option<u64>,
    pub max_output_tokens: Option<u64>,
}

/// A resolved LLM provider with its IPC routing topics.
#[derive(Debug, PartialEq, Eq)]
pub struct ProviderEntry {
    /// Model ID (e.g. "gpt-5.4").
    pub id: String,
    /// Human-readable description.
    pub description: String,
    /// IPC topic to publish LLM requests to.
    pub request_topic: String,
    /// IPC topic the provider streams responses on.
    pub stream_topic: String,
    /// Model capabilities (e.g. "text", "vision", "tools").
    pub capabilities: Vec<String>,
    /// Provider's context window size in tokens, if declared.
    pub context_window: Option<u64>,
    /// Provider's max output tokens, if declared.
    pub max_output_tokens: Option<u64>,
}

impl View for ProviderEntry {
    type V = ProviderView;

    open spec fn view(&self) -> ProviderView {
        ProviderView {
            id: self.id@,
            description: self.description@,
            request_topic: self.request_topic@,
            stream_topic: self.stream_topic@,
            capabilities: self.capabilities.deep_view(),
            context_window: self.context_window,
            max_output_tokens: self.max_output_tokens,
        }
    }
}

impl DeepView for ProviderEntry {
    type V = ProviderView;

    open spec fn deep_view(&self) -> ProviderView {
        self@
    }
}

/// Copies a list of strings.
fn clone_texts(texts: &Vec<String>) -> (copy: Vec<String>)
    ensures
        copy.deep_view() == texts.deep_view(),
{
    let mut copy: Vec<String> = Vec::new();
    for i in 0..texts.len()
        invariant
            copy.len() == i,
            forall|j: int| 0 <= j < i ==> #[trigger] copy[j]@ == texts[j]@,
    {
        copy.push(texts[i].clone());
    }
    assert(copy.deep_view() =~= texts.deep_view());
    copy
}

impl Clone for ProviderEntry {
    fn clone(&self) -> (copy: Self)
        ensures
            copy@ == self@,
    {
        ProviderEntry {
            id: self.id.clone(),
            description: self.description.clone(),
            request_topic: self.request_topic.clone(),
            stream_topic: self.stream_topic.clone(),
            capabilities: clone_texts(&self.capabilities),
            context_window: self.context_window,
            max_output_tokens: self.max_output_tokens,
        }
    }
}

/// Copies a list of provider entries.
pub fn clone_providers(providers: &Vec<ProviderEntry>) -> (copy: Vec<ProviderEntry>)
    ensures
        copy.deep_view() == providers.deep_view(),
{
    let mut copy: Vec<ProviderEntry> = Vec::new();
    for i in 0..providers.len()
        invariant
            copy.len() == i,
            forall|j: int| 0 <= j < i ==> #[trigger] copy[j]@ == providers[j]@,
    {
        copy.push(providers[i].clone());
    }
    assert(copy.deep_view() =~= providers.deep_view());
    copy
}

/// The first provider of a list whose model ID is `id`.
pub open spec fn find(providers: Seq<ProviderView>, id: Seq<char>) -> Option<ProviderView>
    decreases providers.len(),
{
    if providers.len() == 0 {
        None
    } else if providers[0].id == id {
        Some(providers[0])
    } else {
        find(providers.skip(1), id)
    }
}

/// Finds the first provider with a model ID.
pub fn find_provider<'a>(providers: &'a Vec<ProviderEntry>, id: &String) -> (found: Option<
    &'a ProviderEntry,
>)
    ensures
        match found {
            Some(provider) => find(providers.deep_view(), id@) == Some(provider@),
            None => find(providers.deep_view(), id@) is None,
        },
{
    assert(providers.deep_view().skip(0) =~= providers.deep_view());
    for i in 0..providers.len()
        invariant
            find(providers.deep_view(), id@) == find(providers.deep_view().skip(i as int), id@),
    {
        let ghost rest = providers.deep_view().skip(i as int);
        assert(rest[0] == providers[i as int]@);
        assert(rest.skip(1) =~= providers.deep_view().skip(i + 1));
        if providers[i].id == *id {
            return Some(&providers[i]);
        }
    }
    None
}

/// What the registry knows.
#[verifier::ext_equal]
pub struct StateView {
    pub providers: Seq<ProviderView>,
    pub active_model_id: Option<Seq<char>>,
}

/// The persisted registry state.
#[derive(Debug, PartialEq, Eq)]
pub struct RegistryState {
    pub providers: Vec<ProviderEntry>,
    pub active_model_id: Option<String>,
}

impl View for RegistryState {
    type V = StateView;

    open spec fn view(&self) -> StateView {
        StateView {
            providers: self.providers.deep_view(),
            active_model_id: self.active_model_id.deep_view(),
        }
    }
}

impl DeepView for RegistryState {
    type V = StateView;

    open spec fn deep_view(&self) -> StateView {
        self@
    }
}

/// The state of a registry that has discovered and selected nothing.
pub open spec fn empty_state() -> StateView {
    StateView { providers: Seq::empty(), active_model_id: None }
}

impl Default for RegistryState {
    fn default() -> (state: Self)
        ensures
            state@ == empty_state(),
    {
        let state = RegistryState { providers: Vec::new(), active_model_id: None };
        assert(state@ =~= empty_state());
        state
    }
}

impl Clone for RegistryState {
    fn clone(&self) -> (copy: Self)
        ensures
            copy@ == self@,
    {
        RegistryState {
            providers: clone_providers(&self.providers),
            active_model_id: match &self.active_model_id {
                Some(id) => Some(id.clone()),
                None => None,
            },
        }
    }
}

} // verus!
