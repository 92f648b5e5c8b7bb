//! The registry's state in the capsule's key-value store.

use vstd::prelude::*;

use crate::codec::{
    law_state_round_trip, lemma_state_writable, state_json, state_of, state_to_json,
};
use crate::json::{json_bytes, json_text, write_json, JsonV};
use crate::provider::{empty_state, RegistryState, StateView};

verus! {

/// The key under which the state is stored.
pub const STATE_KEY: &'static str = "registry_state";

/// Takes the state that was read from the store. Where none could be read, as nothing
/// is stored or what is stored is no state, it is the empty one.
pub fn load_state(stored: Option<RegistryState>) -> (state: RegistryState)
    ensures
        state@ == (match stored {
            Some(read) => read@,
            None => empty_state(),
        }),
{
    match stored {
        Some(state) => state,
        None => RegistryState::default(),
    }
}

/// Whether a document is the JSON form of a state.
pub open spec fn describes(document: Option<JsonV>, state: StateView) -> bool {
    document is Some && state_of(document->0) == Some(state)
}

/// Writes the state as text to store. The text describes the state and no other.
pub fn save_state(state: &RegistryState) -> (text: Vec<u8>)
    ensures
        text@ == json_bytes(state_json(state@)),
        json_text(text@) == Some(state_json(state@)),
        describes(json_text(text@), state@),
{
    proof {
        lemma_state_writable(state@);
        law_state_round_trip(state@);
    }
    write_json(&state_to_json(state))
}

} // verus!
