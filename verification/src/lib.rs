//! The LLM provider registry of a capsule system.

pub mod codec;
pub mod discovery;
pub mod document_laws;
pub mod effect_laws;
pub mod envelope;
pub mod handlers;
pub mod json;
pub mod laws;
pub mod logs;
pub mod message_laws;
pub mod notice;
pub mod provider;
pub mod registry;
pub mod reply_laws;
pub mod run_laws;
pub mod service_laws;
pub mod storage;
pub mod text;
pub mod trace_laws;
