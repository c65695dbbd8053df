//! Adapters that translate one text-generation request into the wire format
//! of several language-model backends, and normalise what comes back.
pub mod json;
pub mod decode;
pub mod schema;
pub mod types;
pub mod response;
pub mod http;
pub mod envelope;
pub mod anthropic;
pub mod gemini;
pub mod prompt_utils;
pub mod ollama;
pub mod chat;
pub mod openai;
pub mod litellm;
