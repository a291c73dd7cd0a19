//! Core of an agent runtime: a canonical message model, a format adapter for
//! OpenAI-style chat backends (with a markup fallback for tool calls), usage
//! and cost accounting, capability negotiation and a JSON-RPC tool router.
pub mod json;
pub mod capabilities;
pub mod message;
pub mod router;
pub mod prompt;
pub mod usage;
pub mod markup;
pub mod openai_format;
pub mod provider;
pub mod laws;
pub mod mobile;
