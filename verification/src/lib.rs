//! Model catalog resolution for an OpenAI-compatible gateway in front of a
//! conversational-AI backend: retrieval of the backend's model list, a
//! process-wide catalog cache with double-checked population, a pure merge
//! engine applying operator overrides and custom entries, and a global
//! admission gate that spaces outbound calls.

pub mod cache;
pub mod clock;
pub mod config;
pub mod gate;
pub mod lower;
pub mod merge;
pub mod records;
pub mod source;
