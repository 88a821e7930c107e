//! Codec for a chat-platform command and interaction protocol.
//!
//! The crate converts between a compact wire representation (small integer
//! discriminants plus shaped key/value payloads) and a type-safe in-memory
//! model, in both directions: it decodes inbound interaction events and
//! encodes outbound command registrations, messages, and responses.
//!
//! The wire representation is the [`wire::WireValue`] tree; the surrounding
//! application is expected to move such trees to and from its transport's
//! concrete JSON encoding.

pub mod component;
pub mod errors;
pub mod interaction;
pub mod register;
pub mod response;
pub mod types;
pub mod wire;
