//! A relay for paraphrase requests: it turns a caller's text into a request
//! for a chat-completion service and turns what the service answers into the
//! reply for the caller.
//!
//! The crate decides; it performs no input or output. Its caller looks up the
//! credential, sends the outbound request and hands back what came of it.

pub mod error;
pub mod json;
pub mod laws;
pub mod message;
pub mod relay;
