//! A webhook-driven chat relay, verified.
//!
//! The library holds the logic of a relay that receives chat-platform event
//! callbacks, classifies them, extracts message events, and prepares the
//! outbound calls that answer them: the renewable bearer-credential cache,
//! the event classifier, the message pipeline, and the JSON bodies of the
//! outbound requests. All I/O — the HTTP server, the completion service,
//! the platform's token and send-message endpoints — lives outside the
//! library and hands it plain values.

pub mod json;
pub mod token;
pub mod classify;
pub mod boundary;
pub mod message;
pub mod encode;
