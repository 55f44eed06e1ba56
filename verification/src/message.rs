//! The message pipeline.
//!
//! For a message-receive event the relay extracts the sender's open-id and
//! the message text, asks the completion service for a reply, and sends that
//! reply back to the sender. The extraction, the shape of the completion
//! request, and the choice of reply are the verified functions here; the
//! completion call itself, the JSON parse of the content string, and the
//! outbound send are the caller's, which hands their outcomes back in.

use vstd::prelude::*;
use vstd::string::StringExecFns;
use crate::json::{Json, take_field, take_two_fields};

verus! {

/// The subset of a message-receive event the relay answers: who sent the
/// message and what they wrote.
#[derive(Debug, PartialEq, Eq)]
pub struct ChatMessage {
    pub sender_open_id: String,
    pub text: String,
}

/// A fatal extraction failure: the event inside an otherwise well-formed
/// delivery is not shaped like a message. It aborts only the detached task
/// handling this one event.
#[derive(Debug, PartialEq, Eq)]
pub enum ExtractError {
    /// `sender.sender_id.open_id` is absent or not a string.
    MissingOpenId,
    /// `message.content` is absent or not a string.
    MissingContent,
    /// The content string did not parse as JSON.
    ContentNotJson,
    /// The parsed content has no string `text` field.
    MissingText,
}

/// The sender's open-id, read from `sender.sender_id.open_id`, when every
/// step of that path exists and the leaf is a string.
pub open spec fn spec_sender_open_id(event: Json) -> Option<String> {
    match event.spec_get("sender"@) {
        Some(s) => match s.spec_get("sender_id"@) {
            Some(sid) => match sid.spec_get("open_id"@) {
                Some(Json::Str(oid)) => Some(oid),
                _ => None,
            },
            None => None,
        },
        None => None,
    }
}

/// The string-encoded message content, read from `message.content`, when it
/// exists and is a string.
pub open spec fn spec_message_content(event: Json) -> Option<String> {
    match event.spec_get("message"@) {
        Some(m) => match m.spec_get("content"@) {
            Some(Json::Str(c)) => Some(c),
            _ => None,
        },
        None => None,
    }
}

/// What extraction reads straight off the event object: the sender's open-id
/// and the string-encoded content, still to be parsed as JSON.
#[derive(Debug, PartialEq, Eq)]
pub struct RawMessage {
    pub sender_open_id: String,
    pub content: String,
}

/// The first extraction step: `Ok` exactly when the event carries a string
/// sender open-id and a string message content, in which case it hands both
/// out; the open-id is checked first.
pub fn extract_raw_message(event: Json) -> (r: Result<RawMessage, ExtractError>)
    ensures
        match r {
            Ok(m) => spec_sender_open_id(event) == Some(m.sender_open_id)
                && spec_message_content(event) == Some(m.content),
            Err(e) => (e == ExtractError::MissingOpenId && spec_sender_open_id(event) is None)
                || (e == ExtractError::MissingContent && spec_sender_open_id(event) is Some
                    && spec_message_content(event) is None),
        },
{
    match event {
        Json::Obj(mut fields) => {
            proof {
                reveal_strlit("sender");
                reveal_strlit("message");
                assert("sender"@.len() != "message"@.len());
            }
            let sm = take_two_fields(&mut fields, "sender", "message");
            let (sender, msg) = sm;
            let open_id: String = match sender {
                Some(s) => match s {
                    Json::Obj(mut sfields) => match take_field(&mut sfields, "sender_id") {
                        Some(sid) => match sid {
                            Json::Obj(mut sidfields) => match take_field(
                                &mut sidfields,
                                "open_id",
                            ) {
                                Some(oid) => match oid {
                                    Json::Str(o) => o,
                                    _ => {
                                        return Err(ExtractError::MissingOpenId);
                                    },
                                },
                                None => {
                                    return Err(ExtractError::MissingOpenId);
                                },
                            },
                            _ => {
                                return Err(ExtractError::MissingOpenId);
                            },
                        },
                        None => {
                            return Err(ExtractError::MissingOpenId);
                        },
                    },
                    _ => {
                        return Err(ExtractError::MissingOpenId);
                    },
                },
                None => {
                    return Err(ExtractError::MissingOpenId);
                },
            };
            let content: String = match msg {
                Some(m) => match m {
                    Json::Obj(mut mfields) => match take_field(&mut mfields, "content") {
                        Some(c) => match c {
                            Json::Str(s) => s,
                            _ => {
                                return Err(ExtractError::MissingContent);
                            },
                        },
                        None => {
                            return Err(ExtractError::MissingContent);
                        },
                    },
                    _ => {
                        return Err(ExtractError::MissingContent);
                    },
                },
                None => {
                    return Err(ExtractError::MissingContent);
                },
            };
            Ok(RawMessage { sender_open_id: open_id, content })
        },
        _ => Err(ExtractError::MissingOpenId),
    }
}

/// The message text: the parsed content's `text` field, when it exists and
/// is a string.
pub open spec fn spec_text_of(content: Json) -> Option<String> {
    match content.spec_get("text"@) {
        Some(Json::Str(t)) => Some(t),
        _ => None,
    }
}

/// The second extraction step, once the content string has been parsed as
/// JSON by the caller (`parsed_content` is `None` when that parse failed):
/// `Ok` exactly when the parsed content carries a string `text` field,
/// pairing it with the sender's open-id.
pub fn chat_message(sender_open_id: String, parsed_content: Option<Json>) -> (r: Result<
    ChatMessage,
    ExtractError,
>)
    ensures
        match r {
            Ok(m) => m.sender_open_id == sender_open_id && (parsed_content matches Some(c)
                && spec_text_of(c) == Some(m.text)),
            Err(e) => (e == ExtractError::ContentNotJson && parsed_content is None)
                || (e == ExtractError::MissingText && (parsed_content matches Some(c)
                    && spec_text_of(c) is None)),
        },
{
    match parsed_content {
        None => Err(ExtractError::ContentNotJson),
        Some(c) => match c {
            Json::Obj(mut cfields) => match take_field(&mut cfields, "text") {
                Some(t) => match t {
                    Json::Str(text) => Ok(ChatMessage { sender_open_id, text }),
                    _ => Err(ExtractError::MissingText),
                },
                None => Err(ExtractError::MissingText),
            },
            _ => Err(ExtractError::MissingText),
        },
    }
}

/// The bounded maximum output length of a completion, in token-equivalent
/// units.
pub const COMPLETION_MAX_TOKENS: u16 = 1000;

/// A completion request: the model to use, the conversation — here always a
/// single user-role message — and the bounded output length.
#[derive(Debug, PartialEq, Eq)]
pub struct CompletionRequest {
    pub model: String,
    /// The contents of the user-role messages of the conversation, in order.
    pub user_messages: Vec<String>,
    pub max_tokens: u16,
}

/// Builds the completion request for a message text: one user-role message
/// holding exactly the text, the configured model — or the default
/// general-purpose chat model when none is configured — and the bounded
/// output length.
pub fn completion_request(model: Option<String>, text: String) -> (r: CompletionRequest)
    ensures
        r.model@ == match model {
            Some(m) => m@,
            None => "gpt-3.5-turbo"@,
        },
        r.user_messages@.len() == 1,
        r.user_messages@[0] == text,
        r.max_tokens == COMPLETION_MAX_TOKENS,
{
    let m: String = match model {
        Some(m) => m,
        None => String::from_str("gpt-3.5-turbo"),
    };
    let mut msgs: Vec<String> = Vec::new();
    msgs.push(text);
    CompletionRequest { model: m, user_messages: msgs, max_tokens: COMPLETION_MAX_TOKENS }
}

/// The reply to send back: the first returned choice's text on a successful
/// completion, and the fixed fallback otherwise — the user must always
/// receive some response. A nominally successful completion that carries no
/// choice at all also falls back.
pub fn reply_text(choices: Option<Vec<String>>) -> (r: String)
    ensures
        match choices {
            Some(cs) => if cs@.len() > 0 {
                r == cs@[0]
            } else {
                r@ == "OpenAI Error"@
            },
            None => r@ == "OpenAI Error"@,
        },
{
    match choices {
        Some(mut cs) => if cs.len() > 0 {
            cs.remove(0)
        } else {
            String::from_str("OpenAI Error")
        },
        None => String::from_str("OpenAI Error"),
    }
}

} // verus!
