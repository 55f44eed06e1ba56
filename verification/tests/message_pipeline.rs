//! The message pipeline on concrete events: extraction, the completion
//! request, the choice of reply, and the send-message body.

use lark_relay::json::Json;
use lark_relay::message::{
    chat_message, completion_request, extract_raw_message, reply_text, ChatMessage, ExtractError,
    RawMessage,
};
use lark_relay::encode::send_message_body;

fn obj(pairs: Vec<(&str, Json)>) -> Json {
    Json::Obj(pairs.into_iter().map(|(k, v)| (k.to_string(), v)).collect())
}

fn s(v: &str) -> Json {
    Json::Str(v.to_string())
}

fn message_event(open_id: &str, content: &str) -> Json {
    obj(vec![
        ("sender", obj(vec![("sender_id", obj(vec![("open_id", s(open_id))]))])),
        ("message", obj(vec![("content", s(content))])),
    ])
}

#[test]
fn extraction_reads_sender_and_content() {
    let event = message_event("ou_123", "{\"text\":\"hello\"}");
    assert_eq!(
        extract_raw_message(event),
        Ok(RawMessage {
            sender_open_id: "ou_123".to_string(),
            content: "{\"text\":\"hello\"}".to_string(),
        })
    );
}

#[test]
fn extraction_without_sender_path_fails() {
    let event = obj(vec![("message", obj(vec![("content", s("{}"))]))]);
    assert_eq!(extract_raw_message(event), Err(ExtractError::MissingOpenId));
}

#[test]
fn extraction_with_non_string_open_id_fails() {
    let event = obj(vec![
        ("sender", obj(vec![("sender_id", obj(vec![("open_id", Json::Num(Some(7)))]))])),
        ("message", obj(vec![("content", s("{}"))])),
    ]);
    assert_eq!(extract_raw_message(event), Err(ExtractError::MissingOpenId));
}

#[test]
fn extraction_without_message_content_fails() {
    let event = obj(vec![
        ("sender", obj(vec![("sender_id", obj(vec![("open_id", s("ou_123"))]))])),
        ("message", obj(vec![])),
    ]);
    assert_eq!(extract_raw_message(event), Err(ExtractError::MissingContent));
}

#[test]
fn chat_message_takes_the_text_field_of_the_parsed_content() {
    let parsed = obj(vec![("text", s("hello"))]);
    assert_eq!(
        chat_message("ou_123".to_string(), Some(parsed)),
        Ok(ChatMessage { sender_open_id: "ou_123".to_string(), text: "hello".to_string() })
    );
}

#[test]
fn chat_message_rejects_unparsed_content() {
    assert_eq!(chat_message("ou_123".to_string(), None), Err(ExtractError::ContentNotJson));
}

#[test]
fn chat_message_rejects_content_without_text() {
    let parsed = obj(vec![("image_key", s("img_1"))]);
    assert_eq!(
        chat_message("ou_123".to_string(), Some(parsed)),
        Err(ExtractError::MissingText)
    );
}

#[test]
fn completion_request_holds_one_user_message_and_the_default_model() {
    let r = completion_request(None, "hello".to_string());
    assert_eq!(r.model, "gpt-3.5-turbo".to_string());
    assert_eq!(r.user_messages, vec!["hello".to_string()]);
    assert_eq!(r.max_tokens, 1000);
}

#[test]
fn completion_request_keeps_a_configured_model() {
    let r = completion_request(Some("gpt-4".to_string()), "hello".to_string());
    assert_eq!(r.model, "gpt-4".to_string());
    assert_eq!(r.user_messages, vec!["hello".to_string()]);
}

#[test]
fn reply_is_the_first_choice_on_success() {
    let choices = vec!["hi there".to_string(), "ignored".to_string()];
    assert_eq!(reply_text(Some(choices)), "hi there".to_string());
}

#[test]
fn reply_falls_back_on_completion_failure() {
    assert_eq!(reply_text(None), "OpenAI Error".to_string());
}

#[test]
fn reply_falls_back_on_an_empty_choice_list() {
    assert_eq!(reply_text(Some(vec![])), "OpenAI Error".to_string());
}

#[test]
fn send_message_body_carries_receiver_and_enveloped_reply() {
    let body = send_message_body("ou_123", "hi there");
    assert_eq!(
        body,
        "{\"receive_id\":\"ou_123\",\"msg_type\":\"text\",\"content\":\"{\\\"text\\\":\\\"hi there\\\"}\"}"
    );
}
