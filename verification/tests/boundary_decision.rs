//! The boundary's decisions: what each payload shape is answered with.

use lark_relay::boundary::{route_event, status_code_of, Disposition, RejectReason};
use lark_relay::json::Json;

fn obj(pairs: Vec<(&str, Json)>) -> Json {
    Json::Obj(pairs.into_iter().map(|(k, v)| (k.to_string(), v)).collect())
}

fn s(v: &str) -> Json {
    Json::Str(v.to_string())
}

#[test]
fn a_verification_payload_is_answered_in_request_with_the_challenge_echo() {
    let payload = obj(vec![("type", s("url_verification")), ("challenge", s("abc"))]);
    let d = route_event(payload);
    assert_eq!(d, Disposition::ChallengeReply(obj(vec![("challenge", s("abc"))])));
    assert_eq!(status_code_of(&d), 200);
}

#[test]
fn a_message_event_is_acknowledged_and_dispatched() {
    let event = obj(vec![("sender", s("placeholder"))]);
    let payload = obj(vec![
        ("schema", s("2.0")),
        ("header", obj(vec![("event_type", s("im.message.receive_v1"))])),
        ("event", obj(vec![("sender", s("placeholder"))])),
    ]);
    let d = route_event(payload);
    assert_eq!(d, Disposition::DispatchMessage(event));
    assert_eq!(status_code_of(&d), 200);
}

#[test]
fn the_legacy_shape_is_rejected_with_a_client_error() {
    let d = route_event(obj(vec![]));
    assert_eq!(d, Disposition::Reject(RejectReason::UnsupportedV1));
    assert_eq!(status_code_of(&d), 400);
}

#[test]
fn a_malformed_payload_is_rejected_with_a_client_error() {
    let d = route_event(Json::Bool(true));
    assert_eq!(d, Disposition::Reject(RejectReason::Malformed));
    assert_eq!(status_code_of(&d), 400);
}

#[test]
fn an_out_of_scope_event_type_is_rejected_with_a_client_error() {
    let payload = obj(vec![
        ("schema", s("2.0")),
        ("header", obj(vec![("event_type", s("im.chat.updated_v1"))])),
        ("event", obj(vec![])),
    ]);
    let d = route_event(payload);
    assert_eq!(d, Disposition::Reject(RejectReason::Malformed));
    assert_eq!(status_code_of(&d), 400);
}
