//! The event classifier.
//!
//! An inbound webhook body is one of four things: a challenge-verification
//! request, a supported versioned (v2) message-receive event, a legacy (v1)
//! event shape this relay does not implement, or malformed. The classifier
//! decides which, by inspecting the payload's shape — never by unchecked
//! access that could abort the process.

use vstd::prelude::*;
use crate::json::{Json, lookup_field, take_field, take_two_fields, str_eq};

verus! {

/// What the classifier makes of an inbound payload.
#[derive(Debug, PartialEq, Eq)]
pub enum Classification {
    /// A challenge-verification request, carrying the challenge value to echo.
    Verification(Json),
    /// A supported versioned message-receive event: its header object and its
    /// event object, in that order.
    MessageEvent(Json, Json),
    /// A legacy event shape — an object with neither `type` marking a
    /// verification nor a `schema` — which this relay does not implement.
    UnsupportedV1,
    /// Anything else: not an object, a verification request without a
    /// challenge, a versioned event whose header or event is absent or not
    /// an object, or an event type out of scope.
    Malformed,
}

/// Whether the payload announces itself as a challenge verification: its
/// `type` field is the string `url_verification`.
pub open spec fn spec_is_verification(p: Json) -> bool {
    match p.spec_get("type"@) {
        Some(Json::Str(s)) => s@ == "url_verification"@,
        _ => false,
    }
}

/// Whether a versioned event's header names the message-receive event type.
pub open spec fn spec_is_message_header(h: Json) -> bool {
    match h.spec_get("event_type"@) {
        Some(Json::Str(s)) => s@ == "im.message.receive_v1"@,
        _ => false,
    }
}

/// The classifier's decision procedure, in order: a payload that is not an
/// object is malformed; a `type` of `url_verification` is a verification
/// request, malformed when its `challenge` is absent; otherwise a present
/// `schema` marks a versioned event, whose `header` and `event` must both be
/// present objects and whose `header.event_type` must be the message-receive
/// type — any other event type is out of scope and malformed for dispatch;
/// and an object with neither marking is the legacy v1 shape.
pub open spec fn spec_classify(p: Json) -> Classification {
    if !(p matches Json::Obj(_)) {
        Classification::Malformed
    } else if spec_is_verification(p) {
        match p.spec_get("challenge"@) {
            Some(c) => Classification::Verification(c),
            None => Classification::Malformed,
        }
    } else if p.spec_get("schema"@) is Some {
        match (p.spec_get("header"@), p.spec_get("event"@)) {
            (Some(h), Some(e)) => if h.is_object() && e.is_object()
                && spec_is_message_header(h) {
                Classification::MessageEvent(h, e)
            } else {
                Classification::Malformed
            },
            _ => Classification::Malformed,
        }
    } else {
        Classification::UnsupportedV1
    }
}

/// Classifies an inbound payload, handing the challenge value or the header
/// and event objects out of it.
pub fn classify(payload: Json) -> (r: Classification)
    ensures
        r == spec_classify(payload),
{
    match payload {
        Json::Obj(mut fields) => {
            let is_ver: bool = match lookup_field(&fields, "type") {
                Some(v) => match v {
                    Json::Str(s) => str_eq(s.as_str(), "url_verification"),
                    _ => false,
                },
                None => false,
            };
            if is_ver {
                match take_field(&mut fields, "challenge") {
                    Some(c) => Classification::Verification(c),
                    None => Classification::Malformed,
                }
            } else {
                let has_schema: bool = match lookup_field(&fields, "schema") {
                    Some(_) => true,
                    None => false,
                };
                if has_schema {
                    proof {
                        reveal_strlit("header");
                        reveal_strlit("event");
                        assert("header"@.len() != "event"@.len());
                    }
                    let he = take_two_fields(&mut fields, "header", "event");
                    match he {
                        (Some(h), Some(e)) => {
                            let h_is_obj: bool = match &h {
                                Json::Obj(_) => true,
                                _ => false,
                            };
                            let e_is_obj: bool = match &e {
                                Json::Obj(_) => true,
                                _ => false,
                            };
                            let is_msg: bool = match h.get("event_type") {
                                Some(v) => match v {
                                    Json::Str(s) => str_eq(s.as_str(), "im.message.receive_v1"),
                                    _ => false,
                                },
                                None => false,
                            };
                            if h_is_obj && e_is_obj && is_msg {
                                Classification::MessageEvent(h, e)
                            } else {
                                Classification::Malformed
                            }
                        },
                        _ => Classification::Malformed,
                    }
                } else {
                    Classification::UnsupportedV1
                }
            }
        },
        _ => Classification::Malformed,
    }
}

} // verus!
