//! The HTTP boundary's decision.
//!
//! The single inbound endpoint takes the raw payload, applies the classifier,
//! and decides the response: a verification is answered in the same request
//! with the challenge echo; a message event is acknowledged at once with an
//! empty success body while the message handler runs detached; everything
//! else is rejected with a client-error status. The HTTP server itself lives
//! outside the library and only performs what is decided here.

use vstd::prelude::*;
use vstd::string::StringExecFns;
use crate::json::Json;
use crate::classify::{Classification, spec_classify, classify};

verus! {

/// Why a payload is rejected with a client-error status.
#[derive(Debug, PartialEq, Eq)]
pub enum RejectReason {
    /// The legacy v1 event shape, deliberately not implemented.
    UnsupportedV1,
    /// Malformed, or an event type out of scope.
    Malformed,
}

/// What the boundary does with an inbound payload.
#[derive(Debug, PartialEq, Eq)]
pub enum Disposition {
    /// Answer within the same request, with this challenge echo body.
    ChallengeReply(Json),
    /// Acknowledge at once with an empty success body, and hand this event
    /// object to the message handler, detached from the request.
    DispatchMessage(Json),
    /// Reject with a client-error status and this reason.
    Reject(RejectReason),
}

/// The challenge echo body: an object with the single field `challenge`
/// holding the challenge value.
pub open spec fn spec_is_challenge_body(b: Json, c: Json) -> bool {
    b matches Json::Obj(fs) && fs@.len() == 1 && fs@[0].0@ == "challenge"@ && fs@[0].1 == c
}

/// How the boundary answers what the classifier decides.
pub open spec fn spec_disposition_ok(p: Json, d: Disposition) -> bool {
    match spec_classify(p) {
        Classification::Verification(c) => d matches Disposition::ChallengeReply(b)
            && spec_is_challenge_body(b, c),
        Classification::MessageEvent(h, e) => d == Disposition::DispatchMessage(e),
        Classification::UnsupportedV1 => d == Disposition::Reject(RejectReason::UnsupportedV1),
        Classification::Malformed => d == Disposition::Reject(RejectReason::Malformed),
    }
}

/// Classifies the payload and decides the response.
pub fn route_event(payload: Json) -> (d: Disposition)
    ensures
        spec_disposition_ok(payload, d),
{
    match classify(payload) {
        Classification::Verification(c) => {
            let mut fs: Vec<(String, Json)> = Vec::new();
            fs.push((String::from_str("challenge"), c));
            Disposition::ChallengeReply(Json::Obj(fs))
        },
        Classification::MessageEvent(_header, event) => Disposition::DispatchMessage(event),
        Classification::UnsupportedV1 => Disposition::Reject(RejectReason::UnsupportedV1),
        Classification::Malformed => Disposition::Reject(RejectReason::Malformed),
    }
}

/// The HTTP status a disposition answers with: success for the challenge
/// echo and for an acknowledged dispatch, a client error for a rejection.
pub fn status_code_of(d: &Disposition) -> (s: u16)
    ensures
        (d matches Disposition::Reject(_)) ==> s == 400,
        !(d matches Disposition::Reject(_)) ==> s == 200,
{
    match d {
        Disposition::Reject(_) => 400,
        _ => 200,
    }
}

} // verus!
