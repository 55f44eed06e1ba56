//! The credential-lifecycle cache.
//!
//! The relay owns one renewable bearer credential for the chat platform's
//! authenticated APIs. Every caller goes through `getValidToken`, which under
//! the cache's exclusive lock compares the current time to the credential's
//! expiry and renews when it is within a fixed safety margin. The decision
//! and the installation of a freshly issued token are the verified functions
//! here; the lock, the clock and the issuance call itself are the caller's.

use vstd::prelude::*;
use crate::json::Json;

verus! {

/// Seconds before expiry within which a credential counts as expiring and
/// must be renewed before use: a thirty-minute safety margin.
pub const RENEWAL_MARGIN_SECS: u64 = 1800;

/// A bearer credential: the token, and the wall-clock instant (seconds since
/// the epoch) after which it must no longer be used without renewal.
///
/// The cache holds exactly one of these, mutated only by `complete_renewal`.
#[derive(Debug, PartialEq, Eq)]
pub struct Credential {
    pub token: String,
    pub expires_at: u64,
}

/// A token fresh from the platform's issuance endpoint: the token itself and
/// its lifetime in seconds from the moment of issuance.
#[derive(Debug, PartialEq, Eq)]
pub struct IssuedToken {
    pub token: String,
    pub lifetime_secs: u64,
}

/// Whether the credential is due for renewal at `now`: it expires within the
/// safety margin.
pub open spec fn spec_needs_renewal(c: Credential, now: u64) -> bool {
    c.expires_at <= now + RENEWAL_MARGIN_SECS
}

/// Whether the credential is due for renewal at `now`.
pub fn needs_renewal(c: &Credential, now: u64) -> (r: bool)
    ensures
        r == spec_needs_renewal(*c, now),
{
    if c.expires_at <= now {
        true
    } else {
        c.expires_at - now <= RENEWAL_MARGIN_SECS
    }
}

/// What one call of `getValidToken` does, given the cached credential and
/// the current time: serve the cached token, or demand a renewal first.
#[derive(Debug, PartialEq, Eq)]
pub enum TokenDecision {
    UseCached(String),
    Renew,
}

/// The decision as a value: renew exactly when the credential is due for
/// renewal, serve the stored token otherwise.
pub open spec fn spec_token_step(c: Credential, now: u64) -> TokenDecision {
    if spec_needs_renewal(c, now) {
        TokenDecision::Renew
    } else {
        TokenDecision::UseCached(c.token)
    }
}

/// The check half of `getValidToken`, to be made under the cache's exclusive
/// lock: while the credential expires more than the safety margin after
/// `now`, the cached token is served as it stands; otherwise the caller must
/// obtain a fresh token from the issuance endpoint and install it with
/// `complete_renewal` before answering.
pub fn get_valid_token_step(c: &Credential, now: u64) -> (d: TokenDecision)
    ensures
        d == spec_token_step(*c, now),
{
    if needs_renewal(c, now) {
        TokenDecision::Renew
    } else {
        TokenDecision::UseCached(c.token.clone())
    }
}

/// The credential that a renewal at `now` installs: the issued token, expiring
/// its issued lifetime after `now`.
pub open spec fn spec_renewed(now: u64, issued: IssuedToken) -> Credential {
    Credential { token: issued.token, expires_at: (now + issued.lifetime_secs) as u64 }
}

/// The renewal half of `getValidToken`, to be run under the same exclusive
/// lock as the check: replaces the cached credential with the freshly issued
/// token and a fresh expiry of `now` plus the issued lifetime, and returns
/// the new token. On a failed issuance nothing calls this, and the cache
/// keeps the old credential.
pub fn complete_renewal(c: &mut Credential, now: u64, issued: IssuedToken) -> (t: String)
    requires
        now + issued.lifetime_secs <= u64::MAX,
    ensures
        *final(c) == spec_renewed(now, issued),
        t == final(c).token,
{
    let t = issued.token.clone();
    *c = Credential { token: issued.token, expires_at: now + issued.lifetime_secs };
    t
}

/// The issuance endpoint answers renewal with a JSON body holding the new
/// token under `tenant_access_token` and its lifetime in seconds under
/// `expire`. This is that reading, when the body has both fields.
pub open spec fn spec_issued_of(resp: Json) -> Option<IssuedToken> {
    match resp.spec_get("tenant_access_token"@) {
        Some(Json::Str(tok)) => match resp.spec_get("expire"@) {
            Some(Json::Num(Some(n))) => Some(IssuedToken { token: tok, lifetime_secs: n }),
            _ => None,
        },
        _ => None,
    }
}

/// A renewal failure: the issuance endpoint's response did not carry a token
/// and a lifetime. Fatal to the operation that needed the token; the cache
/// is left untouched.
#[derive(Debug, PartialEq, Eq)]
pub enum TokenError {
    MalformedIssuanceResponse,
}

/// Reads the issuance endpoint's response body: `Ok` exactly when the body
/// is an object with a string `tenant_access_token` and an integral `expire`,
/// carrying those two values.
pub fn parse_token_response(resp: &Json) -> (r: Result<IssuedToken, TokenError>)
    ensures
        match r {
            Ok(t) => spec_issued_of(*resp) == Some(t),
            Err(_) => spec_issued_of(*resp) is None,
        },
{
    let tok: String = match resp.get("tenant_access_token") {
        Some(v) => match v {
            Json::Str(s) => s.clone(),
            _ => {
                return Err(TokenError::MalformedIssuanceResponse);
            },
        },
        None => {
            return Err(TokenError::MalformedIssuanceResponse);
        },
    };
    let lifetime: u64 = match resp.get("expire") {
        Some(v) => match v {
            Json::Num(n) => match n {
                Some(secs) => *secs,
                None => {
                    return Err(TokenError::MalformedIssuanceResponse);
                },
            },
            _ => {
                return Err(TokenError::MalformedIssuanceResponse);
            },
        },
        None => {
            return Err(TokenError::MalformedIssuanceResponse);
        },
    };
    Ok(IssuedToken { token: tok, lifetime_secs: lifetime })
}

/// A credential expiring more than the safety margin after `now` is served
/// from the cache as it stands: `getValidToken` returns the stored token and
/// does not invoke renewal.
pub proof fn lemma_fresh_credential_served_from_cache(c: Credential, now: u64)
    requires
        c.expires_at > now + RENEWAL_MARGIN_SECS,
    ensures
        spec_token_step(c, now) == TokenDecision::UseCached(c.token),
{
}

/// A credential expiring within the safety margin of `now` is never served:
/// `getValidToken` demands exactly one renewal, and what it then returns is
/// the newly issued token (`complete_renewal` returns the token it installs).
pub proof fn lemma_expiring_credential_renews(c: Credential, now: u64)
    requires
        c.expires_at <= now + RENEWAL_MARGIN_SECS,
    ensures
        spec_token_step(c, now) == TokenDecision::Renew,
{
}

/// Renewal settles the cache: after a renewal at `now` whose issued lifetime
/// exceeds the safety margin, the installed credential is not due for renewal
/// at `now`. Under the serialized check-and-renew discipline this is why
/// concurrent callers that all observe an expiring credential cause one
/// renewal, not one each: whoever enters after the first renewal finds the
/// fresh credential and takes the cached path.
pub proof fn lemma_renewal_settles_cache(now: u64, issued: IssuedToken)
    requires
        issued.lifetime_secs > RENEWAL_MARGIN_SECS,
        now + issued.lifetime_secs <= u64::MAX,
    ensures
        !spec_needs_renewal(spec_renewed(now, issued), now),
        spec_token_step(spec_renewed(now, issued), now) == TokenDecision::UseCached(issued.token),
{
}

} // verus!
