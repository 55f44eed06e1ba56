//! Credential-cache behaviour: expiry checks, renewal, and response parsing.

use lark_relay::json::Json;
use lark_relay::token::{
    complete_renewal, get_valid_token_step, needs_renewal, parse_token_response, Credential,
    IssuedToken, TokenDecision, TokenError,
};

fn cred(token: &str, expires_at: u64) -> Credential {
    Credential { token: token.to_string(), expires_at }
}

#[test]
fn fresh_credential_is_served_from_the_cache() {
    let now: u64 = 1_000_000;
    let c = cred("tok-old", now + 1801);
    assert!(!needs_renewal(&c, now));
    assert_eq!(get_valid_token_step(&c, now), TokenDecision::UseCached("tok-old".to_string()));
}

#[test]
fn credential_expiring_exactly_at_the_margin_renews() {
    let now: u64 = 1_000_000;
    let c = cred("tok-old", now + 1800);
    assert!(needs_renewal(&c, now));
    assert_eq!(get_valid_token_step(&c, now), TokenDecision::Renew);
}

#[test]
fn already_expired_credential_renews() {
    let now: u64 = 1_000_000;
    let c = cred("tok-old", now - 5);
    assert!(needs_renewal(&c, now));
    assert_eq!(get_valid_token_step(&c, now), TokenDecision::Renew);
}

#[test]
fn credential_with_small_expiry_does_not_underflow_the_check() {
    let c = cred("tok", 10);
    assert!(needs_renewal(&c, 0));
}

#[test]
fn renewal_installs_the_issued_token_and_returns_it() {
    let now: u64 = 1_000_000;
    let mut c = cred("tok-old", now + 100);
    let issued = IssuedToken { token: "tok-new".to_string(), lifetime_secs: 7200 };
    let t = complete_renewal(&mut c, now, issued);
    assert_eq!(t, "tok-new".to_string());
    assert_eq!(c, cred("tok-new", now + 7200));
}

#[test]
fn renewal_settles_the_cache_for_later_callers() {
    let now: u64 = 1_000_000;
    let mut c = cred("tok-old", now + 10);
    assert_eq!(get_valid_token_step(&c, now), TokenDecision::Renew);
    let issued = IssuedToken { token: "tok-new".to_string(), lifetime_secs: 7200 };
    complete_renewal(&mut c, now, issued);
    assert_eq!(get_valid_token_step(&c, now), TokenDecision::UseCached("tok-new".to_string()));
}

fn obj(pairs: Vec<(&str, Json)>) -> Json {
    Json::Obj(pairs.into_iter().map(|(k, v)| (k.to_string(), v)).collect())
}

#[test]
fn issuance_response_with_token_and_expiry_parses() {
    let resp = obj(vec![
        ("code", Json::Num(Some(0))),
        ("tenant_access_token", Json::Str("tok-issued".to_string())),
        ("expire", Json::Num(Some(7200))),
    ]);
    assert_eq!(
        parse_token_response(&resp),
        Ok(IssuedToken { token: "tok-issued".to_string(), lifetime_secs: 7200 })
    );
}

#[test]
fn issuance_response_without_token_is_rejected() {
    let resp = obj(vec![("expire", Json::Num(Some(7200)))]);
    assert_eq!(parse_token_response(&resp), Err(TokenError::MalformedIssuanceResponse));
}

#[test]
fn issuance_response_without_expiry_is_rejected() {
    let resp = obj(vec![("tenant_access_token", Json::Str("tok".to_string()))]);
    assert_eq!(parse_token_response(&resp), Err(TokenError::MalformedIssuanceResponse));
}

#[test]
fn issuance_response_with_non_integral_expiry_is_rejected() {
    let resp = obj(vec![
        ("tenant_access_token", Json::Str("tok".to_string())),
        ("expire", Json::Num(None)),
    ]);
    assert_eq!(parse_token_response(&resp), Err(TokenError::MalformedIssuanceResponse));
}

#[test]
fn non_object_issuance_response_is_rejected() {
    assert_eq!(parse_token_response(&Json::Null), Err(TokenError::MalformedIssuanceResponse));
}
