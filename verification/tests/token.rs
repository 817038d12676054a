use zuora_rest_client::token::{AccessToken, Grant, TokenDecision, TokenStore, REFRESH_MARGIN};
use zuora_rest_client::{Zuora, ZuoraTrait};

fn grant(expires_in: u64) -> Grant {
    Grant {
        access_token: String::from("access"),
        token_type: String::from("bearer"),
        expires_in,
        scope: String::from("scope"),
        jti: String::from("jti"),
    }
}

fn client() -> Zuora {
    Zuora::new(
        String::from("id"),
        String::from("secret"),
        String::from("https://rest.test"),
        String::from("/v1"),
        3,
    )
}

#[test]
fn token_members_and_expiry() {
    let token = AccessToken::new(grant(100), 1000);
    assert_eq!(token.grant(), &grant(100));
    assert_eq!(token.access_token(), "access");
    assert_eq!(token.issued_at(), 1000);
    assert_eq!(token.expires_at(), 1100);
    let endless = AccessToken::new(grant(u64::MAX), 5);
    assert_eq!(endless.expires_at(), u64::MAX);
}

#[test]
fn token_is_usable_until_the_margin() {
    assert_eq!(REFRESH_MARGIN, 30);
    let token = AccessToken::new(grant(100), 1000);
    assert!(token.usable_at(0));
    assert!(token.usable_at(1000));
    assert!(token.usable_at(1069));
    assert!(!token.usable_at(1070));
    assert!(!token.usable_at(1080));
    assert!(!token.usable_at(1100));
    assert!(!token.usable_at(u64::MAX));
    let short = AccessToken::new(grant(30), 1000);
    assert!(!short.usable_at(1000));
    let late = AccessToken::new(grant(u64::MAX), u64::MAX);
    assert!(late.usable_at(u64::MAX));
}

#[test]
fn empty_store_tells_the_first_caller_to_refresh() {
    let mut store = TokenStore::new();
    assert_eq!(store.token(), None);
    assert!(!store.is_refreshing());
    assert_eq!(store.ensure_token(0), TokenDecision::Refresh);
    assert!(store.is_refreshing());
}

#[test]
fn concurrent_callers_share_one_refresh() {
    let mut store = TokenStore::new();
    store.replace(AccessToken::new(grant(100), 0));
    let mut refreshes = 0;
    let mut waits = 0;
    for caller in 0..25u64 {
        match store.ensure_token(100 + caller) {
            TokenDecision::Refresh => refreshes += 1,
            TokenDecision::Wait => waits += 1,
            TokenDecision::Ready => panic!("the stale token was handed out"),
        }
    }
    assert_eq!(refreshes, 1);
    assert_eq!(waits, 24);
    let fresh = AccessToken::new(grant(3600), 130);
    store.complete(fresh.clone());
    assert!(!store.is_refreshing());
    for caller in 0..25u64 {
        assert_eq!(store.ensure_token(130 + caller), TokenDecision::Ready);
    }
    assert_eq!(store.token(), Some(&fresh));
    assert!(!store.is_refreshing());
}

#[test]
fn abandoned_refresh_lets_the_next_caller_try() {
    let mut store = TokenStore::new();
    let stale = AccessToken::new(grant(10), 0);
    store.replace(stale.clone());
    assert_eq!(store.ensure_token(50), TokenDecision::Refresh);
    assert_eq!(store.ensure_token(50), TokenDecision::Wait);
    store.abandon();
    assert_eq!(store.token(), Some(&stale));
    assert_eq!(store.ensure_token(51), TokenDecision::Refresh);
}

#[test]
fn forced_refresh_ignores_a_usable_token() {
    let mut store = TokenStore::new();
    store.replace(AccessToken::new(grant(3600), 0));
    assert_eq!(store.ensure_token(10), TokenDecision::Ready);
    assert_eq!(store.force_refresh(), TokenDecision::Refresh);
    assert_eq!(store.force_refresh(), TokenDecision::Wait);
    assert_eq!(store.ensure_token(10), TokenDecision::Ready);
}

#[test]
fn invalidate_discards_the_token() {
    let mut store = TokenStore::new();
    store.replace(AccessToken::new(grant(3600), 0));
    store.invalidate();
    assert_eq!(store.token(), None);
    assert_eq!(store.ensure_token(1), TokenDecision::Refresh);
}

#[test]
fn granted_token_needs_no_second_request_before_the_margin() {
    let mut c = client();
    assert_eq!(c.ensure_token(1000), TokenDecision::Refresh);
    let body = r#"{"access_token": "a1", "token_type": "bearer",
        "expires_in": 3600, "scope": "all", "jti": "id-1"}"#;
    c.generate_token(200, body, 1000).unwrap();
    let token = c.token().unwrap();
    assert_eq!(token.grant().access_token, "a1");
    assert_eq!(token.grant().token_type, "bearer");
    assert_eq!(token.grant().expires_in, 3600);
    assert_eq!(token.grant().scope, "all");
    assert_eq!(token.grant().jti, "id-1");
    assert_eq!(token.issued_at(), 1000);
    assert_eq!(token.expires_at(), 4600);
    assert_eq!(c.ensure_token(1000), TokenDecision::Ready);
    assert_eq!(c.ensure_token(4569), TokenDecision::Ready);
    assert_eq!(c.ensure_token(4570), TokenDecision::Refresh);
    assert_eq!(c.ensure_token(4571), TokenDecision::Wait);
}

#[test]
fn client_token_operations() {
    let mut c = client();
    c.set_token(AccessToken::new(grant(3600), 0));
    assert_eq!(c.force_refresh(), TokenDecision::Refresh);
    assert_eq!(c.ensure_token(5000), TokenDecision::Wait);
    c.abandon_refresh();
    assert_eq!(c.ensure_token(10), TokenDecision::Ready);
    c.invalidate_token();
    assert_eq!(c.token(), None);
    assert_eq!(c.ensure_token(10), TokenDecision::Refresh);
}
