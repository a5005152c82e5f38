use tl_scraper::token::{
    AccessStep, AuthError, ClientCreds, FetchAccessTokenResponse, GrantType, RefreshResponse, SecretText,
    SessionStep, Token, TokenCache, TokenRequest, MIN_INSTANT,
};

const JAN_1_0000: i64 = 1704067200;
const JAN_1_0100: i64 = 1704070800;
const JAN_1_0200: i64 = 1704074400;
const JAN_31_0000: i64 = 1706659200;

fn secret(s: &str) -> SecretText {
    SecretText::new(s.to_string())
}

fn first_grant() -> Token {
    let response = FetchAccessTokenResponse {
        access: secret("a1"),
        expires_in: 3600,
        refresh: secret("r1"),
        refresh_expires_in: 2592000,
    };
    Token::from_response(response, JAN_1_0000, "http://127.0.0.1:3000/start-redirect".to_string())
        .expect("token")
}

#[test]
fn authenticate_sets_both_expiries_from_now() {
    let token = first_grant();
    assert_eq!(token.access.expose(), "a1");
    assert_eq!(token.refresh.expose(), "r1");
    assert_eq!(token.access_expires_at, JAN_1_0100);
    assert_eq!(token.refresh_expires_at, JAN_31_0000);
    assert_eq!(token.authed_at, Some(JAN_1_0000));
    assert_eq!(token.redirect_uri, "http://127.0.0.1:3000/start-redirect");
}

#[test]
fn expired_access_token_is_refreshed_keeping_the_refresh_token() {
    let mut cache = TokenCache::new();
    assert!(cache.cached_access(JAN_1_0200).is_none());
    let stale = match cache.on_loaded(Some(first_grant()), JAN_1_0200) {
        Ok(AccessStep::Refresh(t)) => t,
        _ => panic!("expected a refresh"),
    };
    let fresh = cache
        .on_refreshed(&stale, RefreshResponse { access: secret("a2"), expires_in: 3600 }, JAN_1_0200)
        .expect("refreshed");
    assert_eq!(fresh.access.expose(), "a2");
    assert_eq!(fresh.refresh.expose(), "r1");
    assert_eq!(fresh.refresh_expires_at, JAN_31_0000);
    assert_eq!(fresh.access_expires_at, JAN_1_0200 + 3600);
    assert_eq!(fresh.redirect_uri, stale.redirect_uri);
}

#[test]
fn after_a_refresh_waiting_callers_use_the_cache() {
    let mut cache = TokenCache::new();
    let stale = first_grant();
    cache
        .on_refreshed(&stale, RefreshResponse { access: secret("a2"), expires_in: 3600 }, JAN_1_0200)
        .expect("refreshed");
    let served = cache.cached_access(JAN_1_0200 + 10).expect("cached");
    assert_eq!(served.expose(), "a2");
    assert!(cache.cached_access(JAN_1_0200 + 3600).is_none());
}

#[test]
fn authenticate_refresh_and_reload_round_trip() {
    let first = first_grant();
    let second = first
        .refreshed(RefreshResponse { access: secret("a2"), expires_in: 3600 }, JAN_1_0200)
        .expect("refreshed");
    let third = second
        .refreshed(RefreshResponse { access: secret("a3"), expires_in: 60 }, JAN_1_0200 + 4000)
        .expect("refreshed");
    let reloaded = third.duplicate();
    assert_eq!(reloaded.refresh.expose(), "r1");
    assert_eq!(reloaded.access.expose(), "a3");
    assert_eq!(reloaded.refresh_expires_at, JAN_31_0000);
}

#[test]
fn valid_stored_token_is_served_and_cached() {
    let mut cache = TokenCache::new();
    match cache.on_loaded(Some(first_grant()), JAN_1_0000 + 5) {
        Ok(AccessStep::Ready(s)) => assert_eq!(s.expose(), "a1"),
        _ => panic!("expected the stored token"),
    }
    assert_eq!(cache.cached_access(JAN_1_0000 + 6).expect("cached").expose(), "a1");
}

#[test]
fn missing_token_file_requires_reauthentication() {
    let mut cache = TokenCache::new();
    assert!(matches!(cache.on_loaded(None, JAN_1_0000), Err(AuthError::ReauthRequired)));
}

#[test]
fn expired_refresh_token_requires_reauthentication() {
    let mut cache = TokenCache::new();
    assert!(matches!(cache.on_loaded(Some(first_grant()), JAN_31_0000), Err(AuthError::ReauthRequired)));
    assert!(cache.cached.is_none());
}

#[test]
fn expiry_outside_storable_instants_is_refused() {
    let response = FetchAccessTokenResponse {
        access: secret("a"),
        expires_in: i64::MAX,
        refresh: secret("r"),
        refresh_expires_in: 10,
    };
    assert!(matches!(Token::from_response(response, JAN_1_0000, String::new()), Err(AuthError::InvalidExpiry)));
    let refused = first_grant()
        .refreshed(RefreshResponse { access: secret("a"), expires_in: MIN_INSTANT - JAN_1_0200 - 1 }, JAN_1_0200);
    assert!(matches!(refused, Err(AuthError::InvalidExpiry)));
    let before_1970 = first_grant()
        .refreshed(RefreshResponse { access: secret("old"), expires_in: -JAN_1_0200 - 10 }, JAN_1_0200)
        .expect("an instant before 1970 is storable");
    assert_eq!(before_1970.access_expires_at, -10);
}

#[test]
fn access_expiry_is_capped_at_refresh_expiry() {
    let token = first_grant()
        .refreshed(RefreshResponse { access: secret("late"), expires_in: 86400 }, JAN_31_0000 - 100)
        .expect("refreshed");
    assert_eq!(token.access_expires_at, JAN_31_0000);
    assert!(token.is_wf());
}

#[test]
fn session_steps() {
    assert!(matches!(tl_scraper::token::session_step(None, JAN_1_0000), SessionStep::Renew));
    assert!(matches!(tl_scraper::token::session_step(Some(first_grant()), JAN_1_0000), SessionStep::Reuse(_)));
    assert!(matches!(tl_scraper::token::session_step(Some(first_grant()), JAN_1_0200), SessionStep::Refresh(_)));
    assert!(matches!(tl_scraper::token::session_step(Some(first_grant()), JAN_31_0000), SessionStep::Renew));
}

#[test]
fn token_requests() {
    let creds = ClientCreds { id: "client".to_string(), secret: secret("shh") };
    let exchange = TokenRequest::authorization_code(&creds, secret("AC"), "http://localhost/start-redirect");
    assert_eq!(exchange.grant_type.as_str(), "authorization_code");
    assert_eq!(exchange.client_id, "client");
    assert_eq!(exchange.client_secret.expose(), "shh");
    assert_eq!(exchange.code.as_ref().map(|c| c.expose().to_string()), Some("AC".to_string()));
    assert!(exchange.refresh_token.is_none());
    let refresh = TokenRequest::refresh(&creds, &first_grant());
    assert_eq!(refresh.grant_type, GrantType::RefreshToken);
    assert_eq!(refresh.grant_type.as_str(), "refresh_token");
    assert_eq!(refresh.refresh_token.as_ref().map(|c| c.expose().to_string()), Some("r1".to_string()));
    assert_eq!(refresh.redirect_uri, "http://127.0.0.1:3000/start-redirect");
    assert!(refresh.code.is_none());
}

#[test]
fn authenticate_caches_the_granted_token() {
    let mut cache = TokenCache::new();
    cache.on_granted(first_grant());
    let served = cache.cached_access(JAN_1_0000 + 1).expect("cached");
    assert_eq!(served.expose(), "a1");
    let cached = cache.cached.as_ref().expect("token");
    assert_eq!(cached.refresh.expose(), "r1");
    assert_eq!(cached.access_expires_at, JAN_1_0100);
    assert_eq!(cached.refresh_expires_at, JAN_31_0000);
    assert_eq!(cached.authed_at, Some(JAN_1_0000));
}
