use apple_music_tui::auth::SecretToken;
use apple_music_tui::config::AppleConfig;
use apple_music_tui::developer_token::{DeveloperTokenClaims, DeveloperTokenService};

fn fixture_config() -> AppleConfig {
    AppleConfig {
        team_id: "ABCDEFGHIJ".to_owned(),
        key_id: "12345ABCDE".to_owned(),
        private_key: "tests/fixtures/test_auth_private_key.pem".to_owned(),
        storefront: Some("de".to_owned()),
    }
}

/// Stands in for ES256 signing: a token that differs for every issue time and origin.
fn sign(claims: &DeveloperTokenClaims) -> SecretToken {
    SecretToken::new(format!(
        "{}.{}.{}.{}",
        claims.iss,
        claims.iat,
        claims.exp,
        claims.origin.clone().unwrap_or_default()
    ))
}

fn token_at(service: &mut DeveloperTokenService, origin: Option<&str>, now: u64) -> SecretToken {
    if let Some(token) = service.cached(origin, now) {
        return token;
    }
    let claims = service.claims_at(origin, now);
    let token = sign(&claims);
    service.remember(origin, claims.exp, SecretToken::new(token.expose().to_owned()));
    token
}

#[test]
fn caches_until_the_refresh_safety_margin() {
    let mut service = DeveloperTokenService::new(fixture_config());
    let first = token_at(&mut service, None, 1_800_000_000);
    let cached = token_at(&mut service, None, 1_802_591_699);
    let refreshed = token_at(&mut service, None, 1_802_591_700);

    assert_eq!(first.expose(), cached.expose());
    assert_ne!(first.expose(), refreshed.expose());
}

#[test]
fn claims_name_the_team_issue_time_expiry_and_origin() {
    let service = DeveloperTokenService::new(fixture_config());
    let claims = service.claims_at(Some("http://127.0.0.1:4321"), 1_800_000_000);
    assert_eq!(claims.iss, "ABCDEFGHIJ");
    assert_eq!(claims.iat, 1_800_000_000);
    assert_eq!(claims.exp, 1_802_592_000);
    assert_eq!(claims.origin.as_deref(), Some("http://127.0.0.1:4321"));
}

#[test]
fn tokens_are_cached_per_origin_and_replaced_per_origin() {
    let mut service = DeveloperTokenService::new(fixture_config());
    let plain = token_at(&mut service, None, 1_800_000_000);
    let web = token_at(&mut service, Some("http://127.0.0.1:1"), 1_800_000_000);
    assert_ne!(plain.expose(), web.expose());
    assert_eq!(service.cache.len(), 2);
    let again = token_at(&mut service, Some("http://127.0.0.1:1"), 1_802_600_000);
    assert_ne!(again.expose(), web.expose());
    assert_eq!(service.cache.len(), 2);
    assert!(service.cached(None, 1_800_000_001).is_some());
    assert!(service.cached(Some("http://127.0.0.1:2"), 1_800_000_001).is_none());
}
